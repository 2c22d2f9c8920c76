use vstd::prelude::*;
use vstd::string::StringExecFns;
use crate::artifact::{Artifact, ArtifactKind, CodegenError};
use crate::endpoints::{api_ready, api_source, api_source_spec, EndpointInputs};
use crate::ir::{AppIr, Entity};
use crate::models::{entity_source, entity_source_spec};
use crate::naming::{module_name, snake_text};
use crate::source::{embedded_crate_source, embedded_text, text_file, text_files};

verus! {

/// The message of a generation step that failed for one entity.
pub open spec fn failed_text(what: Seq<char>, module: Seq<char>, error: Seq<char>) -> Seq<char> {
    what + " `"@ + module + "` failed: "@ + error
}

fn failed(what: &str, module: &str, error: CodegenError) -> (result: CodegenError)
    ensures
        result@ == failed_text(what@, module@, error@),
{
    let mut message = String::from_str(what);
    message.append(" `");
    message.append(module);
    message.append("` failed: ");
    let text = error.to_string();
    message.append(text.as_str());
    CodegenError::new(message)
}

/// The database model and the endpoint module of one entity, or the first
/// error, named after the entity's module.
pub open spec fn plan_entity_spec(ir: AppIr, entity: Entity, inputs: EndpointInputs, header: Seq<char>) -> Result<Seq<(Seq<char>, Seq<char>, ArtifactKind)>, Seq<char>> {
    let module = snake_text(entity.rust_name@);
    match entity_source_spec(ir, entity, inputs.scalars@, header) {
        Err(error) => Err(failed_text("entity"@, module, error)),
        Ok(model) => match api_source_spec(ir, entity, inputs, header) {
            Err(error) => Err(failed_text("API"@, module, error)),
            Ok(api) => Ok(seq![
                ("backend/src/entities/"@ + module + ".rs"@, model, ArtifactKind::RustSource),
                ("backend/src/api/"@ + module + ".rs"@, api, ArtifactKind::RustSource),
            ]),
        },
    }
}

fn joined(first: &str, second: &str, third: &str) -> (text: String)
    ensures
        text@ == first@ + second@ + third@,
{
    let mut text = String::from_str(first);
    text.append(second);
    text.append(third);
    text
}

/// The two files of one entity: its database model and its endpoint module.
pub fn plan_entity(ir: &AppIr, entity: &Entity, inputs: &EndpointInputs, header: &str) -> (result: Result<Vec<Artifact>, CodegenError>)
    requires
        api_ready(*ir, *entity, *inputs),
    ensures
        match result {
            Ok(artifacts) => plan_entity_spec(*ir, *entity, *inputs, header@) matches Ok(files) && text_files(artifacts@, files),
            Err(error) => plan_entity_spec(*ir, *entity, *inputs, header@) == Err::<Seq<(Seq<char>, Seq<char>, ArtifactKind)>, Seq<char>>(error@),
        },
{
    let module = module_name(entity);
    proof {
        reveal_strlit("entity");
        reveal_strlit("API");
    }
    let model = match entity_source(ir, entity, &inputs.scalars, header) {
        Ok(model) => model,
        Err(error) => {
            return Err(failed("entity", module.as_str(), error));
        },
    };
    let api = match api_source(ir, entity, inputs, header) {
        Ok(api) => api,
        Err(error) => {
            return Err(failed("API", module.as_str(), error));
        },
    };
    let model_path = joined("backend/src/entities/", module.as_str(), ".rs");
    let api_path = joined("backend/src/api/", module.as_str(), ".rs");
    let ghost files = seq![
        (model_path@, model@, ArtifactKind::RustSource),
        (api_path@, api@, ArtifactKind::RustSource),
    ];
    let mut artifacts: Vec<Artifact> = Vec::new();
    artifacts.push(Artifact::text(model_path.as_str(), model, ArtifactKind::RustSource));
    artifacts.push(Artifact::text(api_path.as_str(), api, ArtifactKind::RustSource));
    proof {
        assert(text_file(artifacts@[0], files[0]));
        assert(text_file(artifacts@[1], files[1]));
    }
    Ok(artifacts)
}

/// The files of the entities, entity by entity in order, or the first error.
pub open spec fn entity_artifacts_spec(ir: AppIr, entities: Seq<Entity>, inputs: Seq<EndpointInputs>, header: Seq<char>) -> Result<Seq<(Seq<char>, Seq<char>, ArtifactKind)>, Seq<char>>
    decreases entities.len(),
{
    if entities.len() == 0 {
        Ok(Seq::empty())
    } else {
        match entity_artifacts_spec(ir, entities.drop_last(), inputs, header) {
            Err(error) => Err(error),
            Ok(files) => match plan_entity_spec(ir, entities.last(), inputs[entities.len() - 1], header) {
                Err(error) => Err(error),
                Ok(more) => Ok(files + more),
            },
        }
    }
}

proof fn lemma_entity_artifacts_error(ir: AppIr, entities: Seq<Entity>, inputs: Seq<EndpointInputs>, header: Seq<char>, k: int)
    requires
        0 <= k <= entities.len(),
        entity_artifacts_spec(ir, entities.subrange(0, k), inputs, header) is Err,
    ensures
        entity_artifacts_spec(ir, entities, inputs, header) == entity_artifacts_spec(ir, entities.subrange(0, k), inputs, header),
    decreases entities.len() - k,
{
    if k < entities.len() {
        assert(entities.subrange(0, k + 1).drop_last() == entities.subrange(0, k));
        lemma_entity_artifacts_error(ir, entities, inputs, header, k + 1);
    } else {
        assert(entities.subrange(0, k) == entities);
    }
}

/// The files of the entities from `start` up to `end`, each with its own
/// inputs, in order, or the first error.
pub fn entity_run_artifacts(ir: &AppIr, inputs: &Vec<EndpointInputs>, start: usize, end: usize, header: &str) -> (result: Result<Vec<Artifact>, CodegenError>)
    requires
        start <= end <= ir.entities.len(),
        inputs.len() == ir.entities.len(),
        forall|i: int| 0 <= i < inputs.len() ==> api_ready(*ir, ir.entities@[i], #[trigger] inputs@[i]),
    ensures
        match result {
            Ok(artifacts) => entity_artifacts_spec(*ir, ir.entities@.subrange(start as int, end as int), inputs@.subrange(start as int, end as int), header@) matches Ok(files)
                && text_files(artifacts@, files),
            Err(error) => entity_artifacts_spec(*ir, ir.entities@.subrange(start as int, end as int), inputs@.subrange(start as int, end as int), header@)
                == Err::<Seq<(Seq<char>, Seq<char>, ArtifactKind)>, Seq<char>>(error@),
        },
{
    let ghost run = ir.entities@.subrange(start as int, end as int);
    let ghost run_inputs = inputs@.subrange(start as int, end as int);
    let mut artifacts: Vec<Artifact> = Vec::new();
    let ghost mut files: Seq<(Seq<char>, Seq<char>, ArtifactKind)> = Seq::empty();
    let mut i: usize = start;
    proof {
        assert(run.subrange(0, 0) == Seq::<Entity>::empty());
    }
    while i < end
        invariant
            start <= i <= end <= ir.entities.len(),
            inputs.len() == ir.entities.len(),
            run == ir.entities@.subrange(start as int, end as int),
            run_inputs == inputs@.subrange(start as int, end as int),
            forall|j: int| 0 <= j < inputs.len() ==> api_ready(*ir, ir.entities@[j], #[trigger] inputs@[j]),
            entity_artifacts_spec(*ir, run.subrange(0, i - start), run_inputs, header@)
                == Ok::<Seq<(Seq<char>, Seq<char>, ArtifactKind)>, Seq<char>>(files),
            text_files(artifacts@, files),
        decreases end - i,
    {
        let ghost k = i - start;
        proof {
            assert(run.subrange(0, k + 1).drop_last() == run.subrange(0, k));
            assert(run.subrange(0, k + 1).last() == ir.entities@[i as int]);
            assert(run_inputs[k] == inputs@[i as int]);
            assert(api_ready(*ir, ir.entities@[i as int], inputs@[i as int]));
        }
        match plan_entity(ir, &ir.entities[i], &inputs[i], header) {
            Ok(mut planned) => {
                let ghost more = plan_entity_spec(*ir, ir.entities@[i as int], inputs@[i as int], header@)->Ok_0;
                let ghost before = artifacts@;
                let ghost added = planned@;
                artifacts.append(&mut planned);
                proof {
                    assert(artifacts@ == before + added);
                    assert forall|j: int| 0 <= j < (files + more).len() implies text_file(#[trigger] artifacts@[j], (files + more)[j]) by {
                        if j < files.len() {
                            assert(artifacts@[j] == before[j]);
                        } else {
                            assert(artifacts@[j] == added[j - files.len()]);
                        }
                    }
                    files = files + more;
                }
            },
            Err(error) => {
                proof {
                    lemma_entity_artifacts_error(*ir, run, run_inputs, header@, k + 1);
                }
                return Err(error);
            },
        }
        i = i + 1;
    }
    proof {
        assert(run.subrange(0, end - start) == run);
    }
    Ok(artifacts)
}

/// The files of every entity of the application; `inputs` holds, entity by
/// entity, what each one's endpoints take from outside this library.
pub fn entity_artifacts(ir: &AppIr, inputs: &Vec<EndpointInputs>, header: &str) -> (result: Result<Vec<Artifact>, CodegenError>)
    requires
        inputs.len() == ir.entities.len(),
        forall|i: int| 0 <= i < inputs.len() ==> api_ready(*ir, ir.entities@[i], #[trigger] inputs@[i]),
    ensures
        match result {
            Ok(artifacts) => entity_artifacts_spec(*ir, ir.entities@, inputs@, header@) matches Ok(files) && text_files(artifacts@, files),
            Err(error) => entity_artifacts_spec(*ir, ir.entities@, inputs@, header@)
                == Err::<Seq<(Seq<char>, Seq<char>, ArtifactKind)>, Seq<char>>(error@),
        },
{
    proof {
        assert(ir.entities@.subrange(0, ir.entities@.len() as int) == ir.entities@);
        assert(inputs@.subrange(0, inputs@.len() as int) == inputs@);
    }
    entity_run_artifacts(ir, inputs, 0, ir.entities.len(), header)
}

/// The sources of the runtime crate that the backend embeds: its root and
/// its lifecycle, origin, query, resource and supervisor modules.
pub struct RuntimeSources {
    pub lib: String,
    pub lifecycle: String,
    pub origin: String,
    pub query: String,
    pub resource: String,
    pub supervisor: String,
}

/// The embedded runtime crate: its root with its inner doc comments demoted,
/// and each module behind the header.
pub open spec fn runtime_files(sources: RuntimeSources, header: Seq<char>) -> Seq<(Seq<char>, Seq<char>, ArtifactKind)> {
    seq![
        ("backend/runtime/src/lib.rs"@, embedded_text(sources.lib@, header), ArtifactKind::RustSource),
        ("backend/runtime/src/lifecycle.rs"@, header + sources.lifecycle@, ArtifactKind::RustSource),
        ("backend/runtime/src/origin.rs"@, header + sources.origin@, ArtifactKind::RustSource),
        ("backend/runtime/src/query.rs"@, header + sources.query@, ArtifactKind::RustSource),
        ("backend/runtime/src/resource.rs"@, header + sources.resource@, ArtifactKind::RustSource),
        ("backend/runtime/src/supervisor.rs"@, header + sources.supervisor@, ArtifactKind::RustSource),
    ]
}

fn headed(header: &str, source: &str) -> (text: String)
    ensures
        text@ == header@ + source@,
{
    let mut text = String::from_str(header);
    text.append(source);
    text
}

/// The files of the embedded runtime crate.
pub fn embedded_runtime_artifacts(sources: &RuntimeSources, header: &str) -> (artifacts: Vec<Artifact>)
    ensures
        text_files(artifacts@, runtime_files(*sources, header@)),
{
    proof {
        reveal_strlit("backend/runtime/src/lib.rs");
        reveal_strlit("backend/runtime/src/lifecycle.rs");
        reveal_strlit("backend/runtime/src/origin.rs");
        reveal_strlit("backend/runtime/src/query.rs");
        reveal_strlit("backend/runtime/src/resource.rs");
        reveal_strlit("backend/runtime/src/supervisor.rs");
    }
    let ghost files = runtime_files(*sources, header@);
    let mut artifacts: Vec<Artifact> = Vec::new();
    artifacts.push(Artifact::text(
        "backend/runtime/src/lib.rs",
        embedded_crate_source(sources.lib.as_str(), header),
        ArtifactKind::RustSource,
    ));
    artifacts.push(Artifact::text(
        "backend/runtime/src/lifecycle.rs",
        headed(header, sources.lifecycle.as_str()),
        ArtifactKind::RustSource,
    ));
    artifacts.push(Artifact::text(
        "backend/runtime/src/origin.rs",
        headed(header, sources.origin.as_str()),
        ArtifactKind::RustSource,
    ));
    artifacts.push(Artifact::text(
        "backend/runtime/src/query.rs",
        headed(header, sources.query.as_str()),
        ArtifactKind::RustSource,
    ));
    artifacts.push(Artifact::text(
        "backend/runtime/src/resource.rs",
        headed(header, sources.resource.as_str()),
        ArtifactKind::RustSource,
    ));
    artifacts.push(Artifact::text(
        "backend/runtime/src/supervisor.rs",
        headed(header, sources.supervisor.as_str()),
        ArtifactKind::RustSource,
    ));
    proof {
        assert forall|i: int| 0 <= i < files.len() implies text_file(#[trigger] artifacts@[i], files[i]) by {
            if i == 0 {
            } else if i == 1 {
            } else if i == 2 {
            } else if i == 3 {
            } else if i == 4 {
            } else {
            }
        }
    }
    artifacts
}

} // verus!
