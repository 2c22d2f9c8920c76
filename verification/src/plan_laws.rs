use vstd::prelude::*;
use crate::artifact::{Artifact, ArtifactKind, CodegenError};
use crate::audit::{audit_path, audit_plan_spec};
use crate::auth::auth_config_spec;
use crate::backend::{
    AuthTemplates, auth_plan_spec, auth_template_files, backend_plan_spec, backend_planned, fixed_files, given_files,
    BackendInputs,
};
use crate::endpoints::EndpointInputs;
use crate::extensions::extensions_spec;
use crate::file::{file_path, file_plan_spec};
use crate::ir::{AppIr, Entity};
use crate::jobs::{jobs_path, jobs_plan_spec};
use crate::mail::{mail_path, mail_plan_spec};
use crate::operations::operations_spec;
use crate::plan::{entity_artifacts_spec, plan_entity_spec, runtime_files, RuntimeSources};
use crate::realtime::{realtime_path, realtime_plan_spec};
use crate::runtime::library_spec;
use crate::source::{relative_files, relative_path, text_file};

verus! {

proof fn lemma_relative_add(a: Seq<(Seq<char>, Seq<char>, ArtifactKind)>, b: Seq<(Seq<char>, Seq<char>, ArtifactKind)>)
    requires
        relative_files(a),
        relative_files(b),
    ensures
        relative_files(a + b),
{
    assert forall|i: int| 0 <= i < (a + b).len() implies relative_path(#[trigger] (a + b)[i].0) by {
        if i < a.len() {
            assert((a + b)[i] == a[i]);
        } else {
            assert((a + b)[i] == b[i - a.len()]);
        }
    }
}

proof fn lemma_runtime_relative(sources: RuntimeSources, header: Seq<char>)
    ensures
        relative_files(runtime_files(sources, header)),
{
    reveal_strlit("backend/runtime/src/lib.rs");
    reveal_strlit("backend/runtime/src/lifecycle.rs");
    reveal_strlit("backend/runtime/src/origin.rs");
    reveal_strlit("backend/runtime/src/query.rs");
    reveal_strlit("backend/runtime/src/resource.rs");
    reveal_strlit("backend/runtime/src/supervisor.rs");
}

proof fn lemma_fixed_relative(ir: AppIr, header: Seq<char>, inputs: BackendInputs)
    ensures
        relative_files(fixed_files(ir, header, inputs)),
{
    reveal_strlit("backend/Cargo.toml");
    reveal_strlit("backend/runtime/Cargo.toml");
    reveal_strlit("backend/contracts/Cargo.toml");
    reveal_strlit("backend/contracts/src/lib.rs");
    reveal_strlit("server/Cargo.toml");
    reveal_strlit("server/src/main.rs");
    reveal_strlit("backend/src/main.rs");
    reveal_strlit("backend/src/error.rs");
    reveal_strlit("backend/src/entities/mod.rs");
    reveal_strlit("backend/src/api/mod.rs");
    lemma_runtime_relative(inputs.runtime, header);
    let head = fixed_files(ir, header, inputs).subrange(0, 4);
    let runtime = runtime_files(inputs.runtime, header);
    let tail = fixed_files(ir, header, inputs).subrange(4 + runtime.len() as int, fixed_files(ir, header, inputs).len() as int);
    assert(relative_files(head));
    assert(relative_files(tail));
    lemma_relative_add(head, runtime);
    lemma_relative_add(head + runtime, tail);
    assert(head + runtime + tail == fixed_files(ir, header, inputs));
}

proof fn lemma_auth_relative(ir: AppIr, header: Seq<char>, templates: AuthTemplates)
    ensures
        auth_plan_spec(ir, header, templates) matches Ok(files) ==> relative_files(files),
{
    reveal_strlit("backend/src/auth.rs");
    reveal_strlit("backend/src/auth/config.rs");
    reveal_strlit("backend/src/auth/mod.rs");
    reveal_strlit("backend/src/auth/admin.rs");
    reveal_strlit("backend/src/auth/admin_schedules.rs");
    reveal_strlit("backend/src/auth/admin_storage.rs");
    reveal_strlit("backend/src/auth/session.rs");
    reveal_strlit("backend/src/auth/handlers.rs");
    reveal_strlit("backend/src/auth/admin_webhooks.rs");
    reveal_strlit("backend/src/auth/mail.rs");
    reveal_strlit("backend/src/auth/oauth.rs");
    reveal_strlit("backend/src/auth/recovery.rs");
    reveal_strlit("backend/src/auth/saved_views.rs");
    let templates_files = auth_template_files(header, templates, ir.auth.oauth_enabled);
    assert(relative_files(templates_files));
    if ir.auth.enabled {
        if let Ok(config) = auth_config_spec(ir, header) {
            let first = seq![("backend/src/auth/config.rs"@, config, ArtifactKind::RustSource)];
            assert(relative_files(first));
            lemma_relative_add(first, templates_files);
        }
    }
}

proof fn lemma_entity_relative(ir: AppIr, entity: Entity, inputs: EndpointInputs, header: Seq<char>)
    ensures
        plan_entity_spec(ir, entity, inputs, header) matches Ok(files) ==> relative_files(files),
{
    reveal_strlit("backend/src/entities/");
    reveal_strlit("backend/src/api/");
}

proof fn lemma_entities_relative(ir: AppIr, entities: Seq<Entity>, inputs: Seq<EndpointInputs>, header: Seq<char>)
    ensures
        entity_artifacts_spec(ir, entities, inputs, header) matches Ok(files) ==> relative_files(files),
    decreases entities.len(),
{
    if entities.len() > 0 {
        lemma_entities_relative(ir, entities.drop_last(), inputs, header);
        lemma_entity_relative(ir, entities.last(), inputs[entities.len() - 1], header);
        if let Ok(files) = entity_artifacts_spec(ir, entities.drop_last(), inputs, header) {
            if let Ok(more) = plan_entity_spec(ir, entities.last(), inputs[entities.len() - 1], header) {
                lemma_relative_add(files, more);
            }
        }
    }
}

/// Law: every path the backend plan lists is relative, wherever the tenant and
/// webhook files it is given have relative paths.
pub proof fn law_backend_paths_relative(ir: AppIr, header: Seq<char>, inputs: BackendInputs)
    requires
        relative_files(given_files(inputs.tenant_files@)),
        relative_files(given_files(inputs.webhook_files@)),
    ensures
        backend_plan_spec(ir, header, inputs) matches Ok(files) ==> relative_files(files),
{
    reveal(backend_plan_spec);
    if let Ok(files) = backend_plan_spec(ir, header, inputs) {
        reveal_strlit("backend/src/lib.rs");
        reveal_strlit("backend/src/openapi.rs");
        reveal_strlit("backend/src/extensions.rs");
        reveal_strlit("backend/src/operations.rs");
        reveal_strlit("backend/src/audit.rs");
        reveal_strlit("backend/src/file.rs");
        reveal_strlit("backend/src/jobs.rs");
        reveal_strlit("backend/src/mail.rs");
        reveal_strlit("backend/src/realtime.rs");
        lemma_fixed_relative(ir, header, inputs);
        lemma_auth_relative(ir, header, inputs.auth_templates);
        lemma_entities_relative(ir, ir.entities@, inputs.entities@, header);
        let fixed = fixed_files(ir, header, inputs);
        let auth = auth_plan_spec(ir, header, inputs.auth_templates)->Ok_0;
        let entities = entity_artifacts_spec(ir, ir.entities@, inputs.entities@, header)->Ok_0;
        let modules = seq![
            ("backend/src/lib.rs"@, library_spec(ir, header, inputs.startup@, inputs.runtime_api_version)->Ok_0, ArtifactKind::RustSource),
            ("backend/src/openapi.rs"@, inputs.openapi@, ArtifactKind::RustSource),
            ("backend/src/extensions.rs"@, extensions_spec(ir, header)->Ok_0, ArtifactKind::RustSource),
            ("backend/src/operations.rs"@, operations_spec(ir, header)->Ok_0, ArtifactKind::RustSource),
            (audit_path(), audit_plan_spec(ir, header)->Ok_0, ArtifactKind::RustSource),
        ];
        let features = seq![
            (file_path(), file_plan_spec(ir, header)->Ok_0, ArtifactKind::RustSource),
            (jobs_path(), jobs_plan_spec(ir, header)->Ok_0, ArtifactKind::RustSource),
            (mail_path(), mail_plan_spec(ir, header)->Ok_0, ArtifactKind::RustSource),
            (realtime_path(), realtime_plan_spec(ir, header)->Ok_0, ArtifactKind::RustSource),
        ];
        let tenant = given_files(inputs.tenant_files@);
        let webhooks = given_files(inputs.webhook_files@);
        assert(files == fixed + modules + auth + features + tenant + webhooks + entities);
        assert(relative_files(modules));
        assert(relative_files(features));
        lemma_relative_add(fixed, modules);
        lemma_relative_add(fixed + modules, auth);
        lemma_relative_add(fixed + modules + auth, features);
        lemma_relative_add(fixed + modules + auth + features, tenant);
        lemma_relative_add(fixed + modules + auth + features + tenant, webhooks);
        lemma_relative_add(fixed + modules + auth + features + tenant + webhooks, entities);
    }
}

/// Two artifact lists agree in all that is written: paths, bytes, modes and
/// kinds, in order.
pub open spec fn same_artifacts(first: Seq<Artifact>, second: Seq<Artifact>) -> bool {
    &&& first.len() == second.len()
    &&& forall|i: int|
        0 <= i < first.len() ==> {
            &&& (#[trigger] first[i]).relative_path@ == second[i].relative_path@
            &&& first[i].content@ == second[i].content@
            &&& first[i].executable == second[i].executable
            &&& first[i].kind == second[i].kind
        }
}

/// Two plans came out alike: both planned the same artifacts, or both failed
/// with the same message.
pub open spec fn same_outcome(first: Result<Vec<Artifact>, CodegenError>, second: Result<Vec<Artifact>, CodegenError>) -> bool {
    match (first, second) {
        (Ok(a), Ok(b)) => same_artifacts(a@, b@),
        (Err(a), Err(b)) => a@ == b@,
        _ => false,
    }
}

/// Law: planning is repeatable. Two runs of the backend plan on the same
/// model and inputs come out alike, file for file, or fail alike.
pub proof fn law_backend_plan_repeatable(
    ir: AppIr,
    header: Seq<char>,
    inputs: BackendInputs,
    first: Result<Vec<Artifact>, CodegenError>,
    second: Result<Vec<Artifact>, CodegenError>,
)
    requires
        backend_planned(ir, header, inputs, first),
        backend_planned(ir, header, inputs, second),
    ensures
        same_outcome(first, second),
{
    if let (Ok(a), Ok(b)) = (first, second) {
        let files = backend_plan_spec(ir, header, inputs)->Ok_0;
        assert forall|i: int| 0 <= i < a@.len() implies {
            &&& (#[trigger] a@[i]).relative_path@ == b@[i].relative_path@
            &&& a@[i].content@ == b@[i].content@
            &&& a@[i].executable == b@[i].executable
            &&& a@[i].kind == b@[i].kind
        } by {
            assert(text_file(a@[i], files[i]));
            assert(text_file(b@[i], files[i]));
        }
    }
}

/// Two plans one after the other: the first error, else both lists of files
/// in order.
pub open spec fn join_plans(
    first: Result<Seq<(Seq<char>, Seq<char>, ArtifactKind)>, Seq<char>>,
    second: Result<Seq<(Seq<char>, Seq<char>, ArtifactKind)>, Seq<char>>,
) -> Result<Seq<(Seq<char>, Seq<char>, ArtifactKind)>, Seq<char>> {
    match first {
        Err(error) => Err(error),
        Ok(files) => match second {
            Err(error) => Err(error),
            Ok(more) => Ok(files + more),
        },
    }
}

/// The entities planned in runs of `size` (the last run may be shorter), each
/// run on its own, and the runs joined in order.
pub open spec fn chunked_plan(
    ir: AppIr,
    entities: Seq<Entity>,
    inputs: Seq<EndpointInputs>,
    header: Seq<char>,
    size: nat,
) -> Result<Seq<(Seq<char>, Seq<char>, ArtifactKind)>, Seq<char>>
    decreases entities.len(),
{
    if entities.len() == 0 || size == 0 {
        Ok(Seq::empty())
    } else if entities.len() <= size {
        entity_artifacts_spec(ir, entities, inputs, header)
    } else {
        join_plans(
            entity_artifacts_spec(ir, entities.subrange(0, size as int), inputs.subrange(0, size as int), header),
            chunked_plan(
                ir,
                entities.subrange(size as int, entities.len() as int),
                inputs.subrange(size as int, inputs.len() as int),
                header,
                size,
            ),
        )
    }
}

proof fn lemma_entity_plans_inputs(
    ir: AppIr,
    entities: Seq<Entity>,
    first: Seq<EndpointInputs>,
    second: Seq<EndpointInputs>,
    header: Seq<char>,
)
    requires
        forall|i: int| 0 <= i < entities.len() ==> first[i] == second[i],
    ensures
        entity_artifacts_spec(ir, entities, first, header) == entity_artifacts_spec(ir, entities, second, header),
    decreases entities.len(),
{
    if entities.len() > 0 {
        lemma_entity_plans_inputs(ir, entities.drop_last(), first, second, header);
        assert(first[entities.len() - 1] == second[entities.len() - 1]);
    }
}

proof fn lemma_entity_plans_split(ir: AppIr, entities: Seq<Entity>, inputs: Seq<EndpointInputs>, header: Seq<char>, k: int)
    requires
        0 <= k <= entities.len(),
        entities.len() <= inputs.len(),
    ensures
        entity_artifacts_spec(ir, entities, inputs, header) == join_plans(
            entity_artifacts_spec(ir, entities.subrange(0, k), inputs, header),
            entity_artifacts_spec(ir, entities.subrange(k, entities.len() as int), inputs.subrange(k, entities.len() as int), header),
        ),
    decreases entities.len(),
{
    let n = entities.len() as int;
    if n == k {
        assert(entities.subrange(0, k) == entities);
        assert(entities.subrange(k, n).len() == 0);
        if let Ok(files) = entity_artifacts_spec(ir, entities, inputs, header) {
            assert(files + Seq::<(Seq<char>, Seq<char>, ArtifactKind)>::empty() == files);
        }
    } else {
        let init = entities.drop_last();
        lemma_entity_plans_split(ir, init, inputs, header, k);
        assert(init.subrange(0, k) == entities.subrange(0, k));
        let tail = entities.subrange(k, n);
        let tail_inputs = inputs.subrange(k, n);
        assert(tail.drop_last() == init.subrange(k, n - 1));
        assert(tail.last() == entities.last());
        assert(tail_inputs[tail.len() - 1] == inputs[n - 1]);
        lemma_entity_plans_inputs(ir, tail.drop_last(), tail_inputs, inputs.subrange(k, n - 1), header);
        let head = entity_artifacts_spec(ir, entities.subrange(0, k), inputs, header);
        let middle = entity_artifacts_spec(ir, init.subrange(k, n - 1), inputs.subrange(k, n - 1), header);
        let last = plan_entity_spec(ir, entities.last(), inputs[n - 1], header);
        if let (Ok(p), Ok(g), Ok(m)) = (head, middle, last) {
            assert(p + g + m == p + (g + m));
        }
    }
}

/// Law: planning the entities in two runs, the first `k` and the rest, each
/// with its own inputs, and joining the runs gives what planning them all in
/// one run gives: the same files in the same order, or the first error.
pub proof fn law_entity_plans_split(ir: AppIr, entities: Seq<Entity>, inputs: Seq<EndpointInputs>, header: Seq<char>, k: int)
    requires
        0 <= k <= entities.len(),
        inputs.len() == entities.len(),
    ensures
        entity_artifacts_spec(ir, entities, inputs, header) == join_plans(
            entity_artifacts_spec(ir, entities.subrange(0, k), inputs.subrange(0, k), header),
            entity_artifacts_spec(ir, entities.subrange(k, entities.len() as int), inputs.subrange(k, inputs.len() as int), header),
        ),
{
    lemma_entity_plans_split(ir, entities, inputs, header, k);
    lemma_entity_plans_inputs(ir, entities.subrange(0, k), inputs, inputs.subrange(0, k), header);
}

/// Law: the files of the entities do not depend on how many workers plan
/// them. Planned in runs of any size, each run on its own and the runs joined
/// in order, they are the files of planning the entities one by one in order,
/// or the error of the first entity that fails.
pub proof fn law_entity_plans_chunked(ir: AppIr, entities: Seq<Entity>, inputs: Seq<EndpointInputs>, header: Seq<char>, size: nat)
    requires
        size >= 1,
        inputs.len() == entities.len(),
    ensures
        chunked_plan(ir, entities, inputs, header, size) == entity_artifacts_spec(ir, entities, inputs, header),
    decreases entities.len(),
{
    if entities.len() > size {
        let n = entities.len() as int;
        law_entity_plans_split(ir, entities, inputs, header, size as int);
        law_entity_plans_chunked(ir, entities.subrange(size as int, n), inputs.subrange(size as int, n), header, size);
    }
}

} // verus!
