use vstd::prelude::*;
use vstd::string::StringExecFns;
use crate::artifact::{Artifact, ArtifactKind, CodegenError};
use crate::audit::{audit_path, audit_plan, audit_plan_spec};
use crate::auth::{auth_config_source, auth_config_spec, auth_ready, disabled_auth_source, disabled_auth_text};
use crate::billing::join_text;
use crate::endpoints::{api_ready, EndpointInputs};
use crate::extensions::{extensions_source, extensions_spec};
use crate::fields::texts;
use crate::file::{file_path, file_plan, file_plan_spec};
use crate::ir::{AppIr, Entity};
use crate::jobs::{jobs_path, jobs_plan, jobs_plan_spec};
use crate::mail::{mail_path, mail_plan, mail_plan_spec};
use crate::manifest::{
    cargo, cargo_text, contracts_cargo, contracts_cargo_text, runtime_cargo, runtime_cargo_text, server_cargo,
    server_cargo_text,
};
use crate::naming::{module_name, snake_text};
use crate::operations::{operation_rules_owner_free, operations_source, operations_spec};
use crate::plan::{embedded_runtime_artifacts, entity_artifacts, entity_artifacts_spec, runtime_files, RuntimeSources};
use crate::realtime::{realtime_path, realtime_plan, realtime_plan_spec};
use crate::runtime::{library_source, library_spec};
use crate::plan_laws::law_backend_paths_relative;
use crate::source::{
    embedded_crate_source, embedded_text, lemma_relative_artifacts, relative_artifacts, relative_files, render_spec, rust_file,
    text_file, text_files,
};
use crate::text::append_joined;

verus! {

proof fn lemma_rust_file(artifacts: Seq<Artifact>, path: Seq<char>, source: Seq<char>)
    requires
        rust_file(artifacts, path, source),
    ensures
        text_files(artifacts, seq![(path, source, ArtifactKind::RustSource)]),
{
    assert(text_file(artifacts[0], seq![(path, source, ArtifactKind::RustSource)][0]));
}

fn add_file(artifacts: &mut Vec<Artifact>, path: &str, text: String, kind: ArtifactKind, Ghost(files): Ghost<Seq<(Seq<char>, Seq<char>, ArtifactKind)>>)
    requires
        text_files(old(artifacts)@, files),
    ensures
        text_files(final(artifacts)@, files.push((path@, text@, kind))),
{
    let ghost content = text@;
    artifacts.push(Artifact::text(path, text, kind));
    proof {
        let all = files.push((path@, content, kind));
        assert forall|i: int| 0 <= i < all.len() implies text_file(#[trigger] artifacts@[i], all[i]) by {
            if i < files.len() {
                assert(artifacts@[i] == old(artifacts)@[i]);
            }
        }
    }
}

fn add_files(
    artifacts: &mut Vec<Artifact>,
    more: Vec<Artifact>,
    Ghost(files): Ghost<Seq<(Seq<char>, Seq<char>, ArtifactKind)>>,
    Ghost(extra): Ghost<Seq<(Seq<char>, Seq<char>, ArtifactKind)>>,
)
    requires
        text_files(old(artifacts)@, files),
        text_files(more@, extra),
    ensures
        text_files(final(artifacts)@, files + extra),
{
    let mut more = more;
    let ghost added = more@;
    artifacts.append(&mut more);
    proof {
        let all = files + extra;
        assert forall|i: int| 0 <= i < all.len() implies text_file(#[trigger] artifacts@[i], all[i]) by {
            if i < files.len() {
                assert(artifacts@[i] == old(artifacts)@[i]);
            } else {
                assert(artifacts@[i] == added[i - files.len()]);
            }
        }
    }
}

/// The module list of the entities: one `pub mod` line per entity, after the
/// header.
pub open spec fn module_list_text(entities: Seq<Entity>, header: Seq<char>) -> Seq<char> {
    header + join_text(entities.map_values(|entity: Entity| "pub mod "@ + snake_text(entity.rust_name@) + ";"@), seq!['\n']) + seq!['\n']
}

/// The module list of the entities, one `pub mod` line per entity. The text is
/// not run through a formatter.
pub fn module_source(ir: &AppIr, header: &str) -> (text: String)
    ensures
        text@ == module_list_text(ir.entities@, header@),
{
    let entities = &ir.entities;
    let mut lines: Vec<String> = Vec::new();
    let mut i: usize = 0;
    while i < entities.len()
        invariant
            i <= entities.len(),
            entities == &ir.entities,
            texts(lines@) == entities@.subrange(0, i as int).map_values(
                |entity: Entity| "pub mod "@ + snake_text(entity.rust_name@) + ";"@,
            ),
        decreases entities.len() - i,
    {
        let mut line = String::from_str("pub mod ");
        line.append(module_name(&entities[i]).as_str());
        line.append(";");
        let ghost before = texts(lines@);
        lines.push(line);
        proof {
            assert(texts(lines@) == before.push(line@));
            assert(entities@.subrange(0, i + 1) == entities@.subrange(0, i as int).push(entities@[i as int]));
        }
        i = i + 1;
    }
    proof {
        assert(entities@.subrange(0, entities@.len() as int) == entities@);
        reveal_strlit("\n");
        assert("\n"@ =~= seq!['\n']);
    }
    let mut text = String::from_str(header);
    append_joined(&mut text, &lines, "\n");
    text.append("\n");
    text
}

/// The text of the authentication templates, file by file; the OAuth module
/// has an enabled and a disabled form.
pub struct AuthTemplates {
    pub module: String,
    pub admin: String,
    pub admin_schedules: String,
    pub admin_storage: String,
    pub session: String,
    pub handlers: String,
    pub admin_webhooks: String,
    pub mail: String,
    pub oauth: String,
    pub oauth_disabled: String,
    pub recovery: String,
    pub saved_views: String,
}

/// The OAuth template: its enabled or its disabled form.
pub fn oauth_template(enabled: bool, templates: &AuthTemplates) -> (text: &str)
    ensures
        text@ == if enabled { templates.oauth@ } else { templates.oauth_disabled@ },
{
    if enabled {
        templates.oauth.as_str()
    } else {
        templates.oauth_disabled.as_str()
    }
}

/// The authentication modules written from templates, each after the
/// header, in the order the plan lists them.
pub open spec fn auth_template_files(header: Seq<char>, templates: AuthTemplates, oauth: bool) -> Seq<(Seq<char>, Seq<char>, ArtifactKind)> {
    seq![
        ("backend/src/auth/mod.rs"@, header + templates.module@, ArtifactKind::RustSource),
        ("backend/src/auth/admin.rs"@, header + templates.admin@, ArtifactKind::RustSource),
        ("backend/src/auth/admin_schedules.rs"@, header + templates.admin_schedules@, ArtifactKind::RustSource),
        ("backend/src/auth/admin_storage.rs"@, header + templates.admin_storage@, ArtifactKind::RustSource),
        ("backend/src/auth/session.rs"@, header + templates.session@, ArtifactKind::RustSource),
        ("backend/src/auth/handlers.rs"@, header + templates.handlers@, ArtifactKind::RustSource),
        ("backend/src/auth/admin_webhooks.rs"@, header + templates.admin_webhooks@, ArtifactKind::RustSource),
        ("backend/src/auth/mail.rs"@, header + templates.mail@, ArtifactKind::RustSource),
        (
            "backend/src/auth/oauth.rs"@,
            header + if oauth { templates.oauth@ } else { templates.oauth_disabled@ },
            ArtifactKind::RustSource,
        ),
        ("backend/src/auth/recovery.rs"@, header + templates.recovery@, ArtifactKind::RustSource),
        ("backend/src/auth/saved_views.rs"@, header + templates.saved_views@, ArtifactKind::RustSource),
    ]
}

/// The authentication files: one module that admits nobody where
/// authentication is off; otherwise the configuration module, or the reason
/// it failed, then the template modules.
pub open spec fn auth_plan_spec(ir: AppIr, header: Seq<char>, templates: AuthTemplates) -> Result<Seq<(Seq<char>, Seq<char>, ArtifactKind)>, Seq<char>> {
    if !ir.auth.enabled {
        match render_spec(disabled_auth_text(), header) {
            Err(error) => Err(error),
            Ok(source) => Ok(seq![("backend/src/auth.rs"@, source, ArtifactKind::RustSource)]),
        }
    } else {
        match auth_config_spec(ir, header) {
            Err(error) => Err("auth config generation failed: "@ + error),
            Ok(config) => Ok(
                seq![("backend/src/auth/config.rs"@, config, ArtifactKind::RustSource)]
                    + auth_template_files(header, templates, ir.auth.oauth_enabled),
            ),
        }
    }
}

/// A template's text behind the header. The text is taken as it is given,
/// with no formatting pass.
pub fn rust_template(source: &str, header: &str) -> (text: String)
    ensures
        text@ == header@ + source@,
{
    let mut text = String::from_str(header);
    text.append(source);
    text
}

/// The authentication files.
pub fn auth_plan(ir: &AppIr, header: &str, templates: &AuthTemplates) -> (result: Result<Vec<Artifact>, CodegenError>)
    requires
        ir.auth.enabled ==> auth_ready(*ir),
    ensures
        match result {
            Ok(artifacts) => auth_plan_spec(*ir, header@, *templates) matches Ok(files) && text_files(artifacts@, files),
            Err(error) => auth_plan_spec(*ir, header@, *templates) == Err::<Seq<(Seq<char>, Seq<char>, ArtifactKind)>, Seq<char>>(error@),
        },
{
    let mut artifacts: Vec<Artifact> = Vec::new();
    if !ir.auth.enabled {
        let source = disabled_auth_source(header)?;
        proof {
            reveal_strlit("backend/src/auth.rs");
        }
        add_file(&mut artifacts, "backend/src/auth.rs", source, ArtifactKind::RustSource, Ghost(Seq::empty()));
        return Ok(artifacts);
    }
    let config = match auth_config_source(ir, header) {
        Ok(config) => config,
        Err(error) => {
            let mut message = String::from_str("auth config generation failed: ");
            message.append(error.to_string().as_str());
            return Err(CodegenError::new(message));
        },
    };
    proof {
        reveal_strlit("auth config generation failed: ");
        reveal_strlit("backend/src/auth/config.rs");
        reveal_strlit("backend/src/auth/mod.rs");
        reveal_strlit("backend/src/auth/admin.rs");
        reveal_strlit("backend/src/auth/admin_schedules.rs");
        reveal_strlit("backend/src/auth/admin_storage.rs");
        reveal_strlit("backend/src/auth/session.rs");
        reveal_strlit("backend/src/auth/handlers.rs");
        reveal_strlit("backend/src/auth/admin_webhooks.rs");
        reveal_strlit("backend/src/auth/mail.rs");
        reveal_strlit("backend/src/auth/oauth.rs");
        reveal_strlit("backend/src/auth/recovery.rs");
        reveal_strlit("backend/src/auth/saved_views.rs");
    }
    let ghost files = seq![("backend/src/auth/config.rs"@, config@, ArtifactKind::RustSource)];
    add_file(&mut artifacts, "backend/src/auth/config.rs", config, ArtifactKind::RustSource, Ghost(Seq::empty()));
    let ghost all = files + auth_template_files(header@, *templates, ir.auth.oauth_enabled);
    let oauth = oauth_template(ir.auth.oauth_enabled, templates);
    let entries: [(&str, &str); 11] = [
        ("backend/src/auth/mod.rs", templates.module.as_str()),
        ("backend/src/auth/admin.rs", templates.admin.as_str()),
        ("backend/src/auth/admin_schedules.rs", templates.admin_schedules.as_str()),
        ("backend/src/auth/admin_storage.rs", templates.admin_storage.as_str()),
        ("backend/src/auth/session.rs", templates.session.as_str()),
        ("backend/src/auth/handlers.rs", templates.handlers.as_str()),
        ("backend/src/auth/admin_webhooks.rs", templates.admin_webhooks.as_str()),
        ("backend/src/auth/mail.rs", templates.mail.as_str()),
        ("backend/src/auth/oauth.rs", oauth),
        ("backend/src/auth/recovery.rs", templates.recovery.as_str()),
        ("backend/src/auth/saved_views.rs", templates.saved_views.as_str()),
    ];
    let mut i: usize = 0;
    while i < 11
        invariant
            i <= 11,
            all.len() == 12,
            forall|j: int| 0 <= j < 11 ==> (#[trigger] all[j + 1]) == (entries@[j].0@, header@ + entries@[j].1@, ArtifactKind::RustSource),
            text_files(artifacts@, all.subrange(0, i + 1)),
        decreases 11 - i,
    {
        let (path, template) = entries[i];
        let ghost before = all.subrange(0, i + 1);
        add_file(&mut artifacts, path, rust_template(template, header), ArtifactKind::RustSource, Ghost(before));
        proof {
            assert(all.subrange(0, i + 2) == before.push(all[i + 1]));
        }
        i = i + 1;
    }
    proof {
        assert(all.subrange(0, 12) == all);
    }
    Ok(artifacts)
}

/// What the backend plan takes from outside this library: the contracts
/// crate's source, the runtime crate's sources, the text of the server
/// entry point, backend entry point and error module templates, the OpenAPI
/// module, the startup code and runtime API version of the library root, the
/// authentication templates, the tenant and webhook files (path and text),
/// and each entity's endpoint inputs.
pub struct BackendInputs {
    pub contracts_lib: String,
    pub runtime: RuntimeSources,
    pub server_main: String,
    pub main: String,
    pub error: String,
    pub openapi: String,
    pub startup: String,
    pub runtime_api_version: u32,
    pub auth_templates: AuthTemplates,
    pub tenant_files: Vec<(String, String)>,
    pub webhook_files: Vec<(String, String)>,
    pub entities: Vec<EndpointInputs>,
}

/// Files given as path and text, each a Rust source.
pub open spec fn given_files(files: Seq<(String, String)>) -> Seq<(Seq<char>, Seq<char>, ArtifactKind)> {
    files.map_values(|file: (String, String)| (file.0@, file.1@, ArtifactKind::RustSource))
}

/// The files that come before any fallible step: the manifests, the
/// contracts and runtime crates, the server, and the entry point, error and
/// module list modules.
pub open spec fn fixed_files(ir: AppIr, header: Seq<char>, inputs: BackendInputs) -> Seq<(Seq<char>, Seq<char>, ArtifactKind)> {
    seq![
        ("backend/Cargo.toml"@, cargo_text(ir.auth, ir.mail, ir.file), ArtifactKind::RustManifest),
        ("backend/runtime/Cargo.toml"@, runtime_cargo_text(), ArtifactKind::RustManifest),
        ("backend/contracts/Cargo.toml"@, contracts_cargo_text(), ArtifactKind::RustManifest),
        ("backend/contracts/src/lib.rs"@, embedded_text(inputs.contracts_lib@, header), ArtifactKind::RustSource),
    ] + runtime_files(inputs.runtime, header) + seq![
        ("server/Cargo.toml"@, server_cargo_text(), ArtifactKind::RustManifest),
        ("server/src/main.rs"@, header + inputs.server_main@, ArtifactKind::RustSource),
        ("backend/src/main.rs"@, header + inputs.main@, ArtifactKind::RustSource),
        ("backend/src/error.rs"@, header + inputs.error@, ArtifactKind::RustSource),
        ("backend/src/entities/mod.rs"@, module_list_text(ir.entities@, header), ArtifactKind::RustSource),
        ("backend/src/api/mod.rs"@, module_list_text(ir.entities@, header), ArtifactKind::RustSource),
    ]
}

/// Every file of the backend, in order, or the first error: the library
/// root, extension and operation modules, then the audit, authentication,
/// file, jobs, mail and realtime modules, then the entities' files.
#[verifier::opaque]
pub open spec fn backend_plan_spec(ir: AppIr, header: Seq<char>, inputs: BackendInputs) -> Result<Seq<(Seq<char>, Seq<char>, ArtifactKind)>, Seq<char>> {
    match library_spec(ir, header, inputs.startup@, inputs.runtime_api_version) {
        Err(error) => Err(error),
        Ok(library) => match extensions_spec(ir, header) {
            Err(error) => Err(error),
            Ok(extensions) => match operations_spec(ir, header) {
                Err(error) => Err(error),
                Ok(operations) => match audit_plan_spec(ir, header) {
                    Err(error) => Err(error),
                    Ok(audit) => match auth_plan_spec(ir, header, inputs.auth_templates) {
                        Err(error) => Err(error),
                        Ok(auth) => match file_plan_spec(ir, header) {
                            Err(error) => Err(error),
                            Ok(file) => match jobs_plan_spec(ir, header) {
                                Err(error) => Err(error),
                                Ok(jobs) => match mail_plan_spec(ir, header) {
                                    Err(error) => Err(error),
                                    Ok(mail) => match realtime_plan_spec(ir, header) {
                                        Err(error) => Err(error),
                                        Ok(realtime) => match entity_artifacts_spec(ir, ir.entities@, inputs.entities@, header) {
                                            Err(error) => Err(error),
                                            Ok(entities) => Ok(fixed_files(ir, header, inputs) + seq![
                                                ("backend/src/lib.rs"@, library, ArtifactKind::RustSource),
                                                ("backend/src/openapi.rs"@, inputs.openapi@, ArtifactKind::RustSource),
                                                ("backend/src/extensions.rs"@, extensions, ArtifactKind::RustSource),
                                                ("backend/src/operations.rs"@, operations, ArtifactKind::RustSource),
                                                (audit_path(), audit, ArtifactKind::RustSource),
                                            ] + auth + seq![
                                                (file_path(), file, ArtifactKind::RustSource),
                                                (jobs_path(), jobs, ArtifactKind::RustSource),
                                                (mail_path(), mail, ArtifactKind::RustSource),
                                                (realtime_path(), realtime, ArtifactKind::RustSource),
                                            ] + given_files(inputs.tenant_files@) + given_files(inputs.webhook_files@) + entities),
                                        },
                                    },
                                },
                            },
                        },
                    },
                },
            },
        },
    }
}

/// What the backend plan's contract says of a result: the files of
/// `backend_plan_spec`, in order, or its error.
pub open spec fn backend_planned(ir: AppIr, header: Seq<char>, inputs: BackendInputs, result: Result<Vec<Artifact>, CodegenError>) -> bool {
    match result {
        Ok(artifacts) => backend_plan_spec(ir, header, inputs) matches Ok(files) && text_files(artifacts@, files),
        Err(error) => backend_plan_spec(ir, header, inputs) == Err::<Seq<(Seq<char>, Seq<char>, ArtifactKind)>, Seq<char>>(error@),
    }
}

fn add_given(artifacts: &mut Vec<Artifact>, given: &Vec<(String, String)>, Ghost(files): Ghost<Seq<(Seq<char>, Seq<char>, ArtifactKind)>>)
    requires
        text_files(old(artifacts)@, files),
    ensures
        text_files(final(artifacts)@, files + given_files(given@)),
{
    let mut i: usize = 0;
    while i < given.len()
        invariant
            i <= given.len(),
            text_files(artifacts@, files + given_files(given@.subrange(0, i as int))),
        decreases given.len() - i,
    {
        let ghost before = files + given_files(given@.subrange(0, i as int));
        add_file(artifacts, given[i].0.as_str(), given[i].1.clone(), ArtifactKind::RustSource, Ghost(before));
        proof {
            assert(given@.subrange(0, i + 1) == given@.subrange(0, i as int).push(given@[i as int]));
            assert(files + given_files(given@.subrange(0, i + 1)) == before.push((given@[i as int].0@, given@[i as int].1@, ArtifactKind::RustSource)));
        }
        i = i + 1;
    }
    proof {
        assert(given@.subrange(0, given@.len() as int) == given@);
    }
}

/// Every file of the backend.
#[verifier::rlimit(50)]
pub fn backend_plan(ir: &AppIr, header: &str, inputs: &BackendInputs) -> (result: Result<Vec<Artifact>, CodegenError>)
    requires
        ir.auth.enabled ==> auth_ready(*ir),
        operation_rules_owner_free(*ir),
        inputs.entities.len() == ir.entities.len(),
        forall|i: int| 0 <= i < inputs.entities.len() ==> api_ready(*ir, ir.entities@[i], #[trigger] inputs.entities@[i]),
    ensures
        backend_planned(*ir, header@, *inputs, result),
        result matches Ok(artifacts) ==> (relative_files(given_files(inputs.tenant_files@))
            && relative_files(given_files(inputs.webhook_files@)) ==> relative_artifacts(artifacts@)),
{
    proof {
        reveal(backend_plan_spec);
        reveal_strlit("backend/Cargo.toml");
        reveal_strlit("backend/runtime/Cargo.toml");
        reveal_strlit("backend/contracts/Cargo.toml");
        reveal_strlit("backend/contracts/src/lib.rs");
        reveal_strlit("server/Cargo.toml");
        reveal_strlit("server/src/main.rs");
        reveal_strlit("backend/src/main.rs");
        reveal_strlit("backend/src/error.rs");
        reveal_strlit("backend/src/entities/mod.rs");
        reveal_strlit("backend/src/api/mod.rs");
        reveal_strlit("backend/src/lib.rs");
        reveal_strlit("backend/src/openapi.rs");
        reveal_strlit("backend/src/extensions.rs");
        reveal_strlit("backend/src/operations.rs");
    }
    let mut artifacts: Vec<Artifact> = Vec::new();
    let ghost mut files: Seq<(Seq<char>, Seq<char>, ArtifactKind)> = Seq::empty();
    add_file(&mut artifacts, "backend/Cargo.toml", cargo(ir), ArtifactKind::RustManifest, Ghost(files));
    proof { files = files.push(("backend/Cargo.toml"@, cargo_text(ir.auth, ir.mail, ir.file), ArtifactKind::RustManifest)); }
    add_file(&mut artifacts, "backend/runtime/Cargo.toml", String::from_str(runtime_cargo()), ArtifactKind::RustManifest, Ghost(files));
    proof { files = files.push(("backend/runtime/Cargo.toml"@, runtime_cargo_text(), ArtifactKind::RustManifest)); }
    add_file(&mut artifacts, "backend/contracts/Cargo.toml", String::from_str(contracts_cargo()), ArtifactKind::RustManifest, Ghost(files));
    proof { files = files.push(("backend/contracts/Cargo.toml"@, contracts_cargo_text(), ArtifactKind::RustManifest)); }
    add_file(
        &mut artifacts,
        "backend/contracts/src/lib.rs",
        embedded_crate_source(inputs.contracts_lib.as_str(), header),
        ArtifactKind::RustSource,
        Ghost(files),
    );
    proof { files = files.push(("backend/contracts/src/lib.rs"@, embedded_text(inputs.contracts_lib@, header@), ArtifactKind::RustSource)); }
    let ghost runtime = runtime_files(inputs.runtime, header@);
    add_files(&mut artifacts, embedded_runtime_artifacts(&inputs.runtime, header), Ghost(files), Ghost(runtime));
    proof { files = files + runtime_files(inputs.runtime, header@); }
    add_file(&mut artifacts, "server/Cargo.toml", String::from_str(server_cargo()), ArtifactKind::RustManifest, Ghost(files));
    proof { files = files.push(("server/Cargo.toml"@, server_cargo_text(), ArtifactKind::RustManifest)); }
    add_file(&mut artifacts, "server/src/main.rs", rust_template(inputs.server_main.as_str(), header), ArtifactKind::RustSource, Ghost(files));
    proof { files = files.push(("server/src/main.rs"@, header@ + inputs.server_main@, ArtifactKind::RustSource)); }
    add_file(&mut artifacts, "backend/src/main.rs", rust_template(inputs.main.as_str(), header), ArtifactKind::RustSource, Ghost(files));
    proof { files = files.push(("backend/src/main.rs"@, header@ + inputs.main@, ArtifactKind::RustSource)); }
    add_file(&mut artifacts, "backend/src/error.rs", rust_template(inputs.error.as_str(), header), ArtifactKind::RustSource, Ghost(files));
    proof { files = files.push(("backend/src/error.rs"@, header@ + inputs.error@, ArtifactKind::RustSource)); }
    add_file(&mut artifacts, "backend/src/entities/mod.rs", module_source(ir, header), ArtifactKind::RustSource, Ghost(files));
    proof { files = files.push(("backend/src/entities/mod.rs"@, module_list_text(ir.entities@, header@), ArtifactKind::RustSource)); }
    add_file(&mut artifacts, "backend/src/api/mod.rs", module_source(ir, header), ArtifactKind::RustSource, Ghost(files));
    proof {
        files = files.push(("backend/src/api/mod.rs"@, module_list_text(ir.entities@, header@), ArtifactKind::RustSource));
        assert(files == fixed_files(*ir, header@, *inputs));
    }
    let library = library_source(ir, header, inputs.startup.as_str(), inputs.runtime_api_version)?;
    let extensions = extensions_source(ir, header)?;
    let operations = operations_source(ir, header)?;
    add_file(&mut artifacts, "backend/src/lib.rs", library, ArtifactKind::RustSource, Ghost(files));
    proof { files = files.push(("backend/src/lib.rs"@, library@, ArtifactKind::RustSource)); }
    add_file(&mut artifacts, "backend/src/openapi.rs", inputs.openapi.clone(), ArtifactKind::RustSource, Ghost(files));
    proof { files = files.push(("backend/src/openapi.rs"@, inputs.openapi@, ArtifactKind::RustSource)); }
    add_file(&mut artifacts, "backend/src/extensions.rs", extensions, ArtifactKind::RustSource, Ghost(files));
    proof { files = files.push(("backend/src/extensions.rs"@, extensions@, ArtifactKind::RustSource)); }
    add_file(&mut artifacts, "backend/src/operations.rs", operations, ArtifactKind::RustSource, Ghost(files));
    proof { files = files.push(("backend/src/operations.rs"@, operations@, ArtifactKind::RustSource)); }
    let audit = audit_plan(ir, header)?;
    proof {
        lemma_rust_file(audit@, audit_path(), audit_plan_spec(*ir, header@)->Ok_0);
    }
    let ghost audit_files = seq![(audit_path(), audit_plan_spec(*ir, header@)->Ok_0, ArtifactKind::RustSource)];
    add_files(&mut artifacts, audit, Ghost(files), Ghost(audit_files));
    proof { files = files + audit_files; }
    let auth = auth_plan(ir, header, &inputs.auth_templates)?;
    let ghost auth_files = auth_plan_spec(*ir, header@, inputs.auth_templates)->Ok_0;
    add_files(&mut artifacts, auth, Ghost(files), Ghost(auth_files));
    proof { files = files + auth_files; }
    let file = file_plan(ir, header)?;
    proof {
        lemma_rust_file(file@, file_path(), file_plan_spec(*ir, header@)->Ok_0);
    }
    let ghost file_files = seq![(file_path(), file_plan_spec(*ir, header@)->Ok_0, ArtifactKind::RustSource)];
    add_files(&mut artifacts, file, Ghost(files), Ghost(file_files));
    proof { files = files + file_files; }
    let jobs = jobs_plan(ir, header)?;
    proof {
        lemma_rust_file(jobs@, jobs_path(), jobs_plan_spec(*ir, header@)->Ok_0);
    }
    let ghost jobs_files = seq![(jobs_path(), jobs_plan_spec(*ir, header@)->Ok_0, ArtifactKind::RustSource)];
    add_files(&mut artifacts, jobs, Ghost(files), Ghost(jobs_files));
    proof { files = files + jobs_files; }
    let mail = mail_plan(ir, header)?;
    proof {
        lemma_rust_file(mail@, mail_path(), mail_plan_spec(*ir, header@)->Ok_0);
    }
    let ghost mail_files = seq![(mail_path(), mail_plan_spec(*ir, header@)->Ok_0, ArtifactKind::RustSource)];
    add_files(&mut artifacts, mail, Ghost(files), Ghost(mail_files));
    proof { files = files + mail_files; }
    let realtime = realtime_plan(ir, header)?;
    proof {
        lemma_rust_file(realtime@, realtime_path(), realtime_plan_spec(*ir, header@)->Ok_0);
    }
    let ghost realtime_files = seq![(realtime_path(), realtime_plan_spec(*ir, header@)->Ok_0, ArtifactKind::RustSource)];
    add_files(&mut artifacts, realtime, Ghost(files), Ghost(realtime_files));
    proof { files = files + realtime_files; }
    add_given(&mut artifacts, &inputs.tenant_files, Ghost(files));
    proof { files = files + given_files(inputs.tenant_files@); }
    add_given(&mut artifacts, &inputs.webhook_files, Ghost(files));
    proof { files = files + given_files(inputs.webhook_files@); }
    let entities = entity_artifacts(ir, &inputs.entities, header)?;
    let ghost entity_files = entity_artifacts_spec(*ir, ir.entities@, inputs.entities@, header@)->Ok_0;
    add_files(&mut artifacts, entities, Ghost(files), Ghost(entity_files));
    proof {
        let library_text = library_spec(*ir, header@, inputs.startup@, inputs.runtime_api_version)->Ok_0;
        let expected = backend_plan_spec(*ir, header@, *inputs)->Ok_0;
        assert(files + entity_artifacts_spec(*ir, ir.entities@, inputs.entities@, header@)->Ok_0 == expected);
        if relative_files(given_files(inputs.tenant_files@)) && relative_files(given_files(inputs.webhook_files@)) {
            law_backend_paths_relative(*ir, header@, *inputs);
            lemma_relative_artifacts(artifacts@, expected);
        }
    }
    Ok(artifacts)
}

} // verus!
