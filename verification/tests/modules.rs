use appstruct_codegen::backend::{auth_plan, backend_plan, module_source, oauth_template, rust_template, AuthTemplates, BackendInputs};
use appstruct_codegen::endpoints::{api_source, EndpointInputs};
use appstruct_codegen::models::{entity_field, entity_source, ScalarAttributes};
use appstruct_codegen::readiness::api_inputs_ready;
use appstruct_codegen::plan::{embedded_runtime_artifacts, entity_artifacts, entity_run_artifacts, plan_entity, RuntimeSources};
use appstruct_codegen::{
    AccessRule, ActivityConfig, ReportConfig, AppIr, ArtifactKind, AuditConfig, AuthConfig, BillingConfig, Entity, EntityAccess, EntityViews, Field,
    FieldCapabilities, FieldType, FileConfig, FileProvider, GeneratedValue, JobsConfig, MailConfig, MailProvider,
    RealtimeConfig, TenantConfig, WebhooksConfig,
};

const HEADER: &str = "// header\n";

/// The text without its whitespace: generated sources are compared token by
/// token, and the token printer decides their spacing.
fn squash(text: &str) -> String {
    text.chars().filter(|c| !c.is_whitespace()).collect()
}

fn has(text: &str, part: &str) {
    assert!(squash(text).contains(&squash(part)), "missing {part:?}");
}

fn field(name: &str, ty: FieldType) -> Field {
    Field {
        id: format!("ticket.{name}"),
        rust_name: name.to_owned(),
        api_name: name.to_owned(),
        column_name: name.to_owned(),
        ty,
        nullable: false,
        primary_key: false,
        unique: false,
        generated: None,
        default: None,
        read_access: None,
        write_access: None,
        capabilities: FieldCapabilities { filterable: false, searchable: false, sortable: false },
    }
}

fn ticket() -> Entity {
    let mut id = field("id", FieldType::Uuid);
    id.primary_key = true;
    id.generated = Some(GeneratedValue::UuidV7);
    let mut code = field("code", FieldType::String);
    code.unique = true;
    code.nullable = true;
    let mut revision = field("revision", FieldType::Bigint);
    revision.generated = Some(GeneratedValue::Revision);
    Entity {
        id: "ticket".to_owned(),
        rust_name: "SupportTicket".to_owned(),
        table_name: "support_tickets".to_owned(),
        tenant_scoped: false,
        fields: vec![id, field("title", FieldType::String), code, revision],
        workflow: None,
        access: EntityAccess {
            list: AccessRule::Public,
            read: AccessRule::Public,
            create: AccessRule::Authenticated,
            update: AccessRule::Authenticated,
            delete: AccessRule::Role { role: "admin".to_owned() },
        },
        views: EntityViews { soft_delete: false, aggregates: vec![] },
        audit_enabled: false,
    }
}

fn app(entities: Vec<Entity>) -> AppIr {
    AppIr {
        entities,
        value_objects: vec![],
        auth: AuthConfig { enabled: false, oauth_enabled: false, registration_enabled: false, password_reset_enabled: false, user_entity: None, default_role: None },
        mail: MailConfig { enabled: false, provider: MailProvider::Capture, from: "noreply@example.test".to_owned(), templates: vec![] },
        file: FileConfig { enabled: false, provider: FileProvider::Local, max_bytes: 0, local_root: "uploads".to_owned(), allowed_content_types: vec![] },
        jobs: JobsConfig { enabled: false, poll_interval_ms: 250, lease_seconds: 30, queues: vec![], schedules: vec![] },
        billing: BillingConfig { enabled: false, plans: vec![], trials: false, customer_portal: false },
        webhooks: WebhooksConfig { enabled: false },
        audit: AuditConfig { enabled: false, reader_roles: vec![] },
        tenant: TenantConfig { enabled: false },
        realtime: RealtimeConfig { enabled: false, heartbeat_seconds: 15, presence_ttl_seconds: 45 },
        activity: ActivityConfig { enabled: false, max_comment_bytes: 1000, admin_roles: vec![], resources: vec![], attachments: false },
        report: ReportConfig { enabled: false, max_input_bytes: 0, retention_days: 0, queue: "reports".to_owned(), reader_roles: vec![], templates: vec![] },
        relations: vec![],
        commands: vec![],
        queries: vec![],
    }
}

fn scalars(tag: &str) -> ScalarAttributes {
    ScalarAttributes {
        plain: format!("#[{tag}_plain]"),
        optional: format!("#[{tag}_optional]"),
        nested: format!("#[{tag}_nested]"),
    }
}

fn ticket_scalars() -> Vec<ScalarAttributes> {
    vec![scalars("id"), scalars("title"), scalars("code"), scalars("revision")]
}

fn inputs() -> EndpointInputs {
    EndpointInputs {
        scalars: ticket_scalars(),
        create_rules: vec!["check_title(input, &mut violations);".to_owned()],
        update_rules: vec![],
        transition_access: vec![],
        related_scopes: vec![String::new(); 4],
        trash_scope: String::new(),
        restore_scope: String::new(),
        activity_resource: None,
    }
}

#[test]
fn model_fields_carry_column_and_scalar_attributes() {
    let entity = ticket();
    assert_eq!(
        entity_field(&entity.fields[0], &scalars("id")).unwrap(),
        "#[sea_orm(primary_key, auto_increment = false, column_name = \"id\")] #[id_plain] pub id: uuid::Uuid"
    );
    assert_eq!(
        entity_field(&entity.fields[2], &scalars("code")).unwrap(),
        "#[sea_orm(unique, column_name = \"code\")] #[code_optional] pub code: Option<String>"
    );
    assert_eq!(
        entity_field(&entity.fields[3], &scalars("revision")).unwrap(),
        "#[sea_orm(column_name = \"revision\")]  pub revision: i64"
    );
    let mut serial = field("serial", FieldType::Integer);
    serial.primary_key = true;
    serial.generated = Some(GeneratedValue::AutoIncrement);
    assert_eq!(
        entity_field(&serial, &scalars("serial")).unwrap(),
        "#[sea_orm(primary_key, auto_increment = true, column_name = \"serial\")] #[serial_plain] pub serial: i32"
    );
}

#[test]
fn model_source_names_its_table() {
    let ir = app(vec![ticket()]);
    let text = entity_source(&ir, &ir.entities[0], &ticket_scalars(), HEADER).unwrap();
    assert!(squash(&text).starts_with(&squash("// header\nuse sea_orm::entity::prelude::*;")));
    has(&text, "#[sea_orm(table_name = \"support_tickets\")] pub struct Model { ");
    has(&text, "pub title: String, ");
    assert!(squash(&text).ends_with(&squash("impl ActiveModelBehavior for ActiveModel {}")));
}

#[test]
fn endpoint_inputs_follow_writability_and_depth() {
    let ir = app(vec![ticket()]);
    let text = api_source(&ir, &ir.entities[0], &inputs(), HEADER).unwrap();
    assert!(squash(&text).starts_with(&squash("// header\nuse crate::{AppState, ApiError, FieldViolation, RequestContext, entities::support_ticket};")));
    has(&text, "pub struct CreateInput { #[title_plain] pub title: String, #[code_optional] pub code: Option<String>,  }");
    has(&text, "pub struct UpdateInput { #[title_optional] pub title: Option<String>, #[code_nested] pub code: Option<Option<String>>,  }");
    has(&text, "IntoActiveModel, ModelTrait, ColumnTrait as _");
    has(&text, "check_title(input, &mut violations);");
    has(&text, ".route(\"/_import.csv\", axum::routing::post(import_csv))");
    assert!(!text.contains("/_restore"));
    assert!(!text.contains("/_transitions"));
}

#[test]
fn soft_deleted_entities_offer_trash_and_restore() {
    let mut entity = ticket();
    entity.views.soft_delete = true;
    let ir = app(vec![entity]);
    let text = api_source(&ir, &ir.entities[0], &inputs(), HEADER).unwrap();
    has(&text, ".route(\"/_restore\", axum::routing::post(restore)).route(\"/_trash\", get(trash))");
    has(&text, "IntoActiveModel,  ColumnTrait as _");
}

#[test]
fn endpoint_errors_come_in_order() {
    let mut entity = ticket();
    entity.fields.remove(0);
    let ir = app(vec![entity]);
    let mut short = inputs();
    short.scalars.remove(0);
    short.related_scopes.remove(0);
    let error = api_source(&ir, &ir.entities[0], &short, HEADER).unwrap_err();
    assert_eq!(error.to_string(), "entity `ticket` has no primary key");
}

#[test]
fn entity_files_name_their_module() {
    let ir = app(vec![ticket()]);
    let artifacts = plan_entity(&ir, &ir.entities[0], &inputs(), HEADER).unwrap();
    assert_eq!(artifacts.len(), 2);
    assert_eq!(artifacts[0].relative_path, "backend/src/entities/support_ticket.rs");
    assert_eq!(artifacts[1].relative_path, "backend/src/api/support_ticket.rs");
    assert_eq!(artifacts[0].kind, ArtifactKind::RustSource);
    assert!(squash(&String::from_utf8(artifacts[1].content.clone()).unwrap()).starts_with(&squash("// header\nuse crate::")));
    let all = entity_artifacts(&ir, &vec![inputs()], HEADER).unwrap();
    assert_eq!(all.len(), 2);
    assert_eq!(all[1].relative_path, "backend/src/api/support_ticket.rs");
}

#[test]
fn entity_failures_name_the_entity() {
    let mut entity = ticket();
    entity.fields[1].rust_name = "not ident".to_owned();
    let ir = app(vec![entity]);
    let error = plan_entity(&ir, &ir.entities[0], &inputs(), HEADER).unwrap_err();
    assert!(error.to_string().starts_with("entity `support_ticket` failed: invalid Rust identifier `not ident`"));
    let error = entity_artifacts(&ir, &vec![inputs()], HEADER).unwrap_err();
    assert!(error.to_string().starts_with("entity `support_ticket` failed: "));
}

#[test]
fn runtime_crate_files_carry_the_header() {
    let sources = RuntimeSources {
        lib: "//! Runtime\npub mod query;".to_owned(),
        lifecycle: "pub fn start() {}".to_owned(),
        origin: "o".to_owned(),
        query: "q".to_owned(),
        resource: "r".to_owned(),
        supervisor: "s".to_owned(),
    };
    let artifacts = embedded_runtime_artifacts(&sources, HEADER);
    assert_eq!(artifacts.len(), 6);
    assert_eq!(artifacts[0].relative_path, "backend/runtime/src/lib.rs");
    assert_eq!(artifacts[0].content, b"// header\n// Runtime\npub mod query;\n".to_vec());
    assert_eq!(artifacts[1].relative_path, "backend/runtime/src/lifecycle.rs");
    assert_eq!(artifacts[1].content, b"// header\npub fn start() {}".to_vec());
    assert_eq!(artifacts[5].relative_path, "backend/runtime/src/supervisor.rs");
    assert_eq!(artifacts[5].content, b"// header\ns".to_vec());
}

fn templates() -> AuthTemplates {
    let text = |name: &str| format!("// {name}\n");
    AuthTemplates {
        module: text("mod"),
        admin: text("admin"),
        admin_schedules: text("admin_schedules"),
        admin_storage: text("admin_storage"),
        session: text("session"),
        handlers: text("handlers"),
        admin_webhooks: text("admin_webhooks"),
        mail: text("mail"),
        oauth: text("oauth"),
        oauth_disabled: text("oauth_disabled"),
        recovery: text("recovery"),
        saved_views: text("saved_views"),
    }
}

fn runtime_sources() -> RuntimeSources {
    RuntimeSources {
        lib: "pub mod query;".to_owned(),
        lifecycle: "l".to_owned(),
        origin: "o".to_owned(),
        query: "q".to_owned(),
        resource: "r".to_owned(),
        supervisor: "s".to_owned(),
    }
}

fn content(artifact: &appstruct_codegen::Artifact) -> String {
    String::from_utf8(artifact.content.clone()).unwrap()
}

#[test]
fn module_lists_name_every_entity() {
    let mut note = ticket();
    note.rust_name = "Note".to_owned();
    let ir = app(vec![ticket(), note]);
    assert_eq!(module_source(&ir, HEADER), "// header\npub mod support_ticket;\npub mod note;\n");
    assert_eq!(module_source(&app(vec![]), HEADER), "// header\n\n");
}

#[test]
fn auth_files_follow_the_configuration() {
    let ir = app(vec![ticket()]);
    let artifacts = auth_plan(&ir, HEADER, &templates()).unwrap();
    assert_eq!(artifacts.len(), 1);
    assert_eq!(artifacts[0].relative_path, "backend/src/auth.rs");
    let mut ir = app(vec![ticket()]);
    ir.auth.enabled = true;
    ir.auth.user_entity = Some("missing".to_owned());
    ir.auth.default_role = Some("member".to_owned());
    let error = auth_plan(&ir, HEADER, &templates()).unwrap_err();
    assert_eq!(error.to_string(), "auth config generation failed: missing entity `missing`");
}

#[test]
fn backend_plan_lists_every_file_in_order() {
    let ir = app(vec![ticket()]);
    let inputs = BackendInputs {
        contracts_lib: "//! Contracts\npub trait Hook {}".to_owned(),
        runtime: runtime_sources(),
        server_main: "fn main() {}".to_owned(),
        main: "fn main() { backend::run() }".to_owned(),
        error: "pub enum ApiError {}".to_owned(),
        openapi: "// openapi".to_owned(),
        startup: String::new(),
        runtime_api_version: 3,
        auth_templates: templates(),
        tenant_files: vec![("backend/src/tenant.rs".to_owned(), "// tenant".to_owned())],
        webhook_files: vec![("backend/src/webhooks.rs".to_owned(), "// webhooks".to_owned())],
        entities: vec![inputs()],
    };
    let artifacts = backend_plan(&ir, HEADER, &inputs).unwrap();
    let paths: Vec<&str> = artifacts.iter().map(|artifact| artifact.relative_path.as_str()).collect();
    assert_eq!(
        paths,
        vec![
            "backend/Cargo.toml",
            "backend/runtime/Cargo.toml",
            "backend/contracts/Cargo.toml",
            "backend/contracts/src/lib.rs",
            "backend/runtime/src/lib.rs",
            "backend/runtime/src/lifecycle.rs",
            "backend/runtime/src/origin.rs",
            "backend/runtime/src/query.rs",
            "backend/runtime/src/resource.rs",
            "backend/runtime/src/supervisor.rs",
            "server/Cargo.toml",
            "server/src/main.rs",
            "backend/src/main.rs",
            "backend/src/error.rs",
            "backend/src/entities/mod.rs",
            "backend/src/api/mod.rs",
            "backend/src/lib.rs",
            "backend/src/openapi.rs",
            "backend/src/extensions.rs",
            "backend/src/operations.rs",
            "backend/src/audit.rs",
            "backend/src/auth.rs",
            "backend/src/file.rs",
            "backend/src/jobs.rs",
            "backend/src/mail.rs",
            "backend/src/realtime.rs",
            "backend/src/tenant.rs",
            "backend/src/webhooks.rs",
            "backend/src/entities/support_ticket.rs",
            "backend/src/api/support_ticket.rs",
        ]
    );
    assert_eq!(artifacts[0].kind, ArtifactKind::RustManifest);
    assert_eq!(content(&artifacts[3]), "// header\n// Contracts\npub trait Hook {}\n");
    assert_eq!(content(&artifacts[11]), "// header\nfn main() {}");
    assert_eq!(content(&artifacts[14]), "// header\npub mod support_ticket;\n");
    assert_eq!(content(&artifacts[17]), "// openapi");
    assert_eq!(content(&artifacts[26]), "// tenant");
    assert!(artifacts.iter().all(|artifact| !artifact.relative_path.starts_with('/')));
    let again = backend_plan(&ir, HEADER, &inputs).unwrap();
    assert_eq!(again, artifacts);
}

#[test]
fn entity_runs_join_to_the_whole_plan() {
    let mut note = ticket();
    note.rust_name = "Note".to_owned();
    let mut memo = ticket();
    memo.rust_name = "Memo".to_owned();
    let ir = app(vec![ticket(), note, memo]);
    let all_inputs = vec![inputs(), inputs(), inputs()];
    let whole = entity_artifacts(&ir, &all_inputs, HEADER).unwrap();
    assert_eq!(whole.len(), 6);
    for size in 1..=3 {
        let mut joined = Vec::new();
        let mut start = 0;
        while start < 3 {
            let end = (start + size).min(3);
            joined.extend(entity_run_artifacts(&ir, &all_inputs, start, end, HEADER).unwrap());
            start = end;
        }
        assert_eq!(joined, whole);
    }
    assert_eq!(whole[2].relative_path, "backend/src/entities/note.rs");
    assert!(entity_run_artifacts(&ir, &all_inputs, 1, 1, HEADER).unwrap().is_empty());
    let mut broken = ticket();
    broken.rust_name = "Broken".to_owned();
    broken.fields[1].rust_name = "not ident".to_owned();
    let ir = app(vec![ticket(), broken, ticket()]);
    let whole = entity_artifacts(&ir, &all_inputs, HEADER).unwrap_err();
    let tail = entity_run_artifacts(&ir, &all_inputs, 1, 3, HEADER).unwrap_err();
    assert_eq!(whole, tail);
    assert!(whole.to_string().starts_with("entity `broken` failed: "));
    assert_eq!(entity_run_artifacts(&ir, &all_inputs, 0, 1, HEADER).unwrap().len(), 2);
}

#[test]
fn templates_follow_the_header() {
    assert_eq!(rust_template("fn main() {}", HEADER), "// header\nfn main() {}");
    assert_eq!(oauth_template(true, &templates()), "// oauth\n");
    assert_eq!(oauth_template(false, &templates()), "// oauth_disabled\n");
}

#[test]
fn enabled_auth_writes_config_then_templates() {
    let mut user = ticket();
    user.id = "user".to_owned();
    user.rust_name = "User".to_owned();
    user.table_name = "users".to_owned();
    user.fields.push(field("email", FieldType::String));
    let mut ir = app(vec![user]);
    ir.auth.enabled = true;
    ir.auth.user_entity = Some("user".to_owned());
    ir.auth.default_role = Some("member".to_owned());
    let artifacts = auth_plan(&ir, HEADER, &templates()).unwrap();
    let paths: Vec<&str> = artifacts.iter().map(|artifact| artifact.relative_path.as_str()).collect();
    assert_eq!(paths.len(), 12);
    assert_eq!(paths[0], "backend/src/auth/config.rs");
    assert_eq!(paths[1], "backend/src/auth/mod.rs");
    assert_eq!(paths[9], "backend/src/auth/oauth.rs");
    assert_eq!(paths[11], "backend/src/auth/saved_views.rs");
    assert_eq!(content(&artifacts[9]), "// header\n// oauth_disabled\n");
    assert_eq!(content(&artifacts[1]), "// header\n// mod\n");
}

#[test]
fn inputs_fit_their_entity() {
    let ir = app(vec![ticket()]);
    assert!(api_inputs_ready(&ir, &ir.entities[0], &inputs()));
    let mut short = inputs();
    short.scalars.remove(0);
    assert!(!api_inputs_ready(&ir, &ir.entities[0], &short));
    let mut entity = ticket();
    entity.fields[3].default = Some("not a number".to_owned());
    entity.fields[3].ty = FieldType::Integer;
    entity.fields[3].generated = None;
    let ir = app(vec![entity]);
    assert!(!api_inputs_ready(&ir, &ir.entities[0], &inputs()));
}

#[test]
fn negative_defaults_print_as_one_literal() {
    let mut entity = ticket();
    let mut rank = field("rank", FieldType::Integer);
    rank.default = Some("-7".to_owned());
    entity.fields.push(rank);
    let ir = app(vec![entity]);
    let mut entity_inputs = inputs();
    entity_inputs.scalars.push(scalars("rank"));
    entity_inputs.related_scopes.push(String::new());
    assert!(api_inputs_ready(&ir, &ir.entities[0], &entity_inputs));
    let text = api_source(&ir, &ir.entities[0], &entity_inputs, HEADER).unwrap();
    assert!(text.contains("input . rank . unwrap_or_else (|| -7i32)"));
    assert!(!text.contains("u{2d}"));
}
