use appstruct_codegen::aggregate::{aggregate_support, group_arms, metric_arms};
use appstruct_codegen::bulk::{bulk_activity_event, bulk_parse_id_expression, bulk_source, BulkChange, BulkSource};
use appstruct_codegen::extensions::{extensions_source, handler_traits, registry, value_object};
use appstruct_codegen::field_access::field_support;
use appstruct_codegen::audit::audit_plan;
use appstruct_codegen::auth::{auth_config_source, disabled_auth_source};
use appstruct_codegen::file::file_plan;
use appstruct_codegen::jobs::jobs_plan;
use appstruct_codegen::list::list_support;
use appstruct_codegen::mail::mail_plan;
use appstruct_codegen::realtime::realtime_plan;
use appstruct_codegen::relations::relation_fields;
use appstruct_codegen::lookup::lookup_support;
use appstruct_codegen::operations::operations_source;
use appstruct_codegen::runtime::{library_source, service_exports};
use appstruct_codegen::source::render;
use appstruct_codegen::write::{audit_event, handlers, write_event, HandlerContext, WriteOperation};
use appstruct_codegen::{
    AccessRule, ActivityConfig, ReportConfig, AppIr, AuthConfig, BillingConfig, Cardinality, Command, Relation, Entity, EntityAccess, EntityViews, Field,
    FieldCapabilities, FieldType, FileConfig, FileProvider, GeneratedValue, JobQueue, JobsConfig, MailConfig, MailProvider, MailTemplate,
    OperationType, Query, ValueField, ValueObject, WebhooksConfig, AuditConfig, RealtimeConfig, TenantConfig,
};

/// The text without its whitespace: generated sources are compared token by
/// token, and the token printer decides their spacing.
fn squash(text: &str) -> String {
    text.chars().filter(|c| !c.is_whitespace()).collect()
}

fn contains(text: &str, part: &str) {
    assert!(squash(text).contains(&squash(part)), "missing {part:?}");
}

fn lacks(text: &str, part: &str) {
    assert!(!squash(text).contains(&squash(part)), "unexpected {part:?}");
}

fn opens(text: &str, part: &str) {
    assert!(squash(text).starts_with(&squash(part)), "does not start with {part:?}");
}

fn column(name: &str, ty: FieldType) -> Field {
    Field {
        id: format!("ticket.{name}"),
        rust_name: name.to_owned(),
        api_name: name.to_owned(),
        column_name: name.to_owned(),
        ty,
        nullable: false,
        primary_key: false,
        unique: false,
        generated: None,
        default: None,
        read_access: None,
        write_access: None,
        capabilities: FieldCapabilities { filterable: true, searchable: false, sortable: false },
    }
}

fn public_access() -> EntityAccess {
    EntityAccess {
        list: AccessRule::Public,
        read: AccessRule::Public,
        create: AccessRule::Authenticated,
        update: AccessRule::Authenticated,
        delete: AccessRule::Role { role: "admin".to_owned() },
    }
}

fn ticket() -> Entity {
    let mut id = column("id", FieldType::Uuid);
    id.primary_key = true;
    id.generated = Some(GeneratedValue::UuidV7);
    let mut title = column("title", FieldType::String);
    title.capabilities.searchable = true;
    title.read_access = Some(AccessRule::Authenticated);
    let mut note = column("note", FieldType::Json);
    note.capabilities.filterable = true;
    Entity {
        id: "ticket".to_owned(),
        rust_name: "SupportTicket".to_owned(),
        table_name: "support_tickets".to_owned(),
        tenant_scoped: false,
        fields: vec![
            id,
            title,
            column("points", FieldType::Integer),
            column("budget", FieldType::Decimal),
            note,
        ],
        workflow: None,
        access: public_access(),
        views: EntityViews { soft_delete: false, aggregates: vec![] },
        audit_enabled: false,
    }
}

fn keyless() -> Entity {
    let mut entity = ticket();
    entity.fields.remove(0);
    entity
}

fn app(entities: Vec<Entity>, commands: Vec<Command>, queries: Vec<Query>) -> AppIr {
    AppIr {
        entities,
        value_objects: vec![ValueObject {
            id: "summary".to_owned(),
            rust_name: "Summary".to_owned(),
            fields: vec![
                ValueField { rust_name: "total".to_owned(), ty: FieldType::Bigint, required: true },
                ValueField { rust_name: "label".to_owned(), ty: FieldType::String, required: false },
            ],
        }],
        auth: AuthConfig { enabled: false, oauth_enabled: false, registration_enabled: true, password_reset_enabled: true, user_entity: None, default_role: None },
        mail: MailConfig { enabled: false, provider: MailProvider::Capture, from: "noreply@example.test".to_owned(), templates: vec![] },
        file: FileConfig { enabled: false, provider: FileProvider::Local, max_bytes: 0, local_root: "uploads".to_owned(), allowed_content_types: vec![] },
        jobs: JobsConfig { enabled: false, poll_interval_ms: 250, lease_seconds: 30, queues: vec![], schedules: vec![] },
        billing: BillingConfig { enabled: false, plans: vec![], trials: false, customer_portal: false },
        webhooks: WebhooksConfig { enabled: false },
        audit: AuditConfig { enabled: false, reader_roles: vec![] },
        tenant: TenantConfig { enabled: false },
        realtime: RealtimeConfig { enabled: false, heartbeat_seconds: 15, presence_ttl_seconds: 45 },
        activity: ActivityConfig { enabled: false, max_comment_bytes: 1000, admin_roles: vec![], resources: vec![], attachments: false },
        report: ReportConfig { enabled: false, max_input_bytes: 0, retention_days: 0, queue: "reports".to_owned(), reader_roles: vec![], templates: vec![] },
        relations: vec![],
        commands,
        queries,
    }
}

fn close_ticket() -> Command {
    Command {
        rust_name: "CloseTicket".to_owned(),
        input: OperationType::Entity { entity: "ticket".to_owned() },
        output: OperationType::ValueObject { value_object: "summary".to_owned() },
        access: AccessRule::Role { role: "agent".to_owned() },
    }
}

fn ticket_stats() -> Query {
    Query {
        rust_name: "TicketStats".to_owned(),
        input: None,
        output: OperationType::ValueObject { value_object: "summary".to_owned() },
        access: AccessRule::Public,
    }
}

#[test]
fn metric_arms_follow_field_types() {
    let arms = metric_arms(&ticket(), "support_ticket").unwrap();
    assert_eq!(arms.len(), 6);
    assert_eq!(
        arms[0],
        "\"count\" | \"count:*\" => { select = select.column_as(support_ticket::Column::Id.count(), \"count\"); }"
    );
    assert!(arms[1].starts_with("\"min:title\" =>"));
    assert_eq!(
        arms[2],
        "\"sum:points\" => { if !field_read_allowed(&context, \"points\") { return Err(access_denied(&context)); } \
         select = select.column_as(support_ticket::Column::Points.sum(), \"sum_points\"); }, \
         \"avg:points\" => { if !field_read_allowed(&context, \"points\") { return Err(access_denied(&context)); } \
         select = select.column_as(support_ticket::Column::Points.avg(), \"avg_points\"); }"
    );
    assert!(arms[3].starts_with("\"min:points\""));
    assert!(arms[4].contains("Column::Budget.sum().cast_as(\"text\"), \"sum_budget\""));
    assert!(arms[5].contains("Column::Budget.max().cast_as(\"text\"), \"max_budget\""));
    assert!(!arms.iter().any(|arm| arm.contains("sum:title")));
    assert_eq!(
        metric_arms(&keyless(), "support_ticket").unwrap_err().to_string(),
        "entity `ticket` has no primary key"
    );
}

#[test]
fn group_arms_skip_json() {
    let arms = group_arms(&ticket(), "support_ticket").unwrap();
    assert_eq!(arms.len(), 4);
    assert_eq!(
        arms[1],
        "\"title\" => { if !field_read_allowed(&context, \"title\") { return Err(access_denied(&context)); } \
         select = select.column_as(support_ticket::Column::Title, \"group_title\").group_by(support_ticket::Column::Title); }"
    );
    assert!(arms[3].contains(
        "sea_orm::sea_query::Expr::col((support_ticket::Entity, support_ticket::Column::Budget)).cast_as(\"text\")"
    ));
    assert!(!arms.iter().any(|arm| arm.contains("\"note\"")));
}

#[test]
fn aggregate_support_assembles_the_endpoint() {
    let mut owned = ticket();
    let mut owner = column("owner_id", FieldType::Relation { target: "user".to_owned() });
    owner.api_name = "owner".to_owned();
    let mut user = ticket();
    user.id = "user".to_owned();
    user.rust_name = "User".to_owned();
    owned.fields.push(owner);
    let ir = app(vec![owned, user], vec![], vec![]);
    let mut scopes = vec![String::new(); 5];
    scopes.push("/* via relation */".to_owned());
    let text = aggregate_support(&ir, &ir.entities[0], "support_ticket", "support_ticket_policy", &scopes).unwrap();
    opens(&text, "use std::collections::BTreeSet; use sea_orm::ExprTrait as _; #[derive(Debug, Default, Deserialize)]");
    contains(&text, "if !state.extensions.support_ticket_policy().can_list(&context).await?");
    contains(&text, "/* via relation */ relation_select = relation_select.filter(user::Column::Points.gte(value));");
    contains(&text, "query.filters.get(\"filter[owner.title]\")");
    contains(&text, "\"sum:budget\"");
    contains(&text, "`limit` must be between 1 and 500");
    let missing = app(vec![keyless()], vec![], vec![]);
    assert_eq!(
        aggregate_support(&missing, &missing.entities[0], "support_ticket", "p", &vec![String::new(); 4]).unwrap_err().to_string(),
        "entity `ticket` has no primary key"
    );
}

#[test]
fn list_support_pages_by_cursor_or_number() {
    let ir = app(vec![ticket()], vec![], vec![]);
    let text = list_support(&ir, &ir.entities[0], "support_ticket", "support_ticket_policy", &vec![String::new(); 5]).unwrap();
    opens(&text, 
        "use appstruct_runtime::{ListMeta, ListQuery, ListResponse, decode_cursor, encode_cursor}; \
         use sea_orm::{ColumnTrait as _, Condition, PaginatorTrait, QueryFilter, QueryOrder}; async fn list("
    );
    contains(&text, "let cursor_value = uuid::Uuid::parse_str(raw_cursor.as_str())");
    contains(&text, "model.id.to_string()");
    contains(&text, "select = select.order_by_asc(support_ticket::Column::Id); }");
}

#[test]
fn write_handlers_check_guards_and_record_events() {
    let mut entity = ticket();
    entity.audit_enabled = true;
    entity.views.soft_delete = true;
    let context = HandlerContext {
        module: "support_ticket".to_owned(),
        hooks: "support_ticket_hooks".to_owned(),
        policy: "support_ticket_policy".to_owned(),
        parse_id: "uuid::Uuid::parse_str(&id).map_err(|_| ApiError::InvalidId)?".to_owned(),
        primary: "id".to_owned(),
        soft_delete: true,
        activity_resource: Some("tickets".to_owned()),
    };
    let text = handlers(&entity, &context, &vec!["id: Set(uuid::Uuid::now_v7())".to_owned()], None, &vec![]).unwrap();
    opens(&text, "async fn read(State(state): State<AppState>");
    contains(&text, "publish_realtime_event(&state, &context, \"support_ticket.created\", &model);");
    contains(&text, "if !(context.actor().is_some()) { return Err(access_denied(&context)); }");
    contains(&text, "if !(context.actor().is_some_and(|actor| actor.has_role(\"admin\"))) {");
    contains(&text, "active.deleted_at = Set(Some(chrono::Utc::now()));");
    contains(&text, "crate::audit::record(&transaction, &context, \"ticket\", deleted.id.to_string()");
    contains(&text, 
        "crate::activity::record_system_event(&transaction, &context, \"tickets\", after.id.to_string(), \"updated\",).await?;"
    );
    assert_eq!(
        audit_event(&ticket(), "id", WriteOperation::Create),
        ""
    );
    assert_eq!(
        write_event(None, "id", WriteOperation::Delete),
        ""
    );
    let mut owned = ticket();
    owned.access.update = AccessRule::Owner { field: "ticket.owner".to_owned() };
    assert_eq!(
        handlers(&owned, &context, &vec![], None, &vec![]).unwrap_err().to_string(),
        "missing owner field `ticket.owner`"
    );
}

#[test]
fn lookup_and_field_helpers() {
    let lookup = lookup_support(&ticket(), "support_ticket", "support_ticket_policy", "Id", "uuid::Uuid::parse_str(&id)").unwrap();
    contains(&lookup, "lookup requires between 1 and 100 IDs");
    contains(&lookup, "select.filter(support_ticket::Column::Id.is_in(ids))");
    let fields = field_support(&ticket(), "support_ticket").unwrap();
    contains(&fields, "match field { \"title\" => context.actor().is_some(),  _ => true, }");
    contains(&fields, 
        "if !field_read_allowed(context, \"title\") { if let serde_json::Value::Object(object) = &mut value { object.remove(\"title\"); } }"
    );
}

#[test]
fn operations_module_routes_commands_and_queries() {
    let empty = app(vec![ticket()], vec![], vec![]);
    assert_eq!(
        operations_source(&empty, "// generated\n").unwrap(),
        "// generated\nuse crate :: AppState ; use axum :: Router ; pub fn router () -> Router < AppState > { Router :: new () }"
    );
    let ir = app(vec![ticket()], vec![close_ticket()], vec![ticket_stats()]);
    let text = operations_source(&ir, "").unwrap();
    contains(&text, 
        "pub fn router() -> Router<AppState> { Router::new() .route(\"/api/commands/close-ticket\", axum::routing::post(close_ticket)) "
    );
    contains(&text, ".route(\"/api/queries/ticket-stats\", axum::routing::get(ticket_stats))  }");
    contains(&text, "axum::Json(input): axum::Json<entities::support_ticket::Model>,) -> Result<axum::Json<Summary>, ApiError>");
    contains(&text, "if !(context.actor().is_some_and(|actor| actor.has_role(\"agent\"))) { return Err(access_denied(&context)); }");
    contains(&text, "let output = TicketStatsHandler::execute(state.extensions.handlers(), &context).await?;");
    let mut broken = close_ticket();
    broken.output = OperationType::ValueObject { value_object: "gone".to_owned() };
    let ir = app(vec![ticket()], vec![broken], vec![]);
    assert_eq!(operations_source(&ir, "").unwrap_err().to_string(), "missing value object `gone`");
}

#[test]
fn extensions_module_declares_contracts_and_registry() {
    let ir = app(vec![ticket()], vec![close_ticket()], vec![ticket_stats()]);
    let text = extensions_source(&ir, "// header\n").unwrap();
    opens(&text, "// header\nuse crate::{ApiError, api, entities};");
    contains(&text, "pub struct Summary { pub total: i64, pub label: Option<String>,  }");
    contains(&text, "pub trait SupportTicketHooks: Send + Sync {");
    contains(&text, "struct DefaultSupportTicketPolicy;");
    contains(&text, "pub trait RequiredHandlers: Send + Sync + CloseTicketHandler + TicketStatsHandler {}");
    contains(&text, "pub fn builder() -> AppExtensionsBuilder<Missing>");
    let traits = handler_traits(&app(vec![], vec![], vec![])).unwrap();
    assert_eq!(
        traits,
        " pub trait RequiredHandlers: Send + Sync {} impl<T> RequiredHandlers for T where T: Send + Sync {}"
    );
    let plain = registry(&app(vec![ticket()], vec![], vec![]));
    contains(&plain, "pub struct DefaultHandlers;");
    contains(&plain, "support_ticket_hooks: Arc::new(DefaultSupportTicketHooks), support_ticket_policy: Arc::new(DefaultSupportTicketPolicy),");
    let mut bad = ValueObject { id: "v".to_owned(), rust_name: "Value".to_owned(), fields: vec![] };
    bad.fields.push(ValueField { rust_name: "type".to_owned(), ty: FieldType::Text, required: true });
    assert!(value_object(&bad).unwrap_err().to_string().starts_with("invalid Rust identifier `type`: "));
}

#[test]
fn render_refuses_blank_sources() {
    assert_eq!(render(" \n\t", "// h\n").unwrap_err().to_string(), "generated Rust source was empty");
    assert_eq!(render("mod a;", "// h\n").unwrap(), "// h\nmod a ;");
    assert_eq!(render("// only a comment", "// h\n").unwrap_err().to_string(), "generated Rust source was empty");
    assert!(render("fn broken( {", "// h\n").is_err());
}

#[test]
fn render_prints_tokens_as_proc_macro2_does() {
    assert_eq!(
        render("pub fn router() -> Router<AppState> { Router::new() }", "// h\n").unwrap(),
        "// h\npub fn router () -> Router < AppState > { Router :: new () }"
    );
    assert_eq!(render("let x = vec![1, 2];   x.len()", "").unwrap(), "let x = vec ! [1 , 2] ; x . len ()");
    assert_eq!(
        render("x.unwrap_or_else(|| \"\\u{2d}\" 7i32) - 2i64", "// h\n").unwrap(),
        "// h\nx . unwrap_or_else (|| -7i32) - 2i64"
    );
    assert_eq!(render("f(\"a\\\\u{2d}\" 1)", "").unwrap(), "f (\"a\\\\u{2d}\" 1)");
}

#[test]
fn bulk_endpoints_follow_the_entity() {
    let source = BulkSource {
        module: "support_ticket".to_owned(),
        primary: "id".to_owned(),
        hooks: "support_ticket_hooks".to_owned(),
        policy: "support_ticket_policy".to_owned(),
        list_scope: "".to_owned(),
        create_allowed: "true".to_owned(),
        delete_allowed: "true".to_owned(),
        update_allowed: "true".to_owned(),
        create_values: vec![],
        active_default: None,
        updates: vec![],
        trash_scope: "/* trash */".to_owned(),
        restore_scope: "/* restore */".to_owned(),
    };
    let text = bulk_source(&ticket(), &source).unwrap();
    opens(&text, "use appstruct_runtime::{ BulkDeleteInput,");
    contains(&text, "let columns = [(\"id\", \"id\"), (\"title\", \"title\"), (\"points\", \"points\"), (\"budget\", \"budget\"), (\"note\", \"note\")]");
    contains(&text, "let expected = [\"id\", \"title\", \"points\", \"budget\", \"note\"];");
    contains(&text, "\"points\" => { object.insert(\"points\".to_owned(), csv_json_value(raw, \"integer\")); }");
    lacks(&text, "\"id\" => { object.insert");
    lacks(&text, "/* trash */");
    let mut soft = ticket();
    soft.views.soft_delete = true;
    let text = bulk_source(&soft, &source).unwrap();
    contains(&text, "async fn restore(");
    contains(&text, "/* trash */");
    assert_eq!(bulk_source(&keyless(), &source).unwrap_err().to_string(), "entity must define a primary key");
    assert_eq!(bulk_parse_id_expression(&ticket().fields[2]), "id_text.parse::<i32>().map_err(|_| ApiError::InvalidId)");
}

#[test]
fn library_root_nests_entity_routers() {
    let mut ir = app(vec![ticket()], vec![], vec![]);
    let text = library_source(&ir, "// h\n", "fn start_hooks() {}", 3).unwrap();
    opens(&text, "// h\npub mod api;");
    contains(&text, "pub const GENERATED_RUNTIME_API_VERSION: u32 = 3u32;");
    contains(&text, ".nest(\"/api/support_tickets/\", api::support_ticket::router())");
    contains(&text, "pub use auth::AuthState;");
    contains(&text, "fn start_hooks() {}");
    assert!(!service_exports(&ir).contains("MailJobHandler"));
    ir.jobs.enabled = true;
    ir.mail.enabled = true;
    assert!(service_exports(&ir).contains("pub use jobs::{MailJobHandler, MailJobPayload};"));
}

fn file_text(artifacts: &[appstruct_codegen::Artifact], path: &str) -> String {
    assert_eq!(artifacts.len(), 1);
    assert_eq!(artifacts[0].relative_path, path);
    String::from_utf8(artifacts[0].content.clone()).unwrap()
}

#[test]
fn jobs_module_follows_configuration() {
    let mut ir = app(vec![], vec![], vec![]);
    let off = jobs_plan(&ir, "// h\n").unwrap();
    let text = file_text(&off, "backend/src/jobs.rs");
    opens(&text, "// h\nuse async_trait::async_trait;");
    contains(&text, "#[derive(Debug)] pub enum JobError { Disabled }");
    ir.jobs.enabled = true;
    ir.jobs.poll_interval_ms = 500;
    ir.jobs.lease_seconds = u64::MAX;
    ir.jobs.queues = vec![
        JobQueue { name: "mail".to_owned(), max_attempts: 5, backoff_seconds: 60 },
        JobQueue { name: "bulk".to_owned(), max_attempts: u64::MAX, backoff_seconds: u64::MAX },
    ];
    let text = file_text(&jobs_plan(&ir, "").unwrap(), "backend/src/jobs.rs");
    contains(&text, "\"mail\" => Some(QueueConfig { max_attempts: 5i32, backoff_seconds: 60i64 }), ");
    contains(&text, "\"bulk\" => Some(QueueConfig { max_attempts: 100i32, backoff_seconds: 3600i64 }), ");
    contains(&text, "Duration::from_millis(500u64)");
    contains(&text, "&self.worker_id, 30i64,");
    lacks(&text, "MailJobHandler");
    ir.mail.enabled = true;
    let text = file_text(&jobs_plan(&ir, "").unwrap(), "backend/src/jobs.rs");
    contains(&text, "MailJobHandler");
}

#[test]
fn file_module_follows_configuration() {
    let mut ir = app(vec![], vec![], vec![]);
    let text = file_text(&file_plan(&ir, "").unwrap(), "backend/src/file.rs");
    contains(&text, "#[derive(Debug)] pub enum FileError { Disabled }");
    ir.file.enabled = true;
    ir.file.max_bytes = 2048;
    ir.file.allowed_content_types = vec!["image/png".to_owned(), "text/plain".to_owned()];
    let text = file_text(&file_plan(&ir, "").unwrap(), "backend/src/file.rs");
    contains(&text, "allowed_content_types: Arc::new(vec![\"image/png\".to_owned(), \"text/plain\".to_owned()]),");
    contains(&text, "if size > 2048u64 { return Err(FileError::TooLarge { size, max: 2048u64 }); }");
    contains(&text, "unwrap_or_else(|_| \"uploads\".to_owned())");
    ir.file.provider = FileProvider::S3;
    let text = file_text(&file_plan(&ir, "").unwrap(), "backend/src/file.rs");
    contains(&text, "AmazonS3Builder::new()");
}

#[test]
fn mail_module_follows_configuration() {
    let mut ir = app(vec![], vec![], vec![]);
    let text = file_text(&mail_plan(&ir, "").unwrap(), "backend/src/mail.rs");
    lacks(&text, "minijinja");
    ir.mail.enabled = true;
    ir.mail.templates = vec![MailTemplate {
        name: "welcome".to_owned(),
        subject: "Hi {{ name }}".to_owned(),
        text: "Welcome".to_owned(),
        html: None,
    }];
    let text = file_text(&mail_plan(&ir, "").unwrap(), "backend/src/mail.rs");
    contains(&text, "\"welcome\" => Some(MailTemplate { name: \"welcome\", subject: \"Hi {{ name }}\", text: \"Welcome\", html: None }), ");
    contains(&text, "capture mail provider is forbidden in production");
    lacks(&text, "fn required(name: &str)");
    ir.mail.provider = MailProvider::Smtp;
    let text = file_text(&mail_plan(&ir, "").unwrap(), "backend/src/mail.rs");
    contains(&text, "Arc::new(SmtpProvider::from_env()?) as Arc<dyn MailProvider>");
    contains(&text, "fn required(name: &str)");
}

#[test]
fn audit_module_follows_configuration() {
    let mut ir = app(vec![ticket()], vec![], vec![]);
    let text = file_text(&audit_plan(&ir, "").unwrap(), "backend/src/audit.rs");
    assert_eq!(squash(&text), squash("use crate::AppState; use axum::Router; pub fn router() -> Router<AppState> { Router::new() }"));
    ir.audit.enabled = true;
    ir.audit.reader_roles = vec!["auditor".to_owned(), "admin".to_owned()];
    let text = file_text(&audit_plan(&ir, "").unwrap(), "backend/src/audit.rs");
    contains(&text, "false || actor.has_role(\"auditor\") || actor.has_role(\"admin\") ");
    lacks(&text, "record_with_metadata");
    contains(&text, "WHERE ($1::text IS NULL OR entity = $1)");
    ir.tenant.enabled = true;
    let text = file_text(&audit_plan(&ir, "").unwrap(), "backend/src/audit.rs");
    contains(&text, "let tenant = context.require_tenant()?;");
}

#[test]
fn realtime_module_follows_configuration() {
    let mut ir = app(vec![ticket()], vec![], vec![]);
    ir.realtime.enabled = true;
    ir.realtime.heartbeat_seconds = 20;
    let text = file_text(&realtime_plan(&ir, "").unwrap(), "backend/src/realtime.rs");
    contains(&text, "\"support_tickets\" => crate::api::support_ticket::authorize_realtime_scope(state, context, record_id,).await, ");
    contains(&text, "\"support_ticket\" => Some(\"support_tickets\"), ");
    contains(&text, "Duration::from_secs(20u64)");
    contains(&text, "45i64.into()");
    let mut bad = ticket();
    bad.rust_name = "Type".to_owned();
    ir.entities = vec![bad];
    assert!(realtime_plan(&ir, "").unwrap_err().to_string().starts_with("invalid Rust identifier `type`: "));
}

#[test]
fn auth_configuration_names_the_user_table() {
    let mut user = ticket();
    user.id = "user".to_owned();
    user.table_name = "users".to_owned();
    user.fields.push(column("email", FieldType::String));
    user.fields[0].column_name = "user_id".to_owned();
    let mut ir = app(vec![user, ticket()], vec![], vec![]);
    ir.auth.enabled = true;
    ir.auth.user_entity = Some("user".to_owned());
    ir.auth.default_role = Some("member".to_owned());
    ir.jobs.enabled = true;
    let text = auth_config_source(&ir, "// h\n").unwrap();
    assert_eq!(squash(&text), squash("// h\npub const REGISTRATION_ENABLED: bool = true; pub const PASSWORD_RESET_ENABLED: bool = true; \
         #[allow(dead_code)] pub const OAUTH_ENABLED: bool = false; pub const JOBS_ENABLED: bool = true; \
         pub const WEBHOOKS_ENABLED: bool = false; pub const MAIL_ENABLED: bool = false; \
         pub const FILE_ENABLED: bool = false; pub const TENANT_ENABLED: bool = false; \
         pub const AUDIT_ENABLED: bool = false; pub const SAVED_VIEW_RESOURCES: &[&str] = &[\"user\", \"ticket\"]; \
         pub const DEFAULT_ROLE: &str = \"member\"; pub const USER_TABLE: &str = \"users\"; \
         pub const USER_ID_COLUMN: &str = \"user_id\"; pub const USER_EMAIL_COLUMN: &str = \"email\";"));
    ir.auth.user_entity = Some("account".to_owned());
    assert_eq!(auth_config_source(&ir, "").unwrap_err().to_string(), "missing entity `account`");
    opens(&disabled_auth_source("").unwrap(), "use crate::{Actor, ApiError, AppState};");
}

#[test]
fn relation_fields_link_models() {
    let mut comment = ticket();
    comment.id = "comment".to_owned();
    comment.rust_name = "Comment".to_owned();
    comment.table_name = "comments".to_owned();
    let mut ticket_id = column("ticket_id", FieldType::Relation { target: "ticket".to_owned() });
    ticket_id.id = "comment.ticket_id".to_owned();
    comment.fields.push(ticket_id);
    let mut ir = app(vec![ticket(), comment], vec![], vec![]);
    ir.relations = vec![Relation {
        id: "comment_ticket".to_owned(),
        source: "comment".to_owned(),
        target: "ticket".to_owned(),
        foreign_key_fields: vec!["comment.ticket_id".to_owned()],
        cardinality: Cardinality::ManyToOne,
    }];
    assert_eq!(
        relation_fields(&ir, &ir.entities[1]).unwrap(),
        vec!["#[sea_orm(belongs_to, from = \"ticket_id\", to = \"id\")] pub ticket: BelongsTo<super::support_ticket::Entity>".to_owned()]
    );
    assert_eq!(
        relation_fields(&ir, &ir.entities[0]).unwrap(),
        vec!["#[sea_orm(has_many)] pub comments: HasMany<super::comment::Entity>".to_owned()]
    );
    ir.relations[0].cardinality = Cardinality::OneToOne;
    assert_eq!(
        relation_fields(&ir, &ir.entities[0]).unwrap(),
        vec!["#[sea_orm(has_one)] pub comment: HasOne<super::comment::Entity>".to_owned()]
    );
    ir.relations[0].foreign_key_fields = vec![];
    assert_eq!(
        relation_fields(&ir, &ir.entities[1]).unwrap_err().to_string(),
        "missing field for `comment_ticket`"
    );
}

#[test]
fn bulk_activity_names_the_changed_record() {
    assert_eq!(
        bulk_activity_event(Some("tickets"), "id", BulkChange::Delete),
        "crate::activity::record_system_event(&savepoint, &context, \"tickets\", deleted.id.to_string(), \"deleted\",).await?;"
    );
    assert_eq!(
        bulk_activity_event(Some("tickets"), "id", BulkChange::Restore),
        "crate::activity::record_system_event(&savepoint, &context, \"tickets\", after.id.to_string(), \"restored\",).await?;"
    );
    assert!(bulk_activity_event(Some("tickets"), "id", BulkChange::Create).contains("model.id.to_string(), \"created\""));
    assert_eq!(bulk_activity_event(None, "id", BulkChange::Update), "");
}
