use appstruct_codegen::activity::{activity_plan, attachment_support, enabled_activity_source};
use appstruct_codegen::{
    AccessRule, ActivityConfig, ActivityResource, AppIr, AuditConfig, AuthConfig, BillingConfig, Entity, EntityAccess,
    EntityViews, FileConfig, FileProvider, JobsConfig, MailConfig, MailProvider, RealtimeConfig, ReportConfig, TenantConfig,
    WebhooksConfig,
};

const HEADER: &str = "// header\n";

/// The text without its whitespace: generated sources are compared token by
/// token, and the token printer decides their spacing.
fn squash(text: &str) -> String {
    text.chars().filter(|c| !c.is_whitespace()).collect()
}

fn has(text: &str, part: &str) {
    assert!(squash(text).contains(&squash(part)), "missing {part:?}");
}

fn entity(id: &str, rust_name: &str) -> Entity {
    Entity {
        id: id.to_owned(),
        rust_name: rust_name.to_owned(),
        table_name: format!("{id}s"),
        tenant_scoped: false,
        fields: vec![],
        workflow: None,
        access: EntityAccess {
            list: AccessRule::Public,
            read: AccessRule::Public,
            create: AccessRule::Public,
            update: AccessRule::Public,
            delete: AccessRule::Public,
        },
        views: EntityViews { soft_delete: false, aggregates: vec![] },
        audit_enabled: false,
    }
}

fn app(enabled: bool, attachments: bool, max_bytes: u64) -> AppIr {
    AppIr {
        entities: vec![entity("ticket", "SupportTicket"), entity("note", "Note")],
        value_objects: vec![],
        auth: AuthConfig { enabled: false, oauth_enabled: false, registration_enabled: false, password_reset_enabled: false, user_entity: None, default_role: None },
        mail: MailConfig { enabled: false, provider: MailProvider::Capture, from: "noreply@example.test".to_owned(), templates: vec![] },
        file: FileConfig { enabled: true, provider: FileProvider::Local, max_bytes, local_root: "uploads".to_owned(), allowed_content_types: vec![] },
        jobs: JobsConfig { enabled: false, poll_interval_ms: 250, lease_seconds: 30, queues: vec![], schedules: vec![] },
        billing: BillingConfig { enabled: false, plans: vec![], trials: false, customer_portal: false },
        webhooks: WebhooksConfig { enabled: false },
        audit: AuditConfig { enabled: false, reader_roles: vec![] },
        tenant: TenantConfig { enabled: false },
        realtime: RealtimeConfig { enabled: false, heartbeat_seconds: 15, presence_ttl_seconds: 45 },
        activity: ActivityConfig {
            enabled,
            max_comment_bytes: 1000,
            admin_roles: vec!["admin".to_owned(), "moderator".to_owned()],
            resources: vec![
                ActivityResource { entity: "ticket".to_owned(), resource: "tickets".to_owned() },
                ActivityResource { entity: "note".to_owned(), resource: "notes".to_owned() },
            ],
            attachments,
        },
        report: ReportConfig { enabled: false, max_input_bytes: 0, retention_days: 0, queue: "reports".to_owned(), reader_roles: vec![], templates: vec![] },
        relations: vec![],
        commands: vec![],
        queries: vec![],
    }
}

#[test]
fn disabled_activity_offers_an_empty_router() {
    let artifacts = activity_plan(&app(false, false, 0), HEADER).unwrap();
    assert_eq!(artifacts.len(), 1);
    assert_eq!(artifacts[0].relative_path, "backend/src/activity.rs");
    assert_eq!(squash(&String::from_utf8(artifacts[0].content.clone()).unwrap()), squash("// header\nuse crate::AppState; use axum::Router; pub fn router() -> Router<AppState> { Router::new() }"));
}

#[test]
fn activity_routes_each_resource_to_its_entity() {
    let text = enabled_activity_source(&app(true, false, 0), HEADER).unwrap();
    assert!(squash(&text).starts_with(&squash("// header\nuse crate::{ApiError, AppState, RequestContext};")));
    has(&text, "\"tickets\" => crate::api::support_ticket::authorize_activity_target(state, context, record_id,).await, ");
    has(&text, "\"notes\" => crate::api::note::authorize_activity_target(state, context, record_id,).await, ");
    has(&text, "match resource { \"tickets\" | \"notes\" => {}");
    has(&text, "if !(false || actor.has_role(\"admin\") || actor.has_role(\"moderator\")) { return Err(ApiError::Forbidden); }");
    has(&text, "sanitize_text(&input.body, 1000u32, \"comment\")");
    has(&text, "let attachment_file_id: Option<uuid::Uuid> = None;");
    has(&text, "NULL::text AS attachment_object_key FROM \\\"_appstruct_activity_entries\\\" e ");
    assert!(!text.contains("download_attachment"));
}

#[test]
fn attachments_are_refused_above_the_encoded_limit() {
    let support = attachment_support(&app(true, true, 3000));
    has(&support.create, "> 4008u64 {");
    assert_eq!(
        support.route,
        ".route(\"/api/activity/{resource}/{record_id}/{entry_id}/attachment\", get(download_attachment),)"
    );
    let saturated = attachment_support(&app(true, true, u64::MAX));
    has(&saturated.create, "> 6148914691236517213u64 {");
    let none = attachment_support(&app(true, false, 3000));
    assert_eq!(none.route, "");
    assert_eq!(none.download, "");
    let text = enabled_activity_source(&app(true, true, 3000), HEADER).unwrap();
    has(&text, "LEFT JOIN \\\"_appstruct_files\\\" f ON f.id = e.attachment_file_id ");
    has(&text, "async fn download_attachment(");
}

#[test]
fn activity_entities_need_identifier_modules() {
    let mut ir = app(true, false, 0);
    ir.entities[1].rust_name = "9Lives".to_owned();
    let error = activity_plan(&ir, HEADER).unwrap_err();
    assert!(error.to_string().starts_with("invalid Rust identifier `"));
}
