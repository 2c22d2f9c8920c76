use appstruct_codegen::report::{create_routes, read_routes, report_contract, report_lifecycle, report_plan};
use appstruct_codegen::{
    AccessRule, ActivityConfig, AppIr, AuditConfig, AuthConfig, BillingConfig, Entity, EntityAccess,
    EntityViews, FileConfig, FileProvider, JobsConfig, MailConfig, MailProvider, RealtimeConfig, ReportConfig, ReportTemplate, TenantConfig,
    WebhooksConfig,
};

const HEADER: &str = "// header\n";

/// The text without its whitespace: generated sources are compared token by
/// token, and the token printer decides their spacing.
fn squash(text: &str) -> String {
    text.chars().filter(|c| !c.is_whitespace()).collect()
}

fn has(text: &str, part: &str) {
    assert!(squash(text).contains(&squash(part)), "missing {part:?}");
}

fn entity(id: &str, rust_name: &str) -> Entity {
    Entity {
        id: id.to_owned(),
        rust_name: rust_name.to_owned(),
        table_name: format!("{id}s"),
        tenant_scoped: false,
        fields: vec![],
        workflow: None,
        access: EntityAccess {
            list: AccessRule::Public,
            read: AccessRule::Public,
            create: AccessRule::Public,
            update: AccessRule::Public,
            delete: AccessRule::Public,
        },
        views: EntityViews { soft_delete: false, aggregates: vec![] },
        audit_enabled: false,
    }
}

fn app(enabled: bool, audit: bool) -> AppIr {
    AppIr {
        entities: vec![entity("ticket", "SupportTicket"), entity("note", "Note")],
        value_objects: vec![],
        auth: AuthConfig { enabled: false, oauth_enabled: false, registration_enabled: false, password_reset_enabled: false, user_entity: None, default_role: None },
        mail: MailConfig { enabled: false, provider: MailProvider::Capture, from: "noreply@example.test".to_owned(), templates: vec![] },
        file: FileConfig { enabled: true, provider: FileProvider::Local, max_bytes: 0, local_root: "uploads".to_owned(), allowed_content_types: vec![] },
        jobs: JobsConfig { enabled: false, poll_interval_ms: 250, lease_seconds: 30, queues: vec![], schedules: vec![] },
        billing: BillingConfig { enabled: false, plans: vec![], trials: false, customer_portal: false },
        webhooks: WebhooksConfig { enabled: false },
        audit: AuditConfig { enabled: audit, reader_roles: vec![] },
        tenant: TenantConfig { enabled: false },
        realtime: RealtimeConfig { enabled: false, heartbeat_seconds: 15, presence_ttl_seconds: 45 },
        activity: ActivityConfig { enabled: false, max_comment_bytes: 1000, admin_roles: vec![], resources: vec![], attachments: false },
        report: ReportConfig {
            enabled,
            max_input_bytes: 65536,
            retention_days: 30,
            queue: "reports".to_owned(),
            reader_roles: vec!["auditor".to_owned()],
            templates: vec![ReportTemplate {
                name: "invoice".to_owned(),
                version: 2,
                body: "Total: {{ total }}".to_owned(),
                artifact_digest: "sha256:ab".to_owned(),
                input_schema: "{\"type\":\"object\"}".to_owned(),
                data_schema_version: 1,
            }],
        },
        relations: vec![],
        commands: vec![],
        queries: vec![],
    }
}

#[test]
fn disabled_reports_offer_an_empty_router() {
    let artifacts = report_plan(&app(false, false), HEADER).unwrap();
    assert_eq!(artifacts.len(), 1);
    assert_eq!(artifacts[0].relative_path, "backend/src/report.rs");
    assert_eq!(squash(&String::from_utf8(artifacts[0].content.clone()).unwrap()), squash("// header\nuse crate::AppState; use axum::Router; pub fn router() -> Router<AppState> { Router::new() }"));
}

#[test]
fn report_settings_become_typed_constants() {
    let text = report_contract(&app(true, false));
    assert!(text.starts_with("const REPORT_QUEUE: &str = \"reports\"; const REPORT_MAX_INPUT_BYTES: u64 = 65536u64; const REPORT_RETENTION_DAYS: u32 = 30u32;"));
    has(
        &text,
        "&[ReportTemplateConfig { name: \"invoice\", version: 2u32, body: \"Total: {{ total }}\", artifact_digest: \"sha256:ab\", input_schema: \"{\\\"type\\\":\\\"object\\\"}\", data_schema_version: 1u32, }]",
    );
    has(&text, "context.actor().is_some_and(|actor| false || actor.has_role(\"auditor\")) }");
}

#[test]
fn report_runs_are_audited_where_auditing_is_on() {
    assert!(create_routes(true).contains("\"report.create\", None, Some(&run),).await?;"));
    assert!(!create_routes(false).contains("crate::audit::record("));
    let read = read_routes(true);
    has(&read, "\"report.cancel\", Some(&before), Some(&after),).await?;");
    has(&read, "\"report.download\", Some(&run), Some(&run),).await?;");
    assert!(!read_routes(false).contains("crate::audit::record("));
}

#[test]
fn enabled_reports_assemble_every_part() {
    let artifacts = report_plan(&app(true, true), HEADER).unwrap();
    let text = String::from_utf8(artifacts[0].content.clone()).unwrap();
    assert!(squash(&text).starts_with(&squash("// header\nuse crate::{ApiError, AppState, RequestContext};")));
    has(&text, "fn sha256_hex(bytes: &[u8]) -> String");
    has(&text, ".route(\"/api/reports/runs/{id}/download\", get(download_run))");
    has(&text, "async fn cleanup_expired_reports(");
    has(&text, "\"report.create\"");
}

#[test]
fn report_lifecycle_classifies_retries() {
    let text = report_lifecycle();
    assert!(text.starts_with("pub(crate) fn retryable_job_error(kind: &str, code: &str) -> bool"));
    has(&text, "async fn publish_report(");
}
