use appstruct_codegen::scheduling::{dispatch_source, gate_source, gate_wait_source, lease_source, persistence_source, run_once_source, schedule_definitions};
use appstruct_codegen::{
    AccessRule, ActivityConfig, AppIr, AuditConfig, AuthConfig, BillingConfig, Entity, EntityAccess,
    EntityViews, FileConfig, FileProvider, JobsConfig, MailConfig, MailProvider, RealtimeConfig, JobSchedule, ReportConfig, TenantConfig,
    WebhooksConfig,
};

fn has(text: &str, part: &str) {
    assert!(text.contains(part), "missing {part:?}");
}

fn entity(id: &str, rust_name: &str) -> Entity {
    Entity {
        id: id.to_owned(),
        rust_name: rust_name.to_owned(),
        table_name: format!("{id}s"),
        tenant_scoped: false,
        fields: vec![],
        workflow: None,
        access: EntityAccess {
            list: AccessRule::Public,
            read: AccessRule::Public,
            create: AccessRule::Public,
            update: AccessRule::Public,
            delete: AccessRule::Public,
        },
        views: EntityViews { soft_delete: false, aggregates: vec![] },
        audit_enabled: false,
    }
}

fn app(mail: bool, reports: bool) -> AppIr {
    AppIr {
        entities: vec![entity("ticket", "SupportTicket"), entity("note", "Note")],
        value_objects: vec![],
        auth: AuthConfig { enabled: false, oauth_enabled: false, registration_enabled: false, password_reset_enabled: false, user_entity: None, default_role: None },
        mail: MailConfig { enabled: mail, provider: MailProvider::Capture, from: "noreply@example.test".to_owned(), templates: vec![] },
        file: FileConfig { enabled: true, provider: FileProvider::Local, max_bytes: 0, local_root: "uploads".to_owned(), allowed_content_types: vec![] },
        jobs: JobsConfig { enabled: false, poll_interval_ms: 250, lease_seconds: 30, queues: vec![],
            schedules: vec![
                JobSchedule {
                    name: "digest".to_owned(),
                    cron: "0 8 * * *".to_owned(),
                    interval_seconds: None,
                    queue: "default".to_owned(),
                    kind: "digest.send".to_owned(),
                    payload: "{}".to_owned(),
                },
                JobSchedule {
                    name: "tick".to_owned(),
                    cron: String::new(),
                    interval_seconds: Some(60),
                    queue: "default".to_owned(),
                    kind: "tick".to_owned(),
                    payload: "{\"n\":1}".to_owned(),
                },
                JobSchedule {
                    name: "rare".to_owned(),
                    cron: String::new(),
                    interval_seconds: Some(u64::MAX),
                    queue: "default".to_owned(),
                    kind: "rare".to_owned(),
                    payload: "{}".to_owned(),
                },
            ],
        },
        billing: BillingConfig { enabled: false, plans: vec![], trials: false, customer_portal: false },
        webhooks: WebhooksConfig { enabled: false },
        audit: AuditConfig { enabled: false, reader_roles: vec![] },
        tenant: TenantConfig { enabled: false },
        realtime: RealtimeConfig { enabled: false, heartbeat_seconds: 15, presence_ttl_seconds: 45 },
        activity: ActivityConfig { enabled: false, max_comment_bytes: 1000, admin_roles: vec![], resources: vec![], attachments: false },
        report: ReportConfig { enabled: reports, max_input_bytes: 0, retention_days: 0, queue: "reports".to_owned(), reader_roles: vec![], templates: vec![] },
        relations: vec![],
        commands: vec![],
        queries: vec![],
    }
}

#[test]
fn schedules_list_cron_or_interval() {
    let text = schedule_definitions(&app(false, false));
    has(&text, "ScheduleConfig { name: \"digest\", cron: \"0 8 * * *\", interval_seconds: None, queue: \"default\", kind: \"digest.send\", payload: \"{}\", }, ");
    has(&text, "interval_seconds: Some(60i64), queue: \"default\", kind: \"tick\", payload: \"{\\\"n\\\":1}\", }");
    has(&text, "name: \"rare\", cron: \"\", interval_seconds: Some(86400i64),");
    assert!(!text.contains("_appstruct_report_retention"));
    let text = schedule_definitions(&app(false, true));
    has(&text, "name: \"_appstruct_report_retention\", cron: \"@every 24h\", interval_seconds: Some(86_400), queue: \"reports\",");
    assert!(text.ends_with("] }"));
}

#[test]
fn leases_renew_every_third_of_their_length() {
    let text = lease_source(30);
    has(&text, "Duration::from_millis(10000i64 as u64)");
    has(&text, "job.attempts.into(), 30i64.into()]");
    has(&lease_source(0), "Duration::from_millis(100i64 as u64)");
    let negative = lease_source(-5);
    has(&negative, "Duration::from_millis(100i64 as u64)");
    has(&negative, "\"\\u{2d}\" 5i64.into()");
    has(&run_once_source(45), "&self.database, &self.worker_id, 45i64, self.kind.as_deref(),");
}

#[test]
fn worker_gate_polls_at_the_interval() {
    has(&gate_wait_source(250), "tokio::time::sleep(Duration::from_millis(250u64))");
    has(&gate_source(), "fn test_worker_gate_open() -> bool { true }");
    has(&persistence_source(), "async fn schedule_due(database: &DatabaseConnection)");
}

#[test]
fn generated_jobs_go_to_their_handlers() {
    assert!(dispatch_source(&app(false, false)).is_none());
    let mail = dispatch_source(&app(true, false)).unwrap();
    has(&mail, "custom: Option<Arc<dyn JobHandler>>, mail: MailJobHandler, ");
    has(&mail, "let _ = database;");
    has(&mail, "let _ = file;");
    assert!(!mail.contains("ReportJobHandler"));
    let both = dispatch_source(&app(true, true)).unwrap();
    has(&both, "Arc::new(GeneratedJobHandler { custom, mail: MailJobHandler::new(mail), report: crate::report::ReportJobHandler::new(database, file), })");
    assert!(!both.contains("let _ ="));
}
