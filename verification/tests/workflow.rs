use appstruct_codegen::workflow::workflow_support;
use appstruct_codegen::write::HandlerContext;
use appstruct_codegen::{
    AccessRule, ActivityConfig, ReportConfig, AppIr, AuditConfig, AuthConfig, BillingConfig, Entity, EntityAccess, EntityViews, Field, FieldCapabilities,
    FieldType, FileConfig, FileProvider, GeneratedValue, JobsConfig, MailConfig, MailProvider, RealtimeConfig, TenantConfig,
    Transition, ValueField, ValueObject, WebhooksConfig, Workflow,
};

fn has(text: &str, part: &str) {
    assert!(text.contains(part), "missing {part:?}");
}

fn field(name: &str, ty: FieldType) -> Field {
    Field {
        id: format!("ticket.{name}"),
        rust_name: name.to_owned(),
        api_name: name.to_owned(),
        column_name: name.to_owned(),
        ty,
        nullable: false,
        primary_key: false,
        unique: false,
        generated: None,
        default: None,
        read_access: None,
        write_access: None,
        capabilities: FieldCapabilities { filterable: false, searchable: false, sortable: false },
    }
}

fn transitions() -> Vec<Transition> {
    vec![
        Transition { name: "close".to_owned(), from: vec!["open".to_owned()], to: "closed".to_owned(), input: None },
        Transition {
            name: "reopen_now".to_owned(),
            from: vec!["closed".to_owned(), "archived".to_owned()],
            to: "open".to_owned(),
            input: Some("reason".to_owned()),
        },
    ]
}

fn ticket(workflow: Option<Workflow>) -> Entity {
    let mut id = field("id", FieldType::Uuid);
    id.primary_key = true;
    id.generated = Some(GeneratedValue::UuidV7);
    Entity {
        id: "ticket".to_owned(),
        rust_name: "SupportTicket".to_owned(),
        table_name: "support_tickets".to_owned(),
        tenant_scoped: false,
        fields: vec![id, field("status", FieldType::String)],
        workflow,
        access: EntityAccess {
            list: AccessRule::Public,
            read: AccessRule::Public,
            create: AccessRule::Authenticated,
            update: AccessRule::Authenticated,
            delete: AccessRule::Authenticated,
        },
        views: EntityViews { soft_delete: false, aggregates: vec![] },
        audit_enabled: false,
    }
}

fn with_workflow() -> Entity {
    ticket(Some(Workflow { field: "ticket.status".to_owned(), initial: "open".to_owned(), transitions: transitions() }))
}

fn app(reason: &str, webhooks: bool) -> AppIr {
    AppIr {
        entities: vec![],
        value_objects: vec![ValueObject {
            id: "reason".to_owned(),
            rust_name: reason.to_owned(),
            fields: vec![ValueField { rust_name: "text".to_owned(), ty: FieldType::String, required: true }],
        }],
        auth: AuthConfig { enabled: false, oauth_enabled: false, registration_enabled: false, password_reset_enabled: false, user_entity: None, default_role: None },
        mail: MailConfig { enabled: false, provider: MailProvider::Capture, from: "noreply@example.test".to_owned(), templates: vec![] },
        file: FileConfig { enabled: false, provider: FileProvider::Local, max_bytes: 0, local_root: "uploads".to_owned(), allowed_content_types: vec![] },
        jobs: JobsConfig { enabled: false, poll_interval_ms: 250, lease_seconds: 30, queues: vec![], schedules: vec![] },
        billing: BillingConfig { enabled: false, plans: vec![], trials: false, customer_portal: false },
        webhooks: WebhooksConfig { enabled: webhooks },
        audit: AuditConfig { enabled: false, reader_roles: vec![] },
        tenant: TenantConfig { enabled: false },
        realtime: RealtimeConfig { enabled: false, heartbeat_seconds: 15, presence_ttl_seconds: 45 },
        activity: ActivityConfig { enabled: false, max_comment_bytes: 1000, admin_roles: vec![], resources: vec![], attachments: false },
        report: ReportConfig { enabled: false, max_input_bytes: 0, retention_days: 0, queue: "reports".to_owned(), reader_roles: vec![], templates: vec![] },
        relations: vec![],
        commands: vec![],
        queries: vec![],
    }
}

fn context(resource: Option<&str>) -> HandlerContext {
    HandlerContext {
        module: "support_ticket".to_owned(),
        hooks: "support_ticket_hooks".to_owned(),
        policy: "support_ticket_policy".to_owned(),
        parse_id: "uuid::Uuid::parse_str(&id).map_err(|_| ApiError::InvalidId)?".to_owned(),
        primary: "id".to_owned(),
        soft_delete: false,
        activity_resource: resource.map(str::to_owned),
    }
}

fn allowed() -> Vec<String> {
    vec!["true".to_owned(), "context.actor().is_some()".to_owned()]
}

#[test]
fn entities_without_a_workflow_get_no_endpoints() {
    let support = workflow_support(&app("Reason", false), &ticket(None), &context(None), &vec![]).unwrap();
    assert_eq!(support.routes, "");
    assert_eq!(support.tokens, "");
}

#[test]
fn workflow_routes_and_input_types() {
    let support = workflow_support(&app("Reason", false), &with_workflow(), &context(None), &allowed()).unwrap();
    assert_eq!(
        support.routes,
        ".route(\"/{id}/_transitions\", get(workflow_capabilities)).route(\"/{id}/_transitions/{action}\", axum::routing::post(execute_workflow_transition))"
    );
    assert!(support
        .tokens
        .starts_with("#[derive(Clone, Debug, Serialize)] pub enum WorkflowTransitionInput { Close, ReopenNow(crate::extensions::Reason),  }"));
    has(
        &support.tokens,
        "\"reopen_now\" => serde_json::from_value::<crate::extensions::Reason>(value).map(WorkflowTransitionInput::ReopenNow)",
    );
    has(&support.tokens, "Ok(WorkflowTransitionInput::Close) }");
}

#[test]
fn workflow_transitions_check_their_source_states_and_access() {
    let support = workflow_support(&app("Reason", false), &with_workflow(), &context(None), &allowed()).unwrap();
    let tokens = support.tokens;
    has(&tokens, "\"close\" if [\"open\"].contains(&before.status.as_str()) => (\"close\", \"closed\"), \"close\" => return Err(ApiError::InvalidWorkflowState),");
    has(&tokens, "\"reopen_now\" if [\"closed\", \"archived\"].contains(&before.status.as_str()) => (\"reopen_now\", \"open\"),");
    has(&tokens, "let transition_allowed = match transition { \"close\" => true, \"reopen_now\" => context.actor().is_some(),  _ => false, };");
    has(&tokens, "if (context.actor().is_some()) && state.extensions.support_ticket_policy().can_view_transition(&context, \"reopen_now\", before, &candidate).await?");
    has(&tokens, "input: Some(\"Reason\".to_owned()), });");
    has(&tokens, "input: None, });");
    has(&tokens, "active.status = Set(target.to_owned());");
    assert!(!tokens.contains("record_with_metadata"));
    assert!(!tokens.contains("record_system_event"));
    assert!(!tokens.contains("crate::webhooks::publish"));
}

#[test]
fn workflow_records_follow_the_configuration() {
    let mut entity = with_workflow();
    entity.audit_enabled = true;
    let support = workflow_support(&app("Reason", true), &entity, &context(Some("tickets")), &allowed()).unwrap();
    let tokens = support.tokens;
    has(&tokens, "crate::audit::record_with_metadata(&transaction, &context, \"ticket\", after.id.to_string(),");
    has(&tokens, "crate::activity::record_system_event(&transaction, &context, \"tickets\", after.id.to_string(),");
    has(&tokens, "let event = format!(concat!(\"support_ticket\", \".workflow.{}\"), transition);");
    has(&tokens, "format!(\"workflow:{}:{}:{}\", \"ticket\", after.id, after.revision,)");
}

#[test]
fn workflow_input_types_must_be_identifiers() {
    let error = workflow_support(&app("not a type", false), &with_workflow(), &context(None), &allowed()).unwrap_err();
    assert!(error.to_string().starts_with("invalid Rust identifier `not a type`: "));
}
