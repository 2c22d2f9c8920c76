use appstruct_codegen::collections::{collections_support, input_support, parent_support, relations_support, rows_support};
use appstruct_codegen::relation_filters::relation_filter_rules;
use appstruct_codegen::{
    AccessRule, ActivityConfig, ReportConfig, Aggregate, AppIr, AuditConfig, AuthConfig, BillingConfig, Entity, EntityAccess, EntityViews, Field,
    FieldCapabilities, FieldType, FileConfig, FileProvider, GeneratedValue, JobsConfig, MailConfig, MailProvider,
    RealtimeConfig, TenantConfig, WebhooksConfig,
};

fn has(text: &str, part: &str) {
    assert!(text.contains(part), "missing {part:?}");
}

fn field(entity: &str, name: &str, ty: FieldType) -> Field {
    Field {
        id: format!("{entity}.{name}"),
        rust_name: name.to_owned(),
        api_name: name.to_owned(),
        column_name: name.to_owned(),
        ty,
        nullable: false,
        primary_key: false,
        unique: false,
        generated: None,
        default: None,
        read_access: None,
        write_access: None,
        capabilities: FieldCapabilities { filterable: false, searchable: false, sortable: false },
    }
}

fn key(entity: &str) -> Field {
    let mut id = field(entity, "id", FieldType::Uuid);
    id.primary_key = true;
    id.generated = Some(GeneratedValue::UuidV7);
    id
}

fn open_access() -> EntityAccess {
    EntityAccess {
        list: AccessRule::Public,
        read: AccessRule::Public,
        create: AccessRule::Authenticated,
        update: AccessRule::Authenticated,
        delete: AccessRule::Authenticated,
    }
}

fn comments() -> Aggregate {
    Aggregate {
        name: "comments".to_owned(),
        child: "comment".to_owned(),
        relation: "comment.ticket_id".to_owned(),
        max_items: 50,
        states: vec![],
    }
}

fn ticket() -> Entity {
    Entity {
        id: "ticket".to_owned(),
        rust_name: "SupportTicket".to_owned(),
        table_name: "support_tickets".to_owned(),
        tenant_scoped: false,
        fields: vec![key("ticket"), field("ticket", "title", FieldType::String)],
        workflow: None,
        access: open_access(),
        views: EntityViews { soft_delete: false, aggregates: vec![comments()] },
        audit_enabled: true,
    }
}

fn comment() -> Entity {
    Entity {
        id: "comment".to_owned(),
        rust_name: "Comment".to_owned(),
        table_name: "comments".to_owned(),
        tenant_scoped: false,
        fields: vec![
            key("comment"),
            field("comment", "body", FieldType::String),
            field("comment", "ticket_id", FieldType::Relation { target: "ticket".to_owned() }),
        ],
        workflow: None,
        access: open_access(),
        views: EntityViews { soft_delete: false, aggregates: vec![] },
        audit_enabled: false,
    }
}

fn app(entities: Vec<Entity>) -> AppIr {
    AppIr {
        entities,
        value_objects: vec![],
        auth: AuthConfig { enabled: false, oauth_enabled: false, registration_enabled: false, password_reset_enabled: false, user_entity: None, default_role: None },
        mail: MailConfig { enabled: false, provider: MailProvider::Capture, from: "noreply@example.test".to_owned(), templates: vec![] },
        file: FileConfig { enabled: false, provider: FileProvider::Local, max_bytes: 0, local_root: "uploads".to_owned(), allowed_content_types: vec![] },
        jobs: JobsConfig { enabled: false, poll_interval_ms: 250, lease_seconds: 30, queues: vec![], schedules: vec![] },
        billing: BillingConfig { enabled: false, plans: vec![], trials: false, customer_portal: false },
        webhooks: WebhooksConfig { enabled: false },
        audit: AuditConfig { enabled: false, reader_roles: vec![] },
        tenant: TenantConfig { enabled: false },
        realtime: RealtimeConfig { enabled: false, heartbeat_seconds: 15, presence_ttl_seconds: 45 },
        activity: ActivityConfig { enabled: false, max_comment_bytes: 1000, admin_roles: vec![], resources: vec![], attachments: false },
        report: ReportConfig { enabled: false, max_input_bytes: 0, retention_days: 0, queue: "reports".to_owned(), reader_roles: vec![], templates: vec![] },
        relations: vec![],
        commands: vec![],
        queries: vec![],
    }
}

#[test]
fn collection_input_leaves_out_the_parent_relation() {
    let text = input_support(&comment(), &comments());
    has(&text, "let allowed: &[&str] = if create { &[\"body\"] } else { &[\"body\"] };");
    has(&text, "object.insert(\"ticket_id\".to_owned(), serde_json::json!(parent));");
    has(&text, "pub struct Batch {");
}

#[test]
fn collection_relations_check_each_target() {
    let ir = app(vec![ticket(), comment()]);
    let text = relations_support(&ir, &ir.entities[1]).unwrap();
    assert!(text.starts_with(
        "async fn validate_relations(state: &AppState, context: &RequestContext<'_>, model: &comment::Model) -> Result<(), ApiError> { "
    ));
    has(&text, "if let Some(id) = Some(model.ticket_id) { use crate::entities::support_ticket;");
    has(&text, "if !state.extensions.support_ticket_policy()");
    assert!(text.ends_with(" Ok(()) }"));
    let mut optional = comment();
    optional.fields[2].nullable = true;
    let text = relations_support(&ir, &optional).unwrap();
    has(&text, "if let Some(id) = model.ticket_id {");
}

#[test]
fn collection_rows_record_activity_when_asked() {
    let ir = app(vec![ticket(), comment()]);
    let text = rows_support(&ir, &ir.entities[1], &comments(), Some("comments")).unwrap();
    has(&text, "comment::Entity::find().filter(comment::Column::TicketId.eq(parent)).count(context)");
    has(&text, "order_by_asc(comment::Column::Id)");
    has(&text, "crate::activity::record_system_event(context, context, \"comments\", model.id.to_string(), \"created\"");
    has(&text, "crate::activity::record_system_event(context, context, \"comments\", after.id.to_string(), \"updated\"");
    assert!(!text.contains("crate::audit::record("));
    let quiet = rows_support(&ir, &ir.entities[1], &comments(), None).unwrap();
    assert!(!quiet.contains("record_system_event"));
    let mut audited = comment();
    audited.audit_enabled = true;
    let text = rows_support(&ir, &audited, &comments(), None).unwrap();
    has(&text, "crate::audit::record(context, context, \"comment\", model.id.to_string(), \"create\", None, Some(&model)).await?;");
    has(&text, "crate::audit::record(context, context, \"comment\", after.id.to_string(), \"update\", Some(&before), Some(&after)).await?;");
    has(&text, "crate::audit::record(context, context, \"comment\", model.id.to_string(), \"delete\", Some(&model), None).await?;");
}

#[test]
fn collection_rows_need_a_primary_key() {
    let mut keyless = comment();
    keyless.fields.remove(0);
    let ir = app(vec![ticket(), keyless]);
    let error = rows_support(&ir, &ir.entities[1], &comments(), None).unwrap_err();
    assert_eq!(error.to_string(), "entity `comment` has no primary key");
}

#[test]
fn parent_endpoints_read_and_write_the_collection() {
    let ir = app(vec![ticket(), comment()]);
    let (route, tokens) = parent_support(&ir, &ir.entities[0], &comments(), None).unwrap();
    assert_eq!(
        route,
        ".route(\"/{id}/_aggregates/comments\", get(read_aggregate_comments).post(write_aggregate_comments))"
    );
    assert!(tokens.starts_with("async fn read_aggregate_comments(State(state): State<AppState>"));
    has(&tokens, "super::comment::aggregate_rows::collection(&state, &context, id, 50u64)");
    has(&tokens, "crate::audit::record(&transaction, &context, \"ticket\", after.id.to_string(), \"support_ticket.aggregate.comments\", Some(&before), Some(&after)).await?;");
    assert!(!tokens.contains("record_system_event"));
    let (_, tokens) = parent_support(&ir, &ir.entities[0], &comments(), Some("tickets")).unwrap();
    has(&tokens, "crate::activity::record_system_event(&transaction, &context, \"tickets\", after.id.to_string(), \"support_ticket.aggregate.comments\").await?;");
}

#[test]
fn parent_endpoints_need_both_primary_keys() {
    let mut keyless = ticket();
    keyless.fields.remove(0);
    let ir = app(vec![keyless, comment()]);
    let error = parent_support(&ir, &ir.entities[0], &comments(), None).unwrap_err();
    assert_eq!(error.to_string(), "entity `ticket` has no primary key");
}

#[test]
fn collections_guard_only_owned_entities() {
    let ir = app(vec![ticket(), comment()]);
    let (routes, tokens, guard) = collections_support(&ir, &ir.entities[0], None).unwrap();
    has(&routes, "/{id}/_aggregates/comments");
    has(&tokens, "async fn write_aggregate_comments(");
    assert_eq!(guard, "");
    let (routes, tokens, guard) = collections_support(&ir, &ir.entities[1], None).unwrap();
    assert_eq!(routes, "");
    assert!(tokens.starts_with("pub(crate) mod aggregate_rows { use super::*; "));
    has(&tokens, "\"code\": \"AGGREGATE_OWNED\"");
    assert_eq!(guard, ".route_layer(axum::middleware::from_fn(aggregate_read_only))");
}

fn owner_entity() -> Entity {
    let mut name = field("user", "name", FieldType::String);
    name.capabilities.filterable = true;
    let mut age = field("user", "age", FieldType::Integer);
    age.capabilities.filterable = true;
    Entity {
        id: "user".to_owned(),
        rust_name: "User".to_owned(),
        table_name: "users".to_owned(),
        tenant_scoped: false,
        fields: vec![key("user"), name, age],
        workflow: None,
        access: open_access(),
        views: EntityViews { soft_delete: false, aggregates: vec![] },
        audit_enabled: false,
    }
}

#[test]
fn relation_filters_reach_the_target_fields() {
    let mut owned = ticket();
    let mut owner = field("ticket", "owner_id", FieldType::Relation { target: "user".to_owned() });
    owner.api_name = "owner".to_owned();
    owner.capabilities.filterable = true;
    owned.fields.push(owner);
    let ir = app(vec![owned, owner_entity()]);
    let scopes = vec![String::new(), String::new(), "SCOPE;".to_owned()];
    let rules = relation_filter_rules(&ir, &ir.entities[0], "support_ticket", &scopes).unwrap();
    assert_eq!(rules.len(), 4);
    assert!(rules[0].starts_with("if let Some(raw) = query.filters.get(\"filter[owner.name]\") { use crate::entities::user; let value = raw.to_owned();"));
    has(&rules[0], "user::Entity::find().select_only().column(user::Column::Id); SCOPE; relation_select = relation_select.filter(user::Column::Name.eq(value));");
    has(&rules[0], "select = select.filter(support_ticket::Column::OwnerId.in_subquery(relation_select.into_query()));");
    has(&rules[1], "query.filters.get(\"filter[owner.age]\")");
    has(&rules[2], "query.filters.get(\"filter[owner.age][gte]\")");
    has(&rules[2], "user::Column::Age.gte(value)");
    has(&rules[3], "user::Column::Age.lte(value)");
    let mut stray = ticket();
    let mut ghost = field("ticket", "ghost_id", FieldType::Relation { target: "ghost".to_owned() });
    ghost.capabilities.filterable = true;
    stray.fields.push(ghost);
    let ir = app(vec![stray]);
    let error = relation_filter_rules(&ir, &ir.entities[0], "support_ticket", &scopes).unwrap_err();
    assert_eq!(error.to_string(), "missing entity `ghost`");
}
