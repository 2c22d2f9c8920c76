use appstruct_codegen::expressions::{operation_type, parse_id_expression, parsed_value, relation_name};
use appstruct_codegen::fields::{
    aggregate_fields, copy_type, filter_keys, filterable_fields, find_entity, groupable, has_filters, kind,
    optional_type, primary_key, relation_fields, relation_filter_keys, rust_type, supports_min_max,
    supports_range, supports_sum_avg, writable_fields,
};
use appstruct_codegen::{
    AccessRule, ActivityConfig, ReportConfig, AppIr, AuthConfig, BillingConfig, Entity, EntityAccess, EntityViews, Field, FieldCapabilities, FieldType, FileConfig,
    FileProvider, GeneratedValue, JobsConfig, MailConfig, MailProvider, OperationType, ValueObject, WebhooksConfig, AuditConfig, RealtimeConfig, TenantConfig, Workflow,
};

fn field_of(id: &str, name: &str, ty: FieldType) -> Field {
    Field {
        id: id.to_owned(),
        rust_name: name.to_owned(),
        api_name: name.to_owned(),
        column_name: name.to_owned(),
        ty,
        nullable: false,
        primary_key: false,
        unique: false,
        generated: None,
        default: None,
        read_access: None,
        write_access: None,
        capabilities: FieldCapabilities { filterable: false, searchable: false, sortable: false },
    }
}

fn filterable(mut field: Field) -> Field {
    field.capabilities.filterable = true;
    field
}

fn task_entity() -> Entity {
    let mut id = field_of("task.id", "id", FieldType::Uuid);
    id.primary_key = true;
    id.generated = Some(GeneratedValue::UuidV7);
    id.capabilities.filterable = true;
    let status = field_of("task.status", "status", FieldType::Enum { values: vec!["open".to_owned()] });
    let mut created = filterable(field_of("task.created_at", "created_at", FieldType::Datetime));
    created.generated = Some(GeneratedValue::Now);
    Entity {
        id: "task".to_owned(),
        rust_name: "Task".to_owned(),
        table_name: "tasks".to_owned(),
        tenant_scoped: false,
        fields: vec![
            id,
            filterable(field_of("task.title", "title", FieldType::String)),
            filterable(field_of("task.points", "points", FieldType::Integer)),
            filterable(field_of("task.project_id", "project_id", FieldType::Relation { target: "project".to_owned() })),
            filterable(field_of("task.data", "data", FieldType::Json)),
            status,
            created,
        ],
        workflow: Some(Workflow { field: "task.status".to_owned(), initial: "open".to_owned(), transitions: vec![] }),
        access: open_access(),
        views: EntityViews { soft_delete: false, aggregates: vec![] },
        audit_enabled: false,
    }
}

fn project_entity() -> Entity {
    let mut id = field_of("project.id", "id", FieldType::Uuid);
    id.primary_key = true;
    Entity {
        id: "project".to_owned(),
        rust_name: "ProjectItem".to_owned(),
        table_name: "project_items".to_owned(),
        tenant_scoped: false,
        fields: vec![id, filterable(field_of("project.budget", "budget", FieldType::Decimal))],
        workflow: None,
        access: open_access(),
        views: EntityViews { soft_delete: false, aggregates: vec![] },
        audit_enabled: false,
    }
}

fn app(entities: Vec<Entity>) -> AppIr {
    AppIr {
        entities,
        value_objects: vec![ValueObject { id: "summary".to_owned(), rust_name: "Summary".to_owned(), fields: vec![] }],
        auth: AuthConfig { enabled: false, oauth_enabled: false, registration_enabled: true, password_reset_enabled: true, user_entity: None, default_role: None },
        mail: MailConfig { enabled: false, provider: MailProvider::Capture, from: "noreply@example.test".to_owned(), templates: vec![] },
        file: FileConfig { enabled: false, provider: FileProvider::Local, max_bytes: 0, local_root: "uploads".to_owned(), allowed_content_types: vec![] },
        jobs: JobsConfig { enabled: false, poll_interval_ms: 250, lease_seconds: 30, queues: vec![], schedules: vec![] },
        billing: BillingConfig { enabled: false, plans: vec![], trials: false, customer_portal: false },
        webhooks: WebhooksConfig { enabled: false },
        audit: AuditConfig { enabled: false, reader_roles: vec![] },
        tenant: TenantConfig { enabled: false },
        realtime: RealtimeConfig { enabled: false, heartbeat_seconds: 15, presence_ttl_seconds: 45 },
        activity: ActivityConfig { enabled: false, max_comment_bytes: 1000, admin_roles: vec![], resources: vec![], attachments: false },
        report: ReportConfig { enabled: false, max_input_bytes: 0, retention_days: 0, queue: "reports".to_owned(), reader_roles: vec![], templates: vec![] },
        relations: vec![],
        commands: vec![],
        queries: vec![],
    }
}

fn names(fields: Vec<&Field>) -> Vec<String> {
    fields.into_iter().map(|field| field.rust_name.clone()).collect()
}

#[test]
fn rust_types_of_field_types() {
    assert_eq!(rust_type(&FieldType::Uuid), "uuid::Uuid");
    assert_eq!(rust_type(&FieldType::Relation { target: "x".to_owned() }), "uuid::Uuid");
    assert_eq!(rust_type(&FieldType::Text), "String");
    assert_eq!(rust_type(&FieldType::Integer), "i32");
    assert_eq!(rust_type(&FieldType::Bigint), "i64");
    assert_eq!(rust_type(&FieldType::Decimal), "rust_decimal::Decimal");
    assert_eq!(rust_type(&FieldType::Boolean), "bool");
    assert_eq!(rust_type(&FieldType::Date), "chrono::NaiveDate");
    assert_eq!(rust_type(&FieldType::Datetime), "chrono::DateTime<chrono::Utc>");
    assert_eq!(rust_type(&FieldType::Json), "serde_json::Value");
    assert_eq!(optional_type("i32".to_owned(), true), "Option<i32>");
    assert_eq!(optional_type("i32".to_owned(), false), "i32");
}

#[test]
fn field_type_capabilities() {
    assert!(copy_type(&FieldType::Decimal));
    assert!(!copy_type(&FieldType::String));
    assert!(supports_sum_avg(&FieldType::Bigint));
    assert!(!supports_sum_avg(&FieldType::Date));
    assert!(supports_min_max(&FieldType::Date));
    assert!(!supports_min_max(&FieldType::Boolean));
    assert!(groupable(&FieldType::Boolean));
    assert!(!groupable(&FieldType::Json));
    assert!(supports_range(&FieldType::Datetime));
    assert!(!supports_range(&FieldType::String));
    assert_eq!(kind(&FieldType::Boolean), "boolean");
    assert_eq!(kind(&FieldType::Integer), "integer");
    assert_eq!(kind(&FieldType::Bigint), "bigint");
    assert_eq!(kind(&FieldType::Uuid), "string");
}

#[test]
fn field_selections() {
    let task = task_entity();
    assert_eq!(names(writable_fields(&task, false)), vec!["title", "points", "project_id", "data"]);
    assert_eq!(names(filterable_fields(&task)), vec!["id", "title", "points", "project_id", "data", "created_at"]);
    assert_eq!(names(relation_fields(&task)), vec!["project_id"]);
    assert_eq!(names(aggregate_fields(&task)), vec!["title", "points", "created_at"]);
    assert_eq!(primary_key(&task).unwrap().rust_name, "id");
}

#[test]
fn writable_fields_on_update_skip_the_key() {
    let mut entity = project_entity();
    entity.fields[0].generated = None;
    assert_eq!(names(writable_fields(&entity, false)), vec!["id", "budget"]);
    assert_eq!(names(writable_fields(&entity, true)), vec!["budget"]);
}

#[test]
fn missing_primary_key_and_entity() {
    let mut entity = project_entity();
    entity.fields[0].primary_key = false;
    assert_eq!(primary_key(&entity).unwrap_err().to_string(), "entity `project` has no primary key");
    let ir = app(vec![task_entity()]);
    assert_eq!(find_entity(&ir, "nope").unwrap_err().to_string(), "missing entity `nope`");
    assert_eq!(find_entity(&ir, "task").unwrap().rust_name, "Task");
}

#[test]
fn filter_keys_of_fields_and_relations() {
    let ir = app(vec![task_entity(), project_entity()]);
    assert_eq!(
        filter_keys(&ir.entities[0]),
        vec![
            "filter[id]", "filter[title]", "filter[points]", "filter[points][gte]", "filter[points][lte]",
            "filter[project_id]", "filter[data]", "filter[created_at]", "filter[created_at][gte]",
            "filter[created_at][lte]",
        ]
    );
    assert_eq!(
        relation_filter_keys(&ir, &ir.entities[0]).unwrap(),
        vec!["filter[project_id.budget]", "filter[project_id.budget][gte]", "filter[project_id.budget][lte]"]
    );
    assert!(has_filters(&ir, &ir.entities[0]).unwrap());
    assert!(!has_filters(&ir, &ir.entities[1]).unwrap());
}

#[test]
fn relation_filters_need_known_targets() {
    let ir = app(vec![task_entity()]);
    assert_eq!(relation_filter_keys(&ir, &ir.entities[0]).unwrap_err().to_string(), "missing entity `project`");
    assert_eq!(has_filters(&ir, &ir.entities[0]).unwrap_err().to_string(), "missing entity `project`");
}

#[test]
fn id_and_filter_value_expressions() {
    let task = task_entity();
    assert_eq!(parse_id_expression(&task.fields[0]), "uuid::Uuid::parse_str(&id).map_err(|_| ApiError::InvalidId)?");
    assert_eq!(parse_id_expression(&task.fields[2]), "id.parse::<i32>().map_err(|_| ApiError::InvalidId)?");
    assert_eq!(parse_id_expression(&task.fields[1]), "id");
    assert_eq!(parsed_value(&task.fields[1], "raw"), "raw.to_owned()");
    assert_eq!(
        parsed_value(&task.fields[2], "raw"),
        "raw.parse::<i32>().map_err(|_| ApiError::InvalidQuery(\"invalid value for `points`\".to_owned()))?"
    );
    assert_eq!(
        parsed_value(&task.fields[4], "raw"),
        "serde_json::from_str::<serde_json::Value>(raw).map_err(|_| ApiError::InvalidQuery(\"invalid value for `data`\".to_owned()))?"
    );
}

#[test]
fn relation_names_drop_the_id_suffix() {
    assert_eq!(relation_name("project_id"), "project");
    assert_eq!(relation_name("owner"), "owner");
    assert_eq!(relation_name("_id"), "");
    assert_eq!(relation_name("id"), "id");
}

#[test]
fn operation_types() {
    let ir = app(vec![project_entity()]);
    assert_eq!(
        operation_type(&ir, &OperationType::Entity { entity: "project".to_owned() }).unwrap(),
        "entities::project_item::Model"
    );
    assert_eq!(operation_type(&ir, &OperationType::ValueObject { value_object: "summary".to_owned() }).unwrap(), "Summary");
    assert_eq!(
        operation_type(&ir, &OperationType::ValueObject { value_object: "gone".to_owned() }).unwrap_err().to_string(),
        "missing value object `gone`"
    );
    assert_eq!(
        operation_type(&ir, &OperationType::Entity { entity: "gone".to_owned() }).unwrap_err().to_string(),
        "missing entity `gone`"
    );
    let _ = AccessRule::Public;
}

fn open_access() -> EntityAccess {
    EntityAccess {
        list: AccessRule::Public,
        read: AccessRule::Public,
        create: AccessRule::Authenticated,
        update: AccessRule::Authenticated,
        delete: AccessRule::Authenticated,
    }
}
