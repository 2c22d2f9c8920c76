use vstd::prelude::*;

verus! {

/// The storage type of an entity field.
#[derive(Clone, Debug)]
pub enum FieldType {
    Uuid,
    String,
    Text,
    Integer,
    Bigint,
    Decimal,
    Boolean,
    Date,
    Datetime,
    Json,
    Enum { values: Vec<String> },
    Relation { target: String },
}

/// How the backend fills a field without client input.
#[derive(Clone, Copy, Debug, PartialEq, Eq, Structural)]
pub enum GeneratedValue {
    UuidV7,
    Now,
    AutoIncrement,
    Revision,
    Tenant,
}

/// What list queries may do with a field.
#[derive(Clone, Copy, Debug, PartialEq, Eq, Structural)]
pub struct FieldCapabilities {
    pub filterable: bool,
    pub searchable: bool,
    pub sortable: bool,
}

/// An access policy, as the compiler hands it to the generator.
#[derive(Debug)]
pub enum AccessRule {
    Public,
    Authenticated,
    Role { role: String },
    Owner { field: String },
    Any { rules: Vec<AccessRule> },
    All { rules: Vec<AccessRule> },
}

/// One field of an entity.
#[derive(Debug)]
pub struct Field {
    pub id: String,
    pub rust_name: String,
    pub api_name: String,
    pub column_name: String,
    pub ty: FieldType,
    pub nullable: bool,
    pub primary_key: bool,
    pub unique: bool,
    pub generated: Option<GeneratedValue>,
    pub default: Option<String>,
    pub read_access: Option<AccessRule>,
    pub write_access: Option<AccessRule>,
    pub capabilities: FieldCapabilities,
}

/// The workflow state machine attached to an entity, if any.
#[derive(Clone, Debug)]
pub struct Workflow {
    pub field: String,
    pub initial: String,
    pub transitions: Vec<Transition>,
}

/// One transition of a workflow: its name, the states it leaves, the state it
/// reaches and the value object it takes as input, if any.
#[derive(Clone, Debug)]
pub struct Transition {
    pub name: String,
    pub from: Vec<String>,
    pub to: String,
    pub input: Option<String>,
}

/// Who may do what with an entity's records.
#[derive(Debug)]
pub struct EntityAccess {
    pub list: AccessRule,
    pub read: AccessRule,
    pub create: AccessRule,
    pub update: AccessRule,
    pub delete: AccessRule,
}

/// A collection: child records that a parent entity edits as one batch.
#[derive(Clone, Debug)]
pub struct Aggregate {
    pub name: String,
    pub child: String,
    pub relation: String,
    pub max_items: u32,
    pub states: Vec<String>,
}

/// Which optional views the backend offers for an entity.
#[derive(Clone, Debug)]
pub struct EntityViews {
    pub soft_delete: bool,
    pub aggregates: Vec<Aggregate>,
}

/// One entity of the application model.
#[derive(Debug)]
pub struct Entity {
    pub id: String,
    pub rust_name: String,
    pub table_name: String,
    pub tenant_scoped: bool,
    pub fields: Vec<Field>,
    pub workflow: Option<Workflow>,
    pub access: EntityAccess,
    pub views: EntityViews,
    pub audit_enabled: bool,
}

impl Entity {
    /// The field that holds the workflow state is managed by transitions.
    pub open spec fn spec_is_workflow_field(&self, field: &Field) -> bool {
        match self.workflow {
            Some(workflow) => workflow.field@ == field.id@,
            None => false,
        }
    }

    #[verifier::when_used_as_spec(spec_is_workflow_field)]
    pub fn is_workflow_field(&self, field: &Field) -> (result: bool)
        ensures
            result == self.spec_is_workflow_field(field),
    {
        match &self.workflow {
            Some(workflow) => workflow.field == field.id,
            None => false,
        }
    }
}


/// Where generated file storage keeps its objects.
#[derive(Clone, Copy, Debug, PartialEq, Eq, Structural)]
pub enum FileProvider {
    Local,
    S3,
}

/// Which service generated mail goes through.
#[derive(Clone, Copy, Debug, PartialEq, Eq, Structural)]
pub enum MailProvider {
    Capture,
    Smtp,
    Resend,
}

/// The authentication feature.
#[derive(Clone, Debug)]
pub struct AuthConfig {
    pub enabled: bool,
    pub oauth_enabled: bool,
    pub registration_enabled: bool,
    pub password_reset_enabled: bool,
    pub user_entity: Option<String>,
    pub default_role: Option<String>,
}

/// The mail feature.
#[derive(Clone, Debug)]
pub struct MailConfig {
    pub enabled: bool,
    pub provider: MailProvider,
    pub from: String,
    pub templates: Vec<MailTemplate>,
}

/// A mail template: its subject, text body and optional HTML body.
#[derive(Clone, Debug)]
pub struct MailTemplate {
    pub name: String,
    pub subject: String,
    pub text: String,
    pub html: Option<String>,
}

/// The file-storage feature.
#[derive(Clone, Debug)]
pub struct FileConfig {
    pub enabled: bool,
    pub provider: FileProvider,
    pub max_bytes: u64,
    pub local_root: String,
    pub allowed_content_types: Vec<String>,
}

/// The background-jobs feature.
#[derive(Clone, Debug)]
pub struct JobsConfig {
    pub enabled: bool,
    pub poll_interval_ms: u64,
    pub lease_seconds: u64,
    pub queues: Vec<JobQueue>,
    pub schedules: Vec<JobSchedule>,
}

/// A recurring job: its name, its cron expression or fixed interval in
/// seconds, the queue and kind of the job it enqueues, and the job's payload
/// as JSON text.
#[derive(Clone, Debug)]
pub struct JobSchedule {
    pub name: String,
    pub cron: String,
    pub interval_seconds: Option<u64>,
    pub queue: String,
    pub kind: String,
    pub payload: String,
}

/// A job queue: how often its jobs are tried and how long between tries.
#[derive(Clone, Debug)]
pub struct JobQueue {
    pub name: String,
    pub max_attempts: u64,
    pub backoff_seconds: u64,
}

/// The audit trail: who may read it.
#[derive(Clone, Debug)]
pub struct AuditConfig {
    pub enabled: bool,
    pub reader_roles: Vec<String>,
}

/// Multi-tenancy.
#[derive(Clone, Copy, Debug, PartialEq, Eq, Structural)]
pub struct TenantConfig {
    pub enabled: bool,
}

/// Realtime events, presence and record locks.
#[derive(Clone, Copy, Debug, PartialEq, Eq, Structural)]
pub struct RealtimeConfig {
    pub enabled: bool,
    pub heartbeat_seconds: u64,
    pub presence_ttl_seconds: u64,
}

/// The outgoing-webhooks feature.
#[derive(Clone, Copy, Debug, PartialEq, Eq, Structural)]
pub struct WebhooksConfig {
    pub enabled: bool,
}

/// A billing plan.
#[derive(Clone, Debug)]
pub struct BillingPlan {
    pub id: String,
    pub price_env: String,
    pub trial_days: Option<u32>,
    pub entitlements: Vec<String>,
}

/// The billing feature.
#[derive(Debug)]
pub struct BillingConfig {
    pub enabled: bool,
    pub plans: Vec<BillingPlan>,
    pub trials: bool,
    pub customer_portal: bool,
}

/// One field of a value object.
#[derive(Clone, Debug)]
pub struct ValueField {
    pub rust_name: String,
    pub ty: FieldType,
    pub required: bool,
}

/// A named value type that commands and queries exchange.
#[derive(Clone, Debug)]
pub struct ValueObject {
    pub id: String,
    pub rust_name: String,
    pub fields: Vec<ValueField>,
}

/// The input or output type of a command or query.
#[derive(Clone, Debug)]
pub enum OperationType {
    Entity { entity: String },
    ValueObject { value_object: String },
}

/// A command: a write that the application's handlers perform.
#[derive(Debug)]
pub struct Command {
    pub rust_name: String,
    pub input: OperationType,
    pub output: OperationType,
    pub access: AccessRule,
}

/// A query: a read that the application's handlers answer, with or without input.
#[derive(Debug)]
pub struct Query {
    pub rust_name: String,
    pub input: Option<OperationType>,
    pub output: OperationType,
    pub access: AccessRule,
}

/// How many records may stand on each side of a relation.
#[derive(Clone, Copy, Debug, PartialEq, Eq, Structural)]
pub enum Cardinality {
    OneToOne,
    ManyToOne,
}

/// A relation from the source entity's foreign key to the target entity.
#[derive(Clone, Debug)]
pub struct Relation {
    pub id: String,
    pub source: String,
    pub target: String,
    pub foreign_key_fields: Vec<String>,
    pub cardinality: Cardinality,
}

/// An entity whose records have an activity feed, and the feed's resource name.
#[derive(Debug)]
pub struct ActivityResource {
    pub entity: String,
    pub resource: String,
}

/// The activity feed: whether it is on, the longest comment in bytes, the
/// roles that may moderate, the entities whose records have a feed (each
/// under its resource name), and whether comments may carry attachments.
#[derive(Debug)]
pub struct ActivityConfig {
    pub enabled: bool,
    pub max_comment_bytes: u32,
    pub admin_roles: Vec<String>,
    pub resources: Vec<ActivityResource>,
    pub attachments: bool,
}

/// A report template: its name and version, its body, the digest of its
/// artifact, its input schema and the version of its data schema.
#[derive(Debug)]
pub struct ReportTemplate {
    pub name: String,
    pub version: u32,
    pub body: String,
    pub artifact_digest: String,
    pub input_schema: String,
    pub data_schema_version: u32,
}

/// Report generation: whether it is on, the largest input in bytes, how many
/// days runs are kept, the job queue that renders them, the roles that may
/// read every run, and the templates.
#[derive(Debug)]
pub struct ReportConfig {
    pub enabled: bool,
    pub max_input_bytes: u64,
    pub retention_days: u32,
    pub queue: String,
    pub reader_roles: Vec<String>,
    pub templates: Vec<ReportTemplate>,
}

/// The application model that drives generation.
#[derive(Debug)]
pub struct AppIr {
    pub entities: Vec<Entity>,
    pub value_objects: Vec<ValueObject>,
    pub auth: AuthConfig,
    pub mail: MailConfig,
    pub file: FileConfig,
    pub jobs: JobsConfig,
    pub billing: BillingConfig,
    pub webhooks: WebhooksConfig,
    pub audit: AuditConfig,
    pub tenant: TenantConfig,
    pub realtime: RealtimeConfig,
    pub activity: ActivityConfig,
    pub report: ReportConfig,
    pub relations: Vec<Relation>,
    pub commands: Vec<Command>,
    pub queries: Vec<Query>,
}

} // verus!
