//! Verified core of the appstruct backend generator. From the application
//! model it plans the backend's files: the manifests, the runtime and
//! contracts crates, the library root, the extension and operation modules,
//! the feature modules (audit, authentication, files, jobs, mail, realtime,
//! activity, reports), and for each entity its database model and its
//! endpoint module with list, lookup, aggregate, collection, write, bulk and
//! workflow endpoints. The access-policy compiler comes with the laws that tie
//! the generated guards and query scopes to the policy's meaning.

pub mod artifact;
pub mod ir;

pub mod access;
pub mod activity;
pub mod aggregate;
pub mod audit;
pub mod auth;
pub mod authorize;
pub mod backend;
pub mod billing;
pub mod bulk;
pub mod collections;
pub mod endpoints;
pub mod expressions;
pub mod extensions;
pub mod field_access;
pub mod fields;
pub mod file;
pub mod guard_laws;
pub mod handler_laws;
pub mod ident;
pub mod jobs;
pub mod list;
pub mod lookup;
pub mod mail;
pub mod manifest;
pub mod models;
pub mod naming;
pub mod operations;
pub mod plan;
pub mod plan_laws;
pub mod policy;
pub mod query;
pub mod readiness;
pub mod realtime;
pub mod relation_filters;
pub mod relations;
pub mod report;
pub mod runtime;
pub mod scheduling;
pub mod scope_laws;
pub mod source;
pub mod text;
pub mod timing;
pub mod values;
pub mod workflow;
pub mod write;

pub use artifact::{Artifact, ArtifactKind, CodegenError};
pub use ir::{
    AccessRule, ActivityConfig, ActivityResource, Aggregate, AppIr, AuditConfig, AuthConfig, BillingConfig, BillingPlan,
    Cardinality, Command, Entity, EntityAccess, EntityViews, Field, FieldCapabilities, FieldType, FileConfig, FileProvider,
    GeneratedValue, JobQueue, JobSchedule, JobsConfig, MailConfig, MailProvider, MailTemplate, OperationType, Query,
    RealtimeConfig, Relation, ReportConfig, ReportTemplate, TenantConfig, Transition, ValueField, ValueObject,
    WebhooksConfig, Workflow,
};
