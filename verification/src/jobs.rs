use vstd::prelude::*;
use vstd::string::StringExecFns;
use crate::artifact::{Artifact, CodegenError};
use crate::billing::{decimal, decimal_text};
use crate::field_access::{literal_text, string_literal};
use crate::fields::texts;
use crate::ir::{AppIr, JobQueue};
use crate::source::{render, render_spec, rust_file, single_file};
use crate::text::{append_suffixed, suffixed_text};

verus! {

/// The job types, errors and the handler trait.
#[verifier::opaque]
pub open spec fn jobs_contract_text() -> Seq<char> {
    "#[derive(Clone, Debug)] pub struct Job { "@
        + "pub id: uuid::Uuid, pub queue: String, pub kind: String, pub payload: serde_json::Value, pub tenant_id: Option<uuid::Uuid>, pub attempts: i32, pub max_attempts: i32, pub backoff_seconds: i64, } "@
        + "#[derive(Clone, Debug, PartialEq, Eq)] pub struct JobReceipt { "@
        + "pub id: uuid::Uuid, pub deduplicated: bool } "@
        + "#[derive(Clone, Debug)] pub struct JobHandlerError(pub String); "@
        + "impl fmt::Display for JobHandlerError { "@
        + "fn fmt(&self, formatter: &mut fmt::Formatter<'_>) -> fmt::Result { "@
        + "formatter.write_str(&self.0) } } impl std::error::Error for JobHandlerError {} "@
        + "#[derive(Debug)] pub enum JobError { "@
        + "Disabled, UnknownQueue(String), InvalidInput(String), Serialization(String), Database(DbErr), LeaseLost, } "@
        + "impl fmt::Display for JobError { "@
        + "fn fmt(&self, formatter: &mut fmt::Formatter<'_>) -> fmt::Result { match self { "@
        + "Self::Disabled => formatter.write_str(\"jobs module is disabled\"), Self::UnknownQueue(name) => write!(formatter, \"unknown job queue `{name}`\"), Self::InvalidInput(error) => write!(formatter, \"invalid job input: {error}\"), Self::Serialization(error) => write!(formatter, \"job serialization failed: {error}\"), Self::Database(error) => write!(formatter, \"jobs database operation failed: {error}\"), Self::LeaseLost => formatter.write_str(\"job lease is no longer owned by this worker\"), } "@
        + "} } impl std::error::Error for JobError {} impl From<DbErr> for JobError { "@
        + "fn from(error: DbErr) -> Self { Self::Database(error) } } "@
        + "#[async_trait] pub trait JobHandler: Send + Sync { "@
        + "async fn handle(&self, job: &Job) -> Result<(), JobHandlerError>; }"@
}

fn jobs_contract() -> (text: String)
    ensures
        text@ == jobs_contract_text(),
{
    proof {
        reveal(jobs_contract_text);
    }
    let mut text = String::from_str("#[derive(Clone, Debug)] pub struct Job { ");
    text.append("pub id: uuid::Uuid, pub queue: String, pub kind: String, pub payload: serde_json::Value, pub tenant_id: Option<uuid::Uuid>, pub attempts: i32, pub max_attempts: i32, pub backoff_seconds: i64, } ");
    text.append("#[derive(Clone, Debug, PartialEq, Eq)] pub struct JobReceipt { ");
    text.append("pub id: uuid::Uuid, pub deduplicated: bool } ");
    text.append("#[derive(Clone, Debug)] pub struct JobHandlerError(pub String); ");
    text.append("impl fmt::Display for JobHandlerError { ");
    text.append("fn fmt(&self, formatter: &mut fmt::Formatter<'_>) -> fmt::Result { ");
    text.append("formatter.write_str(&self.0) } } impl std::error::Error for JobHandlerError {} ");
    text.append("#[derive(Debug)] pub enum JobError { ");
    text.append("Disabled, UnknownQueue(String), InvalidInput(String), Serialization(String), Database(DbErr), LeaseLost, } ");
    text.append("impl fmt::Display for JobError { ");
    text.append("fn fmt(&self, formatter: &mut fmt::Formatter<'_>) -> fmt::Result { match self { ");
    text.append("Self::Disabled => formatter.write_str(\"jobs module is disabled\"), Self::UnknownQueue(name) => write!(formatter, \"unknown job queue `{name}`\"), Self::InvalidInput(error) => write!(formatter, \"invalid job input: {error}\"), Self::Serialization(error) => write!(formatter, \"job serialization failed: {error}\"), Self::Database(error) => write!(formatter, \"jobs database operation failed: {error}\"), Self::LeaseLost => formatter.write_str(\"job lease is no longer owned by this worker\"), } ");
    text.append("} } impl std::error::Error for JobError {} impl From<DbErr> for JobError { ");
    text.append("fn from(error: DbErr) -> Self { Self::Database(error) } } ");
    text.append("#[async_trait] pub trait JobHandler: Send + Sync { ");
    text.append("async fn handle(&self, job: &Job) -> Result<(), JobHandlerError>; }");
    text
}

/// Enqueueing: the queue must be configured, the kind non-empty and at most
/// 120 bytes, an idempotency key non-empty and at most 200 bytes.
#[verifier::opaque]
pub open spec fn enqueue_text() -> Seq<char> {
    "pub(crate) async fn enqueue<C: ConnectionTrait, T: Serialize>(database: &C, queue: &str, kind: &str, payload: &T, idempotency_key: Option<&str>, run_at: Option<chrono::DateTime<chrono::Utc>>, tenant_id: Option<uuid::Uuid>,) -> Result<JobReceipt, JobError> { "@
        + "let config = queue_config(queue).ok_or_else(|| JobError::UnknownQueue(queue.to_owned()))?; "@
        + "if kind.trim().is_empty() || kind.len() > 120 { "@
        + "return Err(JobError::InvalidInput(\"kind must contain between 1 and 120 bytes\".to_owned())); "@
        + "} if idempotency_key.is_some_and(|key| key.is_empty() || key.len() > 200) { "@
        + "return Err(JobError::InvalidInput(\"idempotency key must contain between 1 and 200 bytes\".to_owned())); "@
        + "} "@
        + "let payload = serde_json::to_value(payload).map_err(|error| JobError::Serialization(error.to_string()))?; "@
        + "let id = uuid::Uuid::now_v7(); "@
        + "let row = database.query_one_raw(Statement::from_sql_and_values(DbBackend::Postgres, \"INSERT INTO \\\"_appstruct_jobs\\\" (id, queue, kind, payload, idempotency_key, tenant_id, status, attempts, max_attempts, backoff_seconds, run_at, created_at) VALUES ($1, $2, $3, $4, $5, $6, 'queued', 0, $7, $8, COALESCE($9, CURRENT_TIMESTAMP), CURRENT_TIMESTAMP) ON CONFLICT (idempotency_key) DO UPDATE SET idempotency_key = EXCLUDED.idempotency_key RETURNING id, (xmax <> 0) AS deduplicated\", [ id.into(), queue.to_owned().into(), kind.to_owned().into(), payload.into(), idempotency_key.map(str::to_owned).into(), tenant_id.into(), config.max_attempts.into(), config.backoff_seconds.into(), run_at.into(), ],)).await?.ok_or_else(|| JobError::Database(DbErr::Custom(\"job enqueue returned no row\".to_owned())))?; "@
        + "Ok(JobReceipt { "@
        + "id: row.try_get(\"\", \"id\")?, deduplicated: row.try_get(\"\", \"deduplicated\")?, }) }"@
}

fn enqueue() -> (text: String)
    ensures
        text@ == enqueue_text(),
{
    proof {
        reveal(enqueue_text);
    }
    let mut text = String::from_str("pub(crate) async fn enqueue<C: ConnectionTrait, T: Serialize>(database: &C, queue: &str, kind: &str, payload: &T, idempotency_key: Option<&str>, run_at: Option<chrono::DateTime<chrono::Utc>>, tenant_id: Option<uuid::Uuid>,) -> Result<JobReceipt, JobError> { ");
    text.append("let config = queue_config(queue).ok_or_else(|| JobError::UnknownQueue(queue.to_owned()))?; ");
    text.append("if kind.trim().is_empty() || kind.len() > 120 { ");
    text.append("return Err(JobError::InvalidInput(\"kind must contain between 1 and 120 bytes\".to_owned())); ");
    text.append("} if idempotency_key.is_some_and(|key| key.is_empty() || key.len() > 200) { ");
    text.append("return Err(JobError::InvalidInput(\"idempotency key must contain between 1 and 200 bytes\".to_owned())); ");
    text.append("} ");
    text.append("let payload = serde_json::to_value(payload).map_err(|error| JobError::Serialization(error.to_string()))?; ");
    text.append("let id = uuid::Uuid::now_v7(); ");
    text.append("let row = database.query_one_raw(Statement::from_sql_and_values(DbBackend::Postgres, \"INSERT INTO \\\"_appstruct_jobs\\\" (id, queue, kind, payload, idempotency_key, tenant_id, status, attempts, max_attempts, backoff_seconds, run_at, created_at) VALUES ($1, $2, $3, $4, $5, $6, 'queued', 0, $7, $8, COALESCE($9, CURRENT_TIMESTAMP), CURRENT_TIMESTAMP) ON CONFLICT (idempotency_key) DO UPDATE SET idempotency_key = EXCLUDED.idempotency_key RETURNING id, (xmax <> 0) AS deduplicated\", [ id.into(), queue.to_owned().into(), kind.to_owned().into(), payload.into(), idempotency_key.map(str::to_owned).into(), tenant_id.into(), config.max_attempts.into(), config.backoff_seconds.into(), run_at.into(), ],)).await?.ok_or_else(|| JobError::Database(DbErr::Custom(\"job enqueue returned no row\".to_owned())))?; ");
    text.append("Ok(JobReceipt { ");
    text.append("id: row.try_get(\"\", \"id\")?, deduplicated: row.try_get(\"\", \"deduplicated\")?, }) }");
    text
}

/// The worker handle and its shutdown.
#[verifier::opaque]
pub open spec fn worker_lifecycle_text() -> Seq<char> {
    "struct WorkerExitGuard { "@
        + "health: Option<crate::ApplicationHealth>, expected_shutdown: Arc<AtomicBool>, } "@
        + "impl Drop for WorkerExitGuard { fn drop(&mut self) { "@
        + "if !self.expected_shutdown.load(Ordering::Acquire) { if let Some(health) = &self.health { "@
        + "health.mark_failed(\"job worker exited unexpectedly\"); } } } } "@
        + "pub struct JobWorkerHandle { "@
        + "shutdown: tokio::sync::watch::Sender<bool>, task: tokio::task::JoinHandle<()>, expected_shutdown: Arc<AtomicBool>, } "@
        + "impl JobWorkerHandle { "@
        + "pub async fn shutdown(self) -> Result<(), appstruct_runtime::ShutdownError> { "@
        + "self.expected_shutdown.store(true, Ordering::Release); "@
        + "self.shutdown.send(true).map_err(appstruct_runtime::ShutdownError::new)?; "@
        + "self.task.await.map_err(appstruct_runtime::ShutdownError::new) } } "@
        + "#[async_trait] impl appstruct_runtime::ServiceHandle for JobWorkerHandle { "@
        + "fn service(&self) -> &'static str { \"appstruct/jobs\" } "@
        + "async fn shutdown(self: Box<Self>,) -> Result<(), appstruct_runtime::ShutdownError> { "@
        + "JobWorkerHandle::shutdown(*self).await } }"@
}

fn worker_lifecycle() -> (text: String)
    ensures
        text@ == worker_lifecycle_text(),
{
    proof {
        reveal(worker_lifecycle_text);
    }
    let mut text = String::from_str("struct WorkerExitGuard { ");
    text.append("health: Option<crate::ApplicationHealth>, expected_shutdown: Arc<AtomicBool>, } ");
    text.append("impl Drop for WorkerExitGuard { fn drop(&mut self) { ");
    text.append("if !self.expected_shutdown.load(Ordering::Acquire) { if let Some(health) = &self.health { ");
    text.append("health.mark_failed(\"job worker exited unexpectedly\"); } } } } ");
    text.append("pub struct JobWorkerHandle { ");
    text.append("shutdown: tokio::sync::watch::Sender<bool>, task: tokio::task::JoinHandle<()>, expected_shutdown: Arc<AtomicBool>, } ");
    text.append("impl JobWorkerHandle { ");
    text.append("pub async fn shutdown(self) -> Result<(), appstruct_runtime::ShutdownError> { ");
    text.append("self.expected_shutdown.store(true, Ordering::Release); ");
    text.append("self.shutdown.send(true).map_err(appstruct_runtime::ShutdownError::new)?; ");
    text.append("self.task.await.map_err(appstruct_runtime::ShutdownError::new) } } ");
    text.append("#[async_trait] impl appstruct_runtime::ServiceHandle for JobWorkerHandle { ");
    text.append("fn service(&self) -> &'static str { \"appstruct/jobs\" } ");
    text.append("async fn shutdown(self: Box<Self>,) -> Result<(), appstruct_runtime::ShutdownError> { ");
    text.append("JobWorkerHandle::shutdown(*self).await } }");
    text
}

/// Claiming, completing and failing jobs in the database.
#[verifier::opaque]
pub open spec fn persistence_text() -> Seq<char> {
    "async fn claim(database: &DatabaseConnection, worker_id: &str, lease_seconds: i64, kind: Option<&str>,) -> Result<Option<Job>, JobError> { "@
        + "let row = database.query_one_raw(Statement::from_sql_and_values(DbBackend::Postgres, \"WITH candidate AS (SELECT id FROM \\\"_appstruct_jobs\\\" WHERE ((status = 'queued' AND run_at <= CURRENT_TIMESTAMP) OR (status = 'running' AND locked_until <= CURRENT_TIMESTAMP)) AND ($3::text IS NULL OR kind = $3) ORDER BY run_at, id FOR UPDATE SKIP LOCKED LIMIT 1) UPDATE \\\"_appstruct_jobs\\\" AS job SET status = 'running', attempts = attempts + 1, locked_by = $1, locked_until = CURRENT_TIMESTAMP + ($2 * INTERVAL '1 second') FROM candidate WHERE job.id = candidate.id RETURNING job.id, job.queue, job.kind, job.payload, job.tenant_id, job.attempts, job.max_attempts, job.backoff_seconds\", [ worker_id.to_owned().into(), lease_seconds.into(), kind.map(str::to_owned).into(), ],)).await?; "@
        + "row.map(job_from_row).transpose().map_err(JobError::from) } "@
        + "fn job_from_row(row: sea_orm::QueryResult) -> Result<Job, DbErr> { Ok(Job { "@
        + "id: row.try_get(\"\", \"id\")?, queue: row.try_get(\"\", \"queue\")?, kind: row.try_get(\"\", \"kind\")?, payload: row.try_get(\"\", \"payload\")?, tenant_id: row.try_get(\"\", \"tenant_id\")?, attempts: row.try_get(\"\", \"attempts\")?, max_attempts: row.try_get(\"\", \"max_attempts\")?, backoff_seconds: row.try_get(\"\", \"backoff_seconds\")?, }) } "@
        + "async fn complete(database: &DatabaseConnection, worker_id: &str, id: uuid::Uuid,) -> Result<(), JobError> { "@
        + "let result = database.execute_raw(Statement::from_sql_and_values(DbBackend::Postgres, \"UPDATE \\\"_appstruct_jobs\\\" SET status = 'succeeded', completed_at = CURRENT_TIMESTAMP, locked_by = NULL, locked_until = NULL, last_error = NULL WHERE id = $1 AND status = 'running' AND locked_by = $2\", [id.into(), worker_id.to_owned().into()],)).await?; "@
        + "if result.rows_affected() == 1 { Ok(()) } else { Err(JobError::LeaseLost) } } "@
        + "async fn fail(database: &DatabaseConnection, worker_id: &str, job: &Job, error: &str,) -> Result<(), JobError> { "@
        + "let terminal = job.attempts >= job.max_attempts; let status = if terminal { \"dead\" } "@
        + "else { \"queued\" }; "@
        + "let exponent = u32::try_from((job.attempts - 1).clamp(0, 30)).unwrap_or(0); "@
        + "let delay = job.backoff_seconds.saturating_mul(1_i64 << exponent).min(3_600); "@
        + "let error = error.chars().take(2_000).collect::<String>(); "@
        + "let result = database.execute_raw(Statement::from_sql_and_values(DbBackend::Postgres, \"UPDATE \\\"_appstruct_jobs\\\" SET status = $3, last_error = $4, locked_by = NULL, locked_until = NULL, run_at = CASE WHEN $3 = 'queued' THEN CURRENT_TIMESTAMP + ($5 * INTERVAL '1 second') ELSE run_at END, completed_at = CASE WHEN $3 = 'dead' THEN CURRENT_TIMESTAMP ELSE NULL END WHERE id = $1 AND status = 'running' AND locked_by = $2\", [ job.id.into(), worker_id.to_owned().into(), status.to_owned().into(), error.into(), delay.into(), ],)).await?; "@
        + "if result.rows_affected() == 1 { Ok(()) } else { Err(JobError::LeaseLost) } }"@
}

fn persistence() -> (text: String)
    ensures
        text@ == persistence_text(),
{
    proof {
        reveal(persistence_text);
    }
    let mut text = String::from_str("async fn claim(database: &DatabaseConnection, worker_id: &str, lease_seconds: i64, kind: Option<&str>,) -> Result<Option<Job>, JobError> { ");
    text.append("let row = database.query_one_raw(Statement::from_sql_and_values(DbBackend::Postgres, \"WITH candidate AS (SELECT id FROM \\\"_appstruct_jobs\\\" WHERE ((status = 'queued' AND run_at <= CURRENT_TIMESTAMP) OR (status = 'running' AND locked_until <= CURRENT_TIMESTAMP)) AND ($3::text IS NULL OR kind = $3) ORDER BY run_at, id FOR UPDATE SKIP LOCKED LIMIT 1) UPDATE \\\"_appstruct_jobs\\\" AS job SET status = 'running', attempts = attempts + 1, locked_by = $1, locked_until = CURRENT_TIMESTAMP + ($2 * INTERVAL '1 second') FROM candidate WHERE job.id = candidate.id RETURNING job.id, job.queue, job.kind, job.payload, job.tenant_id, job.attempts, job.max_attempts, job.backoff_seconds\", [ worker_id.to_owned().into(), lease_seconds.into(), kind.map(str::to_owned).into(), ],)).await?; ");
    text.append("row.map(job_from_row).transpose().map_err(JobError::from) } ");
    text.append("fn job_from_row(row: sea_orm::QueryResult) -> Result<Job, DbErr> { Ok(Job { ");
    text.append("id: row.try_get(\"\", \"id\")?, queue: row.try_get(\"\", \"queue\")?, kind: row.try_get(\"\", \"kind\")?, payload: row.try_get(\"\", \"payload\")?, tenant_id: row.try_get(\"\", \"tenant_id\")?, attempts: row.try_get(\"\", \"attempts\")?, max_attempts: row.try_get(\"\", \"max_attempts\")?, backoff_seconds: row.try_get(\"\", \"backoff_seconds\")?, }) } ");
    text.append("async fn complete(database: &DatabaseConnection, worker_id: &str, id: uuid::Uuid,) -> Result<(), JobError> { ");
    text.append("let result = database.execute_raw(Statement::from_sql_and_values(DbBackend::Postgres, \"UPDATE \\\"_appstruct_jobs\\\" SET status = 'succeeded', completed_at = CURRENT_TIMESTAMP, locked_by = NULL, locked_until = NULL, last_error = NULL WHERE id = $1 AND status = 'running' AND locked_by = $2\", [id.into(), worker_id.to_owned().into()],)).await?; ");
    text.append("if result.rows_affected() == 1 { Ok(()) } else { Err(JobError::LeaseLost) } } ");
    text.append("async fn fail(database: &DatabaseConnection, worker_id: &str, job: &Job, error: &str,) -> Result<(), JobError> { ");
    text.append("let terminal = job.attempts >= job.max_attempts; let status = if terminal { \"dead\" } ");
    text.append("else { \"queued\" }; ");
    text.append("let exponent = u32::try_from((job.attempts - 1).clamp(0, 30)).unwrap_or(0); ");
    text.append("let delay = job.backoff_seconds.saturating_mul(1_i64 << exponent).min(3_600); ");
    text.append("let error = error.chars().take(2_000).collect::<String>(); ");
    text.append("let result = database.execute_raw(Statement::from_sql_and_values(DbBackend::Postgres, \"UPDATE \\\"_appstruct_jobs\\\" SET status = $3, last_error = $4, locked_by = NULL, locked_until = NULL, run_at = CASE WHEN $3 = 'queued' THEN CURRENT_TIMESTAMP + ($5 * INTERVAL '1 second') ELSE run_at END, completed_at = CASE WHEN $3 = 'dead' THEN CURRENT_TIMESTAMP ELSE NULL END WHERE id = $1 AND status = 'running' AND locked_by = $2\", [ job.id.into(), worker_id.to_owned().into(), status.to_owned().into(), error.into(), delay.into(), ],)).await?; ");
    text.append("if result.rows_affected() == 1 { Ok(()) } else { Err(JobError::LeaseLost) } }");
    text
}

/// The handler that sends queued mail.
#[verifier::opaque]
pub open spec fn mail_jobs_text() -> Seq<char> {
    "#[derive(Clone, Debug, Serialize, serde::Deserialize)] pub struct MailJobPayload { "@
        + "pub template: String, pub recipient: String, pub variables: std::collections::BTreeMap<String, String>, } "@
        + "pub struct MailJobHandler { mail: crate::MailState } impl MailJobHandler { "@
        + "pub fn new(mail: crate::MailState) -> Self { Self { mail } } } "@
        + "#[async_trait] impl JobHandler for MailJobHandler { "@
        + "async fn handle(&self, job: &Job) -> Result<(), JobHandlerError> { "@
        + "if job.kind != \"mail.send\" { "@
        + "return Err(JobHandlerError(format!(\"mail handler does not support job kind `{}`\", job.kind))); "@
        + "} "@
        + "let payload: MailJobPayload = serde_json::from_value(job.payload.clone()).map_err(|error| JobHandlerError(error.to_string()))?; "@
        + "self.mail.send_template(&payload.template, &payload.recipient, &payload.variables, job.tenant_id,).await.map(|_| ()).map_err(|error| JobHandlerError(error.to_string())) } "@
        + "}"@
}

fn mail_jobs() -> (text: String)
    ensures
        text@ == mail_jobs_text(),
{
    proof {
        reveal(mail_jobs_text);
    }
    let mut text = String::from_str("#[derive(Clone, Debug, Serialize, serde::Deserialize)] pub struct MailJobPayload { ");
    text.append("pub template: String, pub recipient: String, pub variables: std::collections::BTreeMap<String, String>, } ");
    text.append("pub struct MailJobHandler { mail: crate::MailState } impl MailJobHandler { ");
    text.append("pub fn new(mail: crate::MailState) -> Self { Self { mail } } } ");
    text.append("#[async_trait] impl JobHandler for MailJobHandler { ");
    text.append("async fn handle(&self, job: &Job) -> Result<(), JobHandlerError> { ");
    text.append("if job.kind != \"mail.send\" { ");
    text.append("return Err(JobHandlerError(format!(\"mail handler does not support job kind `{}`\", job.kind))); ");
    text.append("} ");
    text.append("let payload: MailJobPayload = serde_json::from_value(job.payload.clone()).map_err(|error| JobHandlerError(error.to_string()))?; ");
    text.append("self.mail.send_template(&payload.template, &payload.recipient, &payload.variables, job.tenant_id,).await.map(|_| ()).map_err(|error| JobHandlerError(error.to_string())) } ");
    text.append("}");
    text
}

/// The configuration arm of one queue.
#[verifier::opaque]
pub open spec fn queue_arm_text(name: Seq<char>, max_attempts: Seq<char>, backoff_seconds: Seq<char>) -> Seq<char> {
    name
        + " => Some(QueueConfig { max_attempts: "@
        + max_attempts
        + ", backoff_seconds: "@
        + backoff_seconds
        + " })"@
}

fn queue_arm(name: &str, max_attempts: &str, backoff_seconds: &str) -> (text: String)
    ensures
        text@ == queue_arm_text(name@, max_attempts@, backoff_seconds@),
{
    proof {
        reveal(queue_arm_text);
    }
    let mut text = String::new();
    text.append(name);
    text.append(" => Some(QueueConfig { max_attempts: ");
    text.append(max_attempts);
    text.append(", backoff_seconds: ");
    text.append(backoff_seconds);
    text.append(" })");
    text
}

/// The queue configurations.
#[verifier::opaque]
pub open spec fn queue_block_text(queues: Seq<Seq<char>>) -> Seq<char> {
    "#[derive(Clone, Copy)] struct QueueConfig { max_attempts: i32, backoff_seconds: i64 } "@
        + "fn queue_config(name: &str) -> Option<QueueConfig> { match name { "@
        + suffixed_text(queues, ", "@)
        + " _ => None } }"@
}

fn queue_block(queues: &Vec<String>) -> (text: String)
    ensures
        text@ == queue_block_text(texts(queues@)),
{
    proof {
        reveal(queue_block_text);
    }
    let mut text = String::from_str("#[derive(Clone, Copy)] struct QueueConfig { max_attempts: i32, backoff_seconds: i64 } ");
    text.append("fn queue_config(name: &str) -> Option<QueueConfig> { match name { ");
    append_suffixed(&mut text, queues, ", ");
    text.append(" _ => None } }");
    text
}

/// The worker: it claims one job at a time with its lease and polls at its interval.
#[verifier::opaque]
pub open spec fn worker_block_text(lease_seconds: Seq<char>, poll_interval_ms: Seq<char>, lifecycle: Seq<char>) -> Seq<char> {
    "pub struct JobWorker { "@
        + "database: DatabaseConnection, handler: Arc<dyn JobHandler>, worker_id: String, kind: Option<String>, } "@
        + "impl JobWorker { "@
        + "pub fn new(database: DatabaseConnection, handler: Arc<dyn JobHandler>) -> Self { Self { "@
        + "database, handler, worker_id: uuid::Uuid::now_v7().to_string(), kind: None, } } "@
        + "pub fn for_kind(database: DatabaseConnection, handler: Arc<dyn JobHandler>, kind: &str,) -> Self { "@
        + "Self { "@
        + "database, handler, worker_id: uuid::Uuid::now_v7().to_string(), kind: Some(kind.to_owned()), } "@
        + "} pub async fn run_once(&self) -> Result<bool, JobError> { "@
        + "let Some(job) = claim(&self.database, &self.worker_id, "@
        + lease_seconds
        + ", self.kind.as_deref(),).await? else { return Ok(false); }; "@
        + "match self.handler.handle(&job).await { "@
        + "Ok(()) => complete(&self.database, &self.worker_id, job.id).await?, Err(error) => fail(&self.database, &self.worker_id, &job, &error.0).await?, } "@
        + "Ok(true) } pub fn spawn(self) -> JobWorkerHandle { self.spawn_inner(None) } "@
        + "pub(crate) fn spawn_with_health(self, health: crate::ApplicationHealth,) -> JobWorkerHandle { "@
        + "self.spawn_inner(Some(health)) } "@
        + "fn spawn_inner(self, health: Option<crate::ApplicationHealth>,) -> JobWorkerHandle { "@
        + "let (shutdown, mut receiver) = tokio::sync::watch::channel(false); "@
        + "let expected_shutdown = Arc::new(AtomicBool::new(false)); "@
        + "let task_expected_shutdown = Arc::clone(&expected_shutdown); "@
        + "let task = tokio::spawn(async move { let _exit = WorkerExitGuard { "@
        + "health, expected_shutdown: task_expected_shutdown }; loop { if *receiver.borrow() { "@
        + "break; } match self.run_once().await { Ok(true) => continue, Ok(false) => {} "@
        + "Err(error) => tracing::error!(%error, \"job worker iteration failed\"), } tokio::select! { "@
        + "() = tokio::time::sleep(Duration::from_millis("@
        + poll_interval_ms
        + ")) => {} result = receiver.changed() => if result.is_err() { break; } } } }); "@
        + "JobWorkerHandle { shutdown, task, expected_shutdown } } } "@
        + lifecycle
}

fn worker_block(lease_seconds: &str, poll_interval_ms: &str, lifecycle: &str) -> (text: String)
    ensures
        text@ == worker_block_text(lease_seconds@, poll_interval_ms@, lifecycle@),
{
    proof {
        reveal(worker_block_text);
    }
    let mut text = String::from_str("pub struct JobWorker { ");
    text.append("database: DatabaseConnection, handler: Arc<dyn JobHandler>, worker_id: String, kind: Option<String>, } ");
    text.append("impl JobWorker { ");
    text.append("pub fn new(database: DatabaseConnection, handler: Arc<dyn JobHandler>) -> Self { Self { ");
    text.append("database, handler, worker_id: uuid::Uuid::now_v7().to_string(), kind: None, } } ");
    text.append("pub fn for_kind(database: DatabaseConnection, handler: Arc<dyn JobHandler>, kind: &str,) -> Self { ");
    text.append("Self { ");
    text.append("database, handler, worker_id: uuid::Uuid::now_v7().to_string(), kind: Some(kind.to_owned()), } ");
    text.append("} pub async fn run_once(&self) -> Result<bool, JobError> { ");
    text.append("let Some(job) = claim(&self.database, &self.worker_id, ");
    text.append(lease_seconds);
    text.append(", self.kind.as_deref(),).await? else { return Ok(false); }; ");
    text.append("match self.handler.handle(&job).await { ");
    text.append("Ok(()) => complete(&self.database, &self.worker_id, job.id).await?, Err(error) => fail(&self.database, &self.worker_id, &job, &error.0).await?, } ");
    text.append("Ok(true) } pub fn spawn(self) -> JobWorkerHandle { self.spawn_inner(None) } ");
    text.append("pub(crate) fn spawn_with_health(self, health: crate::ApplicationHealth,) -> JobWorkerHandle { ");
    text.append("self.spawn_inner(Some(health)) } ");
    text.append("fn spawn_inner(self, health: Option<crate::ApplicationHealth>,) -> JobWorkerHandle { ");
    text.append("let (shutdown, mut receiver) = tokio::sync::watch::channel(false); ");
    text.append("let expected_shutdown = Arc::new(AtomicBool::new(false)); ");
    text.append("let task_expected_shutdown = Arc::clone(&expected_shutdown); ");
    text.append("let task = tokio::spawn(async move { let _exit = WorkerExitGuard { ");
    text.append("health, expected_shutdown: task_expected_shutdown }; loop { if *receiver.borrow() { ");
    text.append("break; } match self.run_once().await { Ok(true) => continue, Ok(false) => {} ");
    text.append("Err(error) => tracing::error!(%error, \"job worker iteration failed\"), } tokio::select! { ");
    text.append("() = tokio::time::sleep(Duration::from_millis(");
    text.append(poll_interval_ms);
    text.append(")) => {} result = receiver.changed() => if result.is_err() { break; } } } }); ");
    text.append("JobWorkerHandle { shutdown, task, expected_shutdown } } } ");
    text.append(lifecycle);
    text
}

/// The jobs module of an application with jobs on.
#[verifier::opaque]
pub open spec fn jobs_block_text(contract: Seq<char>, queues: Seq<char>, enqueue: Seq<char>, worker: Seq<char>, persistence: Seq<char>, mail: Seq<char>) -> Seq<char> {
    "use async_trait::async_trait; "@
        + "use sea_orm::{ConnectionTrait, DatabaseConnection, DbBackend, DbErr, Statement}; "@
        + "use serde::Serialize; use std::{ "@
        + "fmt, sync::{Arc, atomic::{AtomicBool, Ordering}}, time::Duration, }; "@
        + contract
        + " "@
        + queues
        + " "@
        + enqueue
        + " "@
        + worker
        + " "@
        + persistence
        + " "@
        + mail
}

fn jobs_block(contract: &str, queues: &str, enqueue: &str, worker: &str, persistence: &str, mail: &str) -> (text: String)
    ensures
        text@ == jobs_block_text(contract@, queues@, enqueue@, worker@, persistence@, mail@),
{
    proof {
        reveal(jobs_block_text);
    }
    let mut text = String::from_str("use async_trait::async_trait; ");
    text.append("use sea_orm::{ConnectionTrait, DatabaseConnection, DbBackend, DbErr, Statement}; ");
    text.append("use serde::Serialize; use std::{ ");
    text.append("fmt, sync::{Arc, atomic::{AtomicBool, Ordering}}, time::Duration, }; ");
    text.append(contract);
    text.append(" ");
    text.append(queues);
    text.append(" ");
    text.append(enqueue);
    text.append(" ");
    text.append(worker);
    text.append(" ");
    text.append(persistence);
    text.append(" ");
    text.append(mail);
    text
}

/// The jobs module of an application with jobs off: the same API, refusing every job.
#[verifier::opaque]
pub open spec fn disabled_jobs_text() -> Seq<char> {
    "use async_trait::async_trait; use sea_orm::{ConnectionTrait, DatabaseConnection}; "@
        + "use serde::Serialize; use std::{fmt, sync::Arc}; #[derive(Clone, Debug)] pub struct Job; "@
        + "#[derive(Clone, Debug, PartialEq, Eq)] pub struct JobReceipt { "@
        + "pub id: uuid::Uuid, pub deduplicated: bool } "@
        + "#[derive(Clone, Debug)] pub struct JobHandlerError(pub String); "@
        + "#[derive(Debug)] pub enum JobError { Disabled } impl fmt::Display for JobError { "@
        + "fn fmt(&self, formatter: &mut fmt::Formatter<'_>) -> fmt::Result { "@
        + "formatter.write_str(\"jobs module is disabled\") } } impl std::error::Error for JobError {} "@
        + "#[async_trait] pub trait JobHandler: Send + Sync { "@
        + "async fn handle(&self, job: &Job) -> Result<(), JobHandlerError>; } pub struct JobWorker; "@
        + "impl JobWorker { "@
        + "pub fn new(_database: DatabaseConnection, _handler: Arc<dyn JobHandler>) -> Self { Self } "@
        + "pub fn for_kind(_database: DatabaseConnection, _handler: Arc<dyn JobHandler>, _kind: &str,) -> Self { "@
        + "Self } pub async fn run_once(&self) -> Result<bool, JobError> { Err(JobError::Disabled) } "@
        + "pub fn spawn(self) -> JobWorkerHandle { JobWorkerHandle } } pub struct JobWorkerHandle; "@
        + "impl JobWorkerHandle { "@
        + "pub async fn shutdown(self) -> Result<(), appstruct_runtime::ShutdownError> { Ok(()) } } "@
        + "#[async_trait] impl appstruct_runtime::ServiceHandle for JobWorkerHandle { "@
        + "fn service(&self) -> &'static str { \"appstruct/jobs\" } "@
        + "async fn shutdown(self: Box<Self>,) -> Result<(), appstruct_runtime::ShutdownError> { "@
        + "JobWorkerHandle::shutdown(*self).await } } "@
        + "pub(crate) async fn enqueue<C: ConnectionTrait, T: Serialize>(_database: &C, _queue: &str, _kind: &str, _payload: &T, _idempotency_key: Option<&str>, _run_at: Option<chrono::DateTime<chrono::Utc>>, _tenant_id: Option<uuid::Uuid>,) -> Result<JobReceipt, JobError> { "@
        + "Err(JobError::Disabled) }"@
}

fn disabled_jobs() -> (text: String)
    ensures
        text@ == disabled_jobs_text(),
{
    proof {
        reveal(disabled_jobs_text);
    }
    let mut text = String::from_str("use async_trait::async_trait; use sea_orm::{ConnectionTrait, DatabaseConnection}; ");
    text.append("use serde::Serialize; use std::{fmt, sync::Arc}; #[derive(Clone, Debug)] pub struct Job; ");
    text.append("#[derive(Clone, Debug, PartialEq, Eq)] pub struct JobReceipt { ");
    text.append("pub id: uuid::Uuid, pub deduplicated: bool } ");
    text.append("#[derive(Clone, Debug)] pub struct JobHandlerError(pub String); ");
    text.append("#[derive(Debug)] pub enum JobError { Disabled } impl fmt::Display for JobError { ");
    text.append("fn fmt(&self, formatter: &mut fmt::Formatter<'_>) -> fmt::Result { ");
    text.append("formatter.write_str(\"jobs module is disabled\") } } impl std::error::Error for JobError {} ");
    text.append("#[async_trait] pub trait JobHandler: Send + Sync { ");
    text.append("async fn handle(&self, job: &Job) -> Result<(), JobHandlerError>; } pub struct JobWorker; ");
    text.append("impl JobWorker { ");
    text.append("pub fn new(_database: DatabaseConnection, _handler: Arc<dyn JobHandler>) -> Self { Self } ");
    text.append("pub fn for_kind(_database: DatabaseConnection, _handler: Arc<dyn JobHandler>, _kind: &str,) -> Self { ");
    text.append("Self } pub async fn run_once(&self) -> Result<bool, JobError> { Err(JobError::Disabled) } ");
    text.append("pub fn spawn(self) -> JobWorkerHandle { JobWorkerHandle } } pub struct JobWorkerHandle; ");
    text.append("impl JobWorkerHandle { ");
    text.append("pub async fn shutdown(self) -> Result<(), appstruct_runtime::ShutdownError> { Ok(()) } } ");
    text.append("#[async_trait] impl appstruct_runtime::ServiceHandle for JobWorkerHandle { ");
    text.append("fn service(&self) -> &'static str { \"appstruct/jobs\" } ");
    text.append("async fn shutdown(self: Box<Self>,) -> Result<(), appstruct_runtime::ShutdownError> { ");
    text.append("JobWorkerHandle::shutdown(*self).await } } ");
    text.append("pub(crate) async fn enqueue<C: ConnectionTrait, T: Serialize>(_database: &C, _queue: &str, _kind: &str, _payload: &T, _idempotency_key: Option<&str>, _run_at: Option<chrono::DateTime<chrono::Utc>>, _tenant_id: Option<uuid::Uuid>,) -> Result<JobReceipt, JobError> { ");
    text.append("Err(JobError::Disabled) }");
    text
}

/// A count that must fit in `i32`, or the fallback where it does not.
pub open spec fn clamp_i32(value: u64, fallback: int) -> int {
    if value <= 2147483647 { value as int } else { fallback }
}

/// A count that must fit in `i64`, or the fallback where it does not.
pub open spec fn clamp_i64(value: u64, fallback: int) -> int {
    if value <= 9223372036854775807 { value as int } else { fallback }
}

/// An integer literal with its type suffix.
pub open spec fn suffixed_literal(value: int, suffix: Seq<char>) -> Seq<char> {
    decimal_text(value as nat) + suffix
}

fn suffixed(value: u64, suffix: &str) -> (text: String)
    ensures
        text@ == suffixed_literal(value as int, suffix@),
{
    let mut text = decimal(value);
    text.append(suffix);
    text
}

/// The configuration arm of a queue: its attempts (at most `i32::MAX`, else
/// 100) and its backoff (at most `i64::MAX` seconds, else an hour).
pub open spec fn queue_text(queue: JobQueue) -> Seq<char> {
    queue_arm_text(
        literal_text(queue.name@),
        suffixed_literal(clamp_i32(queue.max_attempts, 100), "i32"@),
        suffixed_literal(clamp_i64(queue.backoff_seconds, 3600), "i64"@),
    )
}

/// The queue arms, in order.
pub open spec fn queues_spec(queues: Seq<JobQueue>) -> Seq<Seq<char>>
    decreases queues.len(),
{
    if queues.len() == 0 {
        Seq::<Seq<char>>::empty()
    } else {
        queues_spec(queues.drop_last()).push(queue_text(queues.last()))
    }
}

/// The queue configurations of the application.
pub fn queue_source(queues: &Vec<JobQueue>) -> (text: String)
    ensures
        text@ == queue_block_text(queues_spec(queues@)),
{
    let mut arms: Vec<String> = Vec::new();
    let mut i: usize = 0;
    proof {
        assert(queues@.subrange(0, 0) == Seq::<JobQueue>::empty());
        assert(texts(arms@) == Seq::<Seq<char>>::empty());
    }
    while i < queues.len()
        invariant
            i <= queues.len(),
            texts(arms@) == queues_spec(queues@.subrange(0, i as int)),
        decreases queues.len() - i,
    {
        proof {
            assert(queues@.subrange(0, i + 1).drop_last() == queues@.subrange(0, i as int));
        }
        let queue = &queues[i];
        let name = string_literal(queue.name.as_str());
        let attempts = if queue.max_attempts <= 2147483647 {
            suffixed(queue.max_attempts, "i32")
        } else {
            suffixed(100, "i32")
        };
        let backoff = if queue.backoff_seconds <= 9223372036854775807 {
            suffixed(queue.backoff_seconds, "i64")
        } else {
            suffixed(3600, "i64")
        };
        let arm = queue_arm(name.as_str(), attempts.as_str(), backoff.as_str());
        let ghost before = texts(arms@);
        arms.push(arm);
        proof {
            assert(texts(arms@) == before.push(arm@));
        }
        i = i + 1;
    }
    proof {
        assert(queues@.subrange(0, queues@.len() as int) == queues@);
    }
    queue_block(&arms)
}

/// The worker, polling every `poll_interval_ms` and leasing jobs for
/// `lease_seconds` (at most `i64::MAX`, else 30).
pub open spec fn worker_text(poll_interval_ms: u64, lease_seconds: u64) -> Seq<char> {
    worker_block_text(
        suffixed_literal(clamp_i64(lease_seconds, 30), "i64"@),
        suffixed_literal(poll_interval_ms as int, "u64"@),
        worker_lifecycle_text(),
    )
}

pub fn worker_source(poll_interval_ms: u64, lease_seconds: u64) -> (text: String)
    ensures
        text@ == worker_text(poll_interval_ms, lease_seconds),
{
    let lease = if lease_seconds <= 9223372036854775807 {
        suffixed(lease_seconds, "i64")
    } else {
        suffixed(30, "i64")
    };
    let poll = suffixed(poll_interval_ms, "u64");
    let lifecycle = worker_lifecycle();
    worker_block(lease.as_str(), poll.as_str(), lifecycle.as_str())
}

/// The jobs module of an application: the contract, its queues, enqueueing,
/// the worker, persistence, and mail jobs where mail is on.
pub open spec fn jobs_text(ir: AppIr) -> Seq<char> {
    jobs_block_text(
        jobs_contract_text(),
        queue_block_text(queues_spec(ir.jobs.queues@)),
        enqueue_text(),
        worker_text(ir.jobs.poll_interval_ms, ir.jobs.lease_seconds),
        persistence_text(),
        if ir.mail.enabled { mail_jobs_text() } else { Seq::<char>::empty() },
    )
}

/// The path of the generated jobs module.
pub open spec fn jobs_path() -> Seq<char> {
    "backend/src/jobs.rs"@
}

/// The jobs module's file: the enabled module where jobs are on, the disabled one otherwise.
pub open spec fn jobs_plan_spec(ir: AppIr, header: Seq<char>) -> Result<Seq<char>, Seq<char>> {
    if ir.jobs.enabled {
        render_spec(jobs_text(ir), header)
    } else {
        render_spec(disabled_jobs_text(), header)
    }
}

/// The jobs module's file; `header` opens it.
pub fn jobs_plan(ir: &AppIr, header: &str) -> (result: Result<Vec<Artifact>, CodegenError>)
    ensures
        match result {
            Ok(artifacts) => jobs_plan_spec(*ir, header@) matches Ok(source) && rust_file(artifacts@, jobs_path(), source),
            Err(error) => jobs_plan_spec(*ir, header@) == Err::<Seq<char>, Seq<char>>(error@),
        },
{
    let source = if ir.jobs.enabled {
        let contract = jobs_contract();
        let queues = queue_source(&ir.jobs.queues);
        let enqueue_text = enqueue();
        let worker = worker_source(ir.jobs.poll_interval_ms, ir.jobs.lease_seconds);
        let persistence_text = persistence();
        let mail = if ir.mail.enabled {
            mail_jobs()
        } else {
            String::new()
        };
        let text = jobs_block(
            contract.as_str(),
            queues.as_str(),
            enqueue_text.as_str(),
            worker.as_str(),
            persistence_text.as_str(),
            mail.as_str(),
        );
        render(text.as_str(), header)?
    } else {
        let text = disabled_jobs();
        render(text.as_str(), header)?
    };
    Ok(single_file("backend/src/jobs.rs", source))
}

} // verus!
