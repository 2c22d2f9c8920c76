use vstd::prelude::*;
use vstd::string::StringExecFns;
use crate::billing::{decimal, decimal_text, join_text};
use crate::field_access::{literal_text, string_literal};
use crate::fields::texts;
use crate::ir::{AppIr, JobSchedule};
use crate::text::{append_joined, append_suffixed, suffixed_text};
use crate::values::{integer_literal, integer_literal_text};

verus! {

/// One recurring job as the generated schedule table lists it.
#[verifier::opaque]
pub open spec fn schedule_config_text(name: Seq<char>, cron: Seq<char>, interval: Seq<char>, queue: Seq<char>, kind: Seq<char>, payload: Seq<char>) -> Seq<char> {
    "ScheduleConfig { name: "@
        + name
        + ", cron: "@
        + cron
        + ", interval_seconds: "@
        + interval
        + ", queue: "@
        + queue
        + ", kind: "@
        + kind
        + ", payload: "@
        + payload
        + ", }"@
}

fn schedule_config(name: &str, cron: &str, interval: &str, queue: &str, kind: &str, payload: &str) -> (text: String)
    ensures
        text@ == schedule_config_text(name@, cron@, interval@, queue@, kind@, payload@),
{
    proof {
        reveal(schedule_config_text);
    }
    let mut text = String::from_str("ScheduleConfig { name: ");
    text.append(name);
    text.append(", cron: ");
    text.append(cron);
    text.append(", interval_seconds: ");
    text.append(interval);
    text.append(", queue: ");
    text.append(queue);
    text.append(", kind: ");
    text.append(kind);
    text.append(", payload: ");
    text.append(payload);
    text.append(", }");
    text
}

/// The daily cleanup of expired reports, on the report queue.
#[verifier::opaque]
pub open spec fn retention_schedule_text(queue: Seq<char>) -> Seq<char> {
    "ScheduleConfig { "@
        + "name: \"_appstruct_report_retention\", cron: \"@every 24h\", interval_seconds: Some(86_400), queue: "@
        + queue
        + ", kind: \"report.cleanup\", payload: \"{}\", }"@
}

fn retention_schedule(queue: &str) -> (text: String)
    ensures
        text@ == retention_schedule_text(queue@),
{
    proof {
        reveal(retention_schedule_text);
    }
    let mut text = String::from_str("ScheduleConfig { ");
    text.append("name: \"_appstruct_report_retention\", cron: \"@every 24h\", interval_seconds: Some(86_400), queue: ");
    text.append(queue);
    text.append(", kind: \"report.cleanup\", payload: \"{}\", }");
    text
}

/// The schedule type and table.
#[verifier::opaque]
pub open spec fn schedule_table_text(schedules: Seq<Seq<char>>, report_schedule: Seq<char>) -> Seq<char> {
    "#[derive(Clone, Copy)] struct ScheduleConfig { "@
        + "name: &'static str, cron: &'static str, interval_seconds: Option<i64>, queue: &'static str, kind: &'static str, payload: &'static str, } "@
        + "fn schedule_configs() -> &'static [ScheduleConfig] { &["@
        + suffixed_text(schedules, ", "@)
        + " "@
        + report_schedule
        + "] }"@
}

fn schedule_table(schedules: &Vec<String>, report_schedule: &str) -> (text: String)
    ensures
        text@ == schedule_table_text(texts(schedules@), report_schedule@),
{
    proof {
        reveal(schedule_table_text);
    }
    let mut text = String::from_str("#[derive(Clone, Copy)] struct ScheduleConfig { ");
    text.append("name: &'static str, cron: &'static str, interval_seconds: Option<i64>, queue: &'static str, kind: &'static str, payload: &'static str, } ");
    text.append("fn schedule_configs() -> &'static [ScheduleConfig] { &[");
    append_suffixed(&mut text, schedules, ", ");
    text.append(" ");
    text.append(report_schedule);
    text.append("] }");
    text
}

/// The computing of next runs, the storing of schedules and the enqueuing of due runs.
#[verifier::opaque]
pub open spec fn schedule_persistence_text() -> Seq<char> {
    "fn next_schedule_run(schedule: &ScheduleConfig, now: chrono::DateTime<chrono::Utc>,) -> Result<chrono::DateTime<chrono::Utc>, JobError> { "@
        + "if let Some(seconds) = schedule.interval_seconds { "@
        + "return Ok(now + chrono::Duration::seconds(seconds)); } let expression = format!(\"0 {} "@
        + "*\", schedule.cron); "@
        + "let parsed = <cron::Schedule as std::str::FromStr>::from_str(&expression).map_err(|error| JobError::InvalidInput(format!(\"invalid schedule `{}`: {error}\", schedule.name)))?; "@
        + "parsed.after(&now).next().ok_or_else(|| JobError::InvalidInput(format!(\"schedule `{}` has no future occurrence\", schedule.name))) } "@
        + "async fn ensure_schedules(database: &DatabaseConnection) -> Result<(), JobError> { "@
        + "let transaction = database.begin().await?; "@
        + "let clock = transaction.query_one_raw(Statement::from_string(DbBackend::Postgres, \"SELECT CURRENT_TIMESTAMP AS scheduler_now\".to_owned(),)).await?.ok_or_else(|| JobError::Database(DbErr::Custom(\"database clock query returned no row\".to_owned())))?; "@
        + "let now: chrono::DateTime<chrono::Utc> = clock.try_get(\"\", \"scheduler_now\")?; "@
        + "for schedule in schedule_configs() { "@
        + "let next_run_at = if schedule.interval_seconds.is_some() { now } else { "@
        + "next_schedule_run(schedule, now)? }; "@
        + "transaction.execute_raw(Statement::from_sql_and_values(DbBackend::Postgres, \"INSERT INTO \\\"_appstruct_job_schedules\\\" AS schedule (id, name, cron, interval_seconds, queue, kind, payload, enabled, paused, next_run_at, created_at) VALUES ($1, $2, $3, $4, $5, $6, $7, TRUE, FALSE, $8, CURRENT_TIMESTAMP) ON CONFLICT (name) DO UPDATE SET cron = EXCLUDED.cron, interval_seconds = EXCLUDED.interval_seconds, queue = EXCLUDED.queue, kind = EXCLUDED.kind, payload = EXCLUDED.payload, enabled = TRUE, next_run_at = CASE WHEN schedule.enabled AND schedule.cron = EXCLUDED.cron AND schedule.interval_seconds IS NOT DISTINCT FROM EXCLUDED.interval_seconds THEN schedule.next_run_at ELSE EXCLUDED.next_run_at END\", [ uuid::Uuid::now_v7().into(), schedule.name.to_owned().into(), schedule.cron.to_owned().into(), schedule.interval_seconds.into(), schedule.queue.to_owned().into(), schedule.kind.to_owned().into(), serde_json::from_str::<serde_json::Value>(schedule.payload).map_err(|error| JobError::Serialization(error.to_string()))?.into(), next_run_at.into(), ],)).await?; "@
        + "} "@
        + "transaction.execute_unprepared(\"UPDATE \\\"_appstruct_job_schedules\\\" SET enabled = FALSE WHERE enabled\").await?; "@
        + "for schedule in schedule_configs() { "@
        + "transaction.execute_raw(Statement::from_sql_and_values(DbBackend::Postgres, \"UPDATE \\\"_appstruct_job_schedules\\\" SET enabled = TRUE WHERE name = $1\", [schedule.name.to_owned().into()],)).await?; "@
        + "} transaction.commit().await?; Ok(()) } "@
        + "async fn schedule_due(database: &DatabaseConnection) -> Result<(), JobError> { "@
        + "for schedule in schedule_configs() { let transaction = database.begin().await?; "@
        + "let row = transaction.query_one_raw(Statement::from_sql_and_values(DbBackend::Postgres, \"SELECT id, next_run_at, CURRENT_TIMESTAMP AS scheduler_now FROM \\\"_appstruct_job_schedules\\\" WHERE name = $1 AND enabled AND NOT paused AND next_run_at <= CURRENT_TIMESTAMP FOR UPDATE SKIP LOCKED LIMIT 1\", [schedule.name.to_owned().into()],)).await?; "@
        + "let Some(row) = row else { transaction.commit().await?; continue; }; "@
        + "let schedule_id: uuid::Uuid = row.try_get(\"\", \"id\")?; "@
        + "let run_at: chrono::DateTime<chrono::Utc> = row.try_get(\"\", \"next_run_at\")?; "@
        + "let scheduler_now: chrono::DateTime<chrono::Utc> = row.try_get(\"\", \"scheduler_now\")?; "@
        + "let next_run_at = next_schedule_run(schedule, scheduler_now)?; "@
        + "transaction.execute_raw(Statement::from_sql_and_values(DbBackend::Postgres, \"UPDATE \\\"_appstruct_job_schedules\\\" SET next_run_at = $2, last_run_at = CURRENT_TIMESTAMP WHERE id = $1\", [schedule_id.into(), next_run_at.into()],)).await?; "@
        + "let idempotency = format!(\"schedule:{}:{}\", schedule.name, run_at.timestamp()); "@
        + "enqueue(&transaction, schedule.queue, schedule.kind, &serde_json::from_str::<serde_json::Value>(schedule.payload).map_err(|error| JobError::Serialization(error.to_string()))?, Some(&idempotency), Some(run_at), None,).await?; "@
        + "transaction.commit().await?; } Ok(()) }"@
}

fn schedule_persistence() -> (text: String)
    ensures
        text@ == schedule_persistence_text(),
{
    proof {
        reveal(schedule_persistence_text);
    }
    let mut text = String::from_str("fn next_schedule_run(schedule: &ScheduleConfig, now: chrono::DateTime<chrono::Utc>,) -> Result<chrono::DateTime<chrono::Utc>, JobError> { ");
    text.append("if let Some(seconds) = schedule.interval_seconds { ");
    text.append("return Ok(now + chrono::Duration::seconds(seconds)); } let expression = format!(\"0 {} ");
    text.append("*\", schedule.cron); ");
    text.append("let parsed = <cron::Schedule as std::str::FromStr>::from_str(&expression).map_err(|error| JobError::InvalidInput(format!(\"invalid schedule `{}`: {error}\", schedule.name)))?; ");
    text.append("parsed.after(&now).next().ok_or_else(|| JobError::InvalidInput(format!(\"schedule `{}` has no future occurrence\", schedule.name))) } ");
    text.append("async fn ensure_schedules(database: &DatabaseConnection) -> Result<(), JobError> { ");
    text.append("let transaction = database.begin().await?; ");
    text.append("let clock = transaction.query_one_raw(Statement::from_string(DbBackend::Postgres, \"SELECT CURRENT_TIMESTAMP AS scheduler_now\".to_owned(),)).await?.ok_or_else(|| JobError::Database(DbErr::Custom(\"database clock query returned no row\".to_owned())))?; ");
    text.append("let now: chrono::DateTime<chrono::Utc> = clock.try_get(\"\", \"scheduler_now\")?; ");
    text.append("for schedule in schedule_configs() { ");
    text.append("let next_run_at = if schedule.interval_seconds.is_some() { now } else { ");
    text.append("next_schedule_run(schedule, now)? }; ");
    text.append("transaction.execute_raw(Statement::from_sql_and_values(DbBackend::Postgres, \"INSERT INTO \\\"_appstruct_job_schedules\\\" AS schedule (id, name, cron, interval_seconds, queue, kind, payload, enabled, paused, next_run_at, created_at) VALUES ($1, $2, $3, $4, $5, $6, $7, TRUE, FALSE, $8, CURRENT_TIMESTAMP) ON CONFLICT (name) DO UPDATE SET cron = EXCLUDED.cron, interval_seconds = EXCLUDED.interval_seconds, queue = EXCLUDED.queue, kind = EXCLUDED.kind, payload = EXCLUDED.payload, enabled = TRUE, next_run_at = CASE WHEN schedule.enabled AND schedule.cron = EXCLUDED.cron AND schedule.interval_seconds IS NOT DISTINCT FROM EXCLUDED.interval_seconds THEN schedule.next_run_at ELSE EXCLUDED.next_run_at END\", [ uuid::Uuid::now_v7().into(), schedule.name.to_owned().into(), schedule.cron.to_owned().into(), schedule.interval_seconds.into(), schedule.queue.to_owned().into(), schedule.kind.to_owned().into(), serde_json::from_str::<serde_json::Value>(schedule.payload).map_err(|error| JobError::Serialization(error.to_string()))?.into(), next_run_at.into(), ],)).await?; ");
    text.append("} ");
    text.append("transaction.execute_unprepared(\"UPDATE \\\"_appstruct_job_schedules\\\" SET enabled = FALSE WHERE enabled\").await?; ");
    text.append("for schedule in schedule_configs() { ");
    text.append("transaction.execute_raw(Statement::from_sql_and_values(DbBackend::Postgres, \"UPDATE \\\"_appstruct_job_schedules\\\" SET enabled = TRUE WHERE name = $1\", [schedule.name.to_owned().into()],)).await?; ");
    text.append("} transaction.commit().await?; Ok(()) } ");
    text.append("async fn schedule_due(database: &DatabaseConnection) -> Result<(), JobError> { ");
    text.append("for schedule in schedule_configs() { let transaction = database.begin().await?; ");
    text.append("let row = transaction.query_one_raw(Statement::from_sql_and_values(DbBackend::Postgres, \"SELECT id, next_run_at, CURRENT_TIMESTAMP AS scheduler_now FROM \\\"_appstruct_job_schedules\\\" WHERE name = $1 AND enabled AND NOT paused AND next_run_at <= CURRENT_TIMESTAMP FOR UPDATE SKIP LOCKED LIMIT 1\", [schedule.name.to_owned().into()],)).await?; ");
    text.append("let Some(row) = row else { transaction.commit().await?; continue; }; ");
    text.append("let schedule_id: uuid::Uuid = row.try_get(\"\", \"id\")?; ");
    text.append("let run_at: chrono::DateTime<chrono::Utc> = row.try_get(\"\", \"next_run_at\")?; ");
    text.append("let scheduler_now: chrono::DateTime<chrono::Utc> = row.try_get(\"\", \"scheduler_now\")?; ");
    text.append("let next_run_at = next_schedule_run(schedule, scheduler_now)?; ");
    text.append("transaction.execute_raw(Statement::from_sql_and_values(DbBackend::Postgres, \"UPDATE \\\"_appstruct_job_schedules\\\" SET next_run_at = $2, last_run_at = CURRENT_TIMESTAMP WHERE id = $1\", [schedule_id.into(), next_run_at.into()],)).await?; ");
    text.append("let idempotency = format!(\"schedule:{}:{}\", schedule.name, run_at.timestamp()); ");
    text.append("enqueue(&transaction, schedule.queue, schedule.kind, &serde_json::from_str::<serde_json::Value>(schedule.payload).map_err(|error| JobError::Serialization(error.to_string()))?, Some(&idempotency), Some(run_at), None,).await?; ");
    text.append("transaction.commit().await?; } Ok(()) }");
    text
}

/// The handling of a job under a lease renewed by a heartbeat.
#[verifier::opaque]
pub open spec fn lease_methods_text(interval_ms: Seq<char>, lease_seconds: Seq<char>) -> Seq<char> {
    "async fn handle_with_lease(&self, job: &Job) -> Result<Result<(), JobHandlerError>, JobError> { "@
        + "let heartbeat = async { loop { tokio::time::sleep(Duration::from_millis("@
        + interval_ms
        + " as u64)).await; "@
        + "let result = self.database.execute_raw(Statement::from_sql_and_values(DbBackend::Postgres, \"UPDATE \\\"_appstruct_jobs\\\" SET locked_until = clock_timestamp() + ($4 * INTERVAL '1 second') WHERE id = $1 AND status = 'running' AND locked_by = $2 AND attempts = $3 AND locked_until > clock_timestamp()\", [job.id.into(), self.worker_id.clone().into(), job.attempts.into(), "@
        + lease_seconds
        + ".into()],)).await?; if result.rows_affected() != 1 { return Err(JobError::LeaseLost); } } "@
        + "}; tokio::select! { "@
        + "result = self.handler.handle(job) => Ok(result), result = heartbeat => result, } }"@
}

fn lease_methods(interval_ms: &str, lease_seconds: &str) -> (text: String)
    ensures
        text@ == lease_methods_text(interval_ms@, lease_seconds@),
{
    proof {
        reveal(lease_methods_text);
    }
    let mut text = String::from_str("async fn handle_with_lease(&self, job: &Job) -> Result<Result<(), JobHandlerError>, JobError> { ");
    text.append("let heartbeat = async { loop { tokio::time::sleep(Duration::from_millis(");
    text.append(interval_ms);
    text.append(" as u64)).await; ");
    text.append("let result = self.database.execute_raw(Statement::from_sql_and_values(DbBackend::Postgres, \"UPDATE \\\"_appstruct_jobs\\\" SET locked_until = clock_timestamp() + ($4 * INTERVAL '1 second') WHERE id = $1 AND status = 'running' AND locked_by = $2 AND attempts = $3 AND locked_until > clock_timestamp()\", [job.id.into(), self.worker_id.clone().into(), job.attempts.into(), ");
    text.append(lease_seconds);
    text.append(".into()],)).await?; if result.rows_affected() != 1 { return Err(JobError::LeaseLost); } } ");
    text.append("}; tokio::select! { ");
    text.append("result = self.handler.handle(job) => Ok(result), result = heartbeat => result, } }");
    text
}

/// The claiming and handling of one job, with its outcome recorded.
#[verifier::opaque]
pub open spec fn metered_run_once_text(lease_seconds: Seq<char>) -> Seq<char> {
    "pub async fn run_once(&self) -> Result<bool, JobError> { "@
        + "let Some(job) = claim(&self.database, &self.worker_id, "@
        + lease_seconds
        + ", self.kind.as_deref(),).await? else { return Ok(false); }; "@
        + "let mut observation = crate::metrics::JobAttempt::new(&job.kind, job.attempts); "@
        + "let result = match self.handle_with_lease(&job).await { "@
        + "Ok(Ok(())) => complete(&self.database, &self.worker_id, job.id).await.map(|()| \"succeeded\"), Ok(Err(error)) => fail(&self.database, &self.worker_id, &job, &error.0).await.map(|()| match error.0.as_str() { "@
        + "\"REPORT_CANCELLED\" => \"cancelled\", \"REPORT_LEASE_LOST\" => \"lease_lost\", _ => \"failed\", }), Err(error) => Err(error), }; "@
        + "observation.finish(match &result { Ok(outcome) => outcome, Err(JobError::LeaseLost) => { "@
        + "let cancelled = self.database.query_one_raw(Statement::from_sql_and_values(DbBackend::Postgres, \"SELECT (status = 'cancelled' AND attempts = $2) AS cancelled FROM \\\"_appstruct_jobs\\\" WHERE id = $1\", [job.id.into(), job.attempts.into()],)).await.ok().flatten().and_then(|row| row.try_get::<bool>(\"\", \"cancelled\").ok()).unwrap_or(false); "@
        + "if cancelled { \"cancelled\" } else { \"lease_lost\" } }, Err(_) => \"database_error\", }); "@
        + "result.map(|_| true) }"@
}

fn metered_run_once(lease_seconds: &str) -> (text: String)
    ensures
        text@ == metered_run_once_text(lease_seconds@),
{
    proof {
        reveal(metered_run_once_text);
    }
    let mut text = String::from_str("pub async fn run_once(&self) -> Result<bool, JobError> { ");
    text.append("let Some(job) = claim(&self.database, &self.worker_id, ");
    text.append(lease_seconds);
    text.append(", self.kind.as_deref(),).await? else { return Ok(false); }; ");
    text.append("let mut observation = crate::metrics::JobAttempt::new(&job.kind, job.attempts); ");
    text.append("let result = match self.handle_with_lease(&job).await { ");
    text.append("Ok(Ok(())) => complete(&self.database, &self.worker_id, job.id).await.map(|()| \"succeeded\"), Ok(Err(error)) => fail(&self.database, &self.worker_id, &job, &error.0).await.map(|()| match error.0.as_str() { ");
    text.append("\"REPORT_CANCELLED\" => \"cancelled\", \"REPORT_LEASE_LOST\" => \"lease_lost\", _ => \"failed\", }), Err(error) => Err(error), }; ");
    text.append("observation.finish(match &result { Ok(outcome) => outcome, Err(JobError::LeaseLost) => { ");
    text.append("let cancelled = self.database.query_one_raw(Statement::from_sql_and_values(DbBackend::Postgres, \"SELECT (status = 'cancelled' AND attempts = $2) AS cancelled FROM \\\"_appstruct_jobs\\\" WHERE id = $1\", [job.id.into(), job.attempts.into()],)).await.ok().flatten().and_then(|row| row.try_get::<bool>(\"\", \"cancelled\").ok()).unwrap_or(false); ");
    text.append("if cancelled { \"cancelled\" } else { \"lease_lost\" } }, Err(_) => \"database_error\", }); ");
    text.append("result.map(|_| true) }");
    text
}

/// The wait of a worker while the test gate is closed.
#[verifier::opaque]
pub open spec fn worker_gate_wait_text(poll_interval_ms: Seq<char>) -> Seq<char> {
    "if !test_worker_gate_open() { tokio::select! { "@
        + "() = tokio::time::sleep(Duration::from_millis("@
        + poll_interval_ms
        + ")) => {} result = lane_receiver.changed() => if result.is_err() { break; } } continue; }"@
}

fn worker_gate_wait(poll_interval_ms: &str) -> (text: String)
    ensures
        text@ == worker_gate_wait_text(poll_interval_ms@),
{
    proof {
        reveal(worker_gate_wait_text);
    }
    let mut text = String::from_str("if !test_worker_gate_open() { tokio::select! { ");
    text.append("() = tokio::time::sleep(Duration::from_millis(");
    text.append(poll_interval_ms);
    text.append(")) => {} result = lane_receiver.changed() => if result.is_err() { break; } } continue; }");
    text
}

/// The test gate, open unless the test support feature names a missing file.
#[verifier::opaque]
pub open spec fn worker_gate_text() -> Seq<char> {
    "#[cfg(feature = \"test-support\")] fn test_worker_gate_open() -> bool { "@
        + "env::var_os(\"APPSTRUCT_TEST_JOB_GATE\").is_none_or(|path| std::path::Path::new(&path).is_file()) } "@
        + "#[cfg(not(feature = \"test-support\"))] fn test_worker_gate_open() -> bool { true }"@
}

fn worker_gate() -> (text: String)
    ensures
        text@ == worker_gate_text(),
{
    proof {
        reveal(worker_gate_text);
    }
    let mut text = String::from_str("#[cfg(feature = \"test-support\")] fn test_worker_gate_open() -> bool { ");
    text.append("env::var_os(\"APPSTRUCT_TEST_JOB_GATE\").is_none_or(|path| std::path::Path::new(&path).is_file()) } ");
    text.append("#[cfg(not(feature = \"test-support\"))] fn test_worker_gate_open() -> bool { true }");
    text
}

/// The job handler that sends generated jobs to mail and reports, and the rest to a custom handler.
#[verifier::opaque]
pub open spec fn dispatch_handler_text(mail_field: Seq<char>, report_field: Seq<char>, unused_database: Seq<char>, unused_mail: Seq<char>, unused_file: Seq<char>, mail_init: Seq<char>, report_init: Seq<char>, mail_arm: Seq<char>, report_arm: Seq<char>) -> Seq<char> {
    "struct GeneratedJobHandler { custom: Option<Arc<dyn JobHandler>>, "@
        + mail_field
        + " "@
        + report_field
        + " } "@
        + "pub(crate) fn generated_job_handler(database: DatabaseConnection, mail: crate::MailState, file: crate::FileState, custom: Option<Arc<dyn JobHandler>>,) -> Arc<dyn JobHandler> { "@
        + unused_database
        + " "@
        + unused_mail
        + " "@
        + unused_file
        + " Arc::new(GeneratedJobHandler { custom, "@
        + mail_init
        + " "@
        + report_init
        + " }) } #[async_trait] impl JobHandler for GeneratedJobHandler { "@
        + "async fn handle(&self, job: &Job) -> Result<(), JobHandlerError> { "@
        + mail_arm
        + " "@
        + report_arm
        + " if let Some(custom) = &self.custom { return custom.handle(job).await; } "@
        + "Err(JobHandlerError(format!(\"unsupported job kind `{}`\", job.kind))) } }"@
}

fn dispatch_handler(mail_field: &str, report_field: &str, unused_database: &str, unused_mail: &str, unused_file: &str, mail_init: &str, report_init: &str, mail_arm: &str, report_arm: &str) -> (text: String)
    ensures
        text@ == dispatch_handler_text(mail_field@, report_field@, unused_database@, unused_mail@, unused_file@, mail_init@, report_init@, mail_arm@, report_arm@),
{
    proof {
        reveal(dispatch_handler_text);
    }
    let mut text = String::from_str("struct GeneratedJobHandler { custom: Option<Arc<dyn JobHandler>>, ");
    text.append(mail_field);
    text.append(" ");
    text.append(report_field);
    text.append(" } ");
    text.append("pub(crate) fn generated_job_handler(database: DatabaseConnection, mail: crate::MailState, file: crate::FileState, custom: Option<Arc<dyn JobHandler>>,) -> Arc<dyn JobHandler> { ");
    text.append(unused_database);
    text.append(" ");
    text.append(unused_mail);
    text.append(" ");
    text.append(unused_file);
    text.append(" Arc::new(GeneratedJobHandler { custom, ");
    text.append(mail_init);
    text.append(" ");
    text.append(report_init);
    text.append(" }) } #[async_trait] impl JobHandler for GeneratedJobHandler { ");
    text.append("async fn handle(&self, job: &Job) -> Result<(), JobHandlerError> { ");
    text.append(mail_arm);
    text.append(" ");
    text.append(report_arm);
    text.append(" if let Some(custom) = &self.custom { return custom.handle(job).await; } ");
    text.append("Err(JobHandlerError(format!(\"unsupported job kind `{}`\", job.kind))) } }");
    text
}

/// The interval of a schedule as the table lists it: `None`, or the seconds
/// as an `i64` literal, a count beyond `i64::MAX` standing for one day.
pub open spec fn interval_text(seconds: Option<u64>) -> Seq<char> {
    match seconds {
        None => "None"@,
        Some(count) => "Some("@ + decimal_text(if count <= i64::MAX { count as nat } else { 86_400nat }) + "i64)"@,
    }
}

fn interval(seconds: Option<u64>) -> (text: String)
    ensures
        text@ == interval_text(seconds),
{
    match seconds {
        None => String::from_str("None"),
        Some(count) => {
            let value: u64 = if count <= 9_223_372_036_854_775_807u64 {
                count
            } else {
                86_400
            };
            let mut text = String::from_str("Some(");
            text.append(decimal(value).as_str());
            text.append("i64)");
            text
        },
    }
}

/// One schedule's entry in the generated schedule table.
pub open spec fn schedule_entry_text(schedule: JobSchedule) -> Seq<char> {
    schedule_config_text(
        literal_text(schedule.name@),
        literal_text(schedule.cron@),
        interval_text(schedule.interval_seconds),
        literal_text(schedule.queue@),
        literal_text(schedule.kind@),
        literal_text(schedule.payload@),
    )
}

fn schedule_entry(schedule: &JobSchedule) -> (text: String)
    ensures
        text@ == schedule_entry_text(*schedule),
{
    let name = string_literal(schedule.name.as_str());
    let cron = string_literal(schedule.cron.as_str());
    let every = interval(schedule.interval_seconds);
    let queue = string_literal(schedule.queue.as_str());
    let kind = string_literal(schedule.kind.as_str());
    let payload = string_literal(schedule.payload.as_str());
    schedule_config(name.as_str(), cron.as_str(), every.as_str(), queue.as_str(), kind.as_str(), payload.as_str())
}

/// The schedule table: the application's schedules in order, then the
/// report cleanup where reports are on.
pub open spec fn schedule_definitions_text(ir: AppIr) -> Seq<char> {
    schedule_table_text(
        ir.jobs.schedules@.map_values(|schedule: JobSchedule| schedule_entry_text(schedule)),
        if ir.report.enabled {
            retention_schedule_text(literal_text(ir.report.queue@))
        } else {
            Seq::<char>::empty()
        },
    )
}

/// The schedule type and table.
pub fn schedule_definitions(ir: &AppIr) -> (text: String)
    ensures
        text@ == schedule_definitions_text(*ir),
{
    let schedules = &ir.jobs.schedules;
    let mut entries: Vec<String> = Vec::new();
    let mut i: usize = 0;
    while i < schedules.len()
        invariant
            i <= schedules.len(),
            schedules == &ir.jobs.schedules,
            texts(entries@) == schedules@.subrange(0, i as int).map_values(|schedule: JobSchedule| schedule_entry_text(schedule)),
        decreases schedules.len() - i,
    {
        let entry = schedule_entry(&schedules[i]);
        let ghost before = texts(entries@);
        entries.push(entry);
        proof {
            assert(texts(entries@) == before.push(entry@));
            assert(schedules@.subrange(0, i + 1) == schedules@.subrange(0, i as int).push(schedules@[i as int]));
        }
        i = i + 1;
    }
    proof {
        assert(schedules@.subrange(0, schedules@.len() as int) == schedules@);
    }
    let cleanup = if ir.report.enabled {
        let queue = string_literal(ir.report.queue.as_str());
        retention_schedule(queue.as_str())
    } else {
        String::new()
    };
    schedule_table(&entries, cleanup.as_str())
}

/// How often a job's lease is renewed, in milliseconds: a third of the lease,
/// and never less than a tenth of a second.
pub open spec fn lease_interval(lease_seconds: i64) -> int {
    if lease_seconds <= 0 || lease_seconds * 1000 / 3 < 100 {
        100
    } else {
        lease_seconds * 1000 / 3
    }
}

fn signed_literal(value: i64, suffix: &str) -> (text: String)
    ensures
        text@ == integer_literal_text(value as int, suffix@),
{
    let wide: i128 = value as i128;
    let magnitude: u64 = if value < 0 {
        (-wide) as u64
    } else {
        value as u64
    };
    integer_literal(value < 0, magnitude, suffix)
}

/// The handling of a job under a lease renewed by a heartbeat, with the
/// renewal interval and the lease as `i64` literals.
pub fn lease_source(lease_seconds: i64) -> (text: String)
    requires
        i64::MIN <= lease_seconds * 1000 <= i64::MAX,
    ensures
        text@ == lease_methods_text(
            integer_literal_text(lease_interval(lease_seconds), "i64"@),
            integer_literal_text(lease_seconds as int, "i64"@),
        ),
{
    let interval_ms: i64 = if lease_seconds <= 0 {
        100
    } else {
        let third = lease_seconds * 1000 / 3;
        if third < 100 {
            100
        } else {
            third
        }
    };
    let interval = signed_literal(interval_ms, "i64");
    let lease = signed_literal(lease_seconds, "i64");
    lease_methods(interval.as_str(), lease.as_str())
}

/// The claiming and handling of one job, with the lease as an `i64` literal.
pub fn run_once_source(lease_seconds: i64) -> (text: String)
    ensures
        text@ == metered_run_once_text(integer_literal_text(lease_seconds as int, "i64"@)),
{
    let lease = signed_literal(lease_seconds, "i64");
    metered_run_once(lease.as_str())
}

/// The wait of a worker while the test gate is closed, polling at the
/// interval as a `u64` literal.
pub fn gate_wait_source(poll_interval_ms: u64) -> (text: String)
    ensures
        text@ == worker_gate_wait_text(decimal_text(poll_interval_ms as nat) + "u64"@),
{
    let mut poll = decimal(poll_interval_ms);
    poll.append("u64");
    worker_gate_wait(poll.as_str())
}

/// The test gate of job workers.
pub fn gate_source() -> (text: String)
    ensures
        text@ == worker_gate_text(),
{
    worker_gate()
}

/// The persistence of schedules.
pub fn persistence_source() -> (text: String)
    ensures
        text@ == schedule_persistence_text(),
{
    schedule_persistence()
}

/// The text `value` where the flag is set, and nothing otherwise.
pub open spec fn when_text(flag: bool, value: Seq<char>) -> Seq<char> {
    if flag {
        value
    } else {
        Seq::<char>::empty()
    }
}

fn when(flag: bool, value: &str) -> (text: String)
    ensures
        text@ == when_text(flag, value@),
{
    if flag {
        String::from_str(value)
    } else {
        String::new()
    }
}

/// The generated job handler where mail or reports are on: mail jobs go to
/// the mail handler, report jobs to the report handler, and every other job
/// to the custom handler; the handles a part does not use are dropped.
pub open spec fn dispatch_text(ir: AppIr) -> Option<Seq<char>> {
    let mail = ir.mail.enabled;
    let report = ir.report.enabled;
    if !mail && !report {
        None
    } else {
        Some(dispatch_handler_text(
            when_text(mail, "mail: MailJobHandler,"@),
            when_text(report, "report: crate::report::ReportJobHandler,"@),
            when_text(!report, "let _ = database;"@),
            when_text(!mail, "let _ = mail;"@),
            when_text(!report, "let _ = file;"@),
            when_text(mail, "mail: MailJobHandler::new(mail),"@),
            when_text(report, "report: crate::report::ReportJobHandler::new(database, file),"@),
            when_text(mail, "if job.kind == \"mail.send\" { return self.mail.handle(job).await; }"@),
            when_text(
                report,
                "if matches!(job.kind.as_str(), \"report.render\" | \"report.cleanup\") { return self.report.handle(job).await; }"@,
            ),
        ))
    }
}

/// The generated job handler, where mail or reports are on.
pub fn dispatch_source(ir: &AppIr) -> (text: Option<String>)
    ensures
        match text {
            Some(source) => dispatch_text(*ir) == Some(source@),
            None => dispatch_text(*ir) is None,
        },
{
    let mail = ir.mail.enabled;
    let report = ir.report.enabled;
    if !mail && !report {
        return None;
    }
    proof {
        reveal_strlit("mail: MailJobHandler,");
        reveal_strlit("report: crate::report::ReportJobHandler,");
        reveal_strlit("let _ = database;");
        reveal_strlit("let _ = mail;");
        reveal_strlit("let _ = file;");
        reveal_strlit("mail: MailJobHandler::new(mail),");
        reveal_strlit("report: crate::report::ReportJobHandler::new(database, file),");
        reveal_strlit("if job.kind == \"mail.send\" { return self.mail.handle(job).await; }");
        reveal_strlit("if matches!(job.kind.as_str(), \"report.render\" | \"report.cleanup\") { return self.report.handle(job).await; }");
    }
    let mail_field = when(mail, "mail: MailJobHandler,");
    let report_field = when(report, "report: crate::report::ReportJobHandler,");
    let unused_database = when(!report, "let _ = database;");
    let unused_mail = when(!mail, "let _ = mail;");
    let unused_file = when(!report, "let _ = file;");
    let mail_init = when(mail, "mail: MailJobHandler::new(mail),");
    let report_init = when(report, "report: crate::report::ReportJobHandler::new(database, file),");
    let mail_arm = when(mail, "if job.kind == \"mail.send\" { return self.mail.handle(job).await; }");
    let report_arm = when(
        report,
        "if matches!(job.kind.as_str(), \"report.render\" | \"report.cleanup\") { return self.report.handle(job).await; }",
    );
    Some(dispatch_handler(
        mail_field.as_str(),
        report_field.as_str(),
        unused_database.as_str(),
        unused_mail.as_str(),
        unused_file.as_str(),
        mail_init.as_str(),
        report_init.as_str(),
        mail_arm.as_str(),
        report_arm.as_str(),
    ))
}

} // verus!
