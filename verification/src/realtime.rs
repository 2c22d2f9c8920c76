use vstd::prelude::*;
use vstd::string::StringExecFns;
use crate::artifact::{Artifact, CodegenError};
use crate::billing::decimal;
use crate::field_access::{literal_text, string_literal};
use crate::fields::texts;
use crate::ident::{ident_result, parse_ident};
use crate::ir::{AppIr, Entity};
use crate::jobs::{clamp_i64, suffixed_literal};
use crate::naming::{module_name, snake_text};
use crate::source::{render, render_spec, rust_file, single_file};
use crate::text::{append_suffixed, suffixed_text};

verus! {

/// The realtime event and the state that carries them.
#[verifier::opaque]
pub open spec fn event_definitions_text() -> Seq<char> {
    "#[derive(Clone, Debug, Serialize)] pub struct RealtimeEvent { "@
        + "pub id: uuid::Uuid, pub event: String, pub data: serde_json::Value, pub resource: Option<String>, pub record_id: Option<String>, pub actor_id: Option<uuid::Uuid>, pub tenant_id: Option<uuid::Uuid>, pub occurred_at: chrono::DateTime<chrono::Utc>, #[serde(skip_serializing)] resource_model: bool, } "@
        + "struct RealtimeInner { "@
        + "sender: broadcast::Sender<RealtimeEvent>, database: Option<DatabaseConnection>, source_id: uuid::Uuid, } "@
        + "#[derive(Clone)] pub struct RealtimeState { inner: std::sync::Arc<RealtimeInner> }"@
}

fn event_definitions() -> (text: String)
    ensures
        text@ == event_definitions_text(),
{
    proof {
        reveal(event_definitions_text);
    }
    let mut text = String::from_str("#[derive(Clone, Debug, Serialize)] pub struct RealtimeEvent { ");
    text.append("pub id: uuid::Uuid, pub event: String, pub data: serde_json::Value, pub resource: Option<String>, pub record_id: Option<String>, pub actor_id: Option<uuid::Uuid>, pub tenant_id: Option<uuid::Uuid>, pub occurred_at: chrono::DateTime<chrono::Utc>, #[serde(skip_serializing)] resource_model: bool, } ");
    text.append("struct RealtimeInner { ");
    text.append("sender: broadcast::Sender<RealtimeEvent>, database: Option<DatabaseConnection>, source_id: uuid::Uuid, } ");
    text.append("#[derive(Clone)] pub struct RealtimeState { inner: std::sync::Arc<RealtimeInner> }");
    text
}

/// Publishing and subscribing to realtime events.
#[verifier::opaque]
pub open spec fn state_impl_text() -> Seq<char> {
    "impl Default for RealtimeState { fn default() -> Self { Self::build(None) } } "@
        + "impl RealtimeState { pub(crate) fn new(database: DatabaseConnection) -> Self { "@
        + "let state = Self::build(Some(database)); state.spawn_fanout(); state } "@
        + "fn build(database: Option<DatabaseConnection>) -> Self { "@
        + "let (sender, _) = broadcast::channel(1_024); Self { "@
        + "inner: std::sync::Arc::new(RealtimeInner { "@
        + "sender, database, source_id: uuid::Uuid::now_v7(), }) } } fn spawn_fanout(&self) { "@
        + "let weak = std::sync::Arc::downgrade(&self.inner); "@
        + "if let Ok(runtime) = tokio::runtime::Handle::try_current() { "@
        + "runtime.spawn(fanout_events(weak)); } else { "@
        + "tracing::warn!(\"realtime database fan-out requires a Tokio runtime\"); } } "@
        + "pub fn publish<T: Serialize>(&self, event: &str, data: &T, actor_id: Option<uuid::Uuid>, tenant_id: Option<uuid::Uuid>,) -> Result<RealtimeEvent, serde_json::Error> { "@
        + "let resource = infer_resource(event); "@
        + "self.publish_scoped(event, resource, None, data, actor_id, tenant_id) } "@
        + "fn publish_scoped<T: Serialize>(&self, event: &str, resource: Option<&str>, record_id: Option<&str>, data: &T, actor_id: Option<uuid::Uuid>, tenant_id: Option<uuid::Uuid>,) -> Result<RealtimeEvent, serde_json::Error> { "@
        + "self.dispatch(RealtimeEvent { "@
        + "id: uuid::Uuid::now_v7(), event: event.to_owned(), data: serde_json::to_value(data)?, resource: resource.map(str::to_owned), record_id: record_id.map(str::to_owned), actor_id, tenant_id, occurred_at: chrono::Utc::now(), resource_model: false, }) } "@
        + "pub(crate) fn publish_resource_model<T: Serialize>(&self, event: &str, resource: &str, record_id: &str, data: &T, actor_id: Option<uuid::Uuid>, tenant_id: Option<uuid::Uuid>,) -> Result<RealtimeEvent, serde_json::Error> { "@
        + "self.dispatch(RealtimeEvent { "@
        + "id: uuid::Uuid::now_v7(), event: event.to_owned(), data: serde_json::to_value(data)?, resource: Some(resource.to_owned()), record_id: Some(record_id.to_owned()), actor_id, tenant_id, occurred_at: chrono::Utc::now(), resource_model: true, }) } "@
        + "fn dispatch(&self, event: RealtimeEvent,) -> Result<RealtimeEvent, serde_json::Error> { "@
        + "let _ = self.inner.sender.send(event.clone()); "@
        + "if let Some(database) = self.inner.database.clone() { let persisted = event.clone(); "@
        + "let source_id = self.inner.source_id; "@
        + "if let Ok(runtime) = tokio::runtime::Handle::try_current() { runtime.spawn(async move { "@
        + "if let Err(error) = persist_event(&database, source_id, &persisted).await { "@
        + "tracing::warn!(?error, event = %persisted.event, \"realtime event persistence failed\"); } "@
        + "}); } } Ok(event) } fn subscribe(&self) -> broadcast::Receiver<RealtimeEvent> { "@
        + "self.inner.sender.subscribe() } }"@
}

fn state_impl() -> (text: String)
    ensures
        text@ == state_impl_text(),
{
    proof {
        reveal(state_impl_text);
    }
    let mut text = String::from_str("impl Default for RealtimeState { fn default() -> Self { Self::build(None) } } ");
    text.append("impl RealtimeState { pub(crate) fn new(database: DatabaseConnection) -> Self { ");
    text.append("let state = Self::build(Some(database)); state.spawn_fanout(); state } ");
    text.append("fn build(database: Option<DatabaseConnection>) -> Self { ");
    text.append("let (sender, _) = broadcast::channel(1_024); Self { ");
    text.append("inner: std::sync::Arc::new(RealtimeInner { ");
    text.append("sender, database, source_id: uuid::Uuid::now_v7(), }) } } fn spawn_fanout(&self) { ");
    text.append("let weak = std::sync::Arc::downgrade(&self.inner); ");
    text.append("if let Ok(runtime) = tokio::runtime::Handle::try_current() { ");
    text.append("runtime.spawn(fanout_events(weak)); } else { ");
    text.append("tracing::warn!(\"realtime database fan-out requires a Tokio runtime\"); } } ");
    text.append("pub fn publish<T: Serialize>(&self, event: &str, data: &T, actor_id: Option<uuid::Uuid>, tenant_id: Option<uuid::Uuid>,) -> Result<RealtimeEvent, serde_json::Error> { ");
    text.append("let resource = infer_resource(event); ");
    text.append("self.publish_scoped(event, resource, None, data, actor_id, tenant_id) } ");
    text.append("fn publish_scoped<T: Serialize>(&self, event: &str, resource: Option<&str>, record_id: Option<&str>, data: &T, actor_id: Option<uuid::Uuid>, tenant_id: Option<uuid::Uuid>,) -> Result<RealtimeEvent, serde_json::Error> { ");
    text.append("self.dispatch(RealtimeEvent { ");
    text.append("id: uuid::Uuid::now_v7(), event: event.to_owned(), data: serde_json::to_value(data)?, resource: resource.map(str::to_owned), record_id: record_id.map(str::to_owned), actor_id, tenant_id, occurred_at: chrono::Utc::now(), resource_model: false, }) } ");
    text.append("pub(crate) fn publish_resource_model<T: Serialize>(&self, event: &str, resource: &str, record_id: &str, data: &T, actor_id: Option<uuid::Uuid>, tenant_id: Option<uuid::Uuid>,) -> Result<RealtimeEvent, serde_json::Error> { ");
    text.append("self.dispatch(RealtimeEvent { ");
    text.append("id: uuid::Uuid::now_v7(), event: event.to_owned(), data: serde_json::to_value(data)?, resource: Some(resource.to_owned()), record_id: Some(record_id.to_owned()), actor_id, tenant_id, occurred_at: chrono::Utc::now(), resource_model: true, }) } ");
    text.append("fn dispatch(&self, event: RealtimeEvent,) -> Result<RealtimeEvent, serde_json::Error> { ");
    text.append("let _ = self.inner.sender.send(event.clone()); ");
    text.append("if let Some(database) = self.inner.database.clone() { let persisted = event.clone(); ");
    text.append("let source_id = self.inner.source_id; ");
    text.append("if let Ok(runtime) = tokio::runtime::Handle::try_current() { runtime.spawn(async move { ");
    text.append("if let Err(error) = persist_event(&database, source_id, &persisted).await { ");
    text.append("tracing::warn!(?error, event = %persisted.event, \"realtime event persistence failed\"); } ");
    text.append("}); } } Ok(event) } fn subscribe(&self) -> broadcast::Receiver<RealtimeEvent> { ");
    text.append("self.inner.sender.subscribe() } }");
    text
}

/// Persisting events, with the resource inferred from the event name.
#[verifier::opaque]
pub open spec fn event_persistence_text(inferred_resources: Seq<Seq<char>>) -> Seq<char> {
    "fn infer_resource(event: &str) -> Option<&'static str> { "@
        + "match event.split_once('.').map_or(event, |(prefix, _)| prefix) { "@
        + suffixed_text(inferred_resources, ", "@)
        + " _ => None, } } "@
        + "async fn persist_event(database: &DatabaseConnection, source_id: uuid::Uuid, event: &RealtimeEvent,) -> Result<(), DbErr> { "@
        + "database.execute_raw(Statement::from_sql_and_values(DbBackend::Postgres, \"INSERT INTO \\\"_appstruct_realtime_events\\\" (id, source_id, event, data, resource, record_id, actor_id, tenant_id, occurred_at, resource_model) VALUES ($1, $2, $3, $4, $5, $6, $7, $8, $9, $10)\", [event.id.into(), source_id.into(), event.event.clone().into(), event.data.clone().into(), event.resource.clone().into(), event.record_id.clone().into(), event.actor_id.into(), event.tenant_id.into(), event.occurred_at.into(), event.resource_model.into()],)).await?; "@
        + "Ok(()) }"@
}

fn event_persistence(inferred_resources: &Vec<String>) -> (text: String)
    ensures
        text@ == event_persistence_text(texts(inferred_resources@)),
{
    proof {
        reveal(event_persistence_text);
    }
    let mut text = String::from_str("fn infer_resource(event: &str) -> Option<&'static str> { ");
    text.append("match event.split_once('.').map_or(event, |(prefix, _)| prefix) { ");
    append_suffixed(&mut text, inferred_resources, ", ");
    text.append(" _ => None, } } ");
    text.append("async fn persist_event(database: &DatabaseConnection, source_id: uuid::Uuid, event: &RealtimeEvent,) -> Result<(), DbErr> { ");
    text.append("database.execute_raw(Statement::from_sql_and_values(DbBackend::Postgres, \"INSERT INTO \\\"_appstruct_realtime_events\\\" (id, source_id, event, data, resource, record_id, actor_id, tenant_id, occurred_at, resource_model) VALUES ($1, $2, $3, $4, $5, $6, $7, $8, $9, $10)\", [event.id.into(), source_id.into(), event.event.clone().into(), event.data.clone().into(), event.resource.clone().into(), event.record_id.clone().into(), event.actor_id.into(), event.tenant_id.into(), event.occurred_at.into(), event.resource_model.into()],)).await?; ");
    text.append("Ok(()) }");
    text
}

/// The loop that relays persisted events to subscribers.
#[verifier::opaque]
pub open spec fn fanout_loop_text() -> Seq<char> {
    "async fn fanout_events(inner: std::sync::Weak<RealtimeInner>) { let mut sequence = None; "@
        + "let mut idle_iterations = 0_u16; loop { let Some(inner) = inner.upgrade() else { break }; "@
        + "let Some(database) = inner.database.clone() else { break }; "@
        + "let source_id = inner.source_id; let sender = inner.sender.clone(); drop(inner); "@
        + "if sequence.is_none() { match latest_event_sequence(&database).await { "@
        + "Ok(latest) => sequence = Some(latest), Err(error) => { "@
        + "tracing::warn!(?error, \"realtime fan-out cursor initialization failed\"); "@
        + "tokio::time::sleep(Duration::from_millis(100)).await; continue; } } } "@
        + "match load_events(&database, sequence.unwrap_or_default()).await { Ok(events) => { "@
        + "let count = events.len(); for (next_sequence, event_source, event) in events { "@
        + "sequence = Some(next_sequence); if event_source != source_id { "@
        + "let _ = sender.send(event); } } if count == 256 { continue; } } "@
        + "Err(error) => tracing::warn!(?error, \"realtime fan-out poll failed\"), } "@
        + "idle_iterations = idle_iterations.wrapping_add(1); if idle_iterations % 600 == 0 { "@
        + "let _ = database.execute_unprepared(\"DELETE FROM \\\"_appstruct_realtime_events\\\" WHERE occurred_at < CURRENT_TIMESTAMP - INTERVAL '5 minutes'\",).await; "@
        + "} tokio::time::sleep(Duration::from_millis(100)).await; } } "@
        + "async fn latest_event_sequence(database: &DatabaseConnection) -> Result<i64, DbErr> { "@
        + "let row = database.query_one_raw(Statement::from_string(DbBackend::Postgres, \"SELECT COALESCE(MAX(sequence), 0) AS sequence FROM \\\"_appstruct_realtime_events\\\"\".to_owned(),)).await?.ok_or_else(|| DbErr::Custom(\"realtime cursor query returned no row\".to_owned()))?; "@
        + "row.try_get(\"\", \"sequence\") } "@
        + "async fn load_events(database: &DatabaseConnection, sequence: i64,) -> Result<Vec<(i64, uuid::Uuid, RealtimeEvent)>, DbErr> { "@
        + "let rows = database.query_all_raw(Statement::from_sql_and_values(DbBackend::Postgres, \"SELECT sequence, id, source_id, event, data, resource, record_id, actor_id, tenant_id, occurred_at, resource_model FROM \\\"_appstruct_realtime_events\\\" WHERE sequence > $1 ORDER BY sequence LIMIT 256\", [sequence.into()],)).await?; "@
        + "rows.into_iter().map(|row| Ok((row.try_get(\"\", \"sequence\")?, row.try_get(\"\", \"source_id\")?, RealtimeEvent { "@
        + "id: row.try_get(\"\", \"id\")?, event: row.try_get(\"\", \"event\")?, data: row.try_get(\"\", \"data\")?, resource: row.try_get(\"\", \"resource\")?, record_id: row.try_get(\"\", \"record_id\")?, actor_id: row.try_get(\"\", \"actor_id\")?, tenant_id: row.try_get(\"\", \"tenant_id\")?, occurred_at: row.try_get(\"\", \"occurred_at\")?, resource_model: row.try_get(\"\", \"resource_model\")?, },))).collect() }"@
}

fn fanout_loop() -> (text: String)
    ensures
        text@ == fanout_loop_text(),
{
    proof {
        reveal(fanout_loop_text);
    }
    let mut text = String::from_str("async fn fanout_events(inner: std::sync::Weak<RealtimeInner>) { let mut sequence = None; ");
    text.append("let mut idle_iterations = 0_u16; loop { let Some(inner) = inner.upgrade() else { break }; ");
    text.append("let Some(database) = inner.database.clone() else { break }; ");
    text.append("let source_id = inner.source_id; let sender = inner.sender.clone(); drop(inner); ");
    text.append("if sequence.is_none() { match latest_event_sequence(&database).await { ");
    text.append("Ok(latest) => sequence = Some(latest), Err(error) => { ");
    text.append("tracing::warn!(?error, \"realtime fan-out cursor initialization failed\"); ");
    text.append("tokio::time::sleep(Duration::from_millis(100)).await; continue; } } } ");
    text.append("match load_events(&database, sequence.unwrap_or_default()).await { Ok(events) => { ");
    text.append("let count = events.len(); for (next_sequence, event_source, event) in events { ");
    text.append("sequence = Some(next_sequence); if event_source != source_id { ");
    text.append("let _ = sender.send(event); } } if count == 256 { continue; } } ");
    text.append("Err(error) => tracing::warn!(?error, \"realtime fan-out poll failed\"), } ");
    text.append("idle_iterations = idle_iterations.wrapping_add(1); if idle_iterations % 600 == 0 { ");
    text.append("let _ = database.execute_unprepared(\"DELETE FROM \\\"_appstruct_realtime_events\\\" WHERE occurred_at < CURRENT_TIMESTAMP - INTERVAL '5 minutes'\",).await; ");
    text.append("} tokio::time::sleep(Duration::from_millis(100)).await; } } ");
    text.append("async fn latest_event_sequence(database: &DatabaseConnection) -> Result<i64, DbErr> { ");
    text.append("let row = database.query_one_raw(Statement::from_string(DbBackend::Postgres, \"SELECT COALESCE(MAX(sequence), 0) AS sequence FROM \\\"_appstruct_realtime_events\\\"\".to_owned(),)).await?.ok_or_else(|| DbErr::Custom(\"realtime cursor query returned no row\".to_owned()))?; ");
    text.append("row.try_get(\"\", \"sequence\") } ");
    text.append("async fn load_events(database: &DatabaseConnection, sequence: i64,) -> Result<Vec<(i64, uuid::Uuid, RealtimeEvent)>, DbErr> { ");
    text.append("let rows = database.query_all_raw(Statement::from_sql_and_values(DbBackend::Postgres, \"SELECT sequence, id, source_id, event, data, resource, record_id, actor_id, tenant_id, occurred_at, resource_model FROM \\\"_appstruct_realtime_events\\\" WHERE sequence > $1 ORDER BY sequence LIMIT 256\", [sequence.into()],)).await?; ");
    text.append("rows.into_iter().map(|row| Ok((row.try_get(\"\", \"sequence\")?, row.try_get(\"\", \"source_id\")?, RealtimeEvent { ");
    text.append("id: row.try_get(\"\", \"id\")?, event: row.try_get(\"\", \"event\")?, data: row.try_get(\"\", \"data\")?, resource: row.try_get(\"\", \"resource\")?, record_id: row.try_get(\"\", \"record_id\")?, actor_id: row.try_get(\"\", \"actor_id\")?, tenant_id: row.try_get(\"\", \"tenant_id\")?, occurred_at: row.try_get(\"\", \"occurred_at\")?, resource_model: row.try_get(\"\", \"resource_model\")?, },))).collect() }");
    text
}

/// The realtime state with its persistence and fan-out.
#[verifier::opaque]
pub open spec fn fanout_block_text(definitions: Seq<char>, state: Seq<char>, persistence: Seq<char>, fanout: Seq<char>) -> Seq<char> {
    definitions
        + " "@
        + state
        + " "@
        + persistence
        + " "@
        + fanout
}

fn fanout_block(definitions: &str, state: &str, persistence: &str, fanout: &str) -> (text: String)
    ensures
        text@ == fanout_block_text(definitions@, state@, persistence@, fanout@),
{
    proof {
        reveal(fanout_block_text);
    }
    let mut text = String::new();
    text.append(definitions);
    text.append(" ");
    text.append(state);
    text.append(" ");
    text.append(persistence);
    text.append(" ");
    text.append(fanout);
    text
}

/// The lock requests and responses.
#[verifier::opaque]
pub open spec fn lock_declarations_text() -> Seq<char> {
    "#[derive(Debug, Deserialize)] struct LockRequest { ttl_seconds: Option<u64> } "@
        + "#[derive(Clone, Debug, Serialize)] pub struct RealtimeLockLease { "@
        + "pub lease_token: uuid::Uuid, pub actor_id: uuid::Uuid, pub tenant_id: Option<uuid::Uuid>, pub resource: String, pub record_id: String, pub acquired_at: chrono::DateTime<chrono::Utc>, pub expires_at: chrono::DateTime<chrono::Utc>, } "@
        + "#[derive(Serialize)] struct LockStatus { data: Option<RealtimeLockLease> }"@
}

fn lock_declarations() -> (text: String)
    ensures
        text@ == lock_declarations_text(),
{
    proof {
        reveal(lock_declarations_text);
    }
    let mut text = String::from_str("#[derive(Debug, Deserialize)] struct LockRequest { ttl_seconds: Option<u64> } ");
    text.append("#[derive(Clone, Debug, Serialize)] pub struct RealtimeLockLease { ");
    text.append("pub lease_token: uuid::Uuid, pub actor_id: uuid::Uuid, pub tenant_id: Option<uuid::Uuid>, pub resource: String, pub record_id: String, pub acquired_at: chrono::DateTime<chrono::Utc>, pub expires_at: chrono::DateTime<chrono::Utc>, } ");
    text.append("#[derive(Serialize)] struct LockStatus { data: Option<RealtimeLockLease> }");
    text
}

/// Reading the lock of a record.
#[verifier::opaque]
pub open spec fn lock_status_text() -> Seq<char> {
    "async fn lock_status(State(state): State<AppState>, headers: HeaderMap, Query(query): Query<RealtimeQuery>,) -> Result<axum::Json<LockStatus>, ApiError> { "@
        + "let record_id = require_lock_scope(&query)?.to_owned(); "@
        + "let context = scoped_context(&state, headers, query.tenant_id).await?; "@
        + "if context.actor().is_none() { return Err(ApiError::Unauthorized); } "@
        + "let resource = query.resource.as_deref().ok_or_else(|| { "@
        + "ApiError::InvalidQuery(\"realtime resource is required\".to_owned()) })?; "@
        + "authorize_resource_scope(&state, &context, resource, Some(&record_id)).await?; "@
        + "let key = lock_key(context.tenant(), resource, &record_id); "@
        + "let row = state.database.query_one_raw(Statement::from_sql_and_values(DbBackend::Postgres, \"SELECT lease_token, actor_id, tenant_id, resource, record_id, acquired_at, expires_at FROM \\\"_appstruct_realtime_locks\\\" WHERE lock_key = $1 AND expires_at > CURRENT_TIMESTAMP\", [key.into()],)).await?; "@
        + "let data = row.map(lock_from_row).transpose()?; Ok(axum::Json(LockStatus { data })) }"@
}

fn lock_status() -> (text: String)
    ensures
        text@ == lock_status_text(),
{
    proof {
        reveal(lock_status_text);
    }
    let mut text = String::from_str("async fn lock_status(State(state): State<AppState>, headers: HeaderMap, Query(query): Query<RealtimeQuery>,) -> Result<axum::Json<LockStatus>, ApiError> { ");
    text.append("let record_id = require_lock_scope(&query)?.to_owned(); ");
    text.append("let context = scoped_context(&state, headers, query.tenant_id).await?; ");
    text.append("if context.actor().is_none() { return Err(ApiError::Unauthorized); } ");
    text.append("let resource = query.resource.as_deref().ok_or_else(|| { ");
    text.append("ApiError::InvalidQuery(\"realtime resource is required\".to_owned()) })?; ");
    text.append("authorize_resource_scope(&state, &context, resource, Some(&record_id)).await?; ");
    text.append("let key = lock_key(context.tenant(), resource, &record_id); ");
    text.append("let row = state.database.query_one_raw(Statement::from_sql_and_values(DbBackend::Postgres, \"SELECT lease_token, actor_id, tenant_id, resource, record_id, acquired_at, expires_at FROM \\\"_appstruct_realtime_locks\\\" WHERE lock_key = $1 AND expires_at > CURRENT_TIMESTAMP\", [key.into()],)).await?; ");
    text.append("let data = row.map(lock_from_row).transpose()?; Ok(axum::Json(LockStatus { data })) }");
    text
}

/// Acquiring a record lock.
#[verifier::opaque]
pub open spec fn lock_acquire_text() -> Seq<char> {
    "async fn acquire_lock(State(state): State<AppState>, headers: HeaderMap, Query(query): Query<RealtimeQuery>, axum::Json(input): axum::Json<LockRequest>,) -> Result<(axum::http::StatusCode, axum::Json<RealtimeLockLease>), ApiError> { "@
        + "state.auth.verify_csrf(&state.database, &headers).await?; "@
        + "let record_id = require_lock_scope(&query)?.to_owned(); "@
        + "let ttl = lock_ttl(input.ttl_seconds)?; "@
        + "let context = scoped_context(&state, headers, query.tenant_id).await?; "@
        + "let actor = context.actor().ok_or(ApiError::Unauthorized)?; "@
        + "let resource = query.resource.as_deref().ok_or_else(|| { "@
        + "ApiError::InvalidQuery(\"realtime resource is required\".to_owned()) })?; "@
        + "authorize_resource_scope(&state, &context, resource, Some(&record_id)).await?; "@
        + "let key = lock_key(context.tenant(), resource, &record_id); "@
        + "let token = uuid::Uuid::now_v7(); "@
        + "let row = state.database.query_one_raw(Statement::from_sql_and_values(DbBackend::Postgres, \"INSERT INTO \\\"_appstruct_realtime_locks\\\" AS lease (lock_key, lease_token, actor_id, tenant_id, resource, record_id, acquired_at, expires_at) VALUES ($1, $2, $3, $4, $5, $6, CURRENT_TIMESTAMP, CURRENT_TIMESTAMP + ($7 * INTERVAL '1 second')) ON CONFLICT (lock_key) DO UPDATE SET lease_token = EXCLUDED.lease_token, actor_id = EXCLUDED.actor_id, tenant_id = EXCLUDED.tenant_id, resource = EXCLUDED.resource, record_id = EXCLUDED.record_id, acquired_at = CURRENT_TIMESTAMP, expires_at = EXCLUDED.expires_at WHERE lease.expires_at <= CURRENT_TIMESTAMP RETURNING lease_token, actor_id, tenant_id, resource, record_id, acquired_at, expires_at\", [key.into(), token.into(), actor.id.into(), context.tenant().into(), resource.to_owned().into(), record_id.into(), ttl.into()],)).await?; "@
        + "let row = row.ok_or_else(|| ApiError::Conflict(\"The record already has an active edit lease\".to_owned(),))?; "@
        + "Ok((axum::http::StatusCode::CREATED, axum::Json(lock_from_row(row)?))) }"@
}

fn lock_acquire() -> (text: String)
    ensures
        text@ == lock_acquire_text(),
{
    proof {
        reveal(lock_acquire_text);
    }
    let mut text = String::from_str("async fn acquire_lock(State(state): State<AppState>, headers: HeaderMap, Query(query): Query<RealtimeQuery>, axum::Json(input): axum::Json<LockRequest>,) -> Result<(axum::http::StatusCode, axum::Json<RealtimeLockLease>), ApiError> { ");
    text.append("state.auth.verify_csrf(&state.database, &headers).await?; ");
    text.append("let record_id = require_lock_scope(&query)?.to_owned(); ");
    text.append("let ttl = lock_ttl(input.ttl_seconds)?; ");
    text.append("let context = scoped_context(&state, headers, query.tenant_id).await?; ");
    text.append("let actor = context.actor().ok_or(ApiError::Unauthorized)?; ");
    text.append("let resource = query.resource.as_deref().ok_or_else(|| { ");
    text.append("ApiError::InvalidQuery(\"realtime resource is required\".to_owned()) })?; ");
    text.append("authorize_resource_scope(&state, &context, resource, Some(&record_id)).await?; ");
    text.append("let key = lock_key(context.tenant(), resource, &record_id); ");
    text.append("let token = uuid::Uuid::now_v7(); ");
    text.append("let row = state.database.query_one_raw(Statement::from_sql_and_values(DbBackend::Postgres, \"INSERT INTO \\\"_appstruct_realtime_locks\\\" AS lease (lock_key, lease_token, actor_id, tenant_id, resource, record_id, acquired_at, expires_at) VALUES ($1, $2, $3, $4, $5, $6, CURRENT_TIMESTAMP, CURRENT_TIMESTAMP + ($7 * INTERVAL '1 second')) ON CONFLICT (lock_key) DO UPDATE SET lease_token = EXCLUDED.lease_token, actor_id = EXCLUDED.actor_id, tenant_id = EXCLUDED.tenant_id, resource = EXCLUDED.resource, record_id = EXCLUDED.record_id, acquired_at = CURRENT_TIMESTAMP, expires_at = EXCLUDED.expires_at WHERE lease.expires_at <= CURRENT_TIMESTAMP RETURNING lease_token, actor_id, tenant_id, resource, record_id, acquired_at, expires_at\", [key.into(), token.into(), actor.id.into(), context.tenant().into(), resource.to_owned().into(), record_id.into(), ttl.into()],)).await?; ");
    text.append("let row = row.ok_or_else(|| ApiError::Conflict(\"The record already has an active edit lease\".to_owned(),))?; ");
    text.append("Ok((axum::http::StatusCode::CREATED, axum::Json(lock_from_row(row)?))) }");
    text
}

/// Renewing and releasing a record lock.
#[verifier::opaque]
pub open spec fn lock_renewal_text() -> Seq<char> {
    "async fn renew_lock(State(state): State<AppState>, axum::extract::Path(token): axum::extract::Path<String>, headers: HeaderMap, Query(query): Query<RealtimeQuery>, axum::Json(input): axum::Json<LockRequest>,) -> Result<axum::Json<RealtimeLockLease>, ApiError> { "@
        + "state.auth.verify_csrf(&state.database, &headers).await?; "@
        + "let token = token.parse::<uuid::Uuid>().map_err(|_| ApiError::InvalidId)?; "@
        + "let record_id = require_lock_scope(&query)?.to_owned(); "@
        + "let ttl = lock_ttl(input.ttl_seconds)?; "@
        + "let context = scoped_context(&state, headers, query.tenant_id).await?; "@
        + "let actor = context.actor().ok_or(ApiError::Unauthorized)?; "@
        + "let resource = query.resource.as_deref().ok_or_else(|| { "@
        + "ApiError::InvalidQuery(\"realtime resource is required\".to_owned()) })?; "@
        + "authorize_resource_scope(&state, &context, resource, Some(&record_id)).await?; "@
        + "let key = lock_key(context.tenant(), resource, &record_id); "@
        + "let row = state.database.query_one_raw(Statement::from_sql_and_values(DbBackend::Postgres, \"UPDATE \\\"_appstruct_realtime_locks\\\" SET expires_at = CURRENT_TIMESTAMP + ($4 * INTERVAL '1 second') WHERE lock_key = $1 AND lease_token = $2 AND actor_id = $3 AND expires_at > CURRENT_TIMESTAMP RETURNING lease_token, actor_id, tenant_id, resource, record_id, acquired_at, expires_at\", [key.into(), token.into(), actor.id.into(), ttl.into()],)).await?; "@
        + "let row = row.ok_or_else(|| ApiError::Conflict(\"The edit lease expired or is owned by another actor\".to_owned(),))?; "@
        + "Ok(axum::Json(lock_from_row(row)?)) } "@
        + "async fn release_lock(State(state): State<AppState>, axum::extract::Path(token): axum::extract::Path<String>, headers: HeaderMap, Query(query): Query<RealtimeQuery>,) -> Result<axum::http::StatusCode, ApiError> { "@
        + "state.auth.verify_csrf(&state.database, &headers).await?; "@
        + "let token = token.parse::<uuid::Uuid>().map_err(|_| ApiError::InvalidId)?; "@
        + "let record_id = require_lock_scope(&query)?.to_owned(); "@
        + "let context = scoped_context(&state, headers, query.tenant_id).await?; "@
        + "let actor = context.actor().ok_or(ApiError::Unauthorized)?; "@
        + "let resource = query.resource.as_deref().ok_or_else(|| { "@
        + "ApiError::InvalidQuery(\"realtime resource is required\".to_owned()) })?; "@
        + "authorize_resource_scope(&state, &context, resource, Some(&record_id)).await?; "@
        + "let key = lock_key(context.tenant(), resource, &record_id); "@
        + "let result = state.database.execute_raw(Statement::from_sql_and_values(DbBackend::Postgres, \"DELETE FROM \\\"_appstruct_realtime_locks\\\" WHERE lock_key = $1 AND lease_token = $2 AND actor_id = $3\", [key.into(), token.into(), actor.id.into()],)).await?; "@
        + "if result.rows_affected() == 1 { Ok(axum::http::StatusCode::NO_CONTENT) } else { "@
        + "Err(ApiError::NotFound) } }"@
}

fn lock_renewal() -> (text: String)
    ensures
        text@ == lock_renewal_text(),
{
    proof {
        reveal(lock_renewal_text);
    }
    let mut text = String::from_str("async fn renew_lock(State(state): State<AppState>, axum::extract::Path(token): axum::extract::Path<String>, headers: HeaderMap, Query(query): Query<RealtimeQuery>, axum::Json(input): axum::Json<LockRequest>,) -> Result<axum::Json<RealtimeLockLease>, ApiError> { ");
    text.append("state.auth.verify_csrf(&state.database, &headers).await?; ");
    text.append("let token = token.parse::<uuid::Uuid>().map_err(|_| ApiError::InvalidId)?; ");
    text.append("let record_id = require_lock_scope(&query)?.to_owned(); ");
    text.append("let ttl = lock_ttl(input.ttl_seconds)?; ");
    text.append("let context = scoped_context(&state, headers, query.tenant_id).await?; ");
    text.append("let actor = context.actor().ok_or(ApiError::Unauthorized)?; ");
    text.append("let resource = query.resource.as_deref().ok_or_else(|| { ");
    text.append("ApiError::InvalidQuery(\"realtime resource is required\".to_owned()) })?; ");
    text.append("authorize_resource_scope(&state, &context, resource, Some(&record_id)).await?; ");
    text.append("let key = lock_key(context.tenant(), resource, &record_id); ");
    text.append("let row = state.database.query_one_raw(Statement::from_sql_and_values(DbBackend::Postgres, \"UPDATE \\\"_appstruct_realtime_locks\\\" SET expires_at = CURRENT_TIMESTAMP + ($4 * INTERVAL '1 second') WHERE lock_key = $1 AND lease_token = $2 AND actor_id = $3 AND expires_at > CURRENT_TIMESTAMP RETURNING lease_token, actor_id, tenant_id, resource, record_id, acquired_at, expires_at\", [key.into(), token.into(), actor.id.into(), ttl.into()],)).await?; ");
    text.append("let row = row.ok_or_else(|| ApiError::Conflict(\"The edit lease expired or is owned by another actor\".to_owned(),))?; ");
    text.append("Ok(axum::Json(lock_from_row(row)?)) } ");
    text.append("async fn release_lock(State(state): State<AppState>, axum::extract::Path(token): axum::extract::Path<String>, headers: HeaderMap, Query(query): Query<RealtimeQuery>,) -> Result<axum::http::StatusCode, ApiError> { ");
    text.append("state.auth.verify_csrf(&state.database, &headers).await?; ");
    text.append("let token = token.parse::<uuid::Uuid>().map_err(|_| ApiError::InvalidId)?; ");
    text.append("let record_id = require_lock_scope(&query)?.to_owned(); ");
    text.append("let context = scoped_context(&state, headers, query.tenant_id).await?; ");
    text.append("let actor = context.actor().ok_or(ApiError::Unauthorized)?; ");
    text.append("let resource = query.resource.as_deref().ok_or_else(|| { ");
    text.append("ApiError::InvalidQuery(\"realtime resource is required\".to_owned()) })?; ");
    text.append("authorize_resource_scope(&state, &context, resource, Some(&record_id)).await?; ");
    text.append("let key = lock_key(context.tenant(), resource, &record_id); ");
    text.append("let result = state.database.execute_raw(Statement::from_sql_and_values(DbBackend::Postgres, \"DELETE FROM \\\"_appstruct_realtime_locks\\\" WHERE lock_key = $1 AND lease_token = $2 AND actor_id = $3\", [key.into(), token.into(), actor.id.into()],)).await?; ");
    text.append("if result.rows_affected() == 1 { Ok(axum::http::StatusCode::NO_CONTENT) } else { ");
    text.append("Err(ApiError::NotFound) } }");
    text
}

/// The scope, time-to-live and key of a lock.
#[verifier::opaque]
pub open spec fn lock_helpers_text() -> Seq<char> {
    "fn require_lock_scope(query: &RealtimeQuery) -> Result<&str, ApiError> { "@
        + "validate_scope(query)?; query.record_id.as_deref().ok_or_else(|| { "@
        + "ApiError::InvalidQuery(\"record_id is required for an edit lease\".to_owned()) }) } "@
        + "fn lock_ttl(ttl: Option<u64>) -> Result<i64, ApiError> { let ttl = ttl.unwrap_or(30); "@
        + "if !(5..=300).contains(&ttl) { "@
        + "return Err(ApiError::InvalidQuery(\"lock ttl_seconds must be between 5 and 300\".to_owned(),)); "@
        + "} i64::try_from(ttl).map_err(|_| ApiError::InvalidQuery(\"invalid lock TTL\".to_owned())) } "@
        + "fn lock_key(tenant_id: Option<uuid::Uuid>, resource: &str, record_id: &str) -> String { "@
        + "let tenant = tenant_id.map_or_else(|| \"global\".to_owned(), |id| id.to_string()); "@
        + "format!(\"{tenant}|{}:{resource}|{}:{record_id}\", resource.len(), record_id.len()) } "@
        + "fn lock_from_row(row: sea_orm::QueryResult) -> Result<RealtimeLockLease, DbErr> { "@
        + "Ok(RealtimeLockLease { "@
        + "lease_token: row.try_get(\"\", \"lease_token\")?, actor_id: row.try_get(\"\", \"actor_id\")?, tenant_id: row.try_get(\"\", \"tenant_id\")?, resource: row.try_get(\"\", \"resource\")?, record_id: row.try_get(\"\", \"record_id\")?, acquired_at: row.try_get(\"\", \"acquired_at\")?, expires_at: row.try_get(\"\", \"expires_at\")?, }) }"@
}

fn lock_helpers() -> (text: String)
    ensures
        text@ == lock_helpers_text(),
{
    proof {
        reveal(lock_helpers_text);
    }
    let mut text = String::from_str("fn require_lock_scope(query: &RealtimeQuery) -> Result<&str, ApiError> { ");
    text.append("validate_scope(query)?; query.record_id.as_deref().ok_or_else(|| { ");
    text.append("ApiError::InvalidQuery(\"record_id is required for an edit lease\".to_owned()) }) } ");
    text.append("fn lock_ttl(ttl: Option<u64>) -> Result<i64, ApiError> { let ttl = ttl.unwrap_or(30); ");
    text.append("if !(5..=300).contains(&ttl) { ");
    text.append("return Err(ApiError::InvalidQuery(\"lock ttl_seconds must be between 5 and 300\".to_owned(),)); ");
    text.append("} i64::try_from(ttl).map_err(|_| ApiError::InvalidQuery(\"invalid lock TTL\".to_owned())) } ");
    text.append("fn lock_key(tenant_id: Option<uuid::Uuid>, resource: &str, record_id: &str) -> String { ");
    text.append("let tenant = tenant_id.map_or_else(|| \"global\".to_owned(), |id| id.to_string()); ");
    text.append("format!(\"{tenant}|{}:{resource}|{}:{record_id}\", resource.len(), record_id.len()) } ");
    text.append("fn lock_from_row(row: sea_orm::QueryResult) -> Result<RealtimeLockLease, DbErr> { ");
    text.append("Ok(RealtimeLockLease { ");
    text.append("lease_token: row.try_get(\"\", \"lease_token\")?, actor_id: row.try_get(\"\", \"actor_id\")?, tenant_id: row.try_get(\"\", \"tenant_id\")?, resource: row.try_get(\"\", \"resource\")?, record_id: row.try_get(\"\", \"record_id\")?, acquired_at: row.try_get(\"\", \"acquired_at\")?, expires_at: row.try_get(\"\", \"expires_at\")?, }) }");
    text
}

/// The record-lock endpoints.
#[verifier::opaque]
pub open spec fn locks_block_text(declarations: Seq<char>, status: Seq<char>, acquire: Seq<char>, renewal: Seq<char>, helpers: Seq<char>) -> Seq<char> {
    declarations
        + " "@
        + status
        + " "@
        + acquire
        + " "@
        + renewal
        + " "@
        + helpers
}

fn locks_block(declarations: &str, status: &str, acquire: &str, renewal: &str, helpers: &str) -> (text: String)
    ensures
        text@ == locks_block_text(declarations@, status@, acquire@, renewal@, helpers@),
{
    proof {
        reveal(locks_block_text);
    }
    let mut text = String::new();
    text.append(declarations);
    text.append(" ");
    text.append(status);
    text.append(" ");
    text.append(acquire);
    text.append(" ");
    text.append(renewal);
    text.append(" ");
    text.append(helpers);
    text
}

/// The arm that authorises a subscription to a resource.
#[verifier::opaque]
pub open spec fn scope_arm_text(resource: Seq<char>, module: Seq<char>) -> Seq<char> {
    resource
        + " => crate::api::"@
        + module
        + "::authorize_realtime_scope(state, context, record_id,).await"@
}

fn scope_arm(resource: &str, module: &str) -> (text: String)
    ensures
        text@ == scope_arm_text(resource@, module@),
{
    proof {
        reveal(scope_arm_text);
    }
    let mut text = String::new();
    text.append(resource);
    text.append(" => crate::api::");
    text.append(module);
    text.append("::authorize_realtime_scope(state, context, record_id,).await");
    text
}

/// The arm that authorises one event of a resource.
#[verifier::opaque]
pub open spec fn event_arm_text(resource: Seq<char>, module: Seq<char>) -> Seq<char> {
    "Some("@
        + resource
        + ") => crate::api::"@
        + module
        + "::authorize_realtime_event(state, context, event,).await"@
}

fn event_arm(resource: &str, module: &str) -> (text: String)
    ensures
        text@ == event_arm_text(resource@, module@),
{
    proof {
        reveal(event_arm_text);
    }
    let mut text = String::from_str("Some(");
    text.append(resource);
    text.append(") => crate::api::");
    text.append(module);
    text.append("::authorize_realtime_event(state, context, event,).await");
    text
}

/// The arm that maps an event prefix to its resource.
#[verifier::opaque]
pub open spec fn inferred_arm_text(module_name: Seq<char>, resource: Seq<char>) -> Seq<char> {
    module_name
        + " => Some("@
        + resource
        + ")"@
}

fn inferred_arm(module_name: &str, resource: &str) -> (text: String)
    ensures
        text@ == inferred_arm_text(module_name@, resource@),
{
    proof {
        reveal(inferred_arm_text);
    }
    let mut text = String::new();
    text.append(module_name);
    text.append(" => Some(");
    text.append(resource);
    text.append(")");
    text
}

/// The realtime module of an application with realtime on: the event
/// stream with its heartbeat, presence with its time-to-live, and record locks.
#[verifier::opaque]
pub open spec fn realtime_block_text(fanout: Seq<char>, locks: Seq<char>, heartbeat_seconds: Seq<char>, scope_arms: Seq<Seq<char>>, event_arms: Seq<Seq<char>>, ttl_seconds: Seq<char>) -> Seq<char> {
    "use crate::{ApiError, AppState}; use axum::{ "@
        + "Router, extract::{Query, State}, http::HeaderMap, response::sse::{Event, KeepAlive, Sse}, routing::get, }; "@
        + "use sea_orm::{ConnectionTrait, DatabaseConnection, DbBackend, DbErr, Statement}; "@
        + "use serde::{Deserialize, Serialize}; use std::{convert::Infallible, time::Duration}; "@
        + "use tokio::sync::broadcast; "@
        + fanout
        + " "@
        + locks
        + " #[derive(Debug, Deserialize)] struct RealtimeQuery { "@
        + "tenant_id: Option<uuid::Uuid>, resource: Option<String>, record_id: Option<String>, } "@
        + "#[derive(Debug, Serialize)] pub struct PresenceEntry { "@
        + "pub connection_id: uuid::Uuid, pub actor_id: uuid::Uuid, pub tenant_id: Option<uuid::Uuid>, pub resource: Option<String>, pub record_id: Option<String>, pub connected_at: chrono::DateTime<chrono::Utc>, pub last_seen_at: chrono::DateTime<chrono::Utc>, pub expires_at: chrono::DateTime<chrono::Utc>, } "@
        + "#[derive(Serialize)] struct PresenceList { data: Vec<PresenceEntry> } "@
        + "pub fn router() -> Router<AppState> { "@
        + "Router::new().route(\"/api/realtime/events\", get(events)).route(\"/api/realtime/presence\", get(presence)).route(\"/api/realtime/locks\", get(lock_status).post(acquire_lock)).route(\"/api/realtime/locks/{token}\", axum::routing::patch(renew_lock).delete(release_lock)) } "@
        + "async fn events(State(state): State<AppState>, headers: HeaderMap, Query(query): Query<RealtimeQuery>,) -> Result<Sse<impl futures_core::Stream<Item = Result<Event, Infallible>>>, ApiError> { "@
        + "validate_scope(&query)?; "@
        + "let context = scoped_context(&state, headers, query.tenant_id).await?; "@
        + "let actor = context.actor().ok_or(ApiError::Unauthorized)?.clone(); "@
        + "let tenant_id = context.tenant(); let resource = query.resource.clone().ok_or_else(|| { "@
        + "ApiError::InvalidQuery(\"realtime resource is required\".to_owned()) })?; "@
        + "authorize_resource_scope(&state, &context, &resource, query.record_id.as_deref(),).await?; "@
        + "let connection_id = uuid::Uuid::now_v7(); "@
        + "register_presence(&state.database, connection_id, actor.id, tenant_id, &resource, query.record_id.as_deref(),).await?; "@
        + "let mut receiver = state.realtime.subscribe(); let realtime = state.realtime.clone(); "@
        + "let database = state.database.clone(); let record_id = query.record_id; "@
        + "let event_state = state.clone(); let event_actor = actor.clone(); "@
        + "let stream = async_stream::stream! { let _lease = PresenceLease { "@
        + "database: database.clone(), realtime: realtime.clone(), connection_id, actor_id: actor.id, tenant_id, resource: resource.clone(), record_id: record_id.clone(), }; "@
        + "let joined = realtime.publish_scoped(\"presence.online\", Some(&resource), record_id.as_deref(), &presence_payload(connection_id, actor.id, &resource, record_id.as_deref()), Some(actor.id), tenant_id,).ok(); "@
        + "if let Some(joined) = joined { yield Ok(sse_event(&joined)); } "@
        + "let mut heartbeat = tokio::time::interval(Duration::from_secs("@
        + heartbeat_seconds
        + ")); heartbeat.set_missed_tick_behavior(tokio::time::MissedTickBehavior::Skip); loop { "@
        + "tokio::select! { _ = heartbeat.tick() => { "@
        + "if heartbeat_presence(&database, connection_id).await.is_err() { break; } } "@
        + "received = receiver.recv() => match received { "@
        + "Ok(event) if event_matches_scope(&event, tenant_id, &resource, record_id.as_deref()) => { "@
        + "let allowed = if event.resource_model { "@
        + "let context = crate::RequestContext::connection_with_services(&event_state.database, &event_state.mail, &event_state.file, &event_state.realtime, Some(event_actor.clone()), tenant_id,); "@
        + "authorize_resource_event(&event_state, &context, &event).await.unwrap_or(false) } else { "@
        + "true }; if allowed { yield Ok(sse_event(&event)); } } Ok(_) => {} "@
        + "Err(broadcast::error::RecvError::Lagged(_)) => { "@
        + "yield Ok(Event::default().event(\"resync\").data(\"{}\")); } "@
        + "Err(broadcast::error::RecvError::Closed) => break, } } } }; "@
        + "Ok(Sse::new(stream).keep_alive(KeepAlive::new().interval(Duration::from_secs("@
        + heartbeat_seconds
        + ")))) } "@
        + "async fn presence(State(state): State<AppState>, headers: HeaderMap, Query(query): Query<RealtimeQuery>,) -> Result<axum::Json<PresenceList>, ApiError> { "@
        + "validate_scope(&query)?; "@
        + "let context = scoped_context(&state, headers, query.tenant_id).await?; "@
        + "if context.actor().is_none() { return Err(ApiError::Unauthorized); } "@
        + "let resource = query.resource.as_deref().ok_or_else(|| { "@
        + "ApiError::InvalidQuery(\"realtime resource is required\".to_owned()) })?; "@
        + "authorize_resource_scope(&state, &context, resource, query.record_id.as_deref()).await?; "@
        + "let rows = state.database.query_all_raw(Statement::from_sql_and_values(DbBackend::Postgres, \"SELECT connection_id, actor_id, tenant_id, resource, record_id, connected_at, last_seen_at, expires_at FROM \\\"_appstruct_realtime_presence\\\" WHERE expires_at > CURRENT_TIMESTAMP AND (($1::uuid IS NULL AND tenant_id IS NULL) OR tenant_id = $1) AND resource = $2 AND (($3::text IS NULL AND record_id IS NULL) OR record_id = $3) ORDER BY connected_at, connection_id LIMIT 500\", [context.tenant().into(), query.resource.into(), query.record_id.into()],)).await?; "@
        + "let data = rows.into_iter().map(presence_from_row).collect::<Result<Vec<_>, _>>()?; "@
        + "Ok(axum::Json(PresenceList { data })) } "@
        + "async fn scoped_context<'state>(state: &'state AppState, mut headers: HeaderMap, tenant_id: Option<uuid::Uuid>,) -> Result<crate::RequestContext<'state>, ApiError> { "@
        + "if let Some(tenant_id) = tenant_id { "@
        + "let value = tenant_id.to_string().parse().map_err(|_| ApiError::InvalidTenant)?; "@
        + "headers.insert(\"x-appstruct-tenant\", value); } state.context(&headers).await } "@
        + "fn validate_scope(query: &RealtimeQuery) -> Result<(), ApiError> { "@
        + "if query.resource.as_ref().is_none_or(|value| value.is_empty() || value.len() > 120) || query.record_id.as_ref().is_some_and(|value| value.is_empty() || value.len() > 200) { "@
        + "return Err(ApiError::InvalidQuery(\"invalid presence scope\".to_owned())); } Ok(()) } "@
        + "async fn authorize_resource_scope(state: &AppState, context: &crate::RequestContext<'_>, resource: &str, record_id: Option<&str>,) -> Result<(), ApiError> { "@
        + "match resource { "@
        + suffixed_text(scope_arms, ", "@)
        + " _ => Err(ApiError::InvalidQuery(\"unknown realtime resource\".to_owned())), } } "@
        + "async fn authorize_resource_event(state: &AppState, context: &crate::RequestContext<'_>, event: &RealtimeEvent,) -> Result<bool, ApiError> { "@
        + "match event.resource.as_deref() { "@
        + suffixed_text(event_arms, ", "@)
        + " _ => Ok(false), } } "@
        + "fn event_matches_scope(event: &RealtimeEvent, tenant_id: Option<uuid::Uuid>, resource: &str, record_id: Option<&str>,) -> bool { "@
        + "if event.tenant_id != tenant_id || event.resource.as_deref() != Some(resource) { "@
        + "return false; } if let Some(record_id) = record_id { "@
        + "return event.record_id.as_deref() == Some(record_id); } "@
        + "!event.event.starts_with(\"presence.\") || event.record_id.is_none() } "@
        + "async fn register_presence(database: &DatabaseConnection, connection_id: uuid::Uuid, actor_id: uuid::Uuid, tenant_id: Option<uuid::Uuid>, resource: &str, record_id: Option<&str>,) -> Result<(), DbErr> { "@
        + "database.execute_raw(Statement::from_sql_and_values(DbBackend::Postgres, \"INSERT INTO \\\"_appstruct_realtime_presence\\\" (connection_id, actor_id, tenant_id, resource, record_id, connected_at, last_seen_at, expires_at) VALUES ($1, $2, $3, $4, $5, CURRENT_TIMESTAMP, CURRENT_TIMESTAMP, CURRENT_TIMESTAMP + ($6 * INTERVAL '1 second'))\", [connection_id.into(), actor_id.into(), tenant_id.into(), resource.to_owned().into(), record_id.map(str::to_owned).into(), "@
        + ttl_seconds
        + ".into()],)).await?; Ok(()) } "@
        + "async fn heartbeat_presence(database: &DatabaseConnection, connection_id: uuid::Uuid) -> Result<(), DbErr> { "@
        + "let result = database.execute_raw(Statement::from_sql_and_values(DbBackend::Postgres, \"UPDATE \\\"_appstruct_realtime_presence\\\" SET last_seen_at = CURRENT_TIMESTAMP, expires_at = CURRENT_TIMESTAMP + ($2 * INTERVAL '1 second') WHERE connection_id = $1\", [connection_id.into(), "@
        + ttl_seconds
        + ".into()],)).await?; "@
        + "database.execute_unprepared(\"DELETE FROM \\\"_appstruct_realtime_presence\\\" WHERE expires_at <= CURRENT_TIMESTAMP\").await?; "@
        + "if result.rows_affected() == 1 { Ok(()) } else { "@
        + "Err(DbErr::Custom(\"presence lease was lost\".to_owned())) } } struct PresenceLease { "@
        + "database: DatabaseConnection, realtime: RealtimeState, connection_id: uuid::Uuid, actor_id: uuid::Uuid, tenant_id: Option<uuid::Uuid>, resource: String, record_id: Option<String>, } "@
        + "impl Drop for PresenceLease { fn drop(&mut self) { let database = self.database.clone(); "@
        + "let realtime = self.realtime.clone(); let connection_id = self.connection_id; "@
        + "let actor_id = self.actor_id; let tenant_id = self.tenant_id; "@
        + "let resource = self.resource.clone(); let record_id = self.record_id.clone(); "@
        + "tokio::spawn(async move { "@
        + "let _ = database.execute_raw(Statement::from_sql_and_values(DbBackend::Postgres, \"DELETE FROM \\\"_appstruct_realtime_presence\\\" WHERE connection_id = $1\", [connection_id.into()],)).await; "@
        + "let _ = realtime.publish_scoped(\"presence.offline\", Some(&resource), record_id.as_deref(), &presence_payload(connection_id, actor_id, &resource, record_id.as_deref()), Some(actor_id), tenant_id,); "@
        + "}); } } "@
        + "fn presence_payload(connection_id: uuid::Uuid, actor_id: uuid::Uuid, resource: &str, record_id: Option<&str>,) -> serde_json::Value { "@
        + "serde_json::json!({ "@
        + "\"connection_id\": connection_id, \"actor_id\": actor_id, \"resource\": resource, \"record_id\": record_id }) } "@
        + "fn sse_event(event: &RealtimeEvent) -> Event { let mut event = event.clone(); "@
        + "if event.resource_model { event.data = serde_json::json!({ "@
        + "\"resource\": event.resource.clone(), \"record_id\": event.record_id.clone(), }); } "@
        + "Event::default().id(event.id.to_string()).event(&event.event).json_data(&event).unwrap_or_else(|_| Event::default().event(\"serialization_error\")) } "@
        + "fn presence_from_row(row: sea_orm::QueryResult) -> Result<PresenceEntry, DbErr> { "@
        + "Ok(PresenceEntry { "@
        + "connection_id: row.try_get(\"\", \"connection_id\")?, actor_id: row.try_get(\"\", \"actor_id\")?, tenant_id: row.try_get(\"\", \"tenant_id\")?, resource: row.try_get(\"\", \"resource\")?, record_id: row.try_get(\"\", \"record_id\")?, connected_at: row.try_get(\"\", \"connected_at\")?, last_seen_at: row.try_get(\"\", \"last_seen_at\")?, expires_at: row.try_get(\"\", \"expires_at\")?, }) }"@
}

fn realtime_block(fanout: &str, locks: &str, heartbeat_seconds: &str, scope_arms: &Vec<String>, event_arms: &Vec<String>, ttl_seconds: &str) -> (text: String)
    ensures
        text@ == realtime_block_text(fanout@, locks@, heartbeat_seconds@, texts(scope_arms@), texts(event_arms@), ttl_seconds@),
{
    proof {
        reveal(realtime_block_text);
    }
    let mut text = String::from_str("use crate::{ApiError, AppState}; use axum::{ ");
    text.append("Router, extract::{Query, State}, http::HeaderMap, response::sse::{Event, KeepAlive, Sse}, routing::get, }; ");
    text.append("use sea_orm::{ConnectionTrait, DatabaseConnection, DbBackend, DbErr, Statement}; ");
    text.append("use serde::{Deserialize, Serialize}; use std::{convert::Infallible, time::Duration}; ");
    text.append("use tokio::sync::broadcast; ");
    text.append(fanout);
    text.append(" ");
    text.append(locks);
    text.append(" #[derive(Debug, Deserialize)] struct RealtimeQuery { ");
    text.append("tenant_id: Option<uuid::Uuid>, resource: Option<String>, record_id: Option<String>, } ");
    text.append("#[derive(Debug, Serialize)] pub struct PresenceEntry { ");
    text.append("pub connection_id: uuid::Uuid, pub actor_id: uuid::Uuid, pub tenant_id: Option<uuid::Uuid>, pub resource: Option<String>, pub record_id: Option<String>, pub connected_at: chrono::DateTime<chrono::Utc>, pub last_seen_at: chrono::DateTime<chrono::Utc>, pub expires_at: chrono::DateTime<chrono::Utc>, } ");
    text.append("#[derive(Serialize)] struct PresenceList { data: Vec<PresenceEntry> } ");
    text.append("pub fn router() -> Router<AppState> { ");
    text.append("Router::new().route(\"/api/realtime/events\", get(events)).route(\"/api/realtime/presence\", get(presence)).route(\"/api/realtime/locks\", get(lock_status).post(acquire_lock)).route(\"/api/realtime/locks/{token}\", axum::routing::patch(renew_lock).delete(release_lock)) } ");
    text.append("async fn events(State(state): State<AppState>, headers: HeaderMap, Query(query): Query<RealtimeQuery>,) -> Result<Sse<impl futures_core::Stream<Item = Result<Event, Infallible>>>, ApiError> { ");
    text.append("validate_scope(&query)?; ");
    text.append("let context = scoped_context(&state, headers, query.tenant_id).await?; ");
    text.append("let actor = context.actor().ok_or(ApiError::Unauthorized)?.clone(); ");
    text.append("let tenant_id = context.tenant(); let resource = query.resource.clone().ok_or_else(|| { ");
    text.append("ApiError::InvalidQuery(\"realtime resource is required\".to_owned()) })?; ");
    text.append("authorize_resource_scope(&state, &context, &resource, query.record_id.as_deref(),).await?; ");
    text.append("let connection_id = uuid::Uuid::now_v7(); ");
    text.append("register_presence(&state.database, connection_id, actor.id, tenant_id, &resource, query.record_id.as_deref(),).await?; ");
    text.append("let mut receiver = state.realtime.subscribe(); let realtime = state.realtime.clone(); ");
    text.append("let database = state.database.clone(); let record_id = query.record_id; ");
    text.append("let event_state = state.clone(); let event_actor = actor.clone(); ");
    text.append("let stream = async_stream::stream! { let _lease = PresenceLease { ");
    text.append("database: database.clone(), realtime: realtime.clone(), connection_id, actor_id: actor.id, tenant_id, resource: resource.clone(), record_id: record_id.clone(), }; ");
    text.append("let joined = realtime.publish_scoped(\"presence.online\", Some(&resource), record_id.as_deref(), &presence_payload(connection_id, actor.id, &resource, record_id.as_deref()), Some(actor.id), tenant_id,).ok(); ");
    text.append("if let Some(joined) = joined { yield Ok(sse_event(&joined)); } ");
    text.append("let mut heartbeat = tokio::time::interval(Duration::from_secs(");
    text.append(heartbeat_seconds);
    text.append(")); heartbeat.set_missed_tick_behavior(tokio::time::MissedTickBehavior::Skip); loop { ");
    text.append("tokio::select! { _ = heartbeat.tick() => { ");
    text.append("if heartbeat_presence(&database, connection_id).await.is_err() { break; } } ");
    text.append("received = receiver.recv() => match received { ");
    text.append("Ok(event) if event_matches_scope(&event, tenant_id, &resource, record_id.as_deref()) => { ");
    text.append("let allowed = if event.resource_model { ");
    text.append("let context = crate::RequestContext::connection_with_services(&event_state.database, &event_state.mail, &event_state.file, &event_state.realtime, Some(event_actor.clone()), tenant_id,); ");
    text.append("authorize_resource_event(&event_state, &context, &event).await.unwrap_or(false) } else { ");
    text.append("true }; if allowed { yield Ok(sse_event(&event)); } } Ok(_) => {} ");
    text.append("Err(broadcast::error::RecvError::Lagged(_)) => { ");
    text.append("yield Ok(Event::default().event(\"resync\").data(\"{}\")); } ");
    text.append("Err(broadcast::error::RecvError::Closed) => break, } } } }; ");
    text.append("Ok(Sse::new(stream).keep_alive(KeepAlive::new().interval(Duration::from_secs(");
    text.append(heartbeat_seconds);
    text.append(")))) } ");
    text.append("async fn presence(State(state): State<AppState>, headers: HeaderMap, Query(query): Query<RealtimeQuery>,) -> Result<axum::Json<PresenceList>, ApiError> { ");
    text.append("validate_scope(&query)?; ");
    text.append("let context = scoped_context(&state, headers, query.tenant_id).await?; ");
    text.append("if context.actor().is_none() { return Err(ApiError::Unauthorized); } ");
    text.append("let resource = query.resource.as_deref().ok_or_else(|| { ");
    text.append("ApiError::InvalidQuery(\"realtime resource is required\".to_owned()) })?; ");
    text.append("authorize_resource_scope(&state, &context, resource, query.record_id.as_deref()).await?; ");
    text.append("let rows = state.database.query_all_raw(Statement::from_sql_and_values(DbBackend::Postgres, \"SELECT connection_id, actor_id, tenant_id, resource, record_id, connected_at, last_seen_at, expires_at FROM \\\"_appstruct_realtime_presence\\\" WHERE expires_at > CURRENT_TIMESTAMP AND (($1::uuid IS NULL AND tenant_id IS NULL) OR tenant_id = $1) AND resource = $2 AND (($3::text IS NULL AND record_id IS NULL) OR record_id = $3) ORDER BY connected_at, connection_id LIMIT 500\", [context.tenant().into(), query.resource.into(), query.record_id.into()],)).await?; ");
    text.append("let data = rows.into_iter().map(presence_from_row).collect::<Result<Vec<_>, _>>()?; ");
    text.append("Ok(axum::Json(PresenceList { data })) } ");
    text.append("async fn scoped_context<'state>(state: &'state AppState, mut headers: HeaderMap, tenant_id: Option<uuid::Uuid>,) -> Result<crate::RequestContext<'state>, ApiError> { ");
    text.append("if let Some(tenant_id) = tenant_id { ");
    text.append("let value = tenant_id.to_string().parse().map_err(|_| ApiError::InvalidTenant)?; ");
    text.append("headers.insert(\"x-appstruct-tenant\", value); } state.context(&headers).await } ");
    text.append("fn validate_scope(query: &RealtimeQuery) -> Result<(), ApiError> { ");
    text.append("if query.resource.as_ref().is_none_or(|value| value.is_empty() || value.len() > 120) || query.record_id.as_ref().is_some_and(|value| value.is_empty() || value.len() > 200) { ");
    text.append("return Err(ApiError::InvalidQuery(\"invalid presence scope\".to_owned())); } Ok(()) } ");
    text.append("async fn authorize_resource_scope(state: &AppState, context: &crate::RequestContext<'_>, resource: &str, record_id: Option<&str>,) -> Result<(), ApiError> { ");
    text.append("match resource { ");
    append_suffixed(&mut text, scope_arms, ", ");
    text.append(" _ => Err(ApiError::InvalidQuery(\"unknown realtime resource\".to_owned())), } } ");
    text.append("async fn authorize_resource_event(state: &AppState, context: &crate::RequestContext<'_>, event: &RealtimeEvent,) -> Result<bool, ApiError> { ");
    text.append("match event.resource.as_deref() { ");
    append_suffixed(&mut text, event_arms, ", ");
    text.append(" _ => Ok(false), } } ");
    text.append("fn event_matches_scope(event: &RealtimeEvent, tenant_id: Option<uuid::Uuid>, resource: &str, record_id: Option<&str>,) -> bool { ");
    text.append("if event.tenant_id != tenant_id || event.resource.as_deref() != Some(resource) { ");
    text.append("return false; } if let Some(record_id) = record_id { ");
    text.append("return event.record_id.as_deref() == Some(record_id); } ");
    text.append("!event.event.starts_with(\"presence.\") || event.record_id.is_none() } ");
    text.append("async fn register_presence(database: &DatabaseConnection, connection_id: uuid::Uuid, actor_id: uuid::Uuid, tenant_id: Option<uuid::Uuid>, resource: &str, record_id: Option<&str>,) -> Result<(), DbErr> { ");
    text.append("database.execute_raw(Statement::from_sql_and_values(DbBackend::Postgres, \"INSERT INTO \\\"_appstruct_realtime_presence\\\" (connection_id, actor_id, tenant_id, resource, record_id, connected_at, last_seen_at, expires_at) VALUES ($1, $2, $3, $4, $5, CURRENT_TIMESTAMP, CURRENT_TIMESTAMP, CURRENT_TIMESTAMP + ($6 * INTERVAL '1 second'))\", [connection_id.into(), actor_id.into(), tenant_id.into(), resource.to_owned().into(), record_id.map(str::to_owned).into(), ");
    text.append(ttl_seconds);
    text.append(".into()],)).await?; Ok(()) } ");
    text.append("async fn heartbeat_presence(database: &DatabaseConnection, connection_id: uuid::Uuid) -> Result<(), DbErr> { ");
    text.append("let result = database.execute_raw(Statement::from_sql_and_values(DbBackend::Postgres, \"UPDATE \\\"_appstruct_realtime_presence\\\" SET last_seen_at = CURRENT_TIMESTAMP, expires_at = CURRENT_TIMESTAMP + ($2 * INTERVAL '1 second') WHERE connection_id = $1\", [connection_id.into(), ");
    text.append(ttl_seconds);
    text.append(".into()],)).await?; ");
    text.append("database.execute_unprepared(\"DELETE FROM \\\"_appstruct_realtime_presence\\\" WHERE expires_at <= CURRENT_TIMESTAMP\").await?; ");
    text.append("if result.rows_affected() == 1 { Ok(()) } else { ");
    text.append("Err(DbErr::Custom(\"presence lease was lost\".to_owned())) } } struct PresenceLease { ");
    text.append("database: DatabaseConnection, realtime: RealtimeState, connection_id: uuid::Uuid, actor_id: uuid::Uuid, tenant_id: Option<uuid::Uuid>, resource: String, record_id: Option<String>, } ");
    text.append("impl Drop for PresenceLease { fn drop(&mut self) { let database = self.database.clone(); ");
    text.append("let realtime = self.realtime.clone(); let connection_id = self.connection_id; ");
    text.append("let actor_id = self.actor_id; let tenant_id = self.tenant_id; ");
    text.append("let resource = self.resource.clone(); let record_id = self.record_id.clone(); ");
    text.append("tokio::spawn(async move { ");
    text.append("let _ = database.execute_raw(Statement::from_sql_and_values(DbBackend::Postgres, \"DELETE FROM \\\"_appstruct_realtime_presence\\\" WHERE connection_id = $1\", [connection_id.into()],)).await; ");
    text.append("let _ = realtime.publish_scoped(\"presence.offline\", Some(&resource), record_id.as_deref(), &presence_payload(connection_id, actor_id, &resource, record_id.as_deref()), Some(actor_id), tenant_id,); ");
    text.append("}); } } ");
    text.append("fn presence_payload(connection_id: uuid::Uuid, actor_id: uuid::Uuid, resource: &str, record_id: Option<&str>,) -> serde_json::Value { ");
    text.append("serde_json::json!({ ");
    text.append("\"connection_id\": connection_id, \"actor_id\": actor_id, \"resource\": resource, \"record_id\": record_id }) } ");
    text.append("fn sse_event(event: &RealtimeEvent) -> Event { let mut event = event.clone(); ");
    text.append("if event.resource_model { event.data = serde_json::json!({ ");
    text.append("\"resource\": event.resource.clone(), \"record_id\": event.record_id.clone(), }); } ");
    text.append("Event::default().id(event.id.to_string()).event(&event.event).json_data(&event).unwrap_or_else(|_| Event::default().event(\"serialization_error\")) } ");
    text.append("fn presence_from_row(row: sea_orm::QueryResult) -> Result<PresenceEntry, DbErr> { ");
    text.append("Ok(PresenceEntry { ");
    text.append("connection_id: row.try_get(\"\", \"connection_id\")?, actor_id: row.try_get(\"\", \"actor_id\")?, tenant_id: row.try_get(\"\", \"tenant_id\")?, resource: row.try_get(\"\", \"resource\")?, record_id: row.try_get(\"\", \"record_id\")?, connected_at: row.try_get(\"\", \"connected_at\")?, last_seen_at: row.try_get(\"\", \"last_seen_at\")?, expires_at: row.try_get(\"\", \"expires_at\")?, }) }");
    text
}

/// The realtime module of an application with realtime off.
#[verifier::opaque]
pub open spec fn disabled_realtime_text() -> Seq<char> {
    "use crate::AppState; use axum::Router; use sea_orm::DatabaseConnection; "@
        + "use serde::Serialize; #[derive(Clone, Debug, Serialize)] pub struct RealtimeEvent; "@
        + "#[derive(Clone, Default)] pub struct RealtimeState; impl RealtimeState { "@
        + "pub(crate) fn new(_database: DatabaseConnection) -> Self { Self } "@
        + "pub fn publish<T: Serialize>(&self, _event: &str, _data: &T, _actor_id: Option<uuid::Uuid>, _tenant_id: Option<uuid::Uuid>,) -> Result<RealtimeEvent, serde_json::Error> { "@
        + "Ok(RealtimeEvent) } "@
        + "pub(crate) fn publish_resource_model<T: Serialize>(&self, _event: &str, _resource: &str, _record_id: &str, _data: &T, _actor_id: Option<uuid::Uuid>, _tenant_id: Option<uuid::Uuid>,) -> Result<RealtimeEvent, serde_json::Error> { "@
        + "Ok(RealtimeEvent) } } pub fn router() -> Router<AppState> { Router::new() }"@
}

fn disabled_realtime() -> (text: String)
    ensures
        text@ == disabled_realtime_text(),
{
    proof {
        reveal(disabled_realtime_text);
    }
    let mut text = String::from_str("use crate::AppState; use axum::Router; use sea_orm::DatabaseConnection; ");
    text.append("use serde::Serialize; #[derive(Clone, Debug, Serialize)] pub struct RealtimeEvent; ");
    text.append("#[derive(Clone, Default)] pub struct RealtimeState; impl RealtimeState { ");
    text.append("pub(crate) fn new(_database: DatabaseConnection) -> Self { Self } ");
    text.append("pub fn publish<T: Serialize>(&self, _event: &str, _data: &T, _actor_id: Option<uuid::Uuid>, _tenant_id: Option<uuid::Uuid>,) -> Result<RealtimeEvent, serde_json::Error> { ");
    text.append("Ok(RealtimeEvent) } ");
    text.append("pub(crate) fn publish_resource_model<T: Serialize>(&self, _event: &str, _resource: &str, _record_id: &str, _data: &T, _actor_id: Option<uuid::Uuid>, _tenant_id: Option<uuid::Uuid>,) -> Result<RealtimeEvent, serde_json::Error> { ");
    text.append("Ok(RealtimeEvent) } } pub fn router() -> Router<AppState> { Router::new() }");
    text
}

/// The per-entity arms of the realtime module, in order, or the first
/// invalid module name: (scope arms, event arms, inferred resources).
pub open spec fn realtime_arms_spec(entities: Seq<Entity>) -> Result<(Seq<Seq<char>>, Seq<Seq<char>>, Seq<Seq<char>>), Seq<char>>
    decreases entities.len(),
{
    if entities.len() == 0 {
        Ok((Seq::<Seq<char>>::empty(), Seq::<Seq<char>>::empty(), Seq::<Seq<char>>::empty()))
    } else {
        match realtime_arms_spec(entities.drop_last()) {
            Err(error) => Err(error),
            Ok((scopes, events, inferred)) => {
                let entity = entities.last();
                let name = snake_text(entity.rust_name@);
                let resource = literal_text(entity.table_name@);
                match ident_result(name) {
                    Err(error) => Err(error),
                    Ok(module) => Ok((
                        scopes.push(scope_arm_text(resource, module)),
                        events.push(event_arm_text(resource, module)),
                        inferred.push(inferred_arm_text(literal_text(name), resource)),
                    )),
                }
            },
        }
    }
}

proof fn lemma_realtime_arms_error(entities: Seq<Entity>, k: int)
    requires
        0 <= k <= entities.len(),
        realtime_arms_spec(entities.subrange(0, k)) is Err,
    ensures
        realtime_arms_spec(entities) == realtime_arms_spec(entities.subrange(0, k)),
    decreases entities.len() - k,
{
    if k < entities.len() {
        assert(entities.subrange(0, k + 1).drop_last() == entities.subrange(0, k));
        lemma_realtime_arms_error(entities, k + 1);
    } else {
        assert(entities.subrange(0, k) == entities);
    }
}

/// The realtime module of an application, or the first invalid module name.
pub open spec fn realtime_spec(ir: AppIr) -> Result<Seq<char>, Seq<char>> {
    match realtime_arms_spec(ir.entities@) {
        Err(error) => Err(error),
        Ok((scopes, events, inferred)) => {
            let heartbeat = suffixed_literal(ir.realtime.heartbeat_seconds as int, "u64"@);
            let ttl = suffixed_literal(clamp_i64(ir.realtime.presence_ttl_seconds, 45), "i64"@);
            let fanout = fanout_block_text(
                event_definitions_text(),
                state_impl_text(),
                event_persistence_text(inferred),
                fanout_loop_text(),
            );
            let locks = locks_block_text(
                lock_declarations_text(),
                lock_status_text(),
                lock_acquire_text(),
                lock_renewal_text(),
                lock_helpers_text(),
            );
            Ok(realtime_block_text(fanout, locks, heartbeat, scopes, events, ttl))
        },
    }
}

/// The path of the generated realtime module.
pub open spec fn realtime_path() -> Seq<char> {
    "backend/src/realtime.rs"@
}

/// The realtime module's source: enabled where realtime is on, disabled otherwise.
pub open spec fn realtime_plan_spec(ir: AppIr, header: Seq<char>) -> Result<Seq<char>, Seq<char>> {
    if ir.realtime.enabled {
        match realtime_spec(ir) {
            Err(error) => Err(error),
            Ok(text) => render_spec(text, header),
        }
    } else {
        render_spec(disabled_realtime_text(), header)
    }
}

fn realtime_source(ir: &AppIr) -> (result: Result<String, CodegenError>)
    ensures
        match result {
            Ok(text) => realtime_spec(*ir) == Ok::<Seq<char>, Seq<char>>(text@),
            Err(error) => realtime_spec(*ir) == Err::<Seq<char>, Seq<char>>(error@),
        },
{
    let mut scopes: Vec<String> = Vec::new();
    let mut events: Vec<String> = Vec::new();
    let mut inferred: Vec<String> = Vec::new();
    let mut i: usize = 0;
    proof {
        assert(ir.entities@.subrange(0, 0) == Seq::<Entity>::empty());
        assert(texts(scopes@) == Seq::<Seq<char>>::empty());
        assert(texts(events@) == Seq::<Seq<char>>::empty());
        assert(texts(inferred@) == Seq::<Seq<char>>::empty());
    }
    while i < ir.entities.len()
        invariant
            i <= ir.entities.len(),
            realtime_arms_spec(ir.entities@.subrange(0, i as int)) == Ok::<(Seq<Seq<char>>, Seq<Seq<char>>, Seq<Seq<char>>), Seq<char>>(
                (texts(scopes@), texts(events@), texts(inferred@)),
            ),
        decreases ir.entities.len() - i,
    {
        proof {
            assert(ir.entities@.subrange(0, i + 1).drop_last() == ir.entities@.subrange(0, i as int));
        }
        let entity = &ir.entities[i];
        let name = module_name(entity);
        let module = match parse_ident(name.as_str()) {
            Ok(module) => module,
            Err(error) => {
                proof {
                    lemma_realtime_arms_error(ir.entities@, i + 1);
                }
                return Err(error);
            },
        };
        let resource = string_literal(entity.table_name.as_str());
        let name_literal = string_literal(name.as_str());
        let scope = scope_arm(resource.as_str(), module.as_str());
        let event = event_arm(resource.as_str(), module.as_str());
        let inferred_one = inferred_arm(name_literal.as_str(), resource.as_str());
        let ghost (old_scopes, old_events, old_inferred) = (texts(scopes@), texts(events@), texts(inferred@));
        scopes.push(scope);
        events.push(event);
        inferred.push(inferred_one);
        proof {
            assert(texts(scopes@) == old_scopes.push(scope@));
            assert(texts(events@) == old_events.push(event@));
            assert(texts(inferred@) == old_inferred.push(inferred_one@));
        }
        i = i + 1;
    }
    proof {
        assert(ir.entities@.subrange(0, ir.entities@.len() as int) == ir.entities@);
    }
    let mut heartbeat = decimal(ir.realtime.heartbeat_seconds);
    heartbeat.append("u64");
    let mut ttl = if ir.realtime.presence_ttl_seconds <= 9223372036854775807 {
        decimal(ir.realtime.presence_ttl_seconds)
    } else {
        decimal(45)
    };
    ttl.append("i64");
    let definitions = event_definitions();
    let state = state_impl();
    let persistence = event_persistence(&inferred);
    let relay = fanout_loop();
    let fanout = fanout_block(definitions.as_str(), state.as_str(), persistence.as_str(), relay.as_str());
    let declarations = lock_declarations();
    let status = lock_status();
    let acquire = lock_acquire();
    let renewal = lock_renewal();
    let helpers = lock_helpers();
    let locks = locks_block(declarations.as_str(), status.as_str(), acquire.as_str(), renewal.as_str(), helpers.as_str());
    Ok(realtime_block(fanout.as_str(), locks.as_str(), heartbeat.as_str(), &scopes, &events, ttl.as_str()))
}

/// The realtime module's file; `header` opens it.
pub fn realtime_plan(ir: &AppIr, header: &str) -> (result: Result<Vec<Artifact>, CodegenError>)
    ensures
        match result {
            Ok(artifacts) => realtime_plan_spec(*ir, header@) matches Ok(source) && rust_file(artifacts@, realtime_path(), source),
            Err(error) => realtime_plan_spec(*ir, header@) == Err::<Seq<char>, Seq<char>>(error@),
        },
{
    let source = if ir.realtime.enabled {
        let text = realtime_source(ir)?;
        render(text.as_str(), header)?
    } else {
        let text = disabled_realtime();
        render(text.as_str(), header)?
    };
    Ok(single_file("backend/src/realtime.rs", source))
}

} // verus!
