use vstd::prelude::*;
use vstd::string::StringExecFns;
use crate::artifact::{Artifact, CodegenError};
use crate::billing::{decimal, decimal_text, join_text};
use crate::field_access::{literal_text, string_literal};
use crate::fields::{find_entity, find_entity_spec, texts};
use crate::ident::{ident_result, parse_ident};
use crate::ir::{ActivityResource, AppIr};
use crate::naming::{module_name, snake_text};
use crate::source::{render, render_spec, rust_file, single_file};
use crate::text::{append_joined, append_suffixed, suffixed_text};

verus! {

/// The arm that asks an entity's endpoints whether the caller may see a record's activity.
#[verifier::opaque]
pub open spec fn activity_target_arm_text(key: Seq<char>, module: Seq<char>) -> Seq<char> {
    key
        + " => crate::api::"@
        + module
        + "::authorize_activity_target(state, context, record_id,).await"@
}

fn activity_target_arm(key: &str, module: &str) -> (text: String)
    ensures
        text@ == activity_target_arm_text(key@, module@),
{
    proof {
        reveal(activity_target_arm_text);
    }
    let mut text = String::new();
    text.append(key);
    text.append(" => crate::api::");
    text.append(module);
    text.append("::authorize_activity_target(state, context, record_id,).await");
    text
}

/// The imports and types of the activity module.
#[verifier::opaque]
pub open spec fn activity_types_text(attachment_imports: Seq<char>, attachment_input: Seq<char>, attachment_contract: Seq<char>) -> Seq<char> {
    "use crate::{ApiError, AppState, RequestContext}; use axum::{ "@
        + "Json, Router, extract::{Path, Query, State}, http::HeaderMap, routing::get, }; "@
        + "use sea_orm::{ConnectionTrait, DbBackend, Statement, TransactionTrait}; "@
        + "use serde::{Deserialize, Serialize}; "@
        + attachment_imports
        + " #[derive(Clone, Debug, Serialize)] pub struct ActivityEntry { "@
        + "pub id: uuid::Uuid, pub resource: String, pub record_id: String, pub tenant_id: Option<uuid::Uuid>, pub actor_id: Option<uuid::Uuid>, pub kind: String, pub body: Option<String>, pub event: Option<String>, pub payload: Option<serde_json::Value>, pub attachment_file_id: Option<uuid::Uuid>, pub attachment_name: Option<String>, pub attachment_content_type: Option<String>, pub withdrawn_at: Option<chrono::DateTime<chrono::Utc>>, pub withdrawn_by: Option<uuid::Uuid>, pub governance_reason: Option<String>, pub occurred_at: chrono::DateTime<chrono::Utc>, #[serde(skip_serializing)] attachment_object_key: Option<String>, } "@
        + "#[derive(Debug, Deserialize)] struct ActivityListQuery { "@
        + "cursor: Option<String>, limit: Option<u64> } "@
        + "#[derive(Debug, Serialize)] struct ActivityListMeta { "@
        + "limit: u64, next_cursor: Option<String>, has_more: bool } "@
        + "#[derive(Debug, Serialize)] struct ActivityListResponse { "@
        + "data: Vec<ActivityEntry>, meta: ActivityListMeta } "@
        + "#[derive(Debug, Deserialize)] struct CreateCommentInput { body: String, "@
        + attachment_input
        + " } #[derive(Debug, Deserialize)] struct ModerateInput { reason: String } "@
        + attachment_contract
        + " "@
}

fn activity_types(attachment_imports: &str, attachment_input: &str, attachment_contract: &str) -> (text: String)
    ensures
        text@ == activity_types_text(attachment_imports@, attachment_input@, attachment_contract@),
{
    proof {
        reveal(activity_types_text);
    }
    let mut text = String::from_str("use crate::{ApiError, AppState, RequestContext}; use axum::{ ");
    text.append("Json, Router, extract::{Path, Query, State}, http::HeaderMap, routing::get, }; ");
    text.append("use sea_orm::{ConnectionTrait, DbBackend, Statement, TransactionTrait}; ");
    text.append("use serde::{Deserialize, Serialize}; ");
    text.append(attachment_imports);
    text.append(" #[derive(Clone, Debug, Serialize)] pub struct ActivityEntry { ");
    text.append("pub id: uuid::Uuid, pub resource: String, pub record_id: String, pub tenant_id: Option<uuid::Uuid>, pub actor_id: Option<uuid::Uuid>, pub kind: String, pub body: Option<String>, pub event: Option<String>, pub payload: Option<serde_json::Value>, pub attachment_file_id: Option<uuid::Uuid>, pub attachment_name: Option<String>, pub attachment_content_type: Option<String>, pub withdrawn_at: Option<chrono::DateTime<chrono::Utc>>, pub withdrawn_by: Option<uuid::Uuid>, pub governance_reason: Option<String>, pub occurred_at: chrono::DateTime<chrono::Utc>, #[serde(skip_serializing)] attachment_object_key: Option<String>, } ");
    text.append("#[derive(Debug, Deserialize)] struct ActivityListQuery { ");
    text.append("cursor: Option<String>, limit: Option<u64> } ");
    text.append("#[derive(Debug, Serialize)] struct ActivityListMeta { ");
    text.append("limit: u64, next_cursor: Option<String>, has_more: bool } ");
    text.append("#[derive(Debug, Serialize)] struct ActivityListResponse { ");
    text.append("data: Vec<ActivityEntry>, meta: ActivityListMeta } ");
    text.append("#[derive(Debug, Deserialize)] struct CreateCommentInput { body: String, ");
    text.append(attachment_input);
    text.append(" } #[derive(Debug, Deserialize)] struct ModerateInput { reason: String } ");
    text.append(attachment_contract);
    text.append(" ");
    text
}

/// The routes of the activity module.
#[verifier::opaque]
pub open spec fn activity_router_text(attachment_route: Seq<char>) -> Seq<char> {
    "pub fn router() -> Router<AppState> { "@
        + "Router::new().route(\"/api/activity/{resource}/{record_id}\", get(list)).route(\"/api/activity/{resource}/{record_id}/comments\", axum::routing::post(create_comment),).route(\"/api/activity/{resource}/{record_id}/{entry_id}/withdraw\", axum::routing::post(withdraw),).route(\"/api/activity/{resource}/{record_id}/{entry_id}/moderate\", axum::routing::post(moderate),) "@
        + attachment_route
        + " } "@
}

fn activity_router(attachment_route: &str) -> (text: String)
    ensures
        text@ == activity_router_text(attachment_route@),
{
    proof {
        reveal(activity_router_text);
    }
    let mut text = String::from_str("pub fn router() -> Router<AppState> { ");
    text.append("Router::new().route(\"/api/activity/{resource}/{record_id}\", get(list)).route(\"/api/activity/{resource}/{record_id}/comments\", axum::routing::post(create_comment),).route(\"/api/activity/{resource}/{record_id}/{entry_id}/withdraw\", axum::routing::post(withdraw),).route(\"/api/activity/{resource}/{record_id}/{entry_id}/moderate\", axum::routing::post(moderate),) ");
    text.append(attachment_route);
    text.append(" } ");
    text
}

/// The endpoint that pages through a record's activity, newest first.
#[verifier::opaque]
pub open spec fn activity_list_text(entry_select: Seq<char>) -> Seq<char> {
    "async fn list(State(state): State<AppState>, headers: HeaderMap, Path((resource, record_id)): Path<(String, String)>, Query(query): Query<ActivityListQuery>,) -> Result<Json<ActivityListResponse>, ApiError> { "@
        + "let context = state.context(&headers).await?; "@
        + "authorize_target(&state, &context, &resource, &record_id).await?; "@
        + "let limit = query.limit.unwrap_or(25); if !(1..=100).contains(&limit) { "@
        + "return Err(ApiError::InvalidQuery(\"activity limit must be between 1 and 100\".to_owned())); "@
        + "} let fetch_limit = i64::try_from(limit + 1).unwrap_or(101); "@
        + "let rows = if let Some(cursor) = query.cursor.as_deref() { "@
        + "let (occurred_at, id) = decode_activity_cursor(cursor)?; "@
        + "state.database.query_all_raw(Statement::from_sql_and_values(DbBackend::Postgres, concat!("@
        + entry_select
        + ", \"WHERE e.tenant_id IS NOT DISTINCT FROM $1 AND e.resource = $2 AND e.record_id = $3 AND (e.occurred_at, e.id) < ($4, $5) ORDER BY e.occurred_at DESC, e.id DESC LIMIT $6\"), [context.tenant().into(), resource.clone().into(), record_id.clone().into(), occurred_at.into(), id.into(), fetch_limit.into()],)).await? } "@
        + "else { "@
        + "state.database.query_all_raw(Statement::from_sql_and_values(DbBackend::Postgres, concat!("@
        + entry_select
        + ", \"WHERE e.tenant_id IS NOT DISTINCT FROM $1 AND e.resource = $2 AND e.record_id = $3 ORDER BY e.occurred_at DESC, e.id DESC LIMIT $4\"), [context.tenant().into(), resource.into(), record_id.into(), fetch_limit.into()],)).await? }; "@
        + "let mut data = rows.into_iter().map(entry_from_row).collect::<Result<Vec<_>, _>>()?; "@
        + "let has_more = data.len() > usize::try_from(limit).unwrap_or(100); if has_more { "@
        + "data.pop(); } "@
        + "let next_cursor = has_more.then(|| data.last().map(encode_activity_cursor).expect(\"an activity page with more rows is non-empty\")); "@
        + "Ok(Json(ActivityListResponse { data, meta: ActivityListMeta { "@
        + "limit, next_cursor, has_more } })) } "@
}

fn activity_list(entry_select: &str) -> (text: String)
    ensures
        text@ == activity_list_text(entry_select@),
{
    proof {
        reveal(activity_list_text);
    }
    let mut text = String::from_str("async fn list(State(state): State<AppState>, headers: HeaderMap, Path((resource, record_id)): Path<(String, String)>, Query(query): Query<ActivityListQuery>,) -> Result<Json<ActivityListResponse>, ApiError> { ");
    text.append("let context = state.context(&headers).await?; ");
    text.append("authorize_target(&state, &context, &resource, &record_id).await?; ");
    text.append("let limit = query.limit.unwrap_or(25); if !(1..=100).contains(&limit) { ");
    text.append("return Err(ApiError::InvalidQuery(\"activity limit must be between 1 and 100\".to_owned())); ");
    text.append("} let fetch_limit = i64::try_from(limit + 1).unwrap_or(101); ");
    text.append("let rows = if let Some(cursor) = query.cursor.as_deref() { ");
    text.append("let (occurred_at, id) = decode_activity_cursor(cursor)?; ");
    text.append("state.database.query_all_raw(Statement::from_sql_and_values(DbBackend::Postgres, concat!(");
    text.append(entry_select);
    text.append(", \"WHERE e.tenant_id IS NOT DISTINCT FROM $1 AND e.resource = $2 AND e.record_id = $3 AND (e.occurred_at, e.id) < ($4, $5) ORDER BY e.occurred_at DESC, e.id DESC LIMIT $6\"), [context.tenant().into(), resource.clone().into(), record_id.clone().into(), occurred_at.into(), id.into(), fetch_limit.into()],)).await? } ");
    text.append("else { ");
    text.append("state.database.query_all_raw(Statement::from_sql_and_values(DbBackend::Postgres, concat!(");
    text.append(entry_select);
    text.append(", \"WHERE e.tenant_id IS NOT DISTINCT FROM $1 AND e.resource = $2 AND e.record_id = $3 ORDER BY e.occurred_at DESC, e.id DESC LIMIT $4\"), [context.tenant().into(), resource.into(), record_id.into(), fetch_limit.into()],)).await? }; ");
    text.append("let mut data = rows.into_iter().map(entry_from_row).collect::<Result<Vec<_>, _>>()?; ");
    text.append("let has_more = data.len() > usize::try_from(limit).unwrap_or(100); if has_more { ");
    text.append("data.pop(); } ");
    text.append("let next_cursor = has_more.then(|| data.last().map(encode_activity_cursor).expect(\"an activity page with more rows is non-empty\")); ");
    text.append("Ok(Json(ActivityListResponse { data, meta: ActivityListMeta { ");
    text.append("limit, next_cursor, has_more } })) } ");
    text
}

/// The endpoint that adds a comment, with its attachment where those are on.
#[verifier::opaque]
pub open spec fn activity_comment_text(max_comment_bytes: Seq<char>, attachment_create: Seq<char>) -> Seq<char> {
    "async fn create_comment(State(state): State<AppState>, headers: HeaderMap, Path((resource, record_id)): Path<(String, String)>, Json(input): Json<CreateCommentInput>,) -> Result<Json<ActivityEntry>, ApiError> { "@
        + "let outer = state.mutation_context(&headers).await?; "@
        + "let actor = outer.actor().cloned().ok_or(ApiError::Unauthorized)?; "@
        + "let tenant_id = outer.tenant(); let body = sanitize_text(&input.body, "@
        + max_comment_bytes
        + ", \"comment\")?; let transaction = state.database.begin().await?; "@
        + "let context = RequestContext::transaction_with_file(&transaction, &state.mail, &state.file, &state.realtime, Some(actor.clone()), tenant_id,); "@
        + "authorize_target(&state, &context, &resource, &record_id).await?; "@
        + "let id = uuid::Uuid::now_v7(); "@
        + attachment_create
        + " let row = transaction.query_one_raw(Statement::from_sql_and_values(DbBackend::Postgres, concat!(\"INSERT INTO \\\"_appstruct_activity_entries\\\" (id, resource, record_id, tenant_id, actor_id, kind, body, event, payload, attachment_file_id, attachment_name, attachment_content_type, occurred_at) \", \"VALUES ($1, $2, $3, $4, $5, 'comment', $6, NULL, NULL, $7, $8, $9, CURRENT_TIMESTAMP) \", \"RETURNING id, resource, record_id, tenant_id, actor_id, kind::text AS kind, body, event, payload, attachment_file_id, attachment_name, attachment_content_type, withdrawn_at, withdrawn_by, governance_reason, occurred_at, NULL::text AS attachment_object_key\"), [id.into(), resource.into(), record_id.into(), tenant_id.into(), actor.id.into(), body.into(), attachment_file_id.into(), attachment_name.into(), attachment_content_type.into()],)).await?.ok_or(ApiError::Internal)?; "@
        + "let entry = entry_from_row(row)?; transaction.commit().await?; "@
        + "publish_activity(&state, &entry, \"activity.comment.created\"); Ok(Json(entry)) } "@
}

fn activity_comment(max_comment_bytes: &str, attachment_create: &str) -> (text: String)
    ensures
        text@ == activity_comment_text(max_comment_bytes@, attachment_create@),
{
    proof {
        reveal(activity_comment_text);
    }
    let mut text = String::from_str("async fn create_comment(State(state): State<AppState>, headers: HeaderMap, Path((resource, record_id)): Path<(String, String)>, Json(input): Json<CreateCommentInput>,) -> Result<Json<ActivityEntry>, ApiError> { ");
    text.append("let outer = state.mutation_context(&headers).await?; ");
    text.append("let actor = outer.actor().cloned().ok_or(ApiError::Unauthorized)?; ");
    text.append("let tenant_id = outer.tenant(); let body = sanitize_text(&input.body, ");
    text.append(max_comment_bytes);
    text.append(", \"comment\")?; let transaction = state.database.begin().await?; ");
    text.append("let context = RequestContext::transaction_with_file(&transaction, &state.mail, &state.file, &state.realtime, Some(actor.clone()), tenant_id,); ");
    text.append("authorize_target(&state, &context, &resource, &record_id).await?; ");
    text.append("let id = uuid::Uuid::now_v7(); ");
    text.append(attachment_create);
    text.append(" let row = transaction.query_one_raw(Statement::from_sql_and_values(DbBackend::Postgres, concat!(\"INSERT INTO \\\"_appstruct_activity_entries\\\" (id, resource, record_id, tenant_id, actor_id, kind, body, event, payload, attachment_file_id, attachment_name, attachment_content_type, occurred_at) \", \"VALUES ($1, $2, $3, $4, $5, 'comment', $6, NULL, NULL, $7, $8, $9, CURRENT_TIMESTAMP) \", \"RETURNING id, resource, record_id, tenant_id, actor_id, kind::text AS kind, body, event, payload, attachment_file_id, attachment_name, attachment_content_type, withdrawn_at, withdrawn_by, governance_reason, occurred_at, NULL::text AS attachment_object_key\"), [id.into(), resource.into(), record_id.into(), tenant_id.into(), actor.id.into(), body.into(), attachment_file_id.into(), attachment_name.into(), attachment_content_type.into()],)).await?.ok_or(ApiError::Internal)?; ");
    text.append("let entry = entry_from_row(row)?; transaction.commit().await?; ");
    text.append("publish_activity(&state, &entry, \"activity.comment.created\"); Ok(Json(entry)) } ");
    text
}

/// The endpoint through which an author withdraws a comment.
#[verifier::opaque]
pub open spec fn activity_withdraw_text(attachment_remember: Seq<char>, attachment_cleanup: Seq<char>) -> Seq<char> {
    "async fn withdraw(State(state): State<AppState>, headers: HeaderMap, Path((resource, record_id, entry_id)): Path<(String, String, String)>,) -> Result<Json<ActivityEntry>, ApiError> { "@
        + "let outer = state.mutation_context(&headers).await?; "@
        + "let actor = outer.actor().cloned().ok_or(ApiError::Unauthorized)?; "@
        + "let tenant_id = outer.tenant(); "@
        + "let entry_id = uuid::Uuid::parse_str(&entry_id).map_err(|_| ApiError::InvalidId)?; "@
        + "let transaction = state.database.begin().await?; "@
        + "let context = RequestContext::transaction_with_file(&transaction, &state.mail, &state.file, &state.realtime, Some(actor.clone()), tenant_id,); "@
        + "authorize_target(&state, &context, &resource, &record_id).await?; "@
        + "let before = load_entry(&transaction, entry_id, tenant_id, &resource, &record_id, true).await?; "@
        + "if before.kind != \"comment\" || before.withdrawn_at.is_some() { "@
        + "return Err(ApiError::ActivityAlreadyWithdrawn); } if before.actor_id != Some(actor.id) { "@
        + "return Err(ApiError::Forbidden); } "@
        + attachment_remember
        + " let after = withdraw_entry(&transaction, &before, actor.id, None).await?; "@
        + "crate::audit::record(&transaction, &context, \"appstruct::activity::entry\", after.id.to_string(), \"activity.withdraw\", Some(&before), Some(&after),).await?; "@
        + "transaction.commit().await?; "@
        + attachment_cleanup
        + " publish_activity(&state, &after, \"activity.comment.withdrawn\"); Ok(Json(after)) } "@
}

fn activity_withdraw(attachment_remember: &str, attachment_cleanup: &str) -> (text: String)
    ensures
        text@ == activity_withdraw_text(attachment_remember@, attachment_cleanup@),
{
    proof {
        reveal(activity_withdraw_text);
    }
    let mut text = String::from_str("async fn withdraw(State(state): State<AppState>, headers: HeaderMap, Path((resource, record_id, entry_id)): Path<(String, String, String)>,) -> Result<Json<ActivityEntry>, ApiError> { ");
    text.append("let outer = state.mutation_context(&headers).await?; ");
    text.append("let actor = outer.actor().cloned().ok_or(ApiError::Unauthorized)?; ");
    text.append("let tenant_id = outer.tenant(); ");
    text.append("let entry_id = uuid::Uuid::parse_str(&entry_id).map_err(|_| ApiError::InvalidId)?; ");
    text.append("let transaction = state.database.begin().await?; ");
    text.append("let context = RequestContext::transaction_with_file(&transaction, &state.mail, &state.file, &state.realtime, Some(actor.clone()), tenant_id,); ");
    text.append("authorize_target(&state, &context, &resource, &record_id).await?; ");
    text.append("let before = load_entry(&transaction, entry_id, tenant_id, &resource, &record_id, true).await?; ");
    text.append("if before.kind != \"comment\" || before.withdrawn_at.is_some() { ");
    text.append("return Err(ApiError::ActivityAlreadyWithdrawn); } if before.actor_id != Some(actor.id) { ");
    text.append("return Err(ApiError::Forbidden); } ");
    text.append(attachment_remember);
    text.append(" let after = withdraw_entry(&transaction, &before, actor.id, None).await?; ");
    text.append("crate::audit::record(&transaction, &context, \"appstruct::activity::entry\", after.id.to_string(), \"activity.withdraw\", Some(&before), Some(&after),).await?; ");
    text.append("transaction.commit().await?; ");
    text.append(attachment_cleanup);
    text.append(" publish_activity(&state, &after, \"activity.comment.withdrawn\"); Ok(Json(after)) } ");
    text
}

/// The endpoint through which an administrator withdraws a comment.
#[verifier::opaque]
pub open spec fn activity_moderate_text(admin_allowed: Seq<char>, attachment_remember: Seq<char>, attachment_cleanup: Seq<char>) -> Seq<char> {
    "async fn moderate(State(state): State<AppState>, headers: HeaderMap, Path((resource, record_id, entry_id)): Path<(String, String, String)>, Json(input): Json<ModerateInput>,) -> Result<Json<ActivityEntry>, ApiError> { "@
        + "let outer = state.mutation_context(&headers).await?; "@
        + "let actor = outer.actor().cloned().ok_or(ApiError::Unauthorized)?; if !("@
        + admin_allowed
        + ") { return Err(ApiError::Forbidden); } "@
        + "let reason = sanitize_text(&input.reason, 1_000, \"moderation reason\")?; "@
        + "let tenant_id = outer.tenant(); "@
        + "let entry_id = uuid::Uuid::parse_str(&entry_id).map_err(|_| ApiError::InvalidId)?; "@
        + "let transaction = state.database.begin().await?; "@
        + "let context = RequestContext::transaction_with_file(&transaction, &state.mail, &state.file, &state.realtime, Some(actor.clone()), tenant_id,); "@
        + "authorize_target(&state, &context, &resource, &record_id).await?; "@
        + "let before = load_entry(&transaction, entry_id, tenant_id, &resource, &record_id, true).await?; "@
        + "if before.kind != \"comment\" || before.withdrawn_at.is_some() { "@
        + "return Err(ApiError::ActivityAlreadyWithdrawn); } "@
        + attachment_remember
        + " let after = withdraw_entry(&transaction, &before, actor.id, Some(reason)).await?; "@
        + "crate::audit::record(&transaction, &context, \"appstruct::activity::entry\", after.id.to_string(), \"activity.moderate\", Some(&before), Some(&after),).await?; "@
        + "transaction.commit().await?; "@
        + attachment_cleanup
        + " publish_activity(&state, &after, \"activity.comment.moderated\"); Ok(Json(after)) } "@
}

fn activity_moderate(admin_allowed: &str, attachment_remember: &str, attachment_cleanup: &str) -> (text: String)
    ensures
        text@ == activity_moderate_text(admin_allowed@, attachment_remember@, attachment_cleanup@),
{
    proof {
        reveal(activity_moderate_text);
    }
    let mut text = String::from_str("async fn moderate(State(state): State<AppState>, headers: HeaderMap, Path((resource, record_id, entry_id)): Path<(String, String, String)>, Json(input): Json<ModerateInput>,) -> Result<Json<ActivityEntry>, ApiError> { ");
    text.append("let outer = state.mutation_context(&headers).await?; ");
    text.append("let actor = outer.actor().cloned().ok_or(ApiError::Unauthorized)?; if !(");
    text.append(admin_allowed);
    text.append(") { return Err(ApiError::Forbidden); } ");
    text.append("let reason = sanitize_text(&input.reason, 1_000, \"moderation reason\")?; ");
    text.append("let tenant_id = outer.tenant(); ");
    text.append("let entry_id = uuid::Uuid::parse_str(&entry_id).map_err(|_| ApiError::InvalidId)?; ");
    text.append("let transaction = state.database.begin().await?; ");
    text.append("let context = RequestContext::transaction_with_file(&transaction, &state.mail, &state.file, &state.realtime, Some(actor.clone()), tenant_id,); ");
    text.append("authorize_target(&state, &context, &resource, &record_id).await?; ");
    text.append("let before = load_entry(&transaction, entry_id, tenant_id, &resource, &record_id, true).await?; ");
    text.append("if before.kind != \"comment\" || before.withdrawn_at.is_some() { ");
    text.append("return Err(ApiError::ActivityAlreadyWithdrawn); } ");
    text.append(attachment_remember);
    text.append(" let after = withdraw_entry(&transaction, &before, actor.id, Some(reason)).await?; ");
    text.append("crate::audit::record(&transaction, &context, \"appstruct::activity::entry\", after.id.to_string(), \"activity.moderate\", Some(&before), Some(&after),).await?; ");
    text.append("transaction.commit().await?; ");
    text.append(attachment_cleanup);
    text.append(" publish_activity(&state, &after, \"activity.comment.moderated\"); Ok(Json(after)) } ");
    text
}

/// The target check and the recording of system events.
#[verifier::opaque]
pub open spec fn activity_targets_text(resource_arms: Seq<Seq<char>>, known_resources: Seq<char>) -> Seq<char> {
    "async fn authorize_target(state: &AppState, context: &RequestContext<'_>, resource: &str, record_id: &str,) -> Result<(), ApiError> { "@
        + "if record_id.is_empty() || record_id.len() > 255 { return Err(ApiError::InvalidId); } "@
        + "match resource { "@
        + suffixed_text(resource_arms, ", "@)
        + " _ => Err(ApiError::UnknownActivityResource), } } "@
        + "pub(crate) async fn record_system_event<C: ConnectionTrait>(database: &C, context: &RequestContext<'_>, resource: &str, record_id: String, event: &str,) -> Result<(), ApiError> { "@
        + "match resource { "@
        + known_resources
        + " => {} _ => return Err(ApiError::UnknownActivityResource), } "@
        + "database.execute_raw(Statement::from_sql_and_values(DbBackend::Postgres, \"INSERT INTO \\\"_appstruct_activity_entries\\\" (id, resource, record_id, tenant_id, actor_id, kind, body, event, payload, occurred_at) VALUES ($1, $2, $3, $4, $5, 'system', NULL, $6, NULL, CURRENT_TIMESTAMP)\", [uuid::Uuid::now_v7().into(), resource.to_owned().into(), record_id.into(), context.tenant().into(), context.actor().map(|actor| actor.id).into(), event.to_owned().into()],)).await?; "@
        + "Ok(()) } "@
}

fn activity_targets(resource_arms: &Vec<String>, known_resources: &str) -> (text: String)
    ensures
        text@ == activity_targets_text(texts(resource_arms@), known_resources@),
{
    proof {
        reveal(activity_targets_text);
    }
    let mut text = String::from_str("async fn authorize_target(state: &AppState, context: &RequestContext<'_>, resource: &str, record_id: &str,) -> Result<(), ApiError> { ");
    text.append("if record_id.is_empty() || record_id.len() > 255 { return Err(ApiError::InvalidId); } ");
    text.append("match resource { ");
    append_suffixed(&mut text, resource_arms, ", ");
    text.append(" _ => Err(ApiError::UnknownActivityResource), } } ");
    text.append("pub(crate) async fn record_system_event<C: ConnectionTrait>(database: &C, context: &RequestContext<'_>, resource: &str, record_id: String, event: &str,) -> Result<(), ApiError> { ");
    text.append("match resource { ");
    text.append(known_resources);
    text.append(" => {} _ => return Err(ApiError::UnknownActivityResource), } ");
    text.append("database.execute_raw(Statement::from_sql_and_values(DbBackend::Postgres, \"INSERT INTO \\\"_appstruct_activity_entries\\\" (id, resource, record_id, tenant_id, actor_id, kind, body, event, payload, occurred_at) VALUES ($1, $2, $3, $4, $5, 'system', NULL, $6, NULL, CURRENT_TIMESTAMP)\", [uuid::Uuid::now_v7().into(), resource.to_owned().into(), record_id.into(), context.tenant().into(), context.actor().map(|actor| actor.id).into(), event.to_owned().into()],)).await?; ");
    text.append("Ok(()) } ");
    text
}

/// The loading and withdrawing of entries.
#[verifier::opaque]
pub open spec fn activity_entries_text(entry_select: Seq<char>) -> Seq<char> {
    "async fn withdraw_entry<C: ConnectionTrait>(database: &C, before: &ActivityEntry, actor_id: uuid::Uuid, reason: Option<String>,) -> Result<ActivityEntry, ApiError> { "@
        + "database.execute_raw(Statement::from_sql_and_values(DbBackend::Postgres, \"UPDATE \\\"_appstruct_activity_entries\\\" SET body = NULL, attachment_file_id = NULL, attachment_name = NULL, attachment_content_type = NULL, withdrawn_at = CURRENT_TIMESTAMP, withdrawn_by = $2, governance_reason = $3 WHERE id = $1\", [before.id.into(), actor_id.into(), reason.into()],)).await?; "@
        + "load_entry(database, before.id, before.tenant_id, &before.resource, &before.record_id, false,).await } "@
        + "async fn load_entry<C: ConnectionTrait>(database: &C, id: uuid::Uuid, tenant_id: Option<uuid::Uuid>, resource: &str, record_id: &str, locked: bool,) -> Result<ActivityEntry, ApiError> { "@
        + "let suffix = if locked { \" FOR UPDATE OF e\" } else { \"\" }; "@
        + "let sql = format!(\"{}{}\", concat!("@
        + entry_select
        + ", \"WHERE e.id = $1 AND e.tenant_id IS NOT DISTINCT FROM $2 AND e.resource = $3 AND e.record_id = $4\"), suffix,); "@
        + "let row = database.query_one_raw(Statement::from_sql_and_values(DbBackend::Postgres, sql, [id.into(), tenant_id.into(), resource.to_owned().into(), record_id.to_owned().into()],)).await?.ok_or(ApiError::NotFound)?; "@
        + "Ok(entry_from_row(row)?) } "@
}

fn activity_entries(entry_select: &str) -> (text: String)
    ensures
        text@ == activity_entries_text(entry_select@),
{
    proof {
        reveal(activity_entries_text);
    }
    let mut text = String::from_str("async fn withdraw_entry<C: ConnectionTrait>(database: &C, before: &ActivityEntry, actor_id: uuid::Uuid, reason: Option<String>,) -> Result<ActivityEntry, ApiError> { ");
    text.append("database.execute_raw(Statement::from_sql_and_values(DbBackend::Postgres, \"UPDATE \\\"_appstruct_activity_entries\\\" SET body = NULL, attachment_file_id = NULL, attachment_name = NULL, attachment_content_type = NULL, withdrawn_at = CURRENT_TIMESTAMP, withdrawn_by = $2, governance_reason = $3 WHERE id = $1\", [before.id.into(), actor_id.into(), reason.into()],)).await?; ");
    text.append("load_entry(database, before.id, before.tenant_id, &before.resource, &before.record_id, false,).await } ");
    text.append("async fn load_entry<C: ConnectionTrait>(database: &C, id: uuid::Uuid, tenant_id: Option<uuid::Uuid>, resource: &str, record_id: &str, locked: bool,) -> Result<ActivityEntry, ApiError> { ");
    text.append("let suffix = if locked { \" FOR UPDATE OF e\" } else { \"\" }; ");
    text.append("let sql = format!(\"{}{}\", concat!(");
    text.append(entry_select);
    text.append(", \"WHERE e.id = $1 AND e.tenant_id IS NOT DISTINCT FROM $2 AND e.resource = $3 AND e.record_id = $4\"), suffix,); ");
    text.append("let row = database.query_one_raw(Statement::from_sql_and_values(DbBackend::Postgres, sql, [id.into(), tenant_id.into(), resource.to_owned().into(), record_id.to_owned().into()],)).await?.ok_or(ApiError::NotFound)?; ");
    text.append("Ok(entry_from_row(row)?) } ");
    text
}

/// The reading of an entry row.
#[verifier::opaque]
pub open spec fn activity_rows_text() -> Seq<char> {
    "fn entry_from_row(row: sea_orm::QueryResult) -> Result<ActivityEntry, sea_orm::DbErr> { "@
        + "Ok(ActivityEntry { "@
        + "id: row.try_get(\"\", \"id\")?, resource: row.try_get(\"\", \"resource\")?, record_id: row.try_get(\"\", \"record_id\")?, tenant_id: row.try_get(\"\", \"tenant_id\")?, actor_id: row.try_get(\"\", \"actor_id\")?, kind: row.try_get(\"\", \"kind\")?, body: row.try_get(\"\", \"body\")?, event: row.try_get(\"\", \"event\")?, payload: row.try_get(\"\", \"payload\")?, attachment_file_id: row.try_get(\"\", \"attachment_file_id\")?, attachment_name: row.try_get(\"\", \"attachment_name\")?, attachment_content_type: row.try_get(\"\", \"attachment_content_type\")?, withdrawn_at: row.try_get(\"\", \"withdrawn_at\")?, withdrawn_by: row.try_get(\"\", \"withdrawn_by\")?, governance_reason: row.try_get(\"\", \"governance_reason\")?, occurred_at: row.try_get(\"\", \"occurred_at\")?, attachment_object_key: row.try_get(\"\", \"attachment_object_key\")?, }) } "@
}

fn activity_rows() -> (text: String)
    ensures
        text@ == activity_rows_text(),
{
    proof {
        reveal(activity_rows_text);
    }
    let mut text = String::from_str("fn entry_from_row(row: sea_orm::QueryResult) -> Result<ActivityEntry, sea_orm::DbErr> { ");
    text.append("Ok(ActivityEntry { ");
    text.append("id: row.try_get(\"\", \"id\")?, resource: row.try_get(\"\", \"resource\")?, record_id: row.try_get(\"\", \"record_id\")?, tenant_id: row.try_get(\"\", \"tenant_id\")?, actor_id: row.try_get(\"\", \"actor_id\")?, kind: row.try_get(\"\", \"kind\")?, body: row.try_get(\"\", \"body\")?, event: row.try_get(\"\", \"event\")?, payload: row.try_get(\"\", \"payload\")?, attachment_file_id: row.try_get(\"\", \"attachment_file_id\")?, attachment_name: row.try_get(\"\", \"attachment_name\")?, attachment_content_type: row.try_get(\"\", \"attachment_content_type\")?, withdrawn_at: row.try_get(\"\", \"withdrawn_at\")?, withdrawn_by: row.try_get(\"\", \"withdrawn_by\")?, governance_reason: row.try_get(\"\", \"governance_reason\")?, occurred_at: row.try_get(\"\", \"occurred_at\")?, attachment_object_key: row.try_get(\"\", \"attachment_object_key\")?, }) } ");
    text
}

/// Text sanitizing, cursors, publishing and the attachment download.
#[verifier::opaque]
pub open spec fn activity_helpers_text(download: Seq<char>) -> Seq<char> {
    "fn sanitize_text(value: &str, maximum: u32, field: &str) -> Result<String, ApiError> { "@
        + "let value = value.chars().filter(|character| !character.is_control() || matches!(character, '\\n' | '\\t')).collect::<String>(); "@
        + "let value = value.trim().to_owned(); "@
        + "if value.is_empty() || value.len() > usize::try_from(maximum).unwrap_or(usize::MAX) { "@
        + "return Err(ApiError::InvalidActivityInput(format!(\"{field} "@
        + "must contain between 1 and {maximum} bytes\",))); } Ok(value) } "@
        + "fn encode_activity_cursor(entry: &ActivityEntry) -> String { "@
        + "appstruct_runtime::encode_cursor(&format!(\"{}|{}\", entry.occurred_at.to_rfc3339_opts(chrono::SecondsFormat::Nanos, true), entry.id,)) } "@
        + "fn decode_activity_cursor(cursor: &str,) -> Result<(chrono::DateTime<chrono::Utc>, uuid::Uuid), ApiError> { "@
        + "let raw = appstruct_runtime::decode_cursor(cursor).ok_or_else(|| ApiError::InvalidQuery(\"invalid activity cursor\".to_owned()))?; "@
        + "let (occurred_at, id) = raw.split_once('|').ok_or_else(|| ApiError::InvalidQuery(\"invalid activity cursor\".to_owned()))?; "@
        + "let occurred_at = chrono::DateTime::parse_from_rfc3339(occurred_at).map_err(|_| ApiError::InvalidQuery(\"invalid activity cursor\".to_owned()))?.with_timezone(&chrono::Utc); "@
        + "let id = uuid::Uuid::parse_str(id).map_err(|_| ApiError::InvalidQuery(\"invalid activity cursor\".to_owned()))?; "@
        + "Ok((occurred_at, id)) } "@
        + "fn publish_activity(state: &AppState, entry: &ActivityEntry, event: &str) { "@
        + "if let Err(error) = state.realtime.publish_resource_model(event, &entry.resource, &entry.record_id, entry, entry.actor_id, entry.tenant_id,) { "@
        + "tracing::warn!(%error, \"activity realtime event was not published\"); } } "@
        + download
}

fn activity_helpers(download: &str) -> (text: String)
    ensures
        text@ == activity_helpers_text(download@),
{
    proof {
        reveal(activity_helpers_text);
    }
    let mut text = String::from_str("fn sanitize_text(value: &str, maximum: u32, field: &str) -> Result<String, ApiError> { ");
    text.append("let value = value.chars().filter(|character| !character.is_control() || matches!(character, '\\n' | '\\t')).collect::<String>(); ");
    text.append("let value = value.trim().to_owned(); ");
    text.append("if value.is_empty() || value.len() > usize::try_from(maximum).unwrap_or(usize::MAX) { ");
    text.append("return Err(ApiError::InvalidActivityInput(format!(\"{field} ");
    text.append("must contain between 1 and {maximum} bytes\",))); } Ok(value) } ");
    text.append("fn encode_activity_cursor(entry: &ActivityEntry) -> String { ");
    text.append("appstruct_runtime::encode_cursor(&format!(\"{}|{}\", entry.occurred_at.to_rfc3339_opts(chrono::SecondsFormat::Nanos, true), entry.id,)) } ");
    text.append("fn decode_activity_cursor(cursor: &str,) -> Result<(chrono::DateTime<chrono::Utc>, uuid::Uuid), ApiError> { ");
    text.append("let raw = appstruct_runtime::decode_cursor(cursor).ok_or_else(|| ApiError::InvalidQuery(\"invalid activity cursor\".to_owned()))?; ");
    text.append("let (occurred_at, id) = raw.split_once('|').ok_or_else(|| ApiError::InvalidQuery(\"invalid activity cursor\".to_owned()))?; ");
    text.append("let occurred_at = chrono::DateTime::parse_from_rfc3339(occurred_at).map_err(|_| ApiError::InvalidQuery(\"invalid activity cursor\".to_owned()))?.with_timezone(&chrono::Utc); ");
    text.append("let id = uuid::Uuid::parse_str(id).map_err(|_| ApiError::InvalidQuery(\"invalid activity cursor\".to_owned()))?; ");
    text.append("Ok((occurred_at, id)) } ");
    text.append("fn publish_activity(state: &AppState, entry: &ActivityEntry, event: &str) { ");
    text.append("if let Err(error) = state.realtime.publish_resource_model(event, &entry.resource, &entry.record_id, entry, entry.actor_id, entry.tenant_id,) { ");
    text.append("tracing::warn!(%error, \"activity realtime event was not published\"); } } ");
    text.append(download);
    text
}

/// A comment without attachment.
#[verifier::opaque]
pub open spec fn no_attachment_text() -> Seq<char> {
    "let attachment_file_id: Option<uuid::Uuid> = None; "@
        + "let attachment_name: Option<String> = None; "@
        + "let attachment_content_type: Option<String> = None;"@
}

fn no_attachment() -> (text: String)
    ensures
        text@ == no_attachment_text(),
{
    proof {
        reveal(no_attachment_text);
    }
    let mut text = String::from_str("let attachment_file_id: Option<uuid::Uuid> = None; ");
    text.append("let attachment_name: Option<String> = None; ");
    text.append("let attachment_content_type: Option<String> = None;");
    text
}

/// The imports of attachments.
#[verifier::opaque]
pub open spec fn attachment_imports_text() -> Seq<char> {
    "use axum::{ body::Body, http::{HeaderValue, header}, response::Response, }; "@
        + "use base64::Engine as _;"@
}

fn attachment_imports() -> (text: String)
    ensures
        text@ == attachment_imports_text(),
{
    proof {
        reveal(attachment_imports_text);
    }
    let mut text = String::from_str("use axum::{ body::Body, http::{HeaderValue, header}, response::Response, }; ");
    text.append("use base64::Engine as _;");
    text
}

/// The route of attachment downloads.
#[verifier::opaque]
pub open spec fn attachment_route_text() -> Seq<char> {
    ".route(\"/api/activity/{resource}/{record_id}/{entry_id}/attachment\", get(download_attachment),)"@
}

fn attachment_route() -> (text: String)
    ensures
        text@ == attachment_route_text(),
{
    proof {
        reveal(attachment_route_text);
    }
    let mut text = String::from_str(".route(\"/api/activity/{resource}/{record_id}/{entry_id}/attachment\", get(download_attachment),)");
    text
}

/// The attachment input type.
#[verifier::opaque]
pub open spec fn attachment_contract_text() -> Seq<char> {
    "#[derive(Debug, Deserialize)] struct ActivityAttachmentInput { "@
        + "name: String, content_type: String, content_base64: String, }"@
}

fn attachment_contract() -> (text: String)
    ensures
        text@ == attachment_contract_text(),
{
    proof {
        reveal(attachment_contract_text);
    }
    let mut text = String::from_str("#[derive(Debug, Deserialize)] struct ActivityAttachmentInput { ");
    text.append("name: String, content_type: String, content_base64: String, }");
    text
}

/// The attachment field of a comment input.
#[verifier::opaque]
pub open spec fn attachment_input_text() -> Seq<char> {
    "attachment: Option<ActivityAttachmentInput>,"@
}

fn attachment_input() -> (text: String)
    ensures
        text@ == attachment_input_text(),
{
    proof {
        reveal(attachment_input_text);
    }
    let mut text = String::from_str("attachment: Option<ActivityAttachmentInput>,");
    text
}

/// The storing of a comment's attachment, refused above the encoded size limit.
#[verifier::opaque]
pub open spec fn attachment_create_text(max_encoded: Seq<char>) -> Seq<char> {
    "let (attachment_file_id, attachment_name, attachment_content_type) = if let Some(attachment) = input.attachment { "@
        + "if u64::try_from(attachment.content_base64.len()).unwrap_or(u64::MAX) > "@
        + max_encoded
        + " { "@
        + "return Err(ApiError::InvalidActivityInput(\"attachment exceeds the configured file size limit\".to_owned(),)); "@
        + "} "@
        + "let content = base64::engine::general_purpose::STANDARD.decode(attachment.content_base64).map_err(|_| ApiError::InvalidActivityInput(\"attachment content_base64 is invalid\".to_owned(),))?; "@
        + "let tenant_scope = tenant_id.map_or_else(|| \"global\".to_owned(), |id| id.to_string()); "@
        + "let object_key = format!(\"activity/{tenant_scope}/{id}\"); "@
        + "let metadata = state.file.put_with_connection(&transaction, &object_key, &attachment.name, &attachment.content_type, &content, tenant_id,).await.map_err(|error| { "@
        + "tracing::warn!(%error, \"activity attachment was rejected\"); "@
        + "ApiError::InvalidActivityInput(\"attachment is invalid\".to_owned()) })?; "@
        + "(Some(metadata.id), Some(attachment.name), Some(attachment.content_type)) } else { "@
        + "(None, None, None) };"@
}

fn attachment_create(max_encoded: &str) -> (text: String)
    ensures
        text@ == attachment_create_text(max_encoded@),
{
    proof {
        reveal(attachment_create_text);
    }
    let mut text = String::from_str("let (attachment_file_id, attachment_name, attachment_content_type) = if let Some(attachment) = input.attachment { ");
    text.append("if u64::try_from(attachment.content_base64.len()).unwrap_or(u64::MAX) > ");
    text.append(max_encoded);
    text.append(" { ");
    text.append("return Err(ApiError::InvalidActivityInput(\"attachment exceeds the configured file size limit\".to_owned(),)); ");
    text.append("} ");
    text.append("let content = base64::engine::general_purpose::STANDARD.decode(attachment.content_base64).map_err(|_| ApiError::InvalidActivityInput(\"attachment content_base64 is invalid\".to_owned(),))?; ");
    text.append("let tenant_scope = tenant_id.map_or_else(|| \"global\".to_owned(), |id| id.to_string()); ");
    text.append("let object_key = format!(\"activity/{tenant_scope}/{id}\"); ");
    text.append("let metadata = state.file.put_with_connection(&transaction, &object_key, &attachment.name, &attachment.content_type, &content, tenant_id,).await.map_err(|error| { ");
    text.append("tracing::warn!(%error, \"activity attachment was rejected\"); ");
    text.append("ApiError::InvalidActivityInput(\"attachment is invalid\".to_owned()) })?; ");
    text.append("(Some(metadata.id), Some(attachment.name), Some(attachment.content_type)) } else { ");
    text.append("(None, None, None) };");
    text
}

/// The attachment key kept across a withdrawal.
#[verifier::opaque]
pub open spec fn attachment_remember_text() -> Seq<char> {
    "let withdrawn_attachment_object_key = before.attachment_object_key.clone();"@
}

fn attachment_remember() -> (text: String)
    ensures
        text@ == attachment_remember_text(),
{
    proof {
        reveal(attachment_remember_text);
    }
    let mut text = String::from_str("let withdrawn_attachment_object_key = before.attachment_object_key.clone();");
    text
}

/// The removal of a withdrawn attachment.
#[verifier::opaque]
pub open spec fn attachment_cleanup_text() -> Seq<char> {
    "if let Some(object_key) = withdrawn_attachment_object_key.as_deref() { "@
        + "if let Err(error) = state.file.delete(object_key, tenant_id).await { "@
        + "tracing::error!(%error, entry_id = %after.id, \"activity attachment cleanup failed\"); } }"@
}

fn attachment_cleanup() -> (text: String)
    ensures
        text@ == attachment_cleanup_text(),
{
    proof {
        reveal(attachment_cleanup_text);
    }
    let mut text = String::from_str("if let Some(object_key) = withdrawn_attachment_object_key.as_deref() { ");
    text.append("if let Err(error) = state.file.delete(object_key, tenant_id).await { ");
    text.append("tracing::error!(%error, entry_id = %after.id, \"activity attachment cleanup failed\"); } }");
    text
}

/// The attachment download endpoint.
#[verifier::opaque]
pub open spec fn attachment_download_text() -> Seq<char> {
    "async fn download_attachment(State(state): State<AppState>, headers: HeaderMap, Path((resource, record_id, entry_id)): Path<(String, String, String)>,) -> Result<Response, ApiError> { "@
        + "let context = state.context(&headers).await?; "@
        + "authorize_target(&state, &context, &resource, &record_id).await?; "@
        + "let entry_id = uuid::Uuid::parse_str(&entry_id).map_err(|_| ApiError::InvalidId)?; "@
        + "let entry = load_entry(&state.database, entry_id, context.tenant(), &resource, &record_id, false,).await?; "@
        + "if entry.withdrawn_at.is_some() { return Err(ApiError::NotFound); } "@
        + "let object_key = entry.attachment_object_key.as_deref().ok_or(ApiError::NotFound)?; "@
        + "let (_, content) = state.file.get(object_key, context.tenant()).await.map_err(|_| ApiError::NotFound)?; "@
        + "let content_type = entry.attachment_content_type.as_deref().and_then(|value| HeaderValue::from_str(value).ok()).unwrap_or_else(|| HeaderValue::from_static(\"application/octet-stream\")); "@
        + "let filename = entry.attachment_name.as_deref().unwrap_or(\"attachment\"); "@
        + "let disposition = HeaderValue::from_str(&format!(\"attachment; "@
        + "filename=\\\"{}\\\"\", filename.replace(['\\r', '\\n', '\\\"'], \"_\"))).map_err(|_| ApiError::Internal)?; "@
        + "let mut response = Response::new(Body::from(content)); "@
        + "response.headers_mut().insert(header::CONTENT_TYPE, content_type); "@
        + "response.headers_mut().insert(header::CONTENT_DISPOSITION, disposition); Ok(response) }"@
}

fn attachment_download() -> (text: String)
    ensures
        text@ == attachment_download_text(),
{
    proof {
        reveal(attachment_download_text);
    }
    let mut text = String::from_str("async fn download_attachment(State(state): State<AppState>, headers: HeaderMap, Path((resource, record_id, entry_id)): Path<(String, String, String)>,) -> Result<Response, ApiError> { ");
    text.append("let context = state.context(&headers).await?; ");
    text.append("authorize_target(&state, &context, &resource, &record_id).await?; ");
    text.append("let entry_id = uuid::Uuid::parse_str(&entry_id).map_err(|_| ApiError::InvalidId)?; ");
    text.append("let entry = load_entry(&state.database, entry_id, context.tenant(), &resource, &record_id, false,).await?; ");
    text.append("if entry.withdrawn_at.is_some() { return Err(ApiError::NotFound); } ");
    text.append("let object_key = entry.attachment_object_key.as_deref().ok_or(ApiError::NotFound)?; ");
    text.append("let (_, content) = state.file.get(object_key, context.tenant()).await.map_err(|_| ApiError::NotFound)?; ");
    text.append("let content_type = entry.attachment_content_type.as_deref().and_then(|value| HeaderValue::from_str(value).ok()).unwrap_or_else(|| HeaderValue::from_static(\"application/octet-stream\")); ");
    text.append("let filename = entry.attachment_name.as_deref().unwrap_or(\"attachment\"); ");
    text.append("let disposition = HeaderValue::from_str(&format!(\"attachment; ");
    text.append("filename=\\\"{}\\\"\", filename.replace(['\\r', '\\n', '\\\"'], \"_\"))).map_err(|_| ApiError::Internal)?; ");
    text.append("let mut response = Response::new(Body::from(content)); ");
    text.append("response.headers_mut().insert(header::CONTENT_TYPE, content_type); ");
    text.append("response.headers_mut().insert(header::CONTENT_DISPOSITION, disposition); Ok(response) }");
    text
}

/// The activity module where activity is off: a router without routes.
#[verifier::opaque]
pub open spec fn disabled_activity_text() -> Seq<char> {
    "use crate::AppState; use axum::Router; pub fn router() -> Router<AppState> { "@
        + "Router::new() }"@
}

fn disabled_activity() -> (text: String)
    ensures
        text@ == disabled_activity_text(),
{
    proof {
        reveal(disabled_activity_text);
    }
    let mut text = String::from_str("use crate::AppState; use axum::Router; pub fn router() -> Router<AppState> { ");
    text.append("Router::new() }");
    text
}

/// The size above which an attachment's base64 text is refused: four thirds
/// of the file size limit, plus eight, each step saturating at `u64::MAX`.
pub open spec fn encoded_limit(max_bytes: u64) -> int {
    let quadruple: int = if max_bytes * 4 > u64::MAX { u64::MAX as int } else { max_bytes * 4 };
    let third: int = quadruple / 3;
    if third + 8 > u64::MAX {
        u64::MAX as int
    } else {
        third + 8
    }
}

fn encoded_limit_of(max_bytes: u64) -> (limit: u64)
    ensures
        limit == encoded_limit(max_bytes),
{
    assert(max_bytes > u64::MAX / 4 <==> max_bytes * 4 > u64::MAX) by (nonlinear_arith);
    let quadruple: u64 = if max_bytes > u64::MAX / 4 {
        u64::MAX
    } else {
        max_bytes * 4
    };
    let third: u64 = quadruple / 3;
    third.saturating_add(8)
}

/// The parts that attachments add to the activity module: imports, route,
/// input type, input field, storing, the key kept across a withdrawal, the
/// cleanup after it, and the download endpoint.
pub struct AttachmentSupport {
    pub imports: String,
    pub route: String,
    pub contract: String,
    pub input: String,
    pub create: String,
    pub remember: String,
    pub cleanup: String,
    pub download: String,
}

/// The views of the attachment parts.
pub open spec fn attachment_view(support: AttachmentSupport) -> (Seq<char>, Seq<char>, Seq<char>, Seq<char>, Seq<char>, Seq<char>, Seq<char>, Seq<char>) {
    (
        support.imports@,
        support.route@,
        support.contract@,
        support.input@,
        support.create@,
        support.remember@,
        support.cleanup@,
        support.download@,
    )
}

/// The attachment parts: all of them where attachments are on, with the
/// encoded size limit as a `u64` literal; otherwise only a comment without
/// attachment.
pub open spec fn attachment_spec(ir: AppIr) -> (Seq<char>, Seq<char>, Seq<char>, Seq<char>, Seq<char>, Seq<char>, Seq<char>, Seq<char>) {
    if ir.activity.attachments {
        (
            attachment_imports_text(),
            attachment_route_text(),
            attachment_contract_text(),
            attachment_input_text(),
            attachment_create_text(decimal_text(encoded_limit(ir.file.max_bytes) as nat) + "u64"@),
            attachment_remember_text(),
            attachment_cleanup_text(),
            attachment_download_text(),
        )
    } else {
        let empty = Seq::<char>::empty();
        (empty, empty, empty, empty, no_attachment_text(), empty, empty, empty)
    }
}

fn suffixed_number(value: u64, suffix: &str) -> (text: String)
    ensures
        text@ == decimal_text(value as nat) + suffix@,
{
    let mut text = decimal(value);
    text.append(suffix);
    text
}

/// The attachment parts of the activity module.
pub fn attachment_support(ir: &AppIr) -> (support: AttachmentSupport)
    ensures
        attachment_view(support) == attachment_spec(*ir),
{
    if !ir.activity.attachments {
        return AttachmentSupport {
            imports: String::new(),
            route: String::new(),
            contract: String::new(),
            input: String::new(),
            create: no_attachment(),
            remember: String::new(),
            cleanup: String::new(),
            download: String::new(),
        };
    }
    let limit = suffixed_number(encoded_limit_of(ir.file.max_bytes), "u64");
    AttachmentSupport {
        imports: attachment_imports(),
        route: attachment_route(),
        contract: attachment_contract(),
        input: attachment_input(),
        create: attachment_create(limit.as_str()),
        remember: attachment_remember(),
        cleanup: attachment_cleanup(),
        download: attachment_download(),
    }
}

/// The columns an activity query reads, joined to the file table where
/// attachments are on.
pub open spec fn entry_select_text(attachments: bool) -> Seq<char> {
    if attachments {
        "SELECT e.id, e.resource, e.record_id, e.tenant_id, e.actor_id, e.kind::text AS kind, e.body, e.event, e.payload, e.attachment_file_id, e.attachment_name, e.attachment_content_type, e.withdrawn_at, e.withdrawn_by, e.governance_reason, e.occurred_at, f.object_key AS attachment_object_key FROM \"_appstruct_activity_entries\" e LEFT JOIN \"_appstruct_files\" f ON f.id = e.attachment_file_id "@
    } else {
        "SELECT e.id, e.resource, e.record_id, e.tenant_id, e.actor_id, e.kind::text AS kind, e.body, e.event, e.payload, e.attachment_file_id, e.attachment_name, e.attachment_content_type, e.withdrawn_at, e.withdrawn_by, e.governance_reason, e.occurred_at, NULL::text AS attachment_object_key FROM \"_appstruct_activity_entries\" e "@
    }
}

fn entry_select(attachments: bool) -> (text: &'static str)
    ensures
        text@ == entry_select_text(attachments),
{
    if attachments {
        proof {
            reveal_strlit("SELECT e.id, e.resource, e.record_id, e.tenant_id, e.actor_id, e.kind::text AS kind, e.body, e.event, e.payload, e.attachment_file_id, e.attachment_name, e.attachment_content_type, e.withdrawn_at, e.withdrawn_by, e.governance_reason, e.occurred_at, f.object_key AS attachment_object_key FROM \"_appstruct_activity_entries\" e LEFT JOIN \"_appstruct_files\" f ON f.id = e.attachment_file_id ");
        }
        "SELECT e.id, e.resource, e.record_id, e.tenant_id, e.actor_id, e.kind::text AS kind, e.body, e.event, e.payload, e.attachment_file_id, e.attachment_name, e.attachment_content_type, e.withdrawn_at, e.withdrawn_by, e.governance_reason, e.occurred_at, f.object_key AS attachment_object_key FROM \"_appstruct_activity_entries\" e LEFT JOIN \"_appstruct_files\" f ON f.id = e.attachment_file_id "
    } else {
        proof {
            reveal_strlit("SELECT e.id, e.resource, e.record_id, e.tenant_id, e.actor_id, e.kind::text AS kind, e.body, e.event, e.payload, e.attachment_file_id, e.attachment_name, e.attachment_content_type, e.withdrawn_at, e.withdrawn_by, e.governance_reason, e.occurred_at, NULL::text AS attachment_object_key FROM \"_appstruct_activity_entries\" e ");
        }
        "SELECT e.id, e.resource, e.record_id, e.tenant_id, e.actor_id, e.kind::text AS kind, e.body, e.event, e.payload, e.attachment_file_id, e.attachment_name, e.attachment_content_type, e.withdrawn_at, e.withdrawn_by, e.governance_reason, e.occurred_at, NULL::text AS attachment_object_key FROM \"_appstruct_activity_entries\" e "
    }
}

/// The check that an actor holds one of the roles: `false`, then one
/// `|| actor.has_role(..)` per role.
pub open spec fn any_role_text(roles: Seq<String>) -> Seq<char> {
    "false"@ + suffixed_text(roles.map_values(|role: String| " || actor.has_role("@ + literal_text(role@) + ")"@), ""@)
}

pub(crate) fn any_role(roles: &Vec<String>) -> (text: String)
    ensures
        text@ == any_role_text(roles@),
{
    let mut checks: Vec<String> = Vec::new();
    let mut i: usize = 0;
    while i < roles.len()
        invariant
            i <= roles.len(),
            texts(checks@) == roles@.subrange(0, i as int).map_values(|role: String| " || actor.has_role("@ + literal_text(role@) + ")"@),
        decreases roles.len() - i,
    {
        let mut check = String::from_str(" || actor.has_role(");
        let literal = string_literal(roles[i].as_str());
        check.append(literal.as_str());
        check.append(")");
        let ghost before = texts(checks@);
        checks.push(check);
        proof {
            assert(texts(checks@) == before.push(check@));
            assert(roles@.subrange(0, i + 1) == roles@.subrange(0, i as int).push(roles@[i as int]));
        }
        i = i + 1;
    }
    proof {
        assert(roles@.subrange(0, roles@.len() as int) == roles@);
        reveal_strlit("");
    }
    let mut text = String::from_str("false");
    append_suffixed(&mut text, &checks, "");
    text
}

/// The resource names with a feed, as string literals.
pub open spec fn known_resources_text(resources: Seq<ActivityResource>) -> Seq<char> {
    join_text(resources.map_values(|resource: ActivityResource| literal_text(resource.resource@)), " | "@)
}

fn known_resources(resources: &Vec<ActivityResource>) -> (text: String)
    ensures
        text@ == known_resources_text(resources@),
{
    let mut literals: Vec<String> = Vec::new();
    let mut i: usize = 0;
    while i < resources.len()
        invariant
            i <= resources.len(),
            texts(literals@) == resources@.subrange(0, i as int).map_values(
                |resource: ActivityResource| literal_text(resource.resource@),
            ),
        decreases resources.len() - i,
    {
        let literal = string_literal(resources[i].resource.as_str());
        let ghost before = texts(literals@);
        literals.push(literal);
        proof {
            assert(texts(literals@) == before.push(literal@));
            assert(resources@.subrange(0, i + 1) == resources@.subrange(0, i as int).push(resources@[i as int]));
        }
        i = i + 1;
    }
    proof {
        assert(resources@.subrange(0, resources@.len() as int) == resources@);
    }
    let mut text = String::new();
    append_joined(&mut text, &literals, " | ");
    text
}

/// Every resource with a feed names an entity of the application.
pub open spec fn activity_entities_exist(ir: AppIr) -> bool {
    forall|i: int| 0 <= i < ir.activity.resources@.len()
        ==> find_entity_spec(ir.entities@, (#[trigger] ir.activity.resources@[i]).entity@) is Some
}

/// The target arms of the resources, in order, or the first entity whose
/// module name is no identifier.
pub open spec fn target_arms_spec(ir: AppIr, resources: Seq<ActivityResource>) -> Result<Seq<Seq<char>>, Seq<char>>
    decreases resources.len(),
{
    if resources.len() == 0 {
        Ok(Seq::<Seq<char>>::empty())
    } else {
        match target_arms_spec(ir, resources.drop_last()) {
            Err(error) => Err(error),
            Ok(arms) => {
                let entity = find_entity_spec(ir.entities@, resources.last().entity@)->Some_0;
                match ident_result(snake_text(entity.rust_name@)) {
                    Err(error) => Err(error),
                    Ok(module) => Ok(arms.push(activity_target_arm_text(literal_text(resources.last().resource@), module))),
                }
            },
        }
    }
}

proof fn lemma_target_arms_error(ir: AppIr, resources: Seq<ActivityResource>, k: int)
    requires
        0 <= k <= resources.len(),
        target_arms_spec(ir, resources.subrange(0, k)) is Err,
    ensures
        target_arms_spec(ir, resources) == target_arms_spec(ir, resources.subrange(0, k)),
    decreases resources.len() - k,
{
    if k < resources.len() {
        assert(resources.subrange(0, k + 1).drop_last() == resources.subrange(0, k));
        lemma_target_arms_error(ir, resources, k + 1);
    } else {
        assert(resources.subrange(0, k) == resources);
    }
}

fn target_arms(ir: &AppIr) -> (result: Result<Vec<String>, CodegenError>)
    requires
        activity_entities_exist(*ir),
    ensures
        match result {
            Ok(arms) => target_arms_spec(*ir, ir.activity.resources@) == Ok::<Seq<Seq<char>>, Seq<char>>(texts(arms@)),
            Err(error) => target_arms_spec(*ir, ir.activity.resources@) == Err::<Seq<Seq<char>>, Seq<char>>(error@),
        },
{
    let resources = &ir.activity.resources;
    let mut arms: Vec<String> = Vec::new();
    let mut i: usize = 0;
    proof {
        assert(resources@.subrange(0, 0) == Seq::<ActivityResource>::empty());
        assert(texts(arms@) == Seq::<Seq<char>>::empty());
    }
    while i < resources.len()
        invariant
            i <= resources.len(),
            resources == &ir.activity.resources,
            activity_entities_exist(*ir),
            target_arms_spec(*ir, resources@.subrange(0, i as int)) == Ok::<Seq<Seq<char>>, Seq<char>>(texts(arms@)),
        decreases resources.len() - i,
    {
        proof {
            assert(resources@.subrange(0, i + 1).drop_last() == resources@.subrange(0, i as int));
            assert(resources@.subrange(0, i + 1).last() == resources@[i as int]);
        }
        let entity = match find_entity(ir, resources[i].entity.as_str()) {
            Ok(entity) => entity,
            Err(error) => {
                return Err(error);
            },
        };
        let name = module_name(entity);
        let module = match parse_ident(name.as_str()) {
            Ok(module) => module,
            Err(error) => {
                proof {
                    lemma_target_arms_error(*ir, resources@, i + 1);
                }
                return Err(error);
            },
        };
        let key = string_literal(resources[i].resource.as_str());
        let arm = activity_target_arm(key.as_str(), module.as_str());
        let ghost before = texts(arms@);
        arms.push(arm);
        proof {
            assert(texts(arms@) == before.push(arm@));
        }
        i = i + 1;
    }
    proof {
        assert(resources@.subrange(0, resources@.len() as int) == resources@);
    }
    Ok(arms)
}

/// The activity module where activity is on, with its header, or the first
/// entity with a feed whose module name is no identifier.
pub open spec fn enabled_activity_spec(ir: AppIr, header: Seq<char>) -> Result<Seq<char>, Seq<char>> {
    match target_arms_spec(ir, ir.activity.resources@) {
        Err(error) => Err(error),
        Ok(arms) => {
            let parts = attachment_spec(ir);
            let select = literal_text(entry_select_text(ir.activity.attachments));
            render_spec(
                activity_types_text(parts.0, parts.3, parts.2)
                    + activity_router_text(parts.1)
                    + activity_list_text(select)
                    + activity_comment_text(decimal_text(ir.activity.max_comment_bytes as nat) + "u32"@, parts.4)
                    + activity_withdraw_text(parts.5, parts.6)
                    + activity_moderate_text(any_role_text(ir.activity.admin_roles@), parts.5, parts.6)
                    + activity_targets_text(arms, known_resources_text(ir.activity.resources@))
                    + activity_entries_text(select)
                    + activity_rows_text()
                    + activity_helpers_text(parts.7),
                header,
            )
        },
    }
}

/// The activity module where activity is on, with its header.
pub fn enabled_activity_source(ir: &AppIr, header: &str) -> (result: Result<String, CodegenError>)
    requires
        activity_entities_exist(*ir),
    ensures
        match result {
            Ok(text) => enabled_activity_spec(*ir, header@) == Ok::<Seq<char>, Seq<char>>(text@),
            Err(error) => enabled_activity_spec(*ir, header@) == Err::<Seq<char>, Seq<char>>(error@),
        },
{
    let allowed = any_role(&ir.activity.admin_roles);
    let arms = target_arms(ir)?;
    let known = known_resources(&ir.activity.resources);
    let select = string_literal(entry_select(ir.activity.attachments));
    let parts = attachment_support(ir);
    let max_comment = suffixed_number(ir.activity.max_comment_bytes as u64, "u32");
    let mut text = activity_types(parts.imports.as_str(), parts.input.as_str(), parts.contract.as_str());
    text.append(activity_router(parts.route.as_str()).as_str());
    text.append(activity_list(select.as_str()).as_str());
    text.append(activity_comment(max_comment.as_str(), parts.create.as_str()).as_str());
    text.append(activity_withdraw(parts.remember.as_str(), parts.cleanup.as_str()).as_str());
    text.append(activity_moderate(allowed.as_str(), parts.remember.as_str(), parts.cleanup.as_str()).as_str());
    text.append(activity_targets(&arms, known.as_str()).as_str());
    text.append(activity_entries(select.as_str()).as_str());
    text.append(activity_rows().as_str());
    text.append(activity_helpers(parts.download.as_str()).as_str());
    render(text.as_str(), header)
}

pub open spec fn activity_path() -> Seq<char> {
    "backend/src/activity.rs"@
}

/// The activity module's source: enabled where activity is on, disabled otherwise.
pub open spec fn activity_plan_spec(ir: AppIr, header: Seq<char>) -> Result<Seq<char>, Seq<char>> {
    if ir.activity.enabled {
        enabled_activity_spec(ir, header)
    } else {
        render_spec(disabled_activity_text(), header)
    }
}

/// The activity module's file; `header` opens it.
pub fn activity_plan(ir: &AppIr, header: &str) -> (result: Result<Vec<Artifact>, CodegenError>)
    requires
        activity_entities_exist(*ir),
    ensures
        match result {
            Ok(artifacts) => activity_plan_spec(*ir, header@) matches Ok(source) && rust_file(artifacts@, activity_path(), source),
            Err(error) => activity_plan_spec(*ir, header@) == Err::<Seq<char>, Seq<char>>(error@),
        },
{
    let source = if ir.activity.enabled {
        enabled_activity_source(ir, header)?
    } else {
        let text = disabled_activity();
        render(text.as_str(), header)?
    };
    proof {
        reveal_strlit("backend/src/activity.rs");
    }
    Ok(single_file("backend/src/activity.rs", source))
}

} // verus!
