use vstd::prelude::*;
use vstd::string::StringExecFns;
use crate::artifact::{Artifact, CodegenError};
use crate::field_access::{literal_text, string_literal};
use crate::ir::{AppIr, Entity};
use crate::source::{render, render_spec, rust_file, single_file};

verus! {

/// The audit record of a workflow transition, with its metadata.
#[verifier::opaque]
pub open spec fn workflow_record_text() -> Seq<char> {
    "pub async fn record_with_metadata<C, T>(database: &C, context: &RequestContext<'_>, entity: &str, record_id: String, operation: &str, before: Option<&T>, after: Option<&T>, metadata: &serde_json::Value,) -> Result<(), ApiError> where C: ConnectionTrait, T: Serialize, { "@
        + "let before = before.map(serde_json::to_value).transpose().map_err(|_| ApiError::Internal)?; "@
        + "let after = after.map(serde_json::to_value).transpose().map_err(|_| ApiError::Internal)?; "@
        + "insert(database, context, entity, record_id, operation, before, after, Some(metadata.clone()),).await }"@
}

fn workflow_record() -> (text: String)
    ensures
        text@ == workflow_record_text(),
{
    proof {
        reveal(workflow_record_text);
    }
    let mut text = String::from_str("pub async fn record_with_metadata<C, T>(database: &C, context: &RequestContext<'_>, entity: &str, record_id: String, operation: &str, before: Option<&T>, after: Option<&T>, metadata: &serde_json::Value,) -> Result<(), ApiError> where C: ConnectionTrait, T: Serialize, { ");
    text.append("let before = before.map(serde_json::to_value).transpose().map_err(|_| ApiError::Internal)?; ");
    text.append("let after = after.map(serde_json::to_value).transpose().map_err(|_| ApiError::Internal)?; ");
    text.append("insert(database, context, entity, record_id, operation, before, after, Some(metadata.clone()),).await }");
    text
}

/// Recording audit events.
#[verifier::opaque]
pub open spec fn record_block_text(workflow_record: Seq<char>) -> Seq<char> {
    "pub async fn record<C, T>(database: &C, context: &RequestContext<'_>, entity: &str, record_id: String, operation: &str, before: Option<&T>, after: Option<&T>,) -> Result<(), ApiError> where C: ConnectionTrait, T: Serialize, { "@
        + "let before = before.map(serde_json::to_value).transpose().map_err(|_| ApiError::Internal)?; "@
        + "let after = after.map(serde_json::to_value).transpose().map_err(|_| ApiError::Internal)?; "@
        + "insert(database, context, entity, record_id, operation, before, after, None).await } "@
        + workflow_record
        + " async fn insert<C: ConnectionTrait>(database: &C, context: &RequestContext<'_>, entity: &str, record_id: String, operation: &str, before: Option<serde_json::Value>, after: Option<serde_json::Value>, metadata: Option<serde_json::Value>,) -> Result<(), ApiError> { "@
        + "let actor_id = context.actor().map(|actor| actor.id); "@
        + "database.execute_raw(Statement::from_sql_and_values(DbBackend::Postgres, \"INSERT INTO \\\"_appstruct_audit_events\\\" (id, entity, record_id, operation, actor_id, tenant_id, before, after, metadata, occurred_at) VALUES ($1, $2, $3, $4, $5, $6, $7, $8, $9, CURRENT_TIMESTAMP)\", [ uuid::Uuid::now_v7().into(), entity.to_owned().into(), record_id.into(), operation.to_owned().into(), actor_id.into(), context.tenant().into(), before.into(), after.into(), metadata.into(), ],)).await?; "@
        + "Ok(()) }"@
}

fn record_block(workflow_record: &str) -> (text: String)
    ensures
        text@ == record_block_text(workflow_record@),
{
    proof {
        reveal(record_block_text);
    }
    let mut text = String::from_str("pub async fn record<C, T>(database: &C, context: &RequestContext<'_>, entity: &str, record_id: String, operation: &str, before: Option<&T>, after: Option<&T>,) -> Result<(), ApiError> where C: ConnectionTrait, T: Serialize, { ");
    text.append("let before = before.map(serde_json::to_value).transpose().map_err(|_| ApiError::Internal)?; ");
    text.append("let after = after.map(serde_json::to_value).transpose().map_err(|_| ApiError::Internal)?; ");
    text.append("insert(database, context, entity, record_id, operation, before, after, None).await } ");
    text.append(workflow_record);
    text.append(" async fn insert<C: ConnectionTrait>(database: &C, context: &RequestContext<'_>, entity: &str, record_id: String, operation: &str, before: Option<serde_json::Value>, after: Option<serde_json::Value>, metadata: Option<serde_json::Value>,) -> Result<(), ApiError> { ");
    text.append("let actor_id = context.actor().map(|actor| actor.id); ");
    text.append("database.execute_raw(Statement::from_sql_and_values(DbBackend::Postgres, \"INSERT INTO \\\"_appstruct_audit_events\\\" (id, entity, record_id, operation, actor_id, tenant_id, before, after, metadata, occurred_at) VALUES ($1, $2, $3, $4, $5, $6, $7, $8, $9, CURRENT_TIMESTAMP)\", [ uuid::Uuid::now_v7().into(), entity.to_owned().into(), record_id.into(), operation.to_owned().into(), actor_id.into(), context.tenant().into(), before.into(), after.into(), metadata.into(), ],)).await?; ");
    text.append("Ok(()) }");
    text
}

/// Loading one page of the tenant's audit events.
#[verifier::opaque]
pub open spec fn tenant_load_text() -> Seq<char> {
    "let tenant = context.require_tenant()?; "@
        + "let count = state.database.query_one_raw(Statement::from_sql_and_values(DbBackend::Postgres, \"SELECT COUNT(*) AS total FROM \\\"_appstruct_audit_events\\\" WHERE tenant_id = $1 AND ($2::text IS NULL OR entity = $2) AND ($3::text IS NULL OR record_id = $3)\", [tenant.into(), query.entity.clone().into(), query.record_id.clone().into()],)).await?.ok_or(ApiError::Internal)?; "@
        + "let total: i64 = count.try_get(\"\", \"total\")?; "@
        + "let rows = state.database.query_all_raw(Statement::from_sql_and_values(DbBackend::Postgres, \"SELECT id, entity, record_id, operation, actor_id, tenant_id, before, after, metadata, occurred_at FROM \\\"_appstruct_audit_events\\\" WHERE tenant_id = $1 AND ($2::text IS NULL OR entity = $2) AND ($3::text IS NULL OR record_id = $3) ORDER BY occurred_at DESC, id DESC LIMIT $4 OFFSET $5\", [tenant.into(), query.entity.clone().into(), query.record_id.clone().into(), i64::try_from(page_size).unwrap_or(100).into(), i64::try_from(offset).unwrap_or(i64::MAX).into()],)).await?;"@
}

fn tenant_load() -> (text: String)
    ensures
        text@ == tenant_load_text(),
{
    proof {
        reveal(tenant_load_text);
    }
    let mut text = String::from_str("let tenant = context.require_tenant()?; ");
    text.append("let count = state.database.query_one_raw(Statement::from_sql_and_values(DbBackend::Postgres, \"SELECT COUNT(*) AS total FROM \\\"_appstruct_audit_events\\\" WHERE tenant_id = $1 AND ($2::text IS NULL OR entity = $2) AND ($3::text IS NULL OR record_id = $3)\", [tenant.into(), query.entity.clone().into(), query.record_id.clone().into()],)).await?.ok_or(ApiError::Internal)?; ");
    text.append("let total: i64 = count.try_get(\"\", \"total\")?; ");
    text.append("let rows = state.database.query_all_raw(Statement::from_sql_and_values(DbBackend::Postgres, \"SELECT id, entity, record_id, operation, actor_id, tenant_id, before, after, metadata, occurred_at FROM \\\"_appstruct_audit_events\\\" WHERE tenant_id = $1 AND ($2::text IS NULL OR entity = $2) AND ($3::text IS NULL OR record_id = $3) ORDER BY occurred_at DESC, id DESC LIMIT $4 OFFSET $5\", [tenant.into(), query.entity.clone().into(), query.record_id.clone().into(), i64::try_from(page_size).unwrap_or(100).into(), i64::try_from(offset).unwrap_or(i64::MAX).into()],)).await?;");
    text
}

/// Loading one page of all audit events.
#[verifier::opaque]
pub open spec fn global_load_text() -> Seq<char> {
    "let count = state.database.query_one_raw(Statement::from_sql_and_values(DbBackend::Postgres, \"SELECT COUNT(*) AS total FROM \\\"_appstruct_audit_events\\\" WHERE ($1::text IS NULL OR entity = $1) AND ($2::text IS NULL OR record_id = $2)\", [query.entity.clone().into(), query.record_id.clone().into()],)).await?.ok_or(ApiError::Internal)?; "@
        + "let total: i64 = count.try_get(\"\", \"total\")?; "@
        + "let rows = state.database.query_all_raw(Statement::from_sql_and_values(DbBackend::Postgres, \"SELECT id, entity, record_id, operation, actor_id, tenant_id, before, after, metadata, occurred_at FROM \\\"_appstruct_audit_events\\\" WHERE ($1::text IS NULL OR entity = $1) AND ($2::text IS NULL OR record_id = $2) ORDER BY occurred_at DESC, id DESC LIMIT $3 OFFSET $4\", [query.entity.clone().into(), query.record_id.clone().into(), i64::try_from(page_size).unwrap_or(100).into(), i64::try_from(offset).unwrap_or(i64::MAX).into()],)).await?;"@
}

fn global_load() -> (text: String)
    ensures
        text@ == global_load_text(),
{
    proof {
        reveal(global_load_text);
    }
    let mut text = String::from_str("let count = state.database.query_one_raw(Statement::from_sql_and_values(DbBackend::Postgres, \"SELECT COUNT(*) AS total FROM \\\"_appstruct_audit_events\\\" WHERE ($1::text IS NULL OR entity = $1) AND ($2::text IS NULL OR record_id = $2)\", [query.entity.clone().into(), query.record_id.clone().into()],)).await?.ok_or(ApiError::Internal)?; ");
    text.append("let total: i64 = count.try_get(\"\", \"total\")?; ");
    text.append("let rows = state.database.query_all_raw(Statement::from_sql_and_values(DbBackend::Postgres, \"SELECT id, entity, record_id, operation, actor_id, tenant_id, before, after, metadata, occurred_at FROM \\\"_appstruct_audit_events\\\" WHERE ($1::text IS NULL OR entity = $1) AND ($2::text IS NULL OR record_id = $2) ORDER BY occurred_at DESC, id DESC LIMIT $3 OFFSET $4\", [query.entity.clone().into(), query.record_id.clone().into(), i64::try_from(page_size).unwrap_or(100).into(), i64::try_from(offset).unwrap_or(i64::MAX).into()],)).await?;");
    text
}

/// The audit module of an application with auditing on: recording, and a
/// paged list of events for the reader roles.
#[verifier::opaque]
pub open spec fn audit_block_text(record: Seq<char>, allowed: Seq<char>, load: Seq<char>) -> Seq<char> {
    "use crate::{ApiError, AppState, RequestContext}; "@
        + "use appstruct_runtime::{MAX_LIST_PAGE, list_page_is_valid}; "@
        + "use axum::{Json, Router, extract::{Query, State}, http::HeaderMap, routing::get}; "@
        + "use sea_orm::{ConnectionTrait, DbBackend, Statement}; "@
        + "use serde::{Deserialize, Serialize}; "@
        + record
        + " pub fn router() -> Router<AppState> { "@
        + "Router::new().route(\"/api/audit/events\", get(list)) } "@
        + "#[derive(Debug, Default, Deserialize)] struct ListQuery { "@
        + "page: Option<u64>, page_size: Option<u64>, entity: Option<String>, record_id: Option<String>, } "@
        + "#[derive(Debug, Serialize)] struct AuditEvent { "@
        + "id: uuid::Uuid, entity: String, record_id: String, operation: String, actor_id: Option<uuid::Uuid>, tenant_id: Option<uuid::Uuid>, before: Option<serde_json::Value>, after: Option<serde_json::Value>, metadata: Option<serde_json::Value>, occurred_at: chrono::DateTime<chrono::Utc>, } "@
        + "#[derive(Debug, Serialize)] struct ListMeta { page: u64, page_size: u64, total: u64 } "@
        + "#[derive(Debug, Serialize)] struct ListResponse { data: Vec<AuditEvent>, meta: ListMeta } "@
        + "async fn list(State(state): State<AppState>, headers: HeaderMap, Query(query): Query<ListQuery>,) -> Result<Json<ListResponse>, ApiError> { "@
        + "let context = state.context(&headers).await?; "@
        + "let actor = context.actor().ok_or(ApiError::Unauthorized)?; if !("@
        + allowed
        + ") { return Err(ApiError::Forbidden); } let page = query.page.unwrap_or(1); "@
        + "let page_size = query.page_size.unwrap_or(50); if !list_page_is_valid(page, page_size) { "@
        + "return Err(ApiError::InvalidQuery(format!(\"`page` must be between 1 and {MAX_LIST_PAGE} "@
        + "and `page_size` must be between 1 and 100\"))); } "@
        + "for (name, value) in [(\"entity\", query.entity.as_deref()), (\"record_id\", query.record_id.as_deref())] { "@
        + "if value.is_some_and(|value| value.is_empty() || value.len() > 255) { "@
        + "return Err(ApiError::InvalidQuery(format!(\"`{name}` must contain between 1 and 255 bytes\"))); "@
        + "} } "@
        + "let offset = (page - 1).checked_mul(page_size).ok_or_else(|| ApiError::InvalidQuery(\"pagination is too large\".to_owned()))?; "@
        + load
        + " let data = rows.into_iter().map(event_from_row).collect::<Result<Vec<_>, sea_orm::DbErr>>()?; "@
        + "Ok(Json(ListResponse { data, meta: ListMeta { "@
        + "page, page_size, total: u64::try_from(total).unwrap_or_default() }, })) } "@
        + "fn event_from_row(row: sea_orm::QueryResult) -> Result<AuditEvent, sea_orm::DbErr> { "@
        + "Ok(AuditEvent { "@
        + "id: row.try_get(\"\", \"id\")?, entity: row.try_get(\"\", \"entity\")?, record_id: row.try_get(\"\", \"record_id\")?, operation: row.try_get(\"\", \"operation\")?, actor_id: row.try_get(\"\", \"actor_id\")?, tenant_id: row.try_get(\"\", \"tenant_id\")?, before: row.try_get(\"\", \"before\")?, after: row.try_get(\"\", \"after\")?, metadata: row.try_get(\"\", \"metadata\")?, occurred_at: row.try_get(\"\", \"occurred_at\")?, }) }"@
}

fn audit_block(record: &str, allowed: &str, load: &str) -> (text: String)
    ensures
        text@ == audit_block_text(record@, allowed@, load@),
{
    proof {
        reveal(audit_block_text);
    }
    let mut text = String::from_str("use crate::{ApiError, AppState, RequestContext}; ");
    text.append("use appstruct_runtime::{MAX_LIST_PAGE, list_page_is_valid}; ");
    text.append("use axum::{Json, Router, extract::{Query, State}, http::HeaderMap, routing::get}; ");
    text.append("use sea_orm::{ConnectionTrait, DbBackend, Statement}; ");
    text.append("use serde::{Deserialize, Serialize}; ");
    text.append(record);
    text.append(" pub fn router() -> Router<AppState> { ");
    text.append("Router::new().route(\"/api/audit/events\", get(list)) } ");
    text.append("#[derive(Debug, Default, Deserialize)] struct ListQuery { ");
    text.append("page: Option<u64>, page_size: Option<u64>, entity: Option<String>, record_id: Option<String>, } ");
    text.append("#[derive(Debug, Serialize)] struct AuditEvent { ");
    text.append("id: uuid::Uuid, entity: String, record_id: String, operation: String, actor_id: Option<uuid::Uuid>, tenant_id: Option<uuid::Uuid>, before: Option<serde_json::Value>, after: Option<serde_json::Value>, metadata: Option<serde_json::Value>, occurred_at: chrono::DateTime<chrono::Utc>, } ");
    text.append("#[derive(Debug, Serialize)] struct ListMeta { page: u64, page_size: u64, total: u64 } ");
    text.append("#[derive(Debug, Serialize)] struct ListResponse { data: Vec<AuditEvent>, meta: ListMeta } ");
    text.append("async fn list(State(state): State<AppState>, headers: HeaderMap, Query(query): Query<ListQuery>,) -> Result<Json<ListResponse>, ApiError> { ");
    text.append("let context = state.context(&headers).await?; ");
    text.append("let actor = context.actor().ok_or(ApiError::Unauthorized)?; if !(");
    text.append(allowed);
    text.append(") { return Err(ApiError::Forbidden); } let page = query.page.unwrap_or(1); ");
    text.append("let page_size = query.page_size.unwrap_or(50); if !list_page_is_valid(page, page_size) { ");
    text.append("return Err(ApiError::InvalidQuery(format!(\"`page` must be between 1 and {MAX_LIST_PAGE} ");
    text.append("and `page_size` must be between 1 and 100\"))); } ");
    text.append("for (name, value) in [(\"entity\", query.entity.as_deref()), (\"record_id\", query.record_id.as_deref())] { ");
    text.append("if value.is_some_and(|value| value.is_empty() || value.len() > 255) { ");
    text.append("return Err(ApiError::InvalidQuery(format!(\"`{name}` must contain between 1 and 255 bytes\"))); ");
    text.append("} } ");
    text.append("let offset = (page - 1).checked_mul(page_size).ok_or_else(|| ApiError::InvalidQuery(\"pagination is too large\".to_owned()))?; ");
    text.append(load);
    text.append(" let data = rows.into_iter().map(event_from_row).collect::<Result<Vec<_>, sea_orm::DbErr>>()?; ");
    text.append("Ok(Json(ListResponse { data, meta: ListMeta { ");
    text.append("page, page_size, total: u64::try_from(total).unwrap_or_default() }, })) } ");
    text.append("fn event_from_row(row: sea_orm::QueryResult) -> Result<AuditEvent, sea_orm::DbErr> { ");
    text.append("Ok(AuditEvent { ");
    text.append("id: row.try_get(\"\", \"id\")?, entity: row.try_get(\"\", \"entity\")?, record_id: row.try_get(\"\", \"record_id\")?, operation: row.try_get(\"\", \"operation\")?, actor_id: row.try_get(\"\", \"actor_id\")?, tenant_id: row.try_get(\"\", \"tenant_id\")?, before: row.try_get(\"\", \"before\")?, after: row.try_get(\"\", \"after\")?, metadata: row.try_get(\"\", \"metadata\")?, occurred_at: row.try_get(\"\", \"occurred_at\")?, }) }");
    text
}

/// The audit module of an application with auditing off: an empty router.
#[verifier::opaque]
pub open spec fn disabled_audit_text() -> Seq<char> {
    "use crate::AppState; use axum::Router; pub fn router() -> Router<AppState> { "@
        + "Router::new() }"@
}

fn disabled_audit() -> (text: String)
    ensures
        text@ == disabled_audit_text(),
{
    proof {
        reveal(disabled_audit_text);
    }
    let mut text = String::from_str("use crate::AppState; use axum::Router; pub fn router() -> Router<AppState> { ");
    text.append("Router::new() }");
    text
}

/// `|| actor.has_role("role")` for every reader role.
pub open spec fn role_checks_text(roles: Seq<String>) -> Seq<char>
    decreases roles.len(),
{
    if roles.len() == 0 {
        Seq::<char>::empty()
    } else {
        role_checks_text(roles.drop_last()) + "|| actor.has_role("@ + literal_text(roles.last()@) + ") "@
    }
}

/// Who may read audit events: an actor with one of the reader roles.
pub open spec fn audit_allowed_text(roles: Seq<String>) -> Seq<char> {
    "false "@ + role_checks_text(roles)
}

fn audit_allowed(roles: &Vec<String>) -> (text: String)
    ensures
        text@ == audit_allowed_text(roles@),
{
    let mut text = String::from_str("false ");
    let mut i: usize = 0;
    proof {
        assert(roles@.subrange(0, 0) == Seq::<String>::empty());
    }
    while i < roles.len()
        invariant
            i <= roles.len(),
            text@ == "false "@ + role_checks_text(roles@.subrange(0, i as int)),
        decreases roles.len() - i,
    {
        proof {
            assert(roles@.subrange(0, i + 1).drop_last() == roles@.subrange(0, i as int));
        }
        text.append("|| actor.has_role(");
        let literal = string_literal(roles[i].as_str());
        text.append(literal.as_str());
        text.append(") ");
        i = i + 1;
    }
    proof {
        assert(roles@.subrange(0, roles@.len() as int) == roles@);
    }
    text
}

/// Some entity keeps an audit trail of its workflow transitions.
pub open spec fn audits_workflows(entities: Seq<Entity>) -> bool {
    exists|i: int| 0 <= i < entities.len() && #[trigger] entities[i].audit_enabled && entities[i].workflow is Some
}

fn any_audited_workflow(entities: &Vec<Entity>) -> (result: bool)
    ensures
        result == audits_workflows(entities@),
{
    let mut i: usize = 0;
    while i < entities.len()
        invariant
            i <= entities.len(),
            forall|j: int| 0 <= j < i ==> !(#[trigger] entities@[j].audit_enabled && entities@[j].workflow is Some),
        decreases entities.len() - i,
    {
        if entities[i].audit_enabled && entities[i].workflow.is_some() {
            return true;
        }
        i = i + 1;
    }
    false
}

/// The audit module of an application: recording (with workflow metadata
/// where an audited entity has a workflow), the reader roles, and the
/// tenant's or all events.
pub open spec fn audit_text(ir: AppIr) -> Seq<char> {
    audit_block_text(
        record_block_text(if audits_workflows(ir.entities@) { workflow_record_text() } else { Seq::<char>::empty() }),
        audit_allowed_text(ir.audit.reader_roles@),
        if ir.tenant.enabled { tenant_load_text() } else { global_load_text() },
    )
}

/// The path of the generated audit module.
pub open spec fn audit_path() -> Seq<char> {
    "backend/src/audit.rs"@
}

/// The audit module's source: enabled where auditing is on, disabled otherwise.
pub open spec fn audit_plan_spec(ir: AppIr, header: Seq<char>) -> Result<Seq<char>, Seq<char>> {
    if ir.audit.enabled {
        render_spec(audit_text(ir), header)
    } else {
        render_spec(disabled_audit_text(), header)
    }
}

/// The audit module's file; `header` opens it.
pub fn audit_plan(ir: &AppIr, header: &str) -> (result: Result<Vec<Artifact>, CodegenError>)
    ensures
        match result {
            Ok(artifacts) => audit_plan_spec(*ir, header@) matches Ok(source) && rust_file(artifacts@, audit_path(), source),
            Err(error) => audit_plan_spec(*ir, header@) == Err::<Seq<char>, Seq<char>>(error@),
        },
{
    let source = if ir.audit.enabled {
        let allowed = audit_allowed(&ir.audit.reader_roles);
        let load = if ir.tenant.enabled {
            tenant_load()
        } else {
            global_load()
        };
        let workflow = if any_audited_workflow(&ir.entities) {
            workflow_record()
        } else {
            String::new()
        };
        let record = record_block(workflow.as_str());
        let text = audit_block(record.as_str(), allowed.as_str(), load.as_str());
        render(text.as_str(), header)?
    } else {
        let text = disabled_audit();
        render(text.as_str(), header)?
    };
    Ok(single_file("backend/src/audit.rs", source))
}

} // verus!
