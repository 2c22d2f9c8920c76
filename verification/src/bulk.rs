use vstd::prelude::*;
use vstd::string::StringExecFns;
use crate::access::{column_ident, column_result, condition_error, list_scope_text, scope};
use crate::artifact::CodegenError;
use crate::billing::join_text;
use crate::field_access::{literal_text, string_literal};
use crate::fields::{csv_kind, first_primary, kind, texts};
use crate::ir::{Entity, Field, FieldType};
use crate::text::{append_joined, append_suffixed, suffixed_text};

verus! {

/// The expression that parses one id of a bulk request, `id_text`, into the
/// primary-key type, failing with `ApiError::InvalidId`.
pub open spec fn bulk_parse_id_text(ty: FieldType) -> Seq<char> {
    match ty {
        FieldType::Uuid | FieldType::Relation { .. } => "uuid::Uuid::parse_str(id_text).map_err(|_| ApiError::InvalidId)"@,
        FieldType::Integer => "id_text.parse::<i32>().map_err(|_| ApiError::InvalidId)"@,
        FieldType::Bigint => "id_text.parse::<i64>().map_err(|_| ApiError::InvalidId)"@,
        _ => "Ok::<String, ApiError>(id_text.to_owned())"@,
    }
}

pub fn bulk_parse_id_expression(field: &Field) -> (text: &'static str)
    ensures
        text@ == bulk_parse_id_text(field.ty),
{
    match field.ty {
        FieldType::Uuid | FieldType::Relation { .. } => "uuid::Uuid::parse_str(id_text).map_err(|_| ApiError::InvalidId)",
        FieldType::Integer => "id_text.parse::<i32>().map_err(|_| ApiError::InvalidId)",
        FieldType::Bigint => "id_text.parse::<i64>().map_err(|_| ApiError::InvalidId)",
        _ => "Ok::<String, ApiError>(id_text.to_owned())",
    }
}

/// The changes that bulk endpoints make, each record inside its own savepoint.
#[derive(Clone, Copy, Debug, PartialEq, Eq, Structural)]
pub enum BulkChange {
    Create,
    Update,
    Delete,
    Restore,
}

/// The audit record of one bulk change, where the entity keeps an audit trail.
pub open spec fn bulk_audit_text(enabled: bool, entity_id: Seq<char>, primary: Seq<char>, change: BulkChange) -> Seq<char> {
    let entity_id = literal_text(entity_id);
    if !enabled {
        Seq::<char>::empty()
    } else {
        match change {
            BulkChange::Create => {
                "crate::audit::record(&savepoint, &context, "@
                    + entity_id
                    + ", model."@
                    + primary
                    + ".to_string(), \"create\", None, Some(&model)).await?;"@
            },
            BulkChange::Update => {
                "crate::audit::record(&savepoint, &context, "@
                    + entity_id
                    + ", after."@
                    + primary
                    + ".to_string(), \"update\", Some(&before), Some(&after)).await?;"@
            },
            BulkChange::Delete => {
                "crate::audit::record(&savepoint, &context, "@
                    + entity_id
                    + ", deleted."@
                    + primary
                    + ".to_string(), \"delete\", Some(&deleted), None).await?;"@
            },
            BulkChange::Restore => {
                "crate::audit::record(&savepoint, &context, "@
                    + entity_id
                    + ", after."@
                    + primary
                    + ".to_string(), \"restore\", Some(&before), Some(&after)).await?;"@
            },
        }
    }
}

/// The audit statement of one bulk change, or nothing where auditing is off.
pub fn bulk_audit_event(enabled: bool, entity_id: &str, primary: &str, change: BulkChange) -> (text: String)
    ensures
        text@ == bulk_audit_text(enabled, entity_id@, primary@, change),
{
    if !enabled {
        return String::new();
    }
    let literal = string_literal(entity_id);
    let entity_id = literal.as_str();
    match change {
        BulkChange::Create => {
            let mut text = String::from_str("crate::audit::record(&savepoint, &context, ");
            text.append(entity_id);
            text.append(", model.");
            text.append(primary);
            text.append(".to_string(), \"create\", None, Some(&model)).await?;");
            text
        },
        BulkChange::Update => {
            let mut text = String::from_str("crate::audit::record(&savepoint, &context, ");
            text.append(entity_id);
            text.append(", after.");
            text.append(primary);
            text.append(".to_string(), \"update\", Some(&before), Some(&after)).await?;");
            text
        },
        BulkChange::Delete => {
            let mut text = String::from_str("crate::audit::record(&savepoint, &context, ");
            text.append(entity_id);
            text.append(", deleted.");
            text.append(primary);
            text.append(".to_string(), \"delete\", Some(&deleted), None).await?;");
            text
        },
        BulkChange::Restore => {
            let mut text = String::from_str("crate::audit::record(&savepoint, &context, ");
            text.append(entity_id);
            text.append(", after.");
            text.append(primary);
            text.append(".to_string(), \"restore\", Some(&before), Some(&after)).await?;");
            text
        },
    }
}

/// The record a bulk change binds and the past tense of the change.
pub open spec fn bulk_change_words(change: BulkChange) -> (Seq<char>, Seq<char>) {
    match change {
        BulkChange::Create => ("model"@, "created"@),
        BulkChange::Update => ("after"@, "updated"@),
        BulkChange::Restore => ("after"@, "restored"@),
        BulkChange::Delete => ("deleted"@, "deleted"@),
    }
}

/// The activity record of one bulk change, where the entity has an activity
/// resource.
pub open spec fn bulk_activity_text(resource: Option<Seq<char>>, primary: Seq<char>, change: BulkChange) -> Seq<char> {
    match resource {
        None => Seq::<char>::empty(),
        Some(name) => "crate::activity::record_system_event(&savepoint, &context, "@ + literal_text(name) + ", "@
            + bulk_change_words(change).0 + "."@ + primary + ".to_string(), "@ + literal_text(bulk_change_words(change).1)
            + ",).await?;"@,
    }
}

fn change_words(change: BulkChange) -> (words: (&'static str, &'static str))
    ensures
        words.0@ == bulk_change_words(change).0,
        words.1@ == bulk_change_words(change).1,
{
    match change {
        BulkChange::Create => {
            proof {
                reveal_strlit("model");
                reveal_strlit("created");
            }
            ("model", "created")
        },
        BulkChange::Update => {
            proof {
                reveal_strlit("after");
                reveal_strlit("updated");
            }
            ("after", "updated")
        },
        BulkChange::Restore => {
            proof {
                reveal_strlit("after");
                reveal_strlit("restored");
            }
            ("after", "restored")
        },
        BulkChange::Delete => {
            proof {
                reveal_strlit("deleted");
            }
            ("deleted", "deleted")
        },
    }
}

/// The activity record of one bulk change, or nothing where the entity has
/// no activity resource.
pub fn bulk_activity_event(resource: Option<&str>, primary: &str, change: BulkChange) -> (text: String)
    ensures
        text@ == bulk_activity_text(
            match resource {
                Some(name) => Some(name@),
                None => None,
            },
            primary@,
            change,
        ),
{
    match resource {
        None => String::new(),
        Some(name) => {
            let (model, event) = change_words(change);
            let mut text = String::from_str("crate::activity::record_system_event(&savepoint, &context, ");
            text.append(string_literal(name).as_str());
            text.append(", ");
            text.append(model);
            text.append(".");
            text.append(primary);
            text.append(".to_string(), ");
            text.append(string_literal(event).as_str());
            text.append(",).await?;");
            text
        },
    }
}

/// The event of a bulk change to a module's records, as a string literal.
pub open spec fn bulk_event_text(module: Seq<char>, past: Seq<char>) -> Seq<char> {
    literal_text(module + "."@ + past)
}

fn bulk_event(module: &str, past: &str) -> (text: String)
    ensures
        text@ == bulk_event_text(module@, past@),
{
    let mut name = String::from_str(module);
    name.append(".");
    name.append(past);
    string_literal(name.as_str())
}

/// The bulk update endpoint: the patch is checked once, then applied to every
/// id inside its own savepoint, with the revision, read scope, update guard
/// and policy checked per record; failures are reported per id.
#[verifier::opaque]
pub open spec fn bulk_update_text(hooks: Seq<char>, bulk_parse_id: Seq<char>, module: Seq<char>, read_scope: Seq<char>, policy: Seq<char>, updates: Seq<Seq<char>>, update_allowed: Seq<char>, audit: Seq<char>, update_event: Seq<char>) -> Seq<char> {
    "async fn bulk_update(State(state): State<AppState>, headers: HeaderMap, Json(mut input): Json<BulkUpdateInput<UpdateInput>>,) -> Result<Json<BulkResult>, ApiError> { "@
        + "let context = state.mutation_context(&headers).await?; "@
        + "if !bulk_request_size_is_valid(input.ids.len(), input.expected_revisions.len()) { "@
        + "return Err(ApiError::InvalidQuery(format!(\"bulk requests must contain between 1 and {MAX_BULK_ITEMS} "@
        + "ids\"))); } authorize_update_fields(&context, &input.patch)?; state.extensions."@
        + hooks
        + "().before_validate_update(&context, &mut input.patch).await?; "@
        + "validate_update(&input.patch)?; let actor = context.actor().cloned(); "@
        + "let tenant = context.tenant(); let transaction = state.database.begin().await?; "@
        + "let mut result = BulkResult { succeeded: Vec::new(), failed: Vec::new() }; "@
        + "let mut updated = Vec::new(); for id_text in &input.ids { "@
        + "let Some(expected) = input.expected_revisions.get(id_text).copied() else { "@
        + "result.failed.push(bulk_failure(id_text, \"precondition_required\", \"expected_revisions must include every id\")); "@
        + "continue; }; let id = match "@
        + bulk_parse_id
        + " { Ok(id) => id, Err(error) => { result.failed.push(error.into_bulk_failure(id_text)); "@
        + "continue; } }; let savepoint = transaction.begin().await?; let outcome: Result<"@
        + module
        + "::Model, ApiError> = async { "@
        + "let context = RequestContext::transaction_with_file(&savepoint, &state.mail, &state.file, &state.realtime, actor.clone(), tenant); "@
        + "let mut select = "@
        + module
        + "::Entity::find_by_id(id); "@
        + read_scope
        + " let before = select.lock_exclusive().one(&savepoint).await?.ok_or(ApiError::NotFound)?; "@
        + "if !state.extensions."@
        + policy
        + "().can_read(&context, &before).await? { return Err(ApiError::NotFound); } "@
        + "if before.revision != expected { return Err(ApiError::ConcurrentModification); } "@
        + "let mut input = input.patch.clone(); state.extensions."@
        + hooks
        + "().before_update(&context, &before, &mut input).await?; "@
        + "authorize_update_fields(&context, &input)?; validate_update(&input)?; "@
        + "let mut active = before.clone().into_active_model(); "@
        + suffixed_text(updates, " "@)
        + " active.revision = Set(before.revision.checked_add(1).ok_or_else(|| sea_orm::DbErr::Custom(\"revision overflow\".to_owned()))?); "@
        + "let candidate = active.clone().try_into_model()?; if !("@
        + update_allowed
        + ") { return Err(access_denied(&context)); } if !state.extensions."@
        + policy
        + "().can_update(&context, &before, &input, &candidate).await? { "@
        + "return Err(ApiError::Forbidden); } let after = active.update(&savepoint).await?; "@
        + "state.extensions."@
        + hooks
        + "().after_update(&context, &before, &after).await?; "@
        + audit
        + " Ok(after) }.await; match outcome { Ok(model) => { savepoint.commit().await?; "@
        + "result.succeeded.push(id_text.clone()); updated.push(model); } Err(error) => { "@
        + "savepoint.rollback().await?; result.failed.push(error.into_bulk_failure(id_text)); } } } "@
        + "transaction.commit().await?; for model in &updated { "@
        + "publish_realtime_event(&state, &context, "@
        + update_event
        + ", model); "@
        + "run_after_commit(&state, crate::HookOperation::Update, model, actor.clone(), tenant).await; "@
        + "} Ok(Json(result)) }"@
}

fn bulk_update(hooks: &str, bulk_parse_id: &str, module: &str, read_scope: &str, policy: &str, updates: &Vec<String>, update_allowed: &str, audit: &str, update_event: &str) -> (text: String)
    ensures
        text@ == bulk_update_text(hooks@, bulk_parse_id@, module@, read_scope@, policy@, texts(updates@), update_allowed@, audit@, update_event@),
{
    proof {
        reveal(bulk_update_text);
    }
    let mut text = String::from_str("async fn bulk_update(State(state): State<AppState>, headers: HeaderMap, Json(mut input): Json<BulkUpdateInput<UpdateInput>>,) -> Result<Json<BulkResult>, ApiError> { ");
    text.append("let context = state.mutation_context(&headers).await?; ");
    text.append("if !bulk_request_size_is_valid(input.ids.len(), input.expected_revisions.len()) { ");
    text.append("return Err(ApiError::InvalidQuery(format!(\"bulk requests must contain between 1 and {MAX_BULK_ITEMS} ");
    text.append("ids\"))); } authorize_update_fields(&context, &input.patch)?; state.extensions.");
    text.append(hooks);
    text.append("().before_validate_update(&context, &mut input.patch).await?; ");
    text.append("validate_update(&input.patch)?; let actor = context.actor().cloned(); ");
    text.append("let tenant = context.tenant(); let transaction = state.database.begin().await?; ");
    text.append("let mut result = BulkResult { succeeded: Vec::new(), failed: Vec::new() }; ");
    text.append("let mut updated = Vec::new(); for id_text in &input.ids { ");
    text.append("let Some(expected) = input.expected_revisions.get(id_text).copied() else { ");
    text.append("result.failed.push(bulk_failure(id_text, \"precondition_required\", \"expected_revisions must include every id\")); ");
    text.append("continue; }; let id = match ");
    text.append(bulk_parse_id);
    text.append(" { Ok(id) => id, Err(error) => { result.failed.push(error.into_bulk_failure(id_text)); ");
    text.append("continue; } }; let savepoint = transaction.begin().await?; let outcome: Result<");
    text.append(module);
    text.append("::Model, ApiError> = async { ");
    text.append("let context = RequestContext::transaction_with_file(&savepoint, &state.mail, &state.file, &state.realtime, actor.clone(), tenant); ");
    text.append("let mut select = ");
    text.append(module);
    text.append("::Entity::find_by_id(id); ");
    text.append(read_scope);
    text.append(" let before = select.lock_exclusive().one(&savepoint).await?.ok_or(ApiError::NotFound)?; ");
    text.append("if !state.extensions.");
    text.append(policy);
    text.append("().can_read(&context, &before).await? { return Err(ApiError::NotFound); } ");
    text.append("if before.revision != expected { return Err(ApiError::ConcurrentModification); } ");
    text.append("let mut input = input.patch.clone(); state.extensions.");
    text.append(hooks);
    text.append("().before_update(&context, &before, &mut input).await?; ");
    text.append("authorize_update_fields(&context, &input)?; validate_update(&input)?; ");
    text.append("let mut active = before.clone().into_active_model(); ");
    append_suffixed(&mut text, updates, " ");
    text.append(" active.revision = Set(before.revision.checked_add(1).ok_or_else(|| sea_orm::DbErr::Custom(\"revision overflow\".to_owned()))?); ");
    text.append("let candidate = active.clone().try_into_model()?; if !(");
    text.append(update_allowed);
    text.append(") { return Err(access_denied(&context)); } if !state.extensions.");
    text.append(policy);
    text.append("().can_update(&context, &before, &input, &candidate).await? { ");
    text.append("return Err(ApiError::Forbidden); } let after = active.update(&savepoint).await?; ");
    text.append("state.extensions.");
    text.append(hooks);
    text.append("().after_update(&context, &before, &after).await?; ");
    text.append(audit);
    text.append(" Ok(after) }.await; match outcome { Ok(model) => { savepoint.commit().await?; ");
    text.append("result.succeeded.push(id_text.clone()); updated.push(model); } Err(error) => { ");
    text.append("savepoint.rollback().await?; result.failed.push(error.into_bulk_failure(id_text)); } } } ");
    text.append("transaction.commit().await?; for model in &updated { ");
    text.append("publish_realtime_event(&state, &context, ");
    text.append(update_event);
    text.append(", model); ");
    text.append("run_after_commit(&state, crate::HookOperation::Update, model, actor.clone(), tenant).await; ");
    text.append("} Ok(Json(result)) }");
    text
}

/// How the bulk delete endpoint removes a record: soft deletion stamps
/// `deleted_at` and raises the revision, hard deletion removes the row.
pub open spec fn bulk_delete_model_text(soft_delete: bool) -> Seq<char> {
    if soft_delete {
        "let mut active = model.clone().into_active_model(); "@
            + "active.deleted_at = Set(Some(chrono::Utc::now())); "@
            + "active.revision = Set(model.revision.checked_add(1).ok_or_else(|| sea_orm::DbErr::Custom(\"revision overflow\".to_owned()))?); "@
            + "active.update(&savepoint).await?"@
    } else {
        "let deleted = model.clone(); model.delete(&savepoint).await?; deleted"@
    }
}

fn bulk_delete_model(soft_delete: bool) -> (text: String)
    ensures
        text@ == bulk_delete_model_text(soft_delete),
{
    if soft_delete {
        let mut text = String::from_str("let mut active = model.clone().into_active_model(); ");
        text.append("active.deleted_at = Set(Some(chrono::Utc::now())); ");
        text.append("active.revision = Set(model.revision.checked_add(1).ok_or_else(|| sea_orm::DbErr::Custom(\"revision overflow\".to_owned()))?); ");
        text.append("active.update(&savepoint).await?");
        text
    } else {
        let mut text = String::from_str("let deleted = model.clone(); model.delete(&savepoint).await?; deleted");
        text
    }
}

/// The bulk delete endpoint: every id is removed inside its own savepoint
/// after the revision, read scope, delete guard and policy checks.
#[verifier::opaque]
pub open spec fn bulk_delete_text(bulk_parse_id: Seq<char>, module: Seq<char>, read_scope: Seq<char>, policy: Seq<char>, delete_allowed: Seq<char>, hooks: Seq<char>, delete_model: Seq<char>, audit: Seq<char>, delete_event: Seq<char>) -> Seq<char> {
    "async fn bulk_delete(State(state): State<AppState>, headers: HeaderMap, Json(input): Json<BulkDeleteInput>,) -> Result<Json<BulkResult>, ApiError> { "@
        + "let context = state.mutation_context(&headers).await?; "@
        + "if !bulk_request_size_is_valid(input.ids.len(), input.expected_revisions.len()) { "@
        + "return Err(ApiError::InvalidQuery(format!(\"bulk requests must contain between 1 and {MAX_BULK_ITEMS} "@
        + "ids\"))); } let actor = context.actor().cloned(); let tenant = context.tenant(); "@
        + "let transaction = state.database.begin().await?; let mut result = BulkResult { "@
        + "succeeded: Vec::new(), failed: Vec::new() }; let mut deleted_models = Vec::new(); "@
        + "for id_text in &input.ids { "@
        + "let Some(expected) = input.expected_revisions.get(id_text).copied() else { "@
        + "result.failed.push(bulk_failure(id_text, \"precondition_required\", \"expected_revisions must include every id\")); "@
        + "continue; }; let id = match "@
        + bulk_parse_id
        + " { Ok(id) => id, Err(error) => { result.failed.push(error.into_bulk_failure(id_text)); "@
        + "continue; } }; let savepoint = transaction.begin().await?; let outcome: Result<"@
        + module
        + "::Model, ApiError> = async { "@
        + "let context = RequestContext::transaction_with_file(&savepoint, &state.mail, &state.file, &state.realtime, actor.clone(), tenant); "@
        + "let mut select = "@
        + module
        + "::Entity::find_by_id(id); "@
        + read_scope
        + " let model = select.lock_exclusive().one(&savepoint).await?.ok_or(ApiError::NotFound)?; "@
        + "if !state.extensions."@
        + policy
        + "().can_read(&context, &model).await? { return Err(ApiError::NotFound); } "@
        + "if model.revision != expected { return Err(ApiError::ConcurrentModification); } if !("@
        + delete_allowed
        + ") { return Err(access_denied(&context)); } if !state.extensions."@
        + policy
        + "().can_delete(&context, &model).await? { return Err(ApiError::Forbidden); } "@
        + "state.extensions."@
        + hooks
        + "().before_delete(&context, &model).await?; let deleted = { "@
        + delete_model
        + " }; state.extensions."@
        + hooks
        + "().after_delete(&context, &deleted).await?; "@
        + audit
        + " Ok(deleted) }.await; match outcome { Ok(model) => { savepoint.commit().await?; "@
        + "result.succeeded.push(id_text.clone()); deleted_models.push(model); } Err(error) => { "@
        + "savepoint.rollback().await?; result.failed.push(error.into_bulk_failure(id_text)); } } } "@
        + "transaction.commit().await?; for model in &deleted_models { "@
        + "publish_realtime_event(&state, &context, "@
        + delete_event
        + ", model); "@
        + "run_after_commit(&state, crate::HookOperation::Delete, model, actor.clone(), tenant).await; "@
        + "} Ok(Json(result)) }"@
}

fn bulk_delete(bulk_parse_id: &str, module: &str, read_scope: &str, policy: &str, delete_allowed: &str, hooks: &str, delete_model: &str, audit: &str, delete_event: &str) -> (text: String)
    ensures
        text@ == bulk_delete_text(bulk_parse_id@, module@, read_scope@, policy@, delete_allowed@, hooks@, delete_model@, audit@, delete_event@),
{
    proof {
        reveal(bulk_delete_text);
    }
    let mut text = String::from_str("async fn bulk_delete(State(state): State<AppState>, headers: HeaderMap, Json(input): Json<BulkDeleteInput>,) -> Result<Json<BulkResult>, ApiError> { ");
    text.append("let context = state.mutation_context(&headers).await?; ");
    text.append("if !bulk_request_size_is_valid(input.ids.len(), input.expected_revisions.len()) { ");
    text.append("return Err(ApiError::InvalidQuery(format!(\"bulk requests must contain between 1 and {MAX_BULK_ITEMS} ");
    text.append("ids\"))); } let actor = context.actor().cloned(); let tenant = context.tenant(); ");
    text.append("let transaction = state.database.begin().await?; let mut result = BulkResult { ");
    text.append("succeeded: Vec::new(), failed: Vec::new() }; let mut deleted_models = Vec::new(); ");
    text.append("for id_text in &input.ids { ");
    text.append("let Some(expected) = input.expected_revisions.get(id_text).copied() else { ");
    text.append("result.failed.push(bulk_failure(id_text, \"precondition_required\", \"expected_revisions must include every id\")); ");
    text.append("continue; }; let id = match ");
    text.append(bulk_parse_id);
    text.append(" { Ok(id) => id, Err(error) => { result.failed.push(error.into_bulk_failure(id_text)); ");
    text.append("continue; } }; let savepoint = transaction.begin().await?; let outcome: Result<");
    text.append(module);
    text.append("::Model, ApiError> = async { ");
    text.append("let context = RequestContext::transaction_with_file(&savepoint, &state.mail, &state.file, &state.realtime, actor.clone(), tenant); ");
    text.append("let mut select = ");
    text.append(module);
    text.append("::Entity::find_by_id(id); ");
    text.append(read_scope);
    text.append(" let model = select.lock_exclusive().one(&savepoint).await?.ok_or(ApiError::NotFound)?; ");
    text.append("if !state.extensions.");
    text.append(policy);
    text.append("().can_read(&context, &model).await? { return Err(ApiError::NotFound); } ");
    text.append("if model.revision != expected { return Err(ApiError::ConcurrentModification); } if !(");
    text.append(delete_allowed);
    text.append(") { return Err(access_denied(&context)); } if !state.extensions.");
    text.append(policy);
    text.append("().can_delete(&context, &model).await? { return Err(ApiError::Forbidden); } ");
    text.append("state.extensions.");
    text.append(hooks);
    text.append("().before_delete(&context, &model).await?; let deleted = { ");
    text.append(delete_model);
    text.append(" }; state.extensions.");
    text.append(hooks);
    text.append("().after_delete(&context, &deleted).await?; ");
    text.append(audit);
    text.append(" Ok(deleted) }.await; match outcome { Ok(model) => { savepoint.commit().await?; ");
    text.append("result.succeeded.push(id_text.clone()); deleted_models.push(model); } Err(error) => { ");
    text.append("savepoint.rollback().await?; result.failed.push(error.into_bulk_failure(id_text)); } } } ");
    text.append("transaction.commit().await?; for model in &deleted_models { ");
    text.append("publish_realtime_event(&state, &context, ");
    text.append(delete_event);
    text.append(", model); ");
    text.append("run_after_commit(&state, crate::HookOperation::Delete, model, actor.clone(), tenant).await; ");
    text.append("} Ok(Json(result)) }");
    text
}

/// The restore endpoint of soft-deleted records: every id is looked up
/// among the deleted records, its `deleted_at` cleared and its revision raised.
#[verifier::opaque]
pub open spec fn bulk_restore_text(bulk_parse_id: Seq<char>, module: Seq<char>, restore_scope: Seq<char>, policy: Seq<char>, hooks: Seq<char>, update_allowed: Seq<char>, audit: Seq<char>, update_event: Seq<char>) -> Seq<char> {
    "async fn restore(State(state): State<AppState>, headers: HeaderMap, Json(input): Json<BulkDeleteInput>,) -> Result<Json<BulkResult>, ApiError> { "@
        + "let context = state.mutation_context(&headers).await?; "@
        + "if !bulk_request_size_is_valid(input.ids.len(), input.expected_revisions.len()) { "@
        + "return Err(ApiError::InvalidQuery(format!(\"bulk requests must contain between 1 and {MAX_BULK_ITEMS} "@
        + "ids\"))); } let actor = context.actor().cloned(); let tenant = context.tenant(); "@
        + "let transaction = state.database.begin().await?; let mut result = BulkResult { "@
        + "succeeded: Vec::new(), failed: Vec::new() }; let mut restored = Vec::new(); "@
        + "for id_text in &input.ids { "@
        + "let Some(expected) = input.expected_revisions.get(id_text).copied() else { "@
        + "result.failed.push(bulk_failure(id_text, \"precondition_required\", \"expected_revisions must include every id\")); "@
        + "continue; }; let id = match "@
        + bulk_parse_id
        + " { Ok(id) => id, Err(error) => { result.failed.push(error.into_bulk_failure(id_text)); "@
        + "continue; } }; let savepoint = transaction.begin().await?; let outcome: Result<"@
        + module
        + "::Model, ApiError> = async { "@
        + "let context = RequestContext::transaction_with_file(&savepoint, &state.mail, &state.file, &state.realtime, actor.clone(), tenant); "@
        + "let mut select = "@
        + module
        + "::Entity::find_by_id(id); "@
        + restore_scope
        + " let before = select.lock_exclusive().one(&savepoint).await?.ok_or(ApiError::NotFound)?; "@
        + "if !state.extensions."@
        + policy
        + "().can_read(&context, &before).await? { return Err(ApiError::NotFound); } "@
        + "if before.revision != expected { return Err(ApiError::ConcurrentModification); } "@
        + "let mut input = crate::api::"@
        + module
        + "::UpdateInput::default(); state.extensions."@
        + hooks
        + "().before_update(&context, &before, &mut input).await?; "@
        + "authorize_update_fields(&context, &input)?; validate_update(&input)?; "@
        + "let mut active = before.clone().into_active_model(); active.deleted_at = Set(None); "@
        + "active.revision = Set(before.revision.checked_add(1).ok_or_else(|| sea_orm::DbErr::Custom(\"revision overflow\".to_owned()))?); "@
        + "let candidate = active.clone().try_into_model()?; if !("@
        + update_allowed
        + ") { return Err(access_denied(&context)); } if !state.extensions."@
        + policy
        + "().can_update(&context, &before, &input, &candidate).await? { "@
        + "return Err(ApiError::Forbidden); } let after = active.update(&savepoint).await?; "@
        + "state.extensions."@
        + hooks
        + "().after_update(&context, &before, &after).await?; "@
        + audit
        + " Ok(after) }.await; match outcome { Ok(model) => { savepoint.commit().await?; "@
        + "result.succeeded.push(id_text.clone()); restored.push(model); } Err(error) => { "@
        + "savepoint.rollback().await?; result.failed.push(error.into_bulk_failure(id_text)); } } } "@
        + "transaction.commit().await?; for model in &restored { "@
        + "publish_realtime_event(&state, &context, "@
        + update_event
        + ", model); "@
        + "run_after_commit(&state, crate::HookOperation::Update, model, actor.clone(), tenant).await; "@
        + "} Ok(Json(result)) }"@
}

fn bulk_restore(bulk_parse_id: &str, module: &str, restore_scope: &str, policy: &str, hooks: &str, update_allowed: &str, audit: &str, update_event: &str) -> (text: String)
    ensures
        text@ == bulk_restore_text(bulk_parse_id@, module@, restore_scope@, policy@, hooks@, update_allowed@, audit@, update_event@),
{
    proof {
        reveal(bulk_restore_text);
    }
    let mut text = String::from_str("async fn restore(State(state): State<AppState>, headers: HeaderMap, Json(input): Json<BulkDeleteInput>,) -> Result<Json<BulkResult>, ApiError> { ");
    text.append("let context = state.mutation_context(&headers).await?; ");
    text.append("if !bulk_request_size_is_valid(input.ids.len(), input.expected_revisions.len()) { ");
    text.append("return Err(ApiError::InvalidQuery(format!(\"bulk requests must contain between 1 and {MAX_BULK_ITEMS} ");
    text.append("ids\"))); } let actor = context.actor().cloned(); let tenant = context.tenant(); ");
    text.append("let transaction = state.database.begin().await?; let mut result = BulkResult { ");
    text.append("succeeded: Vec::new(), failed: Vec::new() }; let mut restored = Vec::new(); ");
    text.append("for id_text in &input.ids { ");
    text.append("let Some(expected) = input.expected_revisions.get(id_text).copied() else { ");
    text.append("result.failed.push(bulk_failure(id_text, \"precondition_required\", \"expected_revisions must include every id\")); ");
    text.append("continue; }; let id = match ");
    text.append(bulk_parse_id);
    text.append(" { Ok(id) => id, Err(error) => { result.failed.push(error.into_bulk_failure(id_text)); ");
    text.append("continue; } }; let savepoint = transaction.begin().await?; let outcome: Result<");
    text.append(module);
    text.append("::Model, ApiError> = async { ");
    text.append("let context = RequestContext::transaction_with_file(&savepoint, &state.mail, &state.file, &state.realtime, actor.clone(), tenant); ");
    text.append("let mut select = ");
    text.append(module);
    text.append("::Entity::find_by_id(id); ");
    text.append(restore_scope);
    text.append(" let before = select.lock_exclusive().one(&savepoint).await?.ok_or(ApiError::NotFound)?; ");
    text.append("if !state.extensions.");
    text.append(policy);
    text.append("().can_read(&context, &before).await? { return Err(ApiError::NotFound); } ");
    text.append("if before.revision != expected { return Err(ApiError::ConcurrentModification); } ");
    text.append("let mut input = crate::api::");
    text.append(module);
    text.append("::UpdateInput::default(); state.extensions.");
    text.append(hooks);
    text.append("().before_update(&context, &before, &mut input).await?; ");
    text.append("authorize_update_fields(&context, &input)?; validate_update(&input)?; ");
    text.append("let mut active = before.clone().into_active_model(); active.deleted_at = Set(None); ");
    text.append("active.revision = Set(before.revision.checked_add(1).ok_or_else(|| sea_orm::DbErr::Custom(\"revision overflow\".to_owned()))?); ");
    text.append("let candidate = active.clone().try_into_model()?; if !(");
    text.append(update_allowed);
    text.append(") { return Err(access_denied(&context)); } if !state.extensions.");
    text.append(policy);
    text.append("().can_update(&context, &before, &input, &candidate).await? { ");
    text.append("return Err(ApiError::Forbidden); } let after = active.update(&savepoint).await?; ");
    text.append("state.extensions.");
    text.append(hooks);
    text.append("().after_update(&context, &before, &after).await?; ");
    text.append(audit);
    text.append(" Ok(after) }.await; match outcome { Ok(model) => { savepoint.commit().await?; ");
    text.append("result.succeeded.push(id_text.clone()); restored.push(model); } Err(error) => { ");
    text.append("savepoint.rollback().await?; result.failed.push(error.into_bulk_failure(id_text)); } } } ");
    text.append("transaction.commit().await?; for model in &restored { ");
    text.append("publish_realtime_event(&state, &context, ");
    text.append(update_event);
    text.append(", model); ");
    text.append("run_after_commit(&state, crate::HookOperation::Update, model, actor.clone(), tenant).await; ");
    text.append("} Ok(Json(result)) }");
    text
}

/// The trash endpoint: soft-deleted records, paged by `page` and `page_size` only.
#[verifier::opaque]
pub open spec fn trash_handler_text(policy: Seq<char>, module: Seq<char>, trash_scope: Seq<char>, primary_column: Seq<char>) -> Seq<char> {
    "async fn trash(State(state): State<AppState>, headers: HeaderMap, axum::extract::Query(query): axum::extract::Query<ListQuery>,) -> Result<Json<ListResponse<serde_json::Value>>, ApiError> { "@
        + "let context = state.context(&headers).await?; if !state.extensions."@
        + policy
        + "().can_list(&context).await? { return Err(access_denied(&context)); } "@
        + "if query.cursor.is_some() || query.limit.is_some() || query.sort.is_some() || query.q.is_some() || !query.filters.is_empty() { "@
        + "return Err(ApiError::InvalidQuery(\"trash only supports `page` and `page_size` pagination\".to_owned())); "@
        + "} let page = query.page.unwrap_or(1); let page_size = query.page_size.unwrap_or(25); "@
        + "if page == 0 || !(1..=100).contains(&page_size) { "@
        + "return Err(ApiError::InvalidQuery(\"`page` must be at least 1 and `page_size` must be between 1 and 100\".to_owned())); "@
        + "} let mut select = "@
        + module
        + "::Entity::find(); "@
        + trash_scope
        + " select = select.order_by_asc("@
        + module
        + "::Column::"@
        + primary_column
        + "); let total = select.clone().count(&state.database).await?; "@
        + "let data = select.paginate(&state.database, page_size).fetch_page(page - 1).await?.into_iter().map(|model| redact_model(&context, model)).collect::<Result<Vec<_>, _>>()?; "@
        + "Ok(Json(ListResponse { data, meta: ListMeta::Page { page, page_size, total }, })) }"@
}

fn trash_handler(policy: &str, module: &str, trash_scope: &str, primary_column: &str) -> (text: String)
    ensures
        text@ == trash_handler_text(policy@, module@, trash_scope@, primary_column@),
{
    proof {
        reveal(trash_handler_text);
    }
    let mut text = String::from_str("async fn trash(State(state): State<AppState>, headers: HeaderMap, axum::extract::Query(query): axum::extract::Query<ListQuery>,) -> Result<Json<ListResponse<serde_json::Value>>, ApiError> { ");
    text.append("let context = state.context(&headers).await?; if !state.extensions.");
    text.append(policy);
    text.append("().can_list(&context).await? { return Err(access_denied(&context)); } ");
    text.append("if query.cursor.is_some() || query.limit.is_some() || query.sort.is_some() || query.q.is_some() || !query.filters.is_empty() { ");
    text.append("return Err(ApiError::InvalidQuery(\"trash only supports `page` and `page_size` pagination\".to_owned())); ");
    text.append("} let page = query.page.unwrap_or(1); let page_size = query.page_size.unwrap_or(25); ");
    text.append("if page == 0 || !(1..=100).contains(&page_size) { ");
    text.append("return Err(ApiError::InvalidQuery(\"`page` must be at least 1 and `page_size` must be between 1 and 100\".to_owned())); ");
    text.append("} let mut select = ");
    text.append(module);
    text.append("::Entity::find(); ");
    text.append(trash_scope);
    text.append(" select = select.order_by_asc(");
    text.append(module);
    text.append("::Column::");
    text.append(primary_column);
    text.append("); let total = select.clone().count(&state.database).await?; ");
    text.append("let data = select.paginate(&state.database, page_size).fetch_page(page - 1).await?.into_iter().map(|model| redact_model(&context, model)).collect::<Result<Vec<_>, _>>()?; ");
    text.append("Ok(Json(ListResponse { data, meta: ListMeta::Page { page, page_size, total }, })) }");
    text
}

/// The CSV export endpoint: at most `MAX_CSV_EXPORT_ROWS` rows, with the
/// columns the caller may read.
#[verifier::opaque]
pub open spec fn export_text(policy: Seq<char>, module: Seq<char>, list_scope: Seq<char>, primary_column: Seq<char>, columns: Seq<char>) -> Seq<char> {
    "async fn export_csv(State(state): State<AppState>, headers: HeaderMap) -> Result<([(header::HeaderName, String); "@
        + "1], String), ApiError> { let context = state.context(&headers).await?; "@
        + "if !state.extensions."@
        + policy
        + "().can_list(&context).await? { return Err(access_denied(&context)); } let mut select = "@
        + module
        + "::Entity::find(); "@
        + list_scope
        + " select = select.order_by_asc("@
        + module
        + "::Column::"@
        + primary_column
        + "); let total = select.clone().count(&state.database).await?; "@
        + "if total > MAX_CSV_EXPORT_ROWS { "@
        + "return Err(ApiError::InvalidQuery(format!(\"CSV export is limited to {MAX_CSV_EXPORT_ROWS} "@
        + "rows\"))); } let columns = ["@
        + columns
        + "].into_iter().filter(|(_, field)| field_read_allowed(&context, field)).collect::<Vec<_>>(); "@
        + "let mut csv = String::with_capacity(8_192); "@
        + "csv.push_str(&columns.iter().map(|(name, _)| csv_escape(name)).collect::<Vec<_>>().join(\",\")); "@
        + "csv.push('\\n'); let mut offset = 0; while offset < total { "@
        + "let models = select.clone().offset(offset).limit(CSV_EXPORT_PAGE_SIZE).all(&state.database).await?; "@
        + "for model in models { let value = redact_model(&context, model)?; "@
        + "let object = value.as_object().ok_or(ApiError::Internal)?; "@
        + "let row = columns.iter().map(|(_, field)| object.get(*field).map(csv_cell).unwrap_or_default()).collect::<Vec<_>>(); "@
        + "csv.push_str(&row.iter().map(|value| csv_escape(value)).collect::<Vec<_>>().join(\",\")); "@
        + "csv.push('\\n'); } offset += CSV_EXPORT_PAGE_SIZE; } let _ = context; "@
        + "Ok(([(header::CONTENT_TYPE, \"text/csv; charset=utf-8\".to_owned())], csv)) }"@
}

fn export_handler(policy: &str, module: &str, list_scope: &str, primary_column: &str, columns: &str) -> (text: String)
    ensures
        text@ == export_text(policy@, module@, list_scope@, primary_column@, columns@),
{
    proof {
        reveal(export_text);
    }
    let mut text = String::from_str("async fn export_csv(State(state): State<AppState>, headers: HeaderMap) -> Result<([(header::HeaderName, String); ");
    text.append("1], String), ApiError> { let context = state.context(&headers).await?; ");
    text.append("if !state.extensions.");
    text.append(policy);
    text.append("().can_list(&context).await? { return Err(access_denied(&context)); } let mut select = ");
    text.append(module);
    text.append("::Entity::find(); ");
    text.append(list_scope);
    text.append(" select = select.order_by_asc(");
    text.append(module);
    text.append("::Column::");
    text.append(primary_column);
    text.append("); let total = select.clone().count(&state.database).await?; ");
    text.append("if total > MAX_CSV_EXPORT_ROWS { ");
    text.append("return Err(ApiError::InvalidQuery(format!(\"CSV export is limited to {MAX_CSV_EXPORT_ROWS} ");
    text.append("rows\"))); } let columns = [");
    text.append(columns);
    text.append("].into_iter().filter(|(_, field)| field_read_allowed(&context, field)).collect::<Vec<_>>(); ");
    text.append("let mut csv = String::with_capacity(8_192); ");
    text.append("csv.push_str(&columns.iter().map(|(name, _)| csv_escape(name)).collect::<Vec<_>>().join(\",\")); ");
    text.append("csv.push('\\n'); let mut offset = 0; while offset < total { ");
    text.append("let models = select.clone().offset(offset).limit(CSV_EXPORT_PAGE_SIZE).all(&state.database).await?; ");
    text.append("for model in models { let value = redact_model(&context, model)?; ");
    text.append("let object = value.as_object().ok_or(ApiError::Internal)?; ");
    text.append("let row = columns.iter().map(|(_, field)| object.get(*field).map(csv_cell).unwrap_or_default()).collect::<Vec<_>>(); ");
    text.append("csv.push_str(&row.iter().map(|value| csv_escape(value)).collect::<Vec<_>>().join(\",\")); ");
    text.append("csv.push('\\n'); } offset += CSV_EXPORT_PAGE_SIZE; } let _ = context; ");
    text.append("Ok(([(header::CONTENT_TYPE, \"text/csv; charset=utf-8\".to_owned())], csv)) }");
    text
}

/// The CSV import endpoint: known columns only, every row created inside its
/// own savepoint after the field, validation, create guard and policy checks.
#[verifier::opaque]
pub open spec fn import_text(field_names: Seq<char>, field_match: Seq<Seq<char>>, hooks: Seq<char>, module: Seq<char>, create_allowed: Seq<char>, policy: Seq<char>, create_values: Seq<Seq<char>>, active_default: Seq<char>, audit: Seq<char>, create_event: Seq<char>) -> Seq<char> {
    "async fn import_csv(State(state): State<AppState>, headers: HeaderMap, body: String) -> Result<Json<BulkResult>, ApiError> { "@
        + "let context = state.mutation_context(&headers).await?; "@
        + "let rows = parse_csv_rows(&body).map_err(|error| ApiError::InvalidQuery(error.to_string()))?; "@
        + "let Some(header_row) = rows.first() else { return Ok(Json(BulkResult { "@
        + "succeeded: Vec::new(), failed: Vec::new() })); }; "@
        + "if rows.len() - 1 > MAX_CSV_IMPORT_ROWS { "@
        + "return Err(ApiError::InvalidQuery(format!(\"CSV import is limited to {MAX_CSV_IMPORT_ROWS} "@
        + "rows\"))); } let expected = ["@
        + field_names
        + "]; if header_row.iter().map(String::as_str).any(|name| !expected.contains(&name)) { "@
        + "return Err(ApiError::InvalidQuery(\"CSV contains an unknown column\".to_owned())); } "@
        + "let actor = context.actor().cloned(); let tenant = context.tenant(); "@
        + "let transaction = state.database.begin().await?; let mut result = BulkResult { "@
        + "succeeded: Vec::new(), failed: Vec::new() }; let mut created = Vec::new(); "@
        + "for (index, row) in rows.iter().skip(1).enumerate() { let row_id = index.to_string(); "@
        + "if row.len() != header_row.len() { "@
        + "result.failed.push(bulk_failure(&row_id, \"invalid_row\", \"CSV row has a different number of columns than the header\")); "@
        + "continue; } let mut object = serde_json::Map::new(); "@
        + "for (column, raw) in header_row.iter().zip(row.iter()) { match column.as_str() { "@
        + suffixed_text(field_match, " "@)
        + " _ => {} } } "@
        + "let mut input: CreateInput = match serde_json::from_value(serde_json::Value::Object(object)) { "@
        + "Ok(input) => input, Err(error) => { "@
        + "result.failed.push(bulk_failure(&row_id, \"invalid_row\", error.to_string())); continue; } "@
        + "}; let preparation: Result<(), ApiError> = async { "@
        + "authorize_create_fields(&context, &input)?; state.extensions."@
        + hooks
        + "().before_validate_create(&context, &mut input).await?; validate_create(&input)?; "@
        + "Ok(()) }.await; if let Err(error) = preparation { "@
        + "result.failed.push(error.into_bulk_failure(&row_id)); continue; } "@
        + "let savepoint = transaction.begin().await?; let outcome: Result<"@
        + module
        + "::Model, ApiError> = async { "@
        + "let context = RequestContext::transaction_with_file(&savepoint, &state.mail, &state.file, &state.realtime, actor.clone(), tenant); "@
        + "state.extensions."@
        + hooks
        + "().before_create(&context, &mut input).await?; "@
        + "authorize_create_fields(&context, &input)?; validate_create(&input)?; if !("@
        + create_allowed
        + ") { return Err(access_denied(&context)); } if !state.extensions."@
        + policy
        + "().can_create(&context, &input).await? { return Err(ApiError::Forbidden); } let active = "@
        + module
        + "::ActiveModel { "@
        + suffixed_text(create_values, ", "@)
        + " "@
        + active_default
        + " }; let model = active.insert(&savepoint).await?; state.extensions."@
        + hooks
        + "().after_create(&context, &model).await?; "@
        + audit
        + " Ok(model) }.await; match outcome { Ok(model) => { savepoint.commit().await?; "@
        + "result.succeeded.push(row_id); created.push(model); } Err(error) => { "@
        + "savepoint.rollback().await?; result.failed.push(error.into_bulk_failure(&row_id)); } } } "@
        + "transaction.commit().await?; for model in &created { "@
        + "publish_realtime_event(&state, &context, "@
        + create_event
        + ", model); "@
        + "run_after_commit(&state, crate::HookOperation::Create, model, actor.clone(), tenant).await; "@
        + "} Ok(Json(result)) }"@
}

fn import_handler(field_names: &str, field_match: &Vec<String>, hooks: &str, module: &str, create_allowed: &str, policy: &str, create_values: &Vec<String>, active_default: &str, audit: &str, create_event: &str) -> (text: String)
    ensures
        text@ == import_text(field_names@, texts(field_match@), hooks@, module@, create_allowed@, policy@, texts(create_values@), active_default@, audit@, create_event@),
{
    proof {
        reveal(import_text);
    }
    let mut text = String::from_str("async fn import_csv(State(state): State<AppState>, headers: HeaderMap, body: String) -> Result<Json<BulkResult>, ApiError> { ");
    text.append("let context = state.mutation_context(&headers).await?; ");
    text.append("let rows = parse_csv_rows(&body).map_err(|error| ApiError::InvalidQuery(error.to_string()))?; ");
    text.append("let Some(header_row) = rows.first() else { return Ok(Json(BulkResult { ");
    text.append("succeeded: Vec::new(), failed: Vec::new() })); }; ");
    text.append("if rows.len() - 1 > MAX_CSV_IMPORT_ROWS { ");
    text.append("return Err(ApiError::InvalidQuery(format!(\"CSV import is limited to {MAX_CSV_IMPORT_ROWS} ");
    text.append("rows\"))); } let expected = [");
    text.append(field_names);
    text.append("]; if header_row.iter().map(String::as_str).any(|name| !expected.contains(&name)) { ");
    text.append("return Err(ApiError::InvalidQuery(\"CSV contains an unknown column\".to_owned())); } ");
    text.append("let actor = context.actor().cloned(); let tenant = context.tenant(); ");
    text.append("let transaction = state.database.begin().await?; let mut result = BulkResult { ");
    text.append("succeeded: Vec::new(), failed: Vec::new() }; let mut created = Vec::new(); ");
    text.append("for (index, row) in rows.iter().skip(1).enumerate() { let row_id = index.to_string(); ");
    text.append("if row.len() != header_row.len() { ");
    text.append("result.failed.push(bulk_failure(&row_id, \"invalid_row\", \"CSV row has a different number of columns than the header\")); ");
    text.append("continue; } let mut object = serde_json::Map::new(); ");
    text.append("for (column, raw) in header_row.iter().zip(row.iter()) { match column.as_str() { ");
    append_suffixed(&mut text, field_match, " ");
    text.append(" _ => {} } } ");
    text.append("let mut input: CreateInput = match serde_json::from_value(serde_json::Value::Object(object)) { ");
    text.append("Ok(input) => input, Err(error) => { ");
    text.append("result.failed.push(bulk_failure(&row_id, \"invalid_row\", error.to_string())); continue; } ");
    text.append("}; let preparation: Result<(), ApiError> = async { ");
    text.append("authorize_create_fields(&context, &input)?; state.extensions.");
    text.append(hooks);
    text.append("().before_validate_create(&context, &mut input).await?; validate_create(&input)?; ");
    text.append("Ok(()) }.await; if let Err(error) = preparation { ");
    text.append("result.failed.push(error.into_bulk_failure(&row_id)); continue; } ");
    text.append("let savepoint = transaction.begin().await?; let outcome: Result<");
    text.append(module);
    text.append("::Model, ApiError> = async { ");
    text.append("let context = RequestContext::transaction_with_file(&savepoint, &state.mail, &state.file, &state.realtime, actor.clone(), tenant); ");
    text.append("state.extensions.");
    text.append(hooks);
    text.append("().before_create(&context, &mut input).await?; ");
    text.append("authorize_create_fields(&context, &input)?; validate_create(&input)?; if !(");
    text.append(create_allowed);
    text.append(") { return Err(access_denied(&context)); } if !state.extensions.");
    text.append(policy);
    text.append("().can_create(&context, &input).await? { return Err(ApiError::Forbidden); } let active = ");
    text.append(module);
    text.append("::ActiveModel { ");
    append_suffixed(&mut text, create_values, ", ");
    text.append(" ");
    text.append(active_default);
    text.append(" }; let model = active.insert(&savepoint).await?; state.extensions.");
    text.append(hooks);
    text.append("().after_create(&context, &model).await?; ");
    text.append(audit);
    text.append(" Ok(model) }.await; match outcome { Ok(model) => { savepoint.commit().await?; ");
    text.append("result.succeeded.push(row_id); created.push(model); } Err(error) => { ");
    text.append("savepoint.rollback().await?; result.failed.push(error.into_bulk_failure(&row_id)); } } } ");
    text.append("transaction.commit().await?; for model in &created { ");
    text.append("publish_realtime_event(&state, &context, ");
    text.append(create_event);
    text.append(", model); ");
    text.append("run_after_commit(&state, crate::HookOperation::Create, model, actor.clone(), tenant).await; ");
    text.append("} Ok(Json(result)) }");
    text
}

/// The arm that reads one CSV column into the JSON object of a row.
#[verifier::opaque]
pub open spec fn field_match_text(name: Seq<char>, kind: Seq<char>) -> Seq<char> {
    name
        + " => { object.insert("@
        + name
        + ".to_owned(), csv_json_value(raw, "@
        + kind
        + ")); }"@
}

fn field_match_arm(name: &str, kind: &str) -> (text: String)
    ensures
        text@ == field_match_text(name@, kind@),
{
    proof {
        reveal(field_match_text);
    }
    let mut text = String::new();
    text.append(name);
    text.append(" => { object.insert(");
    text.append(name);
    text.append(".to_owned(), csv_json_value(raw, ");
    text.append(kind);
    text.append(")); }");
    text
}

/// The bulk endpoints of an entity: update, delete, CSV export and import,
/// and restore and trash where records are soft-deleted.
#[verifier::opaque]
pub open spec fn bulk_text(update: Seq<char>, delete: Seq<char>, export: Seq<char>, import: Seq<char>, restore: Seq<char>, trash: Seq<char>) -> Seq<char> {
    "use appstruct_runtime::{ "@
        + "BulkDeleteInput, BulkResult, BulkUpdateInput, CSV_EXPORT_PAGE_SIZE, MAX_BULK_ITEMS, MAX_CSV_EXPORT_ROWS, MAX_CSV_IMPORT_ROWS, bulk_failure, bulk_request_size_is_valid, csv_cell, csv_escape, csv_json_value, parse_csv_rows, }; "@
        + update
        + " "@
        + delete
        + " "@
        + export
        + " "@
        + import
        + " "@
        + restore
        + " "@
        + trash
}

fn bulk_block(update: &str, delete: &str, export: &str, import: &str, restore: &str, trash: &str) -> (text: String)
    ensures
        text@ == bulk_text(update@, delete@, export@, import@, restore@, trash@),
{
    proof {
        reveal(bulk_text);
    }
    let mut text = String::from_str("use appstruct_runtime::{ ");
    text.append("BulkDeleteInput, BulkResult, BulkUpdateInput, CSV_EXPORT_PAGE_SIZE, MAX_BULK_ITEMS, MAX_CSV_EXPORT_ROWS, MAX_CSV_IMPORT_ROWS, bulk_failure, bulk_request_size_is_valid, csv_cell, csv_escape, csv_json_value, parse_csv_rows, }; ");
    text.append(update);
    text.append(" ");
    text.append(delete);
    text.append(" ");
    text.append(export);
    text.append(" ");
    text.append(import);
    text.append(" ");
    text.append(restore);
    text.append(" ");
    text.append(trash);
    text
}

/// The `("api_name", "rust_name")` pair of a field in the CSV export.
pub open spec fn column_pair_text(field: Field) -> Seq<char> {
    "("@ + literal_text(field.api_name@) + ", "@ + literal_text(field.rust_name@) + ")"@
}

/// The CSV export columns of every field, in order.
pub open spec fn export_columns_text(fields: Seq<Field>) -> Seq<char> {
    join_text(fields.map_values(|field: Field| column_pair_text(field)), ", "@)
}

/// The CSV column names that an import accepts: every field's API name.
pub open spec fn import_names_text(fields: Seq<Field>) -> Seq<char> {
    join_text(fields.map_values(|field: Field| literal_text(field.api_name@)), ", "@)
}

/// The arms that read the columns of the fields the client may supply.
pub open spec fn field_matches_spec(fields: Seq<Field>) -> Seq<Seq<char>>
    decreases fields.len(),
{
    if fields.len() == 0 {
        Seq::<Seq<char>>::empty()
    } else if fields.last().generated is None {
        field_matches_spec(fields.drop_last()).push(
            field_match_text(literal_text(fields.last().api_name@), literal_text(csv_kind(fields.last().ty))),
        )
    } else {
        field_matches_spec(fields.drop_last())
    }
}

fn csv_columns(fields: &Vec<Field>) -> (result: (String, String, Vec<String>))
    ensures
        result.0@ == export_columns_text(fields@),
        result.1@ == import_names_text(fields@),
        texts(result.2@) == field_matches_spec(fields@),
{
    let mut pairs: Vec<String> = Vec::new();
    let mut names: Vec<String> = Vec::new();
    let mut matches: Vec<String> = Vec::new();
    let mut i: usize = 0;
    proof {
        assert(fields@.subrange(0, 0) == Seq::<Field>::empty());
        assert(texts(pairs@) == Seq::<Seq<char>>::empty());
        assert(texts(names@) == Seq::<Seq<char>>::empty());
        assert(texts(matches@) == Seq::<Seq<char>>::empty());
    }
    while i < fields.len()
        invariant
            i <= fields.len(),
            texts(pairs@) == fields@.subrange(0, i as int).map_values(|field: Field| column_pair_text(field)),
            texts(names@) == fields@.subrange(0, i as int).map_values(|field: Field| literal_text(field.api_name@)),
            texts(matches@) == field_matches_spec(fields@.subrange(0, i as int)),
        decreases fields.len() - i,
    {
        let field = &fields[i];
        proof {
            assert(fields@.subrange(0, i + 1).drop_last() == fields@.subrange(0, i as int));
        }
        let api = string_literal(field.api_name.as_str());
        let rust = string_literal(field.rust_name.as_str());
        let mut pair = String::from_str("(");
        pair.append(api.as_str());
        pair.append(", ");
        pair.append(rust.as_str());
        pair.append(")");
        let ghost old_pairs = texts(pairs@);
        let ghost old_names = texts(names@);
        pairs.push(pair);
        names.push(api.clone());
        proof {
            assert(texts(pairs@) == old_pairs.push(pair@));
            assert(texts(names@) == old_names.push(api@));
            assert(pair@ == column_pair_text(*field));
            assert(fields@.subrange(0, i + 1)[i as int] == *field);
            assert(texts(pairs@) =~= fields@.subrange(0, i + 1).map_values(|field: Field| column_pair_text(field)));
            assert(texts(names@) =~= fields@.subrange(0, i + 1).map_values(|field: Field| literal_text(field.api_name@)));
        }
        if field.generated.is_none() {
            let kind_literal = string_literal(kind(&field.ty));
            let arm = field_match_arm(api.as_str(), kind_literal.as_str());
            let ghost old_matches = texts(matches@);
            matches.push(arm);
            proof {
                assert(texts(matches@) == old_matches.push(arm@));
            }
        }
        i = i + 1;
    }
    proof {
        assert(fields@.subrange(0, fields@.len() as int) == fields@);
    }
    let mut columns = String::new();
    append_joined(&mut columns, &pairs, ", ");
    let mut field_names = String::new();
    append_joined(&mut field_names, &names, ", ");
    (columns, field_names, matches)
}

/// What the bulk endpoints are generated from, besides the entity: the
/// module, primary key, hooks and policy names, the list scope, the write
/// guards, the create and update assignments, and the scopes of the trash
/// (soft-deleted records the list rule admits) and of restores (those the
/// read rule admits).
pub struct BulkSource {
    pub module: String,
    pub primary: String,
    pub hooks: String,
    pub policy: String,
    pub list_scope: String,
    pub create_allowed: String,
    pub delete_allowed: String,
    pub update_allowed: String,
    pub create_values: Vec<String>,
    pub active_default: Option<String>,
    pub updates: Vec<String>,
    pub trash_scope: String,
    pub restore_scope: String,
}

/// The view of the optional `ActiveModel` completion.
pub open spec fn active_default_text(source: BulkSource) -> Seq<char> {
    match source.active_default {
        Some(text) => text@,
        None => Seq::<char>::empty(),
    }
}

/// The message of an entity without a primary key.
pub open spec fn missing_primary_text() -> Seq<char> {
    "entity must define a primary key"@
}

/// The bulk endpoints of an entity, or the first error: the read scope, the
/// primary key, then its column.
pub open spec fn bulk_source_spec(entity: Entity, source: BulkSource) -> Result<Seq<char>, Seq<char>> {
    bulk_text_spec(
        entity,
        source.module@,
        source.primary@,
        source.hooks@,
        source.policy@,
        source.list_scope@,
        source.create_allowed@,
        source.delete_allowed@,
        source.update_allowed@,
        texts(source.create_values@),
        active_default_text(source),
        texts(source.updates@),
        source.trash_scope@,
        source.restore_scope@,
    )
}

/// The bulk endpoints of an entity, from the views of what they are generated from.
pub open spec fn bulk_text_spec(
    entity: Entity,
    module: Seq<char>,
    primary: Seq<char>,
    hooks: Seq<char>,
    policy: Seq<char>,
    list_scope: Seq<char>,
    create_allowed: Seq<char>,
    delete_allowed: Seq<char>,
    update_allowed: Seq<char>,
    create_values: Seq<Seq<char>>,
    active_default: Seq<char>,
    updates: Seq<Seq<char>>,
    trash_scope: Seq<char>,
    restore_scope: Seq<char>,
) -> Result<Seq<char>, Seq<char>> {
    let fields = entity.fields@;
    match condition_error(fields, entity.access.read) {
        Some(error) => Err(error),
        None => match first_primary(fields) {
            None => Err(missing_primary_text()),
            Some(primary_field) => match column_result(primary_field) {
                Err(error) => Err(error),
                Ok(primary_column) => {
                    let read_scope = list_scope_text(entity, module, entity.access.read);
                    let parse_id = bulk_parse_id_text(primary_field.ty);
                    let update = bulk_update_text(
                        hooks,
                        parse_id,
                        module,
                        read_scope,
                        policy,
                        updates,
                        update_allowed,
                        bulk_audit_text(entity.audit_enabled, entity.id@, primary, BulkChange::Update),
                        bulk_event_text(module, "updated"@),
                    );
                    let delete = bulk_delete_text(
                        parse_id,
                        module,
                        read_scope,
                        policy,
                        delete_allowed,
                        hooks,
                        bulk_delete_model_text(entity.views.soft_delete),
                        bulk_audit_text(entity.audit_enabled, entity.id@, primary, BulkChange::Delete),
                        bulk_event_text(module, "deleted"@),
                    );
                    let export = export_text(policy, module, list_scope, primary_column, export_columns_text(fields));
                    let import = import_text(
                        import_names_text(fields),
                        field_matches_spec(fields),
                        hooks,
                        module,
                        create_allowed,
                        policy,
                        create_values,
                        active_default,
                        bulk_audit_text(entity.audit_enabled, entity.id@, primary, BulkChange::Create),
                        bulk_event_text(module, "created"@),
                    );
                    let restore = if entity.views.soft_delete {
                        bulk_restore_text(
                            parse_id,
                            module,
                            restore_scope,
                            policy,
                            hooks,
                            update_allowed,
                            bulk_audit_text(entity.audit_enabled, entity.id@, primary, BulkChange::Restore),
                            bulk_event_text(module, "updated"@),
                        )
                    } else {
                        Seq::<char>::empty()
                    };
                    let trash = if entity.views.soft_delete {
                        trash_handler_text(policy, module, trash_scope, primary_column)
                    } else {
                        Seq::<char>::empty()
                    };
                    Ok(bulk_text(update, delete, export, import, restore, trash))
                },
            },
        },
    }
}

fn find_primary(entity: &Entity) -> (result: Option<&Field>)
    ensures
        match result {
            Some(field) => first_primary(entity.fields@) == Some(*field),
            None => first_primary(entity.fields@) is None,
        },
{
    let mut i: usize = 0;
    proof {
        assert(entity.fields@.skip(0) == entity.fields@);
    }
    while i < entity.fields.len()
        invariant
            i <= entity.fields.len(),
            first_primary(entity.fields@) == first_primary(entity.fields@.skip(i as int)),
        decreases entity.fields.len() - i,
    {
        proof {
            assert(entity.fields@.skip(i as int).drop_first() == entity.fields@.skip(i + 1));
        }
        if entity.fields[i].primary_key {
            return Some(&entity.fields[i]);
        }
        i = i + 1;
    }
    None
}

/// The bulk endpoints of an entity.
pub fn bulk_source(entity: &Entity, source: &BulkSource) -> (result: Result<String, CodegenError>)
    ensures
        match result {
            Ok(text) => bulk_source_spec(*entity, *source) == Ok::<Seq<char>, Seq<char>>(text@),
            Err(error) => bulk_source_spec(*entity, *source) == Err::<Seq<char>, Seq<char>>(error@),
        },
{
    let module = source.module.as_str();
    let hooks = source.hooks.as_str();
    let policy = source.policy.as_str();
    let primary = source.primary.as_str();
    let read_scope = scope(entity, module, &entity.access.read)?;
    let primary_field = match find_primary(entity) {
        Some(field) => field,
        None => {
            return Err(CodegenError::new(String::from_str("entity must define a primary key")));
        },
    };
    let primary_column = column_ident(primary_field)?;
    let parse_id = bulk_parse_id_expression(primary_field);
    let (columns, field_names, field_matches) = csv_columns(&entity.fields);
    let update_audit = bulk_audit_event(entity.audit_enabled, entity.id.as_str(), primary, BulkChange::Update);
    let update_event = bulk_event(module, "updated");
    let update_text = bulk_update(
        hooks,
        parse_id,
        module,
        read_scope.as_str(),
        policy,
        &source.updates,
        source.update_allowed.as_str(),
        update_audit.as_str(),
        update_event.as_str(),
    );
    let delete_model = bulk_delete_model(entity.views.soft_delete);
    let delete_audit = bulk_audit_event(entity.audit_enabled, entity.id.as_str(), primary, BulkChange::Delete);
    let delete_event = bulk_event(module, "deleted");
    let delete_text = bulk_delete(
        parse_id,
        module,
        read_scope.as_str(),
        policy,
        source.delete_allowed.as_str(),
        hooks,
        delete_model.as_str(),
        delete_audit.as_str(),
        delete_event.as_str(),
    );
    let export_text = export_handler(policy, module, source.list_scope.as_str(), primary_column.as_str(), columns.as_str());
    let active_default = match &source.active_default {
        Some(text) => text.as_str(),
        None => "",
    };
    proof {
        reveal_strlit("");
    }
    let create_audit = bulk_audit_event(entity.audit_enabled, entity.id.as_str(), primary, BulkChange::Create);
    let create_event = bulk_event(module, "created");
    let import_text = import_handler(
        field_names.as_str(),
        &field_matches,
        hooks,
        module,
        source.create_allowed.as_str(),
        policy,
        &source.create_values,
        active_default,
        create_audit.as_str(),
        create_event.as_str(),
    );
    let restore_text = if entity.views.soft_delete {
        let restore_audit = bulk_audit_event(entity.audit_enabled, entity.id.as_str(), primary, BulkChange::Restore);
        bulk_restore(
            parse_id,
            module,
            source.restore_scope.as_str(),
            policy,
            hooks,
            source.update_allowed.as_str(),
            restore_audit.as_str(),
            update_event.as_str(),
        )
    } else {
        String::new()
    };
    let trash_text = if entity.views.soft_delete {
        trash_handler(policy, module, source.trash_scope.as_str(), primary_column.as_str())
    } else {
        String::new()
    };
    proof {
        assert(read_scope@ == list_scope_text(*entity, module@, entity.access.read));
        assert(first_primary(entity.fields@) == Some(*primary_field));
        assert(column_result(*primary_field) == Ok::<Seq<char>, Seq<char>>(primary_column@));
        assert(active_default@ == active_default_text(*source));
    }
    Ok(bulk_block(
        update_text.as_str(),
        delete_text.as_str(),
        export_text.as_str(),
        import_text.as_str(),
        restore_text.as_str(),
        trash_text.as_str(),
    ))
}

} // verus!
