use vstd::prelude::*;
use vstd::string::StringExecFns;
use crate::access::{
    condition_error, create_allowed, guard_error, guard_text, member_scope, member_scope_text, row_allowed,
    update_allowed,
};
use crate::artifact::CodegenError;
use crate::field_access::{literal_text, string_literal};
use crate::fields::texts;
use crate::ir::Entity;
use crate::naming::{module_name, snake_text};
use crate::text::{append_suffixed, suffixed_text};

verus! {

/// The three writes that an entity's endpoints perform.
#[derive(Clone, Copy, Debug, PartialEq, Eq, Structural)]
pub enum WriteOperation {
    Create,
    Update,
    Delete,
}

/// The binding that holds the written record after the operation.
pub open spec fn record_binding(operation: WriteOperation) -> Seq<char> {
    match operation {
        WriteOperation::Create => "model"@,
        WriteOperation::Update => "after"@,
        WriteOperation::Delete => "deleted"@,
    }
}

/// The past tense that names the operation in events.
pub open spec fn past_tense(operation: WriteOperation) -> Seq<char> {
    match operation {
        WriteOperation::Create => "created"@,
        WriteOperation::Update => "updated"@,
        WriteOperation::Delete => "deleted"@,
    }
}

fn record_name(operation: WriteOperation) -> (text: &'static str)
    ensures
        text@ == record_binding(operation),
{
    match operation {
        WriteOperation::Create => "model",
        WriteOperation::Update => "after",
        WriteOperation::Delete => "deleted",
    }
}

fn past_name(operation: WriteOperation) -> (text: &'static str)
    ensures
        text@ == past_tense(operation),
{
    match operation {
        WriteOperation::Create => "created",
        WriteOperation::Update => "updated",
        WriteOperation::Delete => "deleted",
    }
}

/// The audit record of a write, where the entity keeps an audit trail: the
/// operation's name with the record before and after it.
pub open spec fn audit_event_text(entity: Entity, primary: Seq<char>, operation: WriteOperation) -> Seq<char> {
    let entity_id = literal_text(entity.id@);
    if !entity.audit_enabled {
        Seq::<char>::empty()
    } else {
        match operation {
            WriteOperation::Create => {
                "crate::audit::record(&transaction, &context, "@
                    + entity_id
                    + ", model."@
                    + primary
                    + ".to_string(), \"create\", None, Some(&model),).await?;"@
            },
            WriteOperation::Update => {
                "crate::audit::record(&transaction, &context, "@
                    + entity_id
                    + ", after."@
                    + primary
                    + ".to_string(), \"update\", Some(&before), Some(&after),).await?;"@
            },
            WriteOperation::Delete => {
                "crate::audit::record(&transaction, &context, "@
                    + entity_id
                    + ", deleted."@
                    + primary
                    + ".to_string(), \"delete\", Some(&deleted), None,).await?;"@
            },
        }
    }
}

/// The audit statement of a write, or nothing where auditing is off.
pub fn audit_event(entity: &Entity, primary: &str, operation: WriteOperation) -> (text: String)
    ensures
        text@ == audit_event_text(*entity, primary@, operation),
{
    if !entity.audit_enabled {
        return String::new();
    }
    let literal = string_literal(entity.id.as_str());
    let entity_id = literal.as_str();
    match operation {
        WriteOperation::Create => {
            let mut text = String::from_str("crate::audit::record(&transaction, &context, ");
            text.append(entity_id);
            text.append(", model.");
            text.append(primary);
            text.append(".to_string(), \"create\", None, Some(&model),).await?;");
            text
        },
        WriteOperation::Update => {
            let mut text = String::from_str("crate::audit::record(&transaction, &context, ");
            text.append(entity_id);
            text.append(", after.");
            text.append(primary);
            text.append(".to_string(), \"update\", Some(&before), Some(&after),).await?;");
            text
        },
        WriteOperation::Delete => {
            let mut text = String::from_str("crate::audit::record(&transaction, &context, ");
            text.append(entity_id);
            text.append(", deleted.");
            text.append(primary);
            text.append(".to_string(), \"delete\", Some(&deleted), None,).await?;");
            text
        },
    }
}

/// The activity record of a write, where the entity feeds an activity resource.
pub open spec fn write_event_text(resource: Option<Seq<char>>, primary: Seq<char>, operation: WriteOperation) -> Seq<char> {
    match resource {
        None => Seq::<char>::empty(),
        Some(name) => {
            let resource = literal_text(name);
            let model = record_binding(operation);
            let event = literal_text(past_tense(operation));
            "crate::activity::record_system_event(&transaction, &context, "@
                + resource
                + ", "@
                + model
                + "."@
                + primary
                + ".to_string(), "@
                + event
                + ",).await?;"@
        },
    }
}

/// The activity statement of a write, or nothing where the entity has no activity resource.
pub fn write_event(resource: Option<&str>, primary: &str, operation: WriteOperation) -> (text: String)
    ensures
        text@ == write_event_text(
            match resource {
                Some(name) => Some(name@),
                None => None,
            },
            primary@,
            operation,
        ),
{
    match resource {
        None => String::new(),
        Some(name) => {
            let literal = string_literal(name);
            let resource = literal.as_str();
            let model = record_name(operation);
            let past = string_literal(past_name(operation));
            let event = past.as_str();
            let mut text = String::from_str("crate::activity::record_system_event(&transaction, &context, ");
            text.append(resource);
            text.append(", ");
            text.append(model);
            text.append(".");
            text.append(primary);
            text.append(".to_string(), ");
            text.append(event);
            text.append(",).await?;");
            text
        },
    }
}

/// The read endpoint: the record is looked up inside the read scope, and
/// one the policy refuses is reported as missing.
pub open spec fn read_handler_text(
    module: Seq<char>,
    policy: Seq<char>,
    parse_id: Seq<char>,
    read_scope: Seq<char>,
) -> Seq<char> {
    "async fn read(State(state): State<AppState>, Path(id): Path<String>, headers: HeaderMap,) -> Result<([(header::HeaderName, String); "@
        + "1], Json<serde_json::Value>), ApiError> { let context = state.context(&headers).await?; "@
        + "let id = "@
        + parse_id
        + "; "@
        + read_scope
        + " let model = "@
        + module
        + "::Entity::find_by_id(id).filter(access_condition).one(&state.database).await?.ok_or(ApiError::NotFound)?; "@
        + "if !state.extensions."@
        + policy
        + "().can_read(&context, &model).await? { return Err(ApiError::NotFound); } "@
        + "Ok((etag_header(&model), Json(redact_model(&context, model)?))) }"@
}

fn read_handler(
    module: &str,
    policy: &str,
    parse_id: &str,
    read_scope: &str,
) -> (text: String)
    ensures
        text@ == read_handler_text(
            module@,
            policy@,
            parse_id@,
            read_scope@,
        ),
{
    let mut text = String::from_str("async fn read(State(state): State<AppState>, Path(id): Path<String>, headers: HeaderMap,) -> Result<([(header::HeaderName, String); ");
    text.append("1], Json<serde_json::Value>), ApiError> { let context = state.context(&headers).await?; ");
    text.append("let id = ");
    text.append(parse_id);
    text.append("; ");
    text.append(read_scope);
    text.append(" let model = ");
    text.append(module);
    text.append("::Entity::find_by_id(id).filter(access_condition).one(&state.database).await?.ok_or(ApiError::NotFound)?; ");
    text.append("if !state.extensions.");
    text.append(policy);
    text.append("().can_read(&context, &model).await? { return Err(ApiError::NotFound); } ");
    text.append("Ok((etag_header(&model), Json(redact_model(&context, model)?))) }");
    text
}

/// The create endpoint: field rights and validation are checked before and
/// after the `before_create` hook, then the create guard and the policy, and
/// the record is inserted, audited and published inside one transaction.
pub open spec fn create_handler_text(
    module: Seq<char>,
    hooks: Seq<char>,
    policy: Seq<char>,
    create_values: Seq<Seq<char>>,
    active_default: Seq<char>,
    create_allowed: Seq<char>,
    audit: Seq<char>,
    activity: Seq<char>,
    event: Seq<char>,
) -> Seq<char> {
    "async fn create(State(state): State<AppState>, headers: HeaderMap, Json(mut input): Json<CreateInput>,) -> Result<(StatusCode, [(header::HeaderName, String); "@
        + "1], Json<serde_json::Value>), ApiError> { "@
        + "let context = state.mutation_context(&headers).await?; "@
        + "let actor = context.actor().cloned(); let tenant = context.tenant(); "@
        + "authorize_create_fields(&context, &input)?; state.extensions."@
        + hooks
        + "().before_validate_create(&context, &mut input).await?; validate_create(&input)?; "@
        + "let transaction = state.database.begin().await?; let model = { "@
        + "let context = RequestContext::transaction_with_file(&transaction, &state.mail, &state.file, &state.realtime, actor.clone(), tenant,); "@
        + "state.extensions."@
        + hooks
        + "().before_create(&context, &mut input).await?; "@
        + "authorize_create_fields(&context, &input)?; validate_create(&input)?; if !("@
        + create_allowed
        + ") { return Err(access_denied(&context)); } if !state.extensions."@
        + policy
        + "().can_create(&context, &input).await? { return Err(ApiError::Forbidden); } let active = "@
        + module
        + "::ActiveModel { "@
        + suffixed_text(create_values, ", "@)
        + " "@
        + active_default
        + " }; let model = active.insert(&transaction).await?; state.extensions."@
        + hooks
        + "().after_create(&context, &model).await?; "@
        + audit
        + " "@
        + activity
        + " model }; transaction.commit().await?; publish_realtime_event(&state, &context, "@
        + event
        + ", &model); "@
        + "run_after_commit(&state, crate::HookOperation::Create, &model, actor, tenant).await; "@
        + "Ok((StatusCode::CREATED, etag_header(&model), Json(redact_model(&context, model)?))) }"@
}

fn create_handler(
    module: &str,
    hooks: &str,
    policy: &str,
    create_values: &Vec<String>,
    active_default: &str,
    create_allowed: &str,
    audit: &str,
    activity: &str,
    event: &str,
) -> (text: String)
    ensures
        text@ == create_handler_text(
            module@,
            hooks@,
            policy@,
            texts(create_values@),
            active_default@,
            create_allowed@,
            audit@,
            activity@,
            event@,
        ),
{
    let mut text = String::from_str("async fn create(State(state): State<AppState>, headers: HeaderMap, Json(mut input): Json<CreateInput>,) -> Result<(StatusCode, [(header::HeaderName, String); ");
    text.append("1], Json<serde_json::Value>), ApiError> { ");
    text.append("let context = state.mutation_context(&headers).await?; ");
    text.append("let actor = context.actor().cloned(); let tenant = context.tenant(); ");
    text.append("authorize_create_fields(&context, &input)?; state.extensions.");
    text.append(hooks);
    text.append("().before_validate_create(&context, &mut input).await?; validate_create(&input)?; ");
    text.append("let transaction = state.database.begin().await?; let model = { ");
    text.append("let context = RequestContext::transaction_with_file(&transaction, &state.mail, &state.file, &state.realtime, actor.clone(), tenant,); ");
    text.append("state.extensions.");
    text.append(hooks);
    text.append("().before_create(&context, &mut input).await?; ");
    text.append("authorize_create_fields(&context, &input)?; validate_create(&input)?; if !(");
    text.append(create_allowed);
    text.append(") { return Err(access_denied(&context)); } if !state.extensions.");
    text.append(policy);
    text.append("().can_create(&context, &input).await? { return Err(ApiError::Forbidden); } let active = ");
    text.append(module);
    text.append("::ActiveModel { ");
    append_suffixed(&mut text, create_values, ", ");
    text.append(" ");
    text.append(active_default);
    text.append(" }; let model = active.insert(&transaction).await?; state.extensions.");
    text.append(hooks);
    text.append("().after_create(&context, &model).await?; ");
    text.append(audit);
    text.append(" ");
    text.append(activity);
    text.append(" model }; transaction.commit().await?; publish_realtime_event(&state, &context, ");
    text.append(event);
    text.append(", &model); ");
    text.append("run_after_commit(&state, crate::HookOperation::Create, &model, actor, tenant).await; ");
    text.append("Ok((StatusCode::CREATED, etag_header(&model), Json(redact_model(&context, model)?))) }");
    text
}

/// The update endpoint: the `If-Match` revision must match the stored one,
/// the record is locked inside the read scope, the updates are applied with
/// the revision raised by one, and the update guard and policy judge the candidate.
pub open spec fn update_handler_text(
    module: Seq<char>,
    hooks: Seq<char>,
    policy: Seq<char>,
    parse_id: Seq<char>,
    updates: Seq<Seq<char>>,
    read_scope: Seq<char>,
    update_allowed: Seq<char>,
    audit: Seq<char>,
    activity: Seq<char>,
    event: Seq<char>,
) -> Seq<char> {
    "async fn update(State(state): State<AppState>, Path(id): Path<String>, headers: HeaderMap, Json(mut input): Json<UpdateInput>,) -> Result<([(header::HeaderName, String); "@
        + "1], Json<serde_json::Value>), ApiError> { let expected = expected_revision(&headers)?; "@
        + "let context = state.mutation_context(&headers).await?; "@
        + "let actor = context.actor().cloned(); let tenant = context.tenant(); "@
        + "authorize_update_fields(&context, &input)?; state.extensions."@
        + hooks
        + "().before_validate_update(&context, &mut input).await?; validate_update(&input)?; "@
        + "let id = "@
        + parse_id
        + "; let transaction = state.database.begin().await?; let after = { "@
        + "let context = RequestContext::transaction_with_file(&transaction, &state.mail, &state.file, &state.realtime, actor.clone(), tenant,); "@
        + read_scope
        + " let before = "@
        + module
        + "::Entity::find_by_id(id).filter(access_condition).lock_exclusive().one(&transaction).await?.ok_or(ApiError::NotFound)?; "@
        + "if !state.extensions."@
        + policy
        + "().can_read(&context, &before).await? { return Err(ApiError::NotFound); } "@
        + "if before.revision != expected { return Err(ApiError::ConcurrentModification); } "@
        + "state.extensions."@
        + hooks
        + "().before_update(&context, &before, &mut input).await?; "@
        + "authorize_update_fields(&context, &input)?; validate_update(&input)?; "@
        + "let mut active = before.clone().into_active_model(); "@
        + suffixed_text(updates, " "@)
        + " active.revision = Set(before.revision.checked_add(1).ok_or_else(|| sea_orm::DbErr::Custom(\"revision overflow\".to_owned()))?); "@
        + "let candidate = active.clone().try_into_model()?; if !("@
        + update_allowed
        + ") { return Err(access_denied(&context)); } if !state.extensions."@
        + policy
        + "().can_update(&context, &before, &input, &candidate).await? { "@
        + "return Err(ApiError::Forbidden); } let after = active.update(&transaction).await?; "@
        + "state.extensions."@
        + hooks
        + "().after_update(&context, &before, &after).await?; "@
        + audit
        + " "@
        + activity
        + " after }; transaction.commit().await?; publish_realtime_event(&state, &context, "@
        + event
        + ", &after); "@
        + "run_after_commit(&state, crate::HookOperation::Update, &after, actor, tenant).await; "@
        + "Ok((etag_header(&after), Json(redact_model(&context, after)?))) }"@
}

fn update_handler(
    module: &str,
    hooks: &str,
    policy: &str,
    parse_id: &str,
    updates: &Vec<String>,
    read_scope: &str,
    update_allowed: &str,
    audit: &str,
    activity: &str,
    event: &str,
) -> (text: String)
    ensures
        text@ == update_handler_text(
            module@,
            hooks@,
            policy@,
            parse_id@,
            texts(updates@),
            read_scope@,
            update_allowed@,
            audit@,
            activity@,
            event@,
        ),
{
    let mut text = String::from_str("async fn update(State(state): State<AppState>, Path(id): Path<String>, headers: HeaderMap, Json(mut input): Json<UpdateInput>,) -> Result<([(header::HeaderName, String); ");
    text.append("1], Json<serde_json::Value>), ApiError> { let expected = expected_revision(&headers)?; ");
    text.append("let context = state.mutation_context(&headers).await?; ");
    text.append("let actor = context.actor().cloned(); let tenant = context.tenant(); ");
    text.append("authorize_update_fields(&context, &input)?; state.extensions.");
    text.append(hooks);
    text.append("().before_validate_update(&context, &mut input).await?; validate_update(&input)?; ");
    text.append("let id = ");
    text.append(parse_id);
    text.append("; let transaction = state.database.begin().await?; let after = { ");
    text.append("let context = RequestContext::transaction_with_file(&transaction, &state.mail, &state.file, &state.realtime, actor.clone(), tenant,); ");
    text.append(read_scope);
    text.append(" let before = ");
    text.append(module);
    text.append("::Entity::find_by_id(id).filter(access_condition).lock_exclusive().one(&transaction).await?.ok_or(ApiError::NotFound)?; ");
    text.append("if !state.extensions.");
    text.append(policy);
    text.append("().can_read(&context, &before).await? { return Err(ApiError::NotFound); } ");
    text.append("if before.revision != expected { return Err(ApiError::ConcurrentModification); } ");
    text.append("state.extensions.");
    text.append(hooks);
    text.append("().before_update(&context, &before, &mut input).await?; ");
    text.append("authorize_update_fields(&context, &input)?; validate_update(&input)?; ");
    text.append("let mut active = before.clone().into_active_model(); ");
    append_suffixed(&mut text, updates, " ");
    text.append(" active.revision = Set(before.revision.checked_add(1).ok_or_else(|| sea_orm::DbErr::Custom(\"revision overflow\".to_owned()))?); ");
    text.append("let candidate = active.clone().try_into_model()?; if !(");
    text.append(update_allowed);
    text.append(") { return Err(access_denied(&context)); } if !state.extensions.");
    text.append(policy);
    text.append("().can_update(&context, &before, &input, &candidate).await? { ");
    text.append("return Err(ApiError::Forbidden); } let after = active.update(&transaction).await?; ");
    text.append("state.extensions.");
    text.append(hooks);
    text.append("().after_update(&context, &before, &after).await?; ");
    text.append(audit);
    text.append(" ");
    text.append(activity);
    text.append(" after }; transaction.commit().await?; publish_realtime_event(&state, &context, ");
    text.append(event);
    text.append(", &after); ");
    text.append("run_after_commit(&state, crate::HookOperation::Update, &after, actor, tenant).await; ");
    text.append("Ok((etag_header(&after), Json(redact_model(&context, after)?))) }");
    text
}

/// How the delete endpoint removes a record: soft deletion stamps `deleted_at`
/// and raises the revision, hard deletion removes the row.
pub open spec fn delete_model_text(soft_delete: bool) -> Seq<char> {
    if soft_delete {
        "let mut active = model.clone().into_active_model(); "@
            + "active.deleted_at = Set(Some(chrono::Utc::now())); "@
            + "active.revision = Set(model.revision.checked_add(1).ok_or_else(|| sea_orm::DbErr::Custom(\"revision overflow\".to_owned()))?); "@
            + "active.update(&transaction).await?"@
    } else {
        "let deleted = model.clone(); model.delete(&transaction).await?; deleted"@
    }
}

/// The delete endpoint: the `If-Match` revision must match, the record is
/// locked inside the read scope, and the delete guard and policy are checked
/// before the hooks run around the removal.
pub open spec fn delete_handler_text(
    module: Seq<char>,
    hooks: Seq<char>,
    policy: Seq<char>,
    parse_id: Seq<char>,
    read_scope: Seq<char>,
    delete_allowed: Seq<char>,
    audit: Seq<char>,
    activity: Seq<char>,
    delete_model: Seq<char>,
    event: Seq<char>,
) -> Seq<char> {
    "async fn delete(State(state): State<AppState>, Path(id): Path<String>, headers: HeaderMap,) -> Result<StatusCode, ApiError> { "@
        + "let expected = expected_revision(&headers)?; "@
        + "let context = state.mutation_context(&headers).await?; "@
        + "let actor = context.actor().cloned(); let tenant = context.tenant(); let id = "@
        + parse_id
        + "; let transaction = state.database.begin().await?; let deleted = { "@
        + "let context = RequestContext::transaction_with_file(&transaction, &state.mail, &state.file, &state.realtime, actor.clone(), tenant,); "@
        + read_scope
        + " let model = "@
        + module
        + "::Entity::find_by_id(id).filter(access_condition).lock_exclusive().one(&transaction).await?.ok_or(ApiError::NotFound)?; "@
        + "if !state.extensions."@
        + policy
        + "().can_read(&context, &model).await? { return Err(ApiError::NotFound); } "@
        + "if model.revision != expected { return Err(ApiError::ConcurrentModification); } if !("@
        + delete_allowed
        + ") { return Err(access_denied(&context)); } if !state.extensions."@
        + policy
        + "().can_delete(&context, &model).await? { return Err(ApiError::Forbidden); } "@
        + "state.extensions."@
        + hooks
        + "().before_delete(&context, &model).await?; let deleted = { "@
        + delete_model
        + " }; state.extensions."@
        + hooks
        + "().after_delete(&context, &deleted).await?; "@
        + audit
        + " "@
        + activity
        + " deleted }; transaction.commit().await?; publish_realtime_event(&state, &context, "@
        + event
        + ", &deleted); "@
        + "run_after_commit(&state, crate::HookOperation::Delete, &deleted, actor, tenant).await; "@
        + "Ok(StatusCode::NO_CONTENT) }"@
}

fn delete_model(soft_delete: bool) -> (text: String)
    ensures
        text@ == delete_model_text(soft_delete),
{
    if soft_delete {
        let mut text = String::from_str("let mut active = model.clone().into_active_model(); ");
        text.append("active.deleted_at = Set(Some(chrono::Utc::now())); ");
        text.append("active.revision = Set(model.revision.checked_add(1).ok_or_else(|| sea_orm::DbErr::Custom(\"revision overflow\".to_owned()))?); ");
        text.append("active.update(&transaction).await?");
        text
    } else {
        let mut text = String::from_str("let deleted = model.clone(); model.delete(&transaction).await?; deleted");
        text
    }
}

fn delete_handler(
    module: &str,
    hooks: &str,
    policy: &str,
    parse_id: &str,
    read_scope: &str,
    delete_allowed: &str,
    audit: &str,
    activity: &str,
    delete_model: &str,
    event: &str,
) -> (text: String)
    ensures
        text@ == delete_handler_text(
            module@,
            hooks@,
            policy@,
            parse_id@,
            read_scope@,
            delete_allowed@,
            audit@,
            activity@,
            delete_model@,
            event@,
        ),
{
    let mut text = String::from_str("async fn delete(State(state): State<AppState>, Path(id): Path<String>, headers: HeaderMap,) -> Result<StatusCode, ApiError> { ");
    text.append("let expected = expected_revision(&headers)?; ");
    text.append("let context = state.mutation_context(&headers).await?; ");
    text.append("let actor = context.actor().cloned(); let tenant = context.tenant(); let id = ");
    text.append(parse_id);
    text.append("; let transaction = state.database.begin().await?; let deleted = { ");
    text.append("let context = RequestContext::transaction_with_file(&transaction, &state.mail, &state.file, &state.realtime, actor.clone(), tenant,); ");
    text.append(read_scope);
    text.append(" let model = ");
    text.append(module);
    text.append("::Entity::find_by_id(id).filter(access_condition).lock_exclusive().one(&transaction).await?.ok_or(ApiError::NotFound)?; ");
    text.append("if !state.extensions.");
    text.append(policy);
    text.append("().can_read(&context, &model).await? { return Err(ApiError::NotFound); } ");
    text.append("if model.revision != expected { return Err(ApiError::ConcurrentModification); } if !(");
    text.append(delete_allowed);
    text.append(") { return Err(access_denied(&context)); } if !state.extensions.");
    text.append(policy);
    text.append("().can_delete(&context, &model).await? { return Err(ApiError::Forbidden); } ");
    text.append("state.extensions.");
    text.append(hooks);
    text.append("().before_delete(&context, &model).await?; let deleted = { ");
    text.append(delete_model);
    text.append(" }; state.extensions.");
    text.append(hooks);
    text.append("().after_delete(&context, &deleted).await?; ");
    text.append(audit);
    text.append(" ");
    text.append(activity);
    text.append(" deleted }; transaction.commit().await?; publish_realtime_event(&state, &context, ");
    text.append(event);
    text.append(", &deleted); ");
    text.append("run_after_commit(&state, crate::HookOperation::Delete, &deleted, actor, tenant).await; ");
    text.append("Ok(StatusCode::NO_CONTENT) }");
    text
}

/// The helpers the write endpoints share: revision preconditions, the `ETag`
/// header, realtime publication and the `after_commit` hook.
pub open spec fn helper_functions_text(
    module: Seq<char>,
    hooks: Seq<char>,
    primary: Seq<char>,
    resource: Seq<char>,
) -> Seq<char> {
    "fn expected_revision(headers: &HeaderMap) -> Result<i64, ApiError> { "@
        + "let value = headers.get(header::IF_MATCH).ok_or(ApiError::PreconditionRequired)?; "@
        + "let value = value.to_str().map_err(|_| ApiError::InvalidPrecondition)?; "@
        + "appstruct_runtime::parse_revision_etag(value).ok_or(ApiError::InvalidPrecondition) } "@
        + "fn etag_header(model: &"@
        + module
        + "::Model) -> [(header::HeaderName, String); 1] { "@
        + "[(header::ETAG, appstruct_runtime::revision_etag(model.revision))] } "@
        + "fn publish_realtime_event(state: &AppState, context: &RequestContext<'_>, event: &str, model: &"@
        + module
        + "::Model,) { if let Err(error) = state.realtime.publish_resource_model(event, "@
        + resource
        + ", &model."@
        + primary
        + ".to_string(), model, context.actor().map(|actor| actor.id), context.tenant(),) { "@
        + "tracing::warn!(?error, event, \"realtime event could not be published\"); } } "@
        + "async fn run_after_commit(state: &AppState, operation: crate::HookOperation, model: &"@
        + module
        + "::Model, actor: Option<crate::Actor>, tenant: Option<crate::TenantId>,) { "@
        + "let context = RequestContext::connection_with_services(&state.database, &state.mail, &state.file, &state.realtime, actor, tenant,); "@
        + "if let Err(error) = state.extensions."@
        + hooks
        + "().after_commit(&context, operation, model).await { "@
        + "tracing::error!(?error, ?operation, entity = stringify!("@
        + module
        + "), \"after_commit hook failed\"); } }"@
}

fn helper_functions(
    module: &str,
    hooks: &str,
    primary: &str,
    resource: &str,
) -> (text: String)
    ensures
        text@ == helper_functions_text(
            module@,
            hooks@,
            primary@,
            resource@,
        ),
{
    let mut text = String::from_str("fn expected_revision(headers: &HeaderMap) -> Result<i64, ApiError> { ");
    text.append("let value = headers.get(header::IF_MATCH).ok_or(ApiError::PreconditionRequired)?; ");
    text.append("let value = value.to_str().map_err(|_| ApiError::InvalidPrecondition)?; ");
    text.append("appstruct_runtime::parse_revision_etag(value).ok_or(ApiError::InvalidPrecondition) } ");
    text.append("fn etag_header(model: &");
    text.append(module);
    text.append("::Model) -> [(header::HeaderName, String); 1] { ");
    text.append("[(header::ETAG, appstruct_runtime::revision_etag(model.revision))] } ");
    text.append("fn publish_realtime_event(state: &AppState, context: &RequestContext<'_>, event: &str, model: &");
    text.append(module);
    text.append("::Model,) { if let Err(error) = state.realtime.publish_resource_model(event, ");
    text.append(resource);
    text.append(", &model.");
    text.append(primary);
    text.append(".to_string(), model, context.actor().map(|actor| actor.id), context.tenant(),) { ");
    text.append("tracing::warn!(?error, event, \"realtime event could not be published\"); } } ");
    text.append("async fn run_after_commit(state: &AppState, operation: crate::HookOperation, model: &");
    text.append(module);
    text.append("::Model, actor: Option<crate::Actor>, tenant: Option<crate::TenantId>,) { ");
    text.append("let context = RequestContext::connection_with_services(&state.database, &state.mail, &state.file, &state.realtime, actor, tenant,); ");
    text.append("if let Err(error) = state.extensions.");
    text.append(hooks);
    text.append("().after_commit(&context, operation, model).await { ");
    text.append("tracing::error!(?error, ?operation, entity = stringify!(");
    text.append(module);
    text.append("), \"after_commit hook failed\"); } }");
    text
}

/// What the write endpoints of an entity are generated from.
pub struct HandlerContext {
    pub module: String,
    pub hooks: String,
    pub policy: String,
    pub parse_id: String,
    pub primary: String,
    pub soft_delete: bool,
    pub activity_resource: Option<String>,
}

/// The view of the activity resource.
pub open spec fn resource_view(context: HandlerContext) -> Option<Seq<char>> {
    match context.activity_resource {
        Some(name) => Some(name@),
        None => None,
    }
}

/// The event name `module.past` of a write, as a string literal.
pub open spec fn event_text(entity: Entity, operation: WriteOperation) -> Seq<char> {
    literal_text(snake_text(entity.rust_name@) + "."@ + past_tense(operation))
}

/// The read, create, update and delete endpoints of an entity with their
/// helpers, or the first error met while compiling its access rules: the read
/// scope, then the create, update and delete guards.
pub open spec fn handlers_spec(
    entity: Entity,
    context: HandlerContext,
    create_values: Seq<Seq<char>>,
    active_default: Seq<char>,
    updates: Seq<Seq<char>>,
) -> Result<Seq<char>, Seq<char>> {
    handlers_text_spec(
        entity,
        context.module@,
        context.hooks@,
        context.policy@,
        context.parse_id@,
        context.primary@,
        context.soft_delete,
        resource_view(context),
        create_values,
        active_default,
        updates,
    )
}

/// The write endpoints of an entity, from the views of its handler context:
/// module, hooks, policy, id parser, primary key, whether deletes are soft,
/// and the activity resource.
pub open spec fn handlers_text_spec(
    entity: Entity,
    module: Seq<char>,
    hooks: Seq<char>,
    policy: Seq<char>,
    parse_id: Seq<char>,
    primary: Seq<char>,
    soft_delete: bool,
    resource: Option<Seq<char>>,
    create_values: Seq<Seq<char>>,
    active_default: Seq<char>,
    updates: Seq<Seq<char>>,
) -> Result<Seq<char>, Seq<char>> {
    let fields = entity.fields@;
    match condition_error(fields, entity.access.read) {
        Some(error) => Err(error),
        None => match guard_error(fields, entity.access.create) {
            Some(error) => Err(error),
            None => match guard_error(fields, entity.access.update) {
                Some(error) => Err(error),
                None => match guard_error(fields, entity.access.delete) {
                    Some(error) => Err(error),
                    None => {
                        let read_scope = member_scope_text(entity, module, entity.access.read);
                        let read = read_handler_text(module, policy, parse_id, read_scope);
                        let create = create_handler_text(
                            module,
                            hooks,
                            policy,
                            create_values,
                            active_default,
                            guard_text(fields, entity.access.create, "input"@, None),
                            audit_event_text(entity, primary, WriteOperation::Create),
                            write_event_text(resource, primary, WriteOperation::Create),
                            event_text(entity, WriteOperation::Create),
                        );
                        let update = update_handler_text(
                            module,
                            hooks,
                            policy,
                            parse_id,
                            updates,
                            read_scope,
                            guard_text(fields, entity.access.update, "before"@, Some("candidate"@)),
                            audit_event_text(entity, primary, WriteOperation::Update),
                            write_event_text(resource, primary, WriteOperation::Update),
                            event_text(entity, WriteOperation::Update),
                        );
                        let delete = delete_handler_text(
                            module,
                            hooks,
                            policy,
                            parse_id,
                            read_scope,
                            guard_text(fields, entity.access.delete, "model"@, None),
                            audit_event_text(entity, primary, WriteOperation::Delete),
                            write_event_text(resource, primary, WriteOperation::Delete),
                            delete_model_text(soft_delete),
                            event_text(entity, WriteOperation::Delete),
                        );
                        let helpers = helper_functions_text(module, hooks, primary, literal_text(entity.table_name@));
                        Ok(read
                            + " "@
                            + create
                            + " "@
                            + update
                            + " "@
                            + delete
                            + " "@
                            + helpers)
                    },
                },
            },
        },
    }
}

fn event_literal(prefix: &str, operation: WriteOperation) -> (text: String)
    ensures
        text@ == literal_text(prefix@ + "."@ + past_tense(operation)),
{
    let mut name = String::from_str(prefix);
    name.append(".");
    name.append(past_name(operation));
    string_literal(name.as_str())
}

/// The write endpoints of an entity. `create_values` and `updates` are the
/// entity's create and update assignments; `active_default` completes the
/// `ActiveModel` literal of a create.
pub fn handlers(
    entity: &Entity,
    context: &HandlerContext,
    create_values: &Vec<String>,
    active_default: Option<&str>,
    updates: &Vec<String>,
) -> (result: Result<String, CodegenError>)
    ensures
        match result {
            Ok(text) => handlers_spec(
                *entity,
                *context,
                texts(create_values@),
                match active_default {
                    Some(text) => text@,
                    None => Seq::<char>::empty(),
                },
                texts(updates@),
            ) == Ok::<Seq<char>, Seq<char>>(text@),
            Err(error) => handlers_spec(
                *entity,
                *context,
                texts(create_values@),
                match active_default {
                    Some(text) => text@,
                    None => Seq::<char>::empty(),
                },
                texts(updates@),
            ) == Err::<Seq<char>, Seq<char>>(error@),
        },
{
    let module = context.module.as_str();
    let hooks = context.hooks.as_str();
    let policy = context.policy.as_str();
    let parse_id = context.parse_id.as_str();
    let primary = context.primary.as_str();
    let read_scope = member_scope(entity, module, &entity.access.read)?;
    let create_guard = create_allowed(entity, &entity.access.create)?;
    let update_guard = update_allowed(entity, &entity.access.update)?;
    let delete_guard = row_allowed(entity, &entity.access.delete)?;
    let event_prefix = module_name(entity);
    let resource_literal = string_literal(entity.table_name.as_str());
    let create_event = event_literal(event_prefix.as_str(), WriteOperation::Create);
    let update_event = event_literal(event_prefix.as_str(), WriteOperation::Update);
    let delete_event = event_literal(event_prefix.as_str(), WriteOperation::Delete);
    let resource = match &context.activity_resource {
        Some(name) => Some(name.as_str()),
        None => None,
    };
    let read_text = read_handler(module, policy, parse_id, read_scope.as_str());
    let create_audit = audit_event(entity, primary, WriteOperation::Create);
    let update_audit = audit_event(entity, primary, WriteOperation::Update);
    let delete_audit = audit_event(entity, primary, WriteOperation::Delete);
    let create_activity = write_event(resource, primary, WriteOperation::Create);
    let update_activity = write_event(resource, primary, WriteOperation::Update);
    let delete_activity = write_event(resource, primary, WriteOperation::Delete);
    let default_text = match active_default {
        Some(text) => text,
        None => "",
    };
    proof {
        reveal_strlit("");
    }
    let create_text = create_handler(
        module,
        hooks,
        policy,
        create_values,
        default_text,
        create_guard.as_str(),
        create_audit.as_str(),
        create_activity.as_str(),
        create_event.as_str(),
    );
    let update_text = update_handler(
        module,
        hooks,
        policy,
        parse_id,
        updates,
        read_scope.as_str(),
        update_guard.as_str(),
        update_audit.as_str(),
        update_activity.as_str(),
        update_event.as_str(),
    );
    let removal = delete_model(context.soft_delete);
    let delete_text = delete_handler(
        module,
        hooks,
        policy,
        parse_id,
        read_scope.as_str(),
        delete_guard.as_str(),
        delete_audit.as_str(),
        delete_activity.as_str(),
        removal.as_str(),
        delete_event.as_str(),
    );
    let helpers_text = helper_functions(module, hooks, primary, resource_literal.as_str());
    let read = read_text.as_str();
    let create = create_text.as_str();
    let update = update_text.as_str();
    let delete = delete_text.as_str();
    let helpers = helpers_text.as_str();
    let mut text = String::new();
    text.append(read);
    text.append(" ");
    text.append(create);
    text.append(" ");
    text.append(update);
    text.append(" ");
    text.append(delete);
    text.append(" ");
    text.append(helpers);
    Ok(text)
}

} // verus!
