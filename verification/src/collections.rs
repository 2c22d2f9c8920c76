use vstd::prelude::*;
use vstd::string::StringExecFns;
use crate::access::{
    column_ident, column_result, condition_error, create_allowed, find_field, guard_error, guard_text, member_scope,
    member_scope_text, row_allowed, update_allowed,
};
use crate::artifact::CodegenError;
use crate::billing::{decimal, decimal_text, join_text};
use crate::field_access::{literal_text, string_literal};
use crate::fields::{find_entity_spec, first_primary, is_writable, no_primary_key, primary_key, texts};
use crate::ident::{ident_result, parse_ident};
use crate::ir::{Aggregate, AppIr, Entity, Field, FieldType};
use crate::naming::{module_name, snake_text};
use crate::text::{append_joined, append_suffixed, suffixed_text};
use crate::values::{create_values, create_values_spec, defaults_parse, update_values, update_values_spec};
use crate::write::WriteOperation;

verus! {

/// The audit record of a collection row change.
#[verifier::opaque]
pub open spec fn row_audit_text(entity_id: Seq<char>, model: Seq<char>, primary: Seq<char>, operation: Seq<char>, before: Seq<char>, after: Seq<char>) -> Seq<char> {
    "crate::audit::record(context, context, "@
        + entity_id
        + ", "@
        + model
        + "."@
        + primary
        + ".to_string(), "@
        + operation
        + ", "@
        + before
        + ", "@
        + after
        + ").await?;"@
}

fn row_audit(entity_id: &str, model: &str, primary: &str, operation: &str, before: &str, after: &str) -> (text: String)
    ensures
        text@ == row_audit_text(entity_id@, model@, primary@, operation@, before@, after@),
{
    proof {
        reveal(row_audit_text);
    }
    let mut text = String::from_str("crate::audit::record(context, context, ");
    text.append(entity_id);
    text.append(", ");
    text.append(model);
    text.append(".");
    text.append(primary);
    text.append(".to_string(), ");
    text.append(operation);
    text.append(", ");
    text.append(before);
    text.append(", ");
    text.append(after);
    text.append(").await?;");
    text
}

/// The activity record of a collection row change.
#[verifier::opaque]
pub open spec fn row_activity_text(resource: Seq<char>, model: Seq<char>, primary: Seq<char>, event: Seq<char>) -> Seq<char> {
    "crate::activity::record_system_event(context, context, "@
        + resource
        + ", "@
        + model
        + "."@
        + primary
        + ".to_string(), "@
        + event
        + ").await?;"@
}

fn row_activity(resource: &str, model: &str, primary: &str, event: &str) -> (text: String)
    ensures
        text@ == row_activity_text(resource@, model@, primary@, event@),
{
    proof {
        reveal(row_activity_text);
    }
    let mut text = String::from_str("crate::activity::record_system_event(context, context, ");
    text.append(resource);
    text.append(", ");
    text.append(model);
    text.append(".");
    text.append(primary);
    text.append(".to_string(), ");
    text.append(event);
    text.append(").await?;");
    text
}

/// The row operations of a collection entity, which its parent's endpoint drives:
/// listing at most `limit` rows, and creating, updating and deleting rows
/// with the parent relation fixed and every guard and policy checked.
#[verifier::opaque]
pub open spec fn rows_block_text(input: Seq<char>, relations: Seq<char>, module: Seq<char>, relation_column: Seq<char>, scope: Seq<char>, primary_column: Seq<char>, policy: Seq<char>, hooks: Seq<char>, create_allowed: Seq<char>, creates: Seq<Seq<char>>, relation_name: Seq<char>, create_event: Seq<char>, updates: Seq<Seq<char>>, update_allowed: Seq<char>, update_event: Seq<char>, delete_allowed: Seq<char>, delete_event: Seq<char>, event_prefix: Seq<char>) -> Seq<char> {
    input
        + " "@
        + relations
        + " pub async fn collection(state: &AppState, context: &RequestContext<'_>, parent: uuid::Uuid, limit: u64) -> Result<Vec<serde_json::Value>, ApiError> { "@
        + "use sea_orm::PaginatorTrait as _; let count = "@
        + module
        + "::Entity::find().filter("@
        + module
        + "::Column::"@
        + relation_column
        + ".eq(parent)).count(context).await?; if count > limit { "@
        + "return Err(invalid(\"Collection exceeds max_items\")); } "@
        + scope
        + " let models = "@
        + module
        + "::Entity::find().filter(access_condition).filter("@
        + module
        + "::Column::"@
        + relation_column
        + ".eq(parent)).order_by_asc("@
        + module
        + "::Column::"@
        + primary_column
        + ").all(context).await?; let mut rows = Vec::new(); for model in models { "@
        + "if state.extensions."@
        + policy
        + "().can_read(context, &model).await? { rows.push(redact_model(context, model)?); } } "@
        + "Ok(rows) } "@
        + "async fn load(state: &AppState, context: &RequestContext<'_>, parent: uuid::Uuid, id: uuid::Uuid, revision: i64) -> Result<"@
        + module
        + "::Model, ApiError> { "@
        + scope
        + " let model = "@
        + module
        + "::Entity::find_by_id(id).filter(access_condition).filter("@
        + module
        + "::Column::"@
        + relation_column
        + ".eq(parent)).lock_exclusive().one(context).await?.ok_or(ApiError::NotFound)?; "@
        + "if !state.extensions."@
        + policy
        + "().can_read(context, &model).await? { return Err(ApiError::NotFound); } "@
        + "if model.revision != revision { return Err(ApiError::ConcurrentModification); } "@
        + "Ok(model) } "@
        + "pub async fn create(state: &AppState, context: &RequestContext<'_>, parent: uuid::Uuid, value: serde_json::Value) -> Result<"@
        + module
        + "::Model, ApiError> { let mut input: CreateInput = decode(value, parent, true)?; "@
        + "authorize_create_fields(context, &input)?; state.extensions."@
        + hooks
        + "().before_validate_create(context, &mut input).await?; validate_create(&input)?; "@
        + "state.extensions."@
        + hooks
        + "().before_create(context, &mut input).await?; authorize_create_fields(context, &input)?; "@
        + "validate_create(&input)?; if !("@
        + create_allowed
        + ") { return Err(access_denied(context)); } if !state.extensions."@
        + policy
        + "().can_create(context, &input).await? { return Err(ApiError::Forbidden); } let active = "@
        + module
        + "::ActiveModel { "@
        + suffixed_text(creates, ", "@)
        + " }; let candidate = active.clone().try_into_model()?; if candidate."@
        + relation_name
        + " != parent { return Err(invalid(\"Parent relation cannot change\")); } "@
        + "validate_relations(state, context, &candidate).await?; "@
        + "let model = active.insert(context).await?; state.extensions."@
        + hooks
        + "().after_create(context, &model).await?; "@
        + create_event
        + " Ok(model) } "@
        + "pub async fn update(state: &AppState, context: &RequestContext<'_>, parent: uuid::Uuid, row: UpdateRow) -> Result<"@
        + module
        + "::Model, ApiError> { let mut input: UpdateInput = decode(row.input, parent, false)?; "@
        + "authorize_update_fields(context, &input)?; state.extensions."@
        + hooks
        + "().before_validate_update(context, &mut input).await?; validate_update(&input)?; "@
        + "let before = load(state, context, parent, row.id, row.revision).await?; state.extensions."@
        + hooks
        + "().before_update(context, &before, &mut input).await?; "@
        + "authorize_update_fields(context, &input)?; validate_update(&input)?; "@
        + "let mut active = before.clone().into_active_model(); "@
        + suffixed_text(updates, " "@)
        + " active.revision = Set(before.revision.checked_add(1).ok_or(ApiError::Internal)?); "@
        + "let candidate = active.clone().try_into_model()?; if candidate."@
        + relation_name
        + " != parent { return Err(invalid(\"Parent relation cannot change\")); } if !("@
        + update_allowed
        + ") { return Err(access_denied(context)); } if !state.extensions."@
        + policy
        + "().can_update(context, &before, &input, &candidate).await? { "@
        + "return Err(ApiError::Forbidden); } validate_relations(state, context, &candidate).await?; "@
        + "let after = active.update(context).await?; state.extensions."@
        + hooks
        + "().after_update(context, &before, &after).await?; "@
        + update_event
        + " Ok(after) } "@
        + "pub async fn delete(state: &AppState, context: &RequestContext<'_>, parent: uuid::Uuid, row: DeleteRow) -> Result<"@
        + module
        + "::Model, ApiError> { "@
        + "let model = load(state, context, parent, row.id, row.revision).await?; if !("@
        + delete_allowed
        + ") { return Err(access_denied(context)); } if !state.extensions."@
        + policy
        + "().can_delete(context, &model).await? { return Err(ApiError::Forbidden); } "@
        + "state.extensions."@
        + hooks
        + "().before_delete(context, &model).await?; model.clone().delete(context).await?; "@
        + "state.extensions."@
        + hooks
        + "().after_delete(context, &model).await?; "@
        + delete_event
        + " Ok(model) } "@
        + "pub async fn committed(state: &AppState, context: &RequestContext<'_>, operation: crate::HookOperation, model: &"@
        + module
        + "::Model) { let suffix = match operation { "@
        + "crate::HookOperation::Create => \"created\", crate::HookOperation::Delete => \"deleted\", _ => \"updated\" }; "@
        + "publish_realtime_event(state, context, &format!(\"{}.{}\", "@
        + event_prefix
        + ", suffix), model); "@
        + "run_after_commit(state, operation, model, context.actor().cloned(), context.tenant()).await; "@
        + "}"@
}

fn rows_block(input: &str, relations: &str, module: &str, relation_column: &str, scope: &str, primary_column: &str, policy: &str, hooks: &str, create_allowed: &str, creates: &Vec<String>, relation_name: &str, create_event: &str, updates: &Vec<String>, update_allowed: &str, update_event: &str, delete_allowed: &str, delete_event: &str, event_prefix: &str) -> (text: String)
    ensures
        text@ == rows_block_text(input@, relations@, module@, relation_column@, scope@, primary_column@, policy@, hooks@, create_allowed@, texts(creates@), relation_name@, create_event@, texts(updates@), update_allowed@, update_event@, delete_allowed@, delete_event@, event_prefix@),
{
    proof {
        reveal(rows_block_text);
    }
    let mut text = String::new();
    text.append(input);
    text.append(" ");
    text.append(relations);
    text.append(" pub async fn collection(state: &AppState, context: &RequestContext<'_>, parent: uuid::Uuid, limit: u64) -> Result<Vec<serde_json::Value>, ApiError> { ");
    text.append("use sea_orm::PaginatorTrait as _; let count = ");
    text.append(module);
    text.append("::Entity::find().filter(");
    text.append(module);
    text.append("::Column::");
    text.append(relation_column);
    text.append(".eq(parent)).count(context).await?; if count > limit { ");
    text.append("return Err(invalid(\"Collection exceeds max_items\")); } ");
    text.append(scope);
    text.append(" let models = ");
    text.append(module);
    text.append("::Entity::find().filter(access_condition).filter(");
    text.append(module);
    text.append("::Column::");
    text.append(relation_column);
    text.append(".eq(parent)).order_by_asc(");
    text.append(module);
    text.append("::Column::");
    text.append(primary_column);
    text.append(").all(context).await?; let mut rows = Vec::new(); for model in models { ");
    text.append("if state.extensions.");
    text.append(policy);
    text.append("().can_read(context, &model).await? { rows.push(redact_model(context, model)?); } } ");
    text.append("Ok(rows) } ");
    text.append("async fn load(state: &AppState, context: &RequestContext<'_>, parent: uuid::Uuid, id: uuid::Uuid, revision: i64) -> Result<");
    text.append(module);
    text.append("::Model, ApiError> { ");
    text.append(scope);
    text.append(" let model = ");
    text.append(module);
    text.append("::Entity::find_by_id(id).filter(access_condition).filter(");
    text.append(module);
    text.append("::Column::");
    text.append(relation_column);
    text.append(".eq(parent)).lock_exclusive().one(context).await?.ok_or(ApiError::NotFound)?; ");
    text.append("if !state.extensions.");
    text.append(policy);
    text.append("().can_read(context, &model).await? { return Err(ApiError::NotFound); } ");
    text.append("if model.revision != revision { return Err(ApiError::ConcurrentModification); } ");
    text.append("Ok(model) } ");
    text.append("pub async fn create(state: &AppState, context: &RequestContext<'_>, parent: uuid::Uuid, value: serde_json::Value) -> Result<");
    text.append(module);
    text.append("::Model, ApiError> { let mut input: CreateInput = decode(value, parent, true)?; ");
    text.append("authorize_create_fields(context, &input)?; state.extensions.");
    text.append(hooks);
    text.append("().before_validate_create(context, &mut input).await?; validate_create(&input)?; ");
    text.append("state.extensions.");
    text.append(hooks);
    text.append("().before_create(context, &mut input).await?; authorize_create_fields(context, &input)?; ");
    text.append("validate_create(&input)?; if !(");
    text.append(create_allowed);
    text.append(") { return Err(access_denied(context)); } if !state.extensions.");
    text.append(policy);
    text.append("().can_create(context, &input).await? { return Err(ApiError::Forbidden); } let active = ");
    text.append(module);
    text.append("::ActiveModel { ");
    append_suffixed(&mut text, creates, ", ");
    text.append(" }; let candidate = active.clone().try_into_model()?; if candidate.");
    text.append(relation_name);
    text.append(" != parent { return Err(invalid(\"Parent relation cannot change\")); } ");
    text.append("validate_relations(state, context, &candidate).await?; ");
    text.append("let model = active.insert(context).await?; state.extensions.");
    text.append(hooks);
    text.append("().after_create(context, &model).await?; ");
    text.append(create_event);
    text.append(" Ok(model) } ");
    text.append("pub async fn update(state: &AppState, context: &RequestContext<'_>, parent: uuid::Uuid, row: UpdateRow) -> Result<");
    text.append(module);
    text.append("::Model, ApiError> { let mut input: UpdateInput = decode(row.input, parent, false)?; ");
    text.append("authorize_update_fields(context, &input)?; state.extensions.");
    text.append(hooks);
    text.append("().before_validate_update(context, &mut input).await?; validate_update(&input)?; ");
    text.append("let before = load(state, context, parent, row.id, row.revision).await?; state.extensions.");
    text.append(hooks);
    text.append("().before_update(context, &before, &mut input).await?; ");
    text.append("authorize_update_fields(context, &input)?; validate_update(&input)?; ");
    text.append("let mut active = before.clone().into_active_model(); ");
    append_suffixed(&mut text, updates, " ");
    text.append(" active.revision = Set(before.revision.checked_add(1).ok_or(ApiError::Internal)?); ");
    text.append("let candidate = active.clone().try_into_model()?; if candidate.");
    text.append(relation_name);
    text.append(" != parent { return Err(invalid(\"Parent relation cannot change\")); } if !(");
    text.append(update_allowed);
    text.append(") { return Err(access_denied(context)); } if !state.extensions.");
    text.append(policy);
    text.append("().can_update(context, &before, &input, &candidate).await? { ");
    text.append("return Err(ApiError::Forbidden); } validate_relations(state, context, &candidate).await?; ");
    text.append("let after = active.update(context).await?; state.extensions.");
    text.append(hooks);
    text.append("().after_update(context, &before, &after).await?; ");
    text.append(update_event);
    text.append(" Ok(after) } ");
    text.append("pub async fn delete(state: &AppState, context: &RequestContext<'_>, parent: uuid::Uuid, row: DeleteRow) -> Result<");
    text.append(module);
    text.append("::Model, ApiError> { ");
    text.append("let model = load(state, context, parent, row.id, row.revision).await?; if !(");
    text.append(delete_allowed);
    text.append(") { return Err(access_denied(context)); } if !state.extensions.");
    text.append(policy);
    text.append("().can_delete(context, &model).await? { return Err(ApiError::Forbidden); } ");
    text.append("state.extensions.");
    text.append(hooks);
    text.append("().before_delete(context, &model).await?; model.clone().delete(context).await?; ");
    text.append("state.extensions.");
    text.append(hooks);
    text.append("().after_delete(context, &model).await?; ");
    text.append(delete_event);
    text.append(" Ok(model) } ");
    text.append("pub async fn committed(state: &AppState, context: &RequestContext<'_>, operation: crate::HookOperation, model: &");
    text.append(module);
    text.append("::Model) { let suffix = match operation { ");
    text.append("crate::HookOperation::Create => \"created\", crate::HookOperation::Delete => \"deleted\", _ => \"updated\" }; ");
    text.append("publish_realtime_event(state, context, &format!(\"{}.{}\", ");
    text.append(event_prefix);
    text.append(", suffix), model); ");
    text.append("run_after_commit(state, operation, model, context.actor().cloned(), context.tenant()).await; ");
    text.append("}");
    text
}

/// The check that a related record exists and may be read.
#[verifier::opaque]
pub open spec fn relation_check_text(id: Seq<char>, target_module: Seq<char>, scope: Seq<char>, policy: Seq<char>) -> Seq<char> {
    "if let Some(id) = "@
        + id
        + " { use crate::entities::"@
        + target_module
        + "; "@
        + scope
        + " let target = "@
        + target_module
        + "::Entity::find_by_id(id).filter(access_condition).lock_shared().one(context).await?.ok_or(ApiError::NotFound)?; "@
        + "if !state.extensions."@
        + policy
        + "().can_read(context, &target).await? { return Err(ApiError::NotFound); } }"@
}

fn relation_check(id: &str, target_module: &str, scope: &str, policy: &str) -> (text: String)
    ensures
        text@ == relation_check_text(id@, target_module@, scope@, policy@),
{
    proof {
        reveal(relation_check_text);
    }
    let mut text = String::from_str("if let Some(id) = ");
    text.append(id);
    text.append(" { use crate::entities::");
    text.append(target_module);
    text.append("; ");
    text.append(scope);
    text.append(" let target = ");
    text.append(target_module);
    text.append("::Entity::find_by_id(id).filter(access_condition).lock_shared().one(context).await?.ok_or(ApiError::NotFound)?; ");
    text.append("if !state.extensions.");
    text.append(policy);
    text.append("().can_read(context, &target).await? { return Err(ApiError::NotFound); } }");
    text
}

/// The check of every relation of a row.
#[verifier::opaque]
pub open spec fn relations_block_text(module: Seq<char>, checks: Seq<Seq<char>>) -> Seq<char> {
    "async fn validate_relations(state: &AppState, context: &RequestContext<'_>, model: &"@
        + module
        + "::Model) -> Result<(), ApiError> { "@
        + suffixed_text(checks, " "@)
        + " Ok(()) }"@
}

fn relations_block(module: &str, checks: &Vec<String>) -> (text: String)
    ensures
        text@ == relations_block_text(module@, texts(checks@)),
{
    proof {
        reveal(relations_block_text);
    }
    let mut text = String::from_str("async fn validate_relations(state: &AppState, context: &RequestContext<'_>, model: &");
    text.append(module);
    text.append("::Model) -> Result<(), ApiError> { ");
    append_suffixed(&mut text, checks, " ");
    text.append(" Ok(()) }");
    text
}

/// The batch input of a collection: at most `limit` operations, unique row
/// ids with valid revisions, unique create keys of 1 to 128 bytes, and only
/// writable fields in row inputs.
#[verifier::opaque]
pub open spec fn input_block_text(create_fields: Seq<Seq<char>>, update_fields: Seq<Seq<char>>, relation: Seq<char>) -> Seq<char> {
    "#[derive(Deserialize)] #[serde(deny_unknown_fields)] pub struct Batch { "@
        + "#[serde(default)] pub creates: Vec<CreateRow>, #[serde(default)] pub updates: Vec<UpdateRow>, #[serde(default)] pub deletes: Vec<DeleteRow>, } "@
        + "#[derive(Deserialize)] #[serde(deny_unknown_fields)] pub struct CreateRow { "@
        + "pub key: String, pub input: serde_json::Value } "@
        + "#[derive(Deserialize)] #[serde(deny_unknown_fields)] pub struct UpdateRow { "@
        + "pub id: uuid::Uuid, pub revision: i64, pub input: serde_json::Value } "@
        + "#[derive(Deserialize)] #[serde(deny_unknown_fields)] pub struct DeleteRow { "@
        + "pub id: uuid::Uuid, pub revision: i64 } "@
        + "pub fn invalid(message: impl Into<String>) -> ApiError { "@
        + "ApiError::Validation(vec![FieldViolation { "@
        + "field: \"aggregate\".into(), message: message.into() }]) } impl Batch { "@
        + "pub fn validate(&mut self, limit: usize) -> Result<(), ApiError> { "@
        + "let size = self.creates.len() + self.updates.len() + self.deletes.len(); "@
        + "if size == 0 || size > limit { return Err(invalid(\"Invalid aggregate operation count\")); "@
        + "} let mut ids = std::collections::BTreeSet::new(); "@
        + "for (id, revision) in self.updates.iter().map(|row| (row.id, row.revision)).chain(self.deletes.iter().map(|row| (row.id, row.revision))) { "@
        + "if revision < 1 || !ids.insert(id) { "@
        + "return Err(invalid(\"Duplicate row ID or invalid revision\")); } } "@
        + "let mut keys = std::collections::BTreeSet::new(); for row in &self.creates { "@
        + "if row.key.is_empty() || row.key.len() > 128 || !keys.insert(&row.key) { "@
        + "return Err(invalid(\"Create keys must be unique and contain 1 to 128 bytes\")); } } "@
        + "self.deletes.sort_by_key(|row| row.id); self.updates.sort_by_key(|row| row.id); Ok(()) } "@
        + "} "@
        + "fn decode<T: serde::de::DeserializeOwned>(mut value: serde_json::Value, parent: uuid::Uuid, create: bool) -> Result<T, ApiError> { "@
        + "let object = value.as_object_mut().ok_or_else(|| invalid(\"Row input must be an object\"))?; "@
        + "let allowed: &[&str] = if create { &["@
        + join_text(create_fields, ", "@)
        + "] } else { &["@
        + join_text(update_fields, ", "@)
        + "] }; if object.keys().any(|key| !allowed.contains(&key.as_str())) { "@
        + "return Err(invalid(\"Row input contains an unknown or read-only field\")); } if create { "@
        + "object.insert("@
        + relation
        + ".to_owned(), serde_json::json!(parent)); } "@
        + "serde_json::from_value(value).map_err(|error| invalid(error.to_string())) } "@
        + "pub fn row_error(error: ApiError, path: &str) -> ApiError { match error { "@
        + "ApiError::Validation(fields) => ApiError::Validation(fields.into_iter().map(|mut field| { "@
        + "field.field = format!(\"{path}.{}\", field.field); field }).collect()), error => error, } }"@
}

fn input_block(create_fields: &Vec<String>, update_fields: &Vec<String>, relation: &str) -> (text: String)
    ensures
        text@ == input_block_text(texts(create_fields@), texts(update_fields@), relation@),
{
    proof {
        reveal(input_block_text);
    }
    let mut text = String::from_str("#[derive(Deserialize)] #[serde(deny_unknown_fields)] pub struct Batch { ");
    text.append("#[serde(default)] pub creates: Vec<CreateRow>, #[serde(default)] pub updates: Vec<UpdateRow>, #[serde(default)] pub deletes: Vec<DeleteRow>, } ");
    text.append("#[derive(Deserialize)] #[serde(deny_unknown_fields)] pub struct CreateRow { ");
    text.append("pub key: String, pub input: serde_json::Value } ");
    text.append("#[derive(Deserialize)] #[serde(deny_unknown_fields)] pub struct UpdateRow { ");
    text.append("pub id: uuid::Uuid, pub revision: i64, pub input: serde_json::Value } ");
    text.append("#[derive(Deserialize)] #[serde(deny_unknown_fields)] pub struct DeleteRow { ");
    text.append("pub id: uuid::Uuid, pub revision: i64 } ");
    text.append("pub fn invalid(message: impl Into<String>) -> ApiError { ");
    text.append("ApiError::Validation(vec![FieldViolation { ");
    text.append("field: \"aggregate\".into(), message: message.into() }]) } impl Batch { ");
    text.append("pub fn validate(&mut self, limit: usize) -> Result<(), ApiError> { ");
    text.append("let size = self.creates.len() + self.updates.len() + self.deletes.len(); ");
    text.append("if size == 0 || size > limit { return Err(invalid(\"Invalid aggregate operation count\")); ");
    text.append("} let mut ids = std::collections::BTreeSet::new(); ");
    text.append("for (id, revision) in self.updates.iter().map(|row| (row.id, row.revision)).chain(self.deletes.iter().map(|row| (row.id, row.revision))) { ");
    text.append("if revision < 1 || !ids.insert(id) { ");
    text.append("return Err(invalid(\"Duplicate row ID or invalid revision\")); } } ");
    text.append("let mut keys = std::collections::BTreeSet::new(); for row in &self.creates { ");
    text.append("if row.key.is_empty() || row.key.len() > 128 || !keys.insert(&row.key) { ");
    text.append("return Err(invalid(\"Create keys must be unique and contain 1 to 128 bytes\")); } } ");
    text.append("self.deletes.sort_by_key(|row| row.id); self.updates.sort_by_key(|row| row.id); Ok(()) } ");
    text.append("} ");
    text.append("fn decode<T: serde::de::DeserializeOwned>(mut value: serde_json::Value, parent: uuid::Uuid, create: bool) -> Result<T, ApiError> { ");
    text.append("let object = value.as_object_mut().ok_or_else(|| invalid(\"Row input must be an object\"))?; ");
    text.append("let allowed: &[&str] = if create { &[");
    append_joined(&mut text, create_fields, ", ");
    text.append("] } else { &[");
    append_joined(&mut text, update_fields, ", ");
    text.append("] }; if object.keys().any(|key| !allowed.contains(&key.as_str())) { ");
    text.append("return Err(invalid(\"Row input contains an unknown or read-only field\")); } if create { ");
    text.append("object.insert(");
    text.append(relation);
    text.append(".to_owned(), serde_json::json!(parent)); } ");
    text.append("serde_json::from_value(value).map_err(|error| invalid(error.to_string())) } ");
    text.append("pub fn row_error(error: ApiError, path: &str) -> ApiError { match error { ");
    text.append("ApiError::Validation(fields) => ApiError::Validation(fields.into_iter().map(|mut field| { ");
    text.append("field.field = format!(\"{path}.{}\", field.field); field }).collect()), error => error, } }");
    text
}

/// The check that the parent is in a state that allows editing the collection.
#[verifier::opaque]
pub open spec fn state_guard_text(states: Seq<Seq<char>>, field: Seq<char>) -> Seq<char> {
    "if !["@
        + join_text(states, ", "@)
        + "].contains(&before."@
        + field
        + ".as_str()) { return Err(ApiError::InvalidWorkflowState); }"@
}

fn state_guard(states: &Vec<String>, field: &str) -> (text: String)
    ensures
        text@ == state_guard_text(texts(states@), field@),
{
    proof {
        reveal(state_guard_text);
    }
    let mut text = String::from_str("if ![");
    append_joined(&mut text, states, ", ");
    text.append("].contains(&before.");
    text.append(field);
    text.append(".as_str()) { return Err(ApiError::InvalidWorkflowState); }");
    text
}

/// The audit record of a collection edit on the parent.
#[verifier::opaque]
pub open spec fn parent_audit_text(entity_id: Seq<char>, primary: Seq<char>, event: Seq<char>) -> Seq<char> {
    "crate::audit::record(&transaction, &context, "@
        + entity_id
        + ", after."@
        + primary
        + ".to_string(), "@
        + event
        + ", Some(&before), Some(&after)).await?;"@
}

fn parent_audit(entity_id: &str, primary: &str, event: &str) -> (text: String)
    ensures
        text@ == parent_audit_text(entity_id@, primary@, event@),
{
    proof {
        reveal(parent_audit_text);
    }
    let mut text = String::from_str("crate::audit::record(&transaction, &context, ");
    text.append(entity_id);
    text.append(", after.");
    text.append(primary);
    text.append(".to_string(), ");
    text.append(event);
    text.append(", Some(&before), Some(&after)).await?;");
    text
}

/// The activity record of a collection edit on the parent.
#[verifier::opaque]
pub open spec fn parent_activity_text(resource: Seq<char>, primary: Seq<char>, event: Seq<char>) -> Seq<char> {
    "crate::activity::record_system_event(&transaction, &context, "@
        + resource
        + ", after."@
        + primary
        + ".to_string(), "@
        + event
        + ").await?;"@
}

fn parent_activity(resource: &str, primary: &str, event: &str) -> (text: String)
    ensures
        text@ == parent_activity_text(resource@, primary@, event@),
{
    proof {
        reveal(parent_activity_text);
    }
    let mut text = String::from_str("crate::activity::record_system_event(&transaction, &context, ");
    text.append(resource);
    text.append(", after.");
    text.append(primary);
    text.append(".to_string(), ");
    text.append(event);
    text.append(").await?;");
    text
}

/// The read and write endpoints of one collection of a parent entity.
#[verifier::opaque]
pub open spec fn parent_block_text(read: Seq<char>, scope: Seq<char>, module: Seq<char>, policy: Seq<char>, child_module: Seq<char>, limit: Seq<char>, write: Seq<char>, guard: Seq<char>, allowed: Seq<char>, child_primary: Seq<char>, audit: Seq<char>, activity: Seq<char>, event: Seq<char>) -> Seq<char> {
    "async fn "@
        + read
        + "(State(state): State<AppState>, Path(id): Path<uuid::Uuid>, headers: HeaderMap) -> Result<([(header::HeaderName, String); "@
        + "1], Json<serde_json::Value>), ApiError> { let request = state.context(&headers).await?; "@
        + "let transaction = state.database.begin().await?; "@
        + "let context = RequestContext::transaction_with_file(&transaction, &state.mail, &state.file, &state.realtime, request.actor().cloned(), request.tenant()); "@
        + scope
        + " let parent = "@
        + module
        + "::Entity::find_by_id(id).filter(access_condition).lock_shared().one(&transaction).await?.ok_or(ApiError::NotFound)?; "@
        + "if !state.extensions."@
        + policy
        + "().can_read(&context, &parent).await? { return Err(ApiError::NotFound); } "@
        + "let rows = super::"@
        + child_module
        + "::aggregate_rows::collection(&state, &context, id, "@
        + limit
        + ").await?; let etag = etag_header(&parent); let response = serde_json::json!({ "@
        + "\"parent\": redact_model(&context, parent)?, \"rows\": rows, \"created\": {} }); "@
        + "transaction.commit().await?; Ok((etag, Json(response))) } async fn "@
        + write
        + "(State(state): State<AppState>, Path(id): Path<uuid::Uuid>, headers: HeaderMap, Json(mut input): Json<super::"@
        + child_module
        + "::aggregate_rows::Batch>) -> Result<([(header::HeaderName, String); "@
        + "1], Json<serde_json::Value>), ApiError> { use super::"@
        + child_module
        + "::aggregate_rows as rows; let expected = expected_revision(&headers)?; "@
        + "let request = state.mutation_context(&headers).await?; input.validate("@
        + limit
        + " as usize)?; let transaction = state.database.begin().await?; "@
        + "let mut events = Vec::new(); let (after, response) = { "@
        + "let context = RequestContext::transaction_with_file(&transaction, &state.mail, &state.file, &state.realtime, request.actor().cloned(), request.tenant()); "@
        + scope
        + " let before = "@
        + module
        + "::Entity::find_by_id(id).filter(access_condition).lock_exclusive().one(&transaction).await?.ok_or(ApiError::NotFound)?; "@
        + "if !state.extensions."@
        + policy
        + "().can_read(&context, &before).await? { return Err(ApiError::NotFound); } "@
        + "if before.revision != expected { return Err(ApiError::ConcurrentModification); } "@
        + guard
        + " let mut active = before.clone().into_active_model(); "@
        + "active.revision = Set(before.revision.checked_add(1).ok_or(ApiError::Internal)?); "@
        + "let candidate = active.clone().try_into_model()?; if !("@
        + allowed
        + ") || !state.extensions."@
        + policy
        + "().can_update(&context, &before, &UpdateInput::default(), &candidate).await? { "@
        + "return Err(access_denied(&context)); } let mut created = BTreeMap::new(); "@
        + "for row in input.deletes { let path = format!(\"deletes.{}\", row.id); "@
        + "let model = rows::delete(&state, &context, id, row).await.map_err(|error| rows::row_error(error, &path))?; "@
        + "events.push((crate::HookOperation::Delete, model)); } for row in input.updates { "@
        + "let path = format!(\"updates.{}\", row.id); "@
        + "let model = rows::update(&state, &context, id, row).await.map_err(|error| rows::row_error(error, &path))?; "@
        + "events.push((crate::HookOperation::Update, model)); } for row in input.creates { "@
        + "let path = format!(\"creates.{}\", row.key); "@
        + "let model = rows::create(&state, &context, id, row.input).await.map_err(|error| rows::row_error(error, &path))?; "@
        + "created.insert(row.key, model."@
        + child_primary
        + ".to_string()); events.push((crate::HookOperation::Create, model)); } "@
        + "let collection = rows::collection(&state, &context, id, "@
        + limit
        + ").await?; if !state.extensions."@
        + policy
        + "().can_update(&context, &before, &UpdateInput::default(), &candidate).await? { "@
        + "return Err(ApiError::Forbidden); } let after = active.update(&transaction).await?; "@
        + audit
        + " "@
        + activity
        + " let response = serde_json::json!({ "@
        + "\"parent\": redact_model(&context, after.clone())?, \"rows\": collection, \"created\": created }); "@
        + "(after, response) }; transaction.commit().await?; "@
        + "publish_realtime_event(&state, &request, "@
        + event
        + ", &after); "@
        + "run_after_commit(&state, crate::HookOperation::Update, &after, request.actor().cloned(), request.tenant()).await; "@
        + "for (operation, model) in events { "@
        + "rows::committed(&state, &request, operation, &model).await; } "@
        + "Ok((etag_header(&after), Json(response))) }"@
}

fn parent_block(read: &str, scope: &str, module: &str, policy: &str, child_module: &str, limit: &str, write: &str, guard: &str, allowed: &str, child_primary: &str, audit: &str, activity: &str, event: &str) -> (text: String)
    ensures
        text@ == parent_block_text(read@, scope@, module@, policy@, child_module@, limit@, write@, guard@, allowed@, child_primary@, audit@, activity@, event@),
{
    proof {
        reveal(parent_block_text);
    }
    let mut text = String::from_str("async fn ");
    text.append(read);
    text.append("(State(state): State<AppState>, Path(id): Path<uuid::Uuid>, headers: HeaderMap) -> Result<([(header::HeaderName, String); ");
    text.append("1], Json<serde_json::Value>), ApiError> { let request = state.context(&headers).await?; ");
    text.append("let transaction = state.database.begin().await?; ");
    text.append("let context = RequestContext::transaction_with_file(&transaction, &state.mail, &state.file, &state.realtime, request.actor().cloned(), request.tenant()); ");
    text.append(scope);
    text.append(" let parent = ");
    text.append(module);
    text.append("::Entity::find_by_id(id).filter(access_condition).lock_shared().one(&transaction).await?.ok_or(ApiError::NotFound)?; ");
    text.append("if !state.extensions.");
    text.append(policy);
    text.append("().can_read(&context, &parent).await? { return Err(ApiError::NotFound); } ");
    text.append("let rows = super::");
    text.append(child_module);
    text.append("::aggregate_rows::collection(&state, &context, id, ");
    text.append(limit);
    text.append(").await?; let etag = etag_header(&parent); let response = serde_json::json!({ ");
    text.append("\"parent\": redact_model(&context, parent)?, \"rows\": rows, \"created\": {} }); ");
    text.append("transaction.commit().await?; Ok((etag, Json(response))) } async fn ");
    text.append(write);
    text.append("(State(state): State<AppState>, Path(id): Path<uuid::Uuid>, headers: HeaderMap, Json(mut input): Json<super::");
    text.append(child_module);
    text.append("::aggregate_rows::Batch>) -> Result<([(header::HeaderName, String); ");
    text.append("1], Json<serde_json::Value>), ApiError> { use super::");
    text.append(child_module);
    text.append("::aggregate_rows as rows; let expected = expected_revision(&headers)?; ");
    text.append("let request = state.mutation_context(&headers).await?; input.validate(");
    text.append(limit);
    text.append(" as usize)?; let transaction = state.database.begin().await?; ");
    text.append("let mut events = Vec::new(); let (after, response) = { ");
    text.append("let context = RequestContext::transaction_with_file(&transaction, &state.mail, &state.file, &state.realtime, request.actor().cloned(), request.tenant()); ");
    text.append(scope);
    text.append(" let before = ");
    text.append(module);
    text.append("::Entity::find_by_id(id).filter(access_condition).lock_exclusive().one(&transaction).await?.ok_or(ApiError::NotFound)?; ");
    text.append("if !state.extensions.");
    text.append(policy);
    text.append("().can_read(&context, &before).await? { return Err(ApiError::NotFound); } ");
    text.append("if before.revision != expected { return Err(ApiError::ConcurrentModification); } ");
    text.append(guard);
    text.append(" let mut active = before.clone().into_active_model(); ");
    text.append("active.revision = Set(before.revision.checked_add(1).ok_or(ApiError::Internal)?); ");
    text.append("let candidate = active.clone().try_into_model()?; if !(");
    text.append(allowed);
    text.append(") || !state.extensions.");
    text.append(policy);
    text.append("().can_update(&context, &before, &UpdateInput::default(), &candidate).await? { ");
    text.append("return Err(access_denied(&context)); } let mut created = BTreeMap::new(); ");
    text.append("for row in input.deletes { let path = format!(\"deletes.{}\", row.id); ");
    text.append("let model = rows::delete(&state, &context, id, row).await.map_err(|error| rows::row_error(error, &path))?; ");
    text.append("events.push((crate::HookOperation::Delete, model)); } for row in input.updates { ");
    text.append("let path = format!(\"updates.{}\", row.id); ");
    text.append("let model = rows::update(&state, &context, id, row).await.map_err(|error| rows::row_error(error, &path))?; ");
    text.append("events.push((crate::HookOperation::Update, model)); } for row in input.creates { ");
    text.append("let path = format!(\"creates.{}\", row.key); ");
    text.append("let model = rows::create(&state, &context, id, row.input).await.map_err(|error| rows::row_error(error, &path))?; ");
    text.append("created.insert(row.key, model.");
    text.append(child_primary);
    text.append(".to_string()); events.push((crate::HookOperation::Create, model)); } ");
    text.append("let collection = rows::collection(&state, &context, id, ");
    text.append(limit);
    text.append(").await?; if !state.extensions.");
    text.append(policy);
    text.append("().can_update(&context, &before, &UpdateInput::default(), &candidate).await? { ");
    text.append("return Err(ApiError::Forbidden); } let after = active.update(&transaction).await?; ");
    text.append(audit);
    text.append(" ");
    text.append(activity);
    text.append(" let response = serde_json::json!({ ");
    text.append("\"parent\": redact_model(&context, after.clone())?, \"rows\": collection, \"created\": created }); ");
    text.append("(after, response) }; transaction.commit().await?; ");
    text.append("publish_realtime_event(&state, &request, ");
    text.append(event);
    text.append(", &after); ");
    text.append("run_after_commit(&state, crate::HookOperation::Update, &after, request.actor().cloned(), request.tenant()).await; ");
    text.append("for (operation, model) in events { ");
    text.append("rows::committed(&state, &request, operation, &model).await; } ");
    text.append("Ok((etag_header(&after), Json(response))) }");
    text
}

/// The route of one collection of a parent entity.
#[verifier::opaque]
pub open spec fn collection_route_text(path: Seq<char>, read: Seq<char>, write: Seq<char>) -> Seq<char> {
    ".route("@
        + path
        + ", get("@
        + read
        + ").post("@
        + write
        + "))"@
}

fn collection_route(path: &str, read: &str, write: &str) -> (text: String)
    ensures
        text@ == collection_route_text(path@, read@, write@),
{
    proof {
        reveal(collection_route_text);
    }
    let mut text = String::from_str(".route(");
    text.append(path);
    text.append(", get(");
    text.append(read);
    text.append(").post(");
    text.append(write);
    text.append("))");
    text
}

/// The row module of a collection entity, and the layer that keeps it read-only on its own routes.
#[verifier::opaque]
pub open spec fn child_block_text(tokens: Seq<char>) -> Seq<char> {
    "pub(crate) mod aggregate_rows { use super::*; "@
        + tokens
        + " } "@
        + "async fn aggregate_read_only(request: axum::extract::Request, next: axum::middleware::Next,) -> axum::response::Response { "@
        + "use axum::response::IntoResponse as _; "@
        + "if !matches!(*request.method(), axum::http::Method::GET | axum::http::Method::HEAD | axum::http::Method::OPTIONS) { "@
        + "return (StatusCode::METHOD_NOT_ALLOWED, [(header::ALLOW, \"GET, HEAD, OPTIONS\")], Json(serde_json::json!({ "@
        + "\"error\": { "@
        + "\"code\": \"AGGREGATE_OWNED\", \"message\": \"Edit this collection through its parent\" } "@
        + "}))).into_response(); } next.run(request).await }"@
}

fn child_block(tokens: &str) -> (text: String)
    ensures
        text@ == child_block_text(tokens@),
{
    proof {
        reveal(child_block_text);
    }
    let mut text = String::from_str("pub(crate) mod aggregate_rows { use super::*; ");
    text.append(tokens);
    text.append(" } ");
    text.append("async fn aggregate_read_only(request: axum::extract::Request, next: axum::middleware::Next,) -> axum::response::Response { ");
    text.append("use axum::response::IntoResponse as _; ");
    text.append("if !matches!(*request.method(), axum::http::Method::GET | axum::http::Method::HEAD | axum::http::Method::OPTIONS) { ");
    text.append("return (StatusCode::METHOD_NOT_ALLOWED, [(header::ALLOW, \"GET, HEAD, OPTIONS\")], Json(serde_json::json!({ ");
    text.append("\"error\": { ");
    text.append("\"code\": \"AGGREGATE_OWNED\", \"message\": \"Edit this collection through its parent\" } ");
    text.append("}))).into_response(); } next.run(request).await }");
    text
}

/// The layer that refuses writes to a collection entity's own routes.
#[verifier::opaque]
pub open spec fn read_only_layer_text() -> Seq<char> {
    ".route_layer(axum::middleware::from_fn(aggregate_read_only))"@
}

fn read_only_layer() -> (text: String)
    ensures
        text@ == read_only_layer_text(),
{
    proof {
        reveal(read_only_layer_text);
    }
    let mut text = String::from_str(".route_layer(axum::middleware::from_fn(aggregate_read_only))");
    text
}

/// The first field with the given id.
pub(crate) fn field_with_id<'a>(fields: &'a Vec<Field>, id: &str) -> (result: Option<&'a Field>)
    ensures
        match result {
            Some(field) => find_field(fields@, id@) == Some(*field),
            None => find_field(fields@, id@) is None,
        },
{
    let key = id.to_owned();
    let mut i: usize = 0;
    proof {
        assert(fields@.skip(0) == fields@);
    }
    while i < fields.len()
        invariant
            i <= fields.len(),
            key@ == id@,
            find_field(fields@, id@) == find_field(fields@.skip(i as int), id@),
        decreases fields.len() - i,
    {
        proof {
            assert(fields@.skip(i as int).drop_first() == fields@.skip(i + 1));
        }
        if fields[i].id == key {
            return Some(&fields[i]);
        }
        i = i + 1;
    }
    None
}

fn joined(first: &str, second: &str) -> (text: String)
    ensures
        text@ == first@ + second@,
{
    let mut text = String::from_str(first);
    text.append(second);
    text
}

/// The names that a collection row may carry: the writable fields other
/// than the parent relation, as string literals.
pub open spec fn row_field_names(entity: Entity, relation: Seq<char>, fields: Seq<Field>, update: bool) -> Seq<Seq<char>>
    decreases fields.len(),
{
    if fields.len() == 0 {
        Seq::<Seq<char>>::empty()
    } else if is_writable(entity, fields.last(), update) && fields.last().id@ != relation {
        row_field_names(entity, relation, fields.drop_last(), update).push(literal_text(fields.last().rust_name@))
    } else {
        row_field_names(entity, relation, fields.drop_last(), update)
    }
}

fn row_fields(entity: &Entity, relation: &str, update: bool) -> (names: Vec<String>)
    ensures
        texts(names@) == row_field_names(*entity, relation@, entity.fields@, update),
{
    let key = relation.to_owned();
    let mut names: Vec<String> = Vec::new();
    let mut i: usize = 0;
    proof {
        assert(entity.fields@.subrange(0, 0) == Seq::<Field>::empty());
        assert(texts(names@) == Seq::<Seq<char>>::empty());
    }
    while i < entity.fields.len()
        invariant
            i <= entity.fields.len(),
            key@ == relation@,
            texts(names@) == row_field_names(*entity, relation@, entity.fields@.subrange(0, i as int), update),
        decreases entity.fields.len() - i,
    {
        proof {
            assert(entity.fields@.subrange(0, i + 1).drop_last() == entity.fields@.subrange(0, i as int));
        }
        let field = &entity.fields[i];
        if field.generated.is_none() && !entity.is_workflow_field(field) && (!update || !field.primary_key)
            && !(field.id == key) {
            let literal = string_literal(field.rust_name.as_str());
            let ghost before = texts(names@);
            names.push(literal);
            proof {
                assert(texts(names@) == before.push(literal@));
            }
        }
        i = i + 1;
    }
    proof {
        assert(entity.fields@.subrange(0, entity.fields@.len() as int) == entity.fields@);
    }
    names
}

/// The batch input of a collection whose rows point to their parent through
/// the relation field.
pub open spec fn input_text(entity: Entity, aggregate: Aggregate) -> Seq<char> {
    input_block_text(
        row_field_names(entity, aggregate.relation@, entity.fields@, false),
        row_field_names(entity, aggregate.relation@, entity.fields@, true),
        literal_text(find_field(entity.fields@, aggregate.relation@)->Some_0.rust_name@),
    )
}

/// The batch input of a collection.
pub fn input_support(entity: &Entity, aggregate: &Aggregate) -> (text: String)
    requires
        find_field(entity.fields@, aggregate.relation@) is Some,
    ensures
        text@ == input_text(*entity, *aggregate),
{
    let relation = field_with_id(&entity.fields, aggregate.relation.as_str()).unwrap();
    let relation_literal = string_literal(relation.rust_name.as_str());
    let create_fields = row_fields(entity, aggregate.relation.as_str(), false);
    let update_fields = row_fields(entity, aggregate.relation.as_str(), true);
    input_block(&create_fields, &update_fields, relation_literal.as_str())
}

/// Every relation field of the entity points to an entity of the application.
pub open spec fn relation_targets_exist(ir: AppIr, entity: Entity) -> bool {
    forall|i: int| 0 <= i < entity.fields@.len() ==> (#[trigger] entity.fields@[i].ty matches FieldType::Relation { target }
        ==> find_entity_spec(ir.entities@, target@) is Some)
}

/// How a row's relation is read as an optional id.
pub open spec fn related_id_text(field: Field, name: Seq<char>) -> Seq<char> {
    if field.nullable {
        "model."@ + name
    } else {
        "Some(model."@ + name + ")"@
    }
}

/// The checks of the relation fields, in order, or the first error: the
/// target's module name, the field's name, then the target's read scope.
pub open spec fn relation_checks_spec(ir: AppIr, fields: Seq<Field>) -> Result<Seq<Seq<char>>, Seq<char>>
    decreases fields.len(),
{
    if fields.len() == 0 {
        Ok(Seq::<Seq<char>>::empty())
    } else {
        match relation_checks_spec(ir, fields.drop_last()) {
            Err(error) => Err(error),
            Ok(checks) => match fields.last().ty {
                FieldType::Relation { target } => {
                    let entity = find_entity_spec(ir.entities@, target@)->Some_0;
                    match ident_result(snake_text(entity.rust_name@)) {
                        Err(error) => Err(error),
                        Ok(target_module) => match ident_result(fields.last().rust_name@) {
                            Err(error) => Err(error),
                            Ok(name) => match condition_error(entity.fields@, entity.access.read) {
                                Some(error) => Err(error),
                                None => Ok(checks.push(relation_check_text(
                                    related_id_text(fields.last(), name),
                                    target_module,
                                    member_scope_text(entity, target_module, entity.access.read),
                                    snake_text(entity.rust_name@) + "_policy"@,
                                ))),
                            },
                        },
                    }
                },
                _ => Ok(checks),
            },
        }
    }
}

proof fn lemma_relation_checks_error(ir: AppIr, fields: Seq<Field>, k: int)
    requires
        0 <= k <= fields.len(),
        relation_checks_spec(ir, fields.subrange(0, k)) is Err,
    ensures
        relation_checks_spec(ir, fields) == relation_checks_spec(ir, fields.subrange(0, k)),
    decreases fields.len() - k,
{
    if k < fields.len() {
        assert(fields.subrange(0, k + 1).drop_last() == fields.subrange(0, k));
        lemma_relation_checks_error(ir, fields, k + 1);
    } else {
        assert(fields.subrange(0, k) == fields);
    }
}

/// The relation checks of a collection entity, or the first error: its module
/// name, then the checks.
pub open spec fn relations_spec(ir: AppIr, entity: Entity) -> Result<Seq<char>, Seq<char>> {
    match ident_result(snake_text(entity.rust_name@)) {
        Err(error) => Err(error),
        Ok(module) => match relation_checks_spec(ir, entity.fields@) {
            Err(error) => Err(error),
            Ok(checks) => Ok(relations_block_text(module, checks)),
        },
    }
}

fn find_target<'a>(ir: &'a AppIr, id: &str) -> (result: Option<&'a Entity>)
    ensures
        match result {
            Some(entity) => find_entity_spec(ir.entities@, id@) == Some(*entity),
            None => find_entity_spec(ir.entities@, id@) is None,
        },
{
    match crate::fields::find_entity(ir, id) {
        Ok(entity) => Some(entity),
        Err(_) => None,
    }
}

/// The relation checks of a collection entity.
pub fn relations_support(ir: &AppIr, entity: &Entity) -> (result: Result<String, CodegenError>)
    requires
        relation_targets_exist(*ir, *entity),
    ensures
        match result {
            Ok(text) => relations_spec(*ir, *entity) == Ok::<Seq<char>, Seq<char>>(text@),
            Err(error) => relations_spec(*ir, *entity) == Err::<Seq<char>, Seq<char>>(error@),
        },
{
    let name = module_name(entity);
    let module = parse_ident(name.as_str())?;
    let mut checks: Vec<String> = Vec::new();
    let mut i: usize = 0;
    proof {
        assert(entity.fields@.subrange(0, 0) == Seq::<Field>::empty());
        assert(texts(checks@) == Seq::<Seq<char>>::empty());
    }
    while i < entity.fields.len()
        invariant
            i <= entity.fields.len(),
            relation_targets_exist(*ir, *entity),
            ident_result(snake_text(entity.rust_name@)) == Ok::<Seq<char>, Seq<char>>(module@),
            relation_checks_spec(*ir, entity.fields@.subrange(0, i as int)) == Ok::<Seq<Seq<char>>, Seq<char>>(texts(checks@)),
        decreases entity.fields.len() - i,
    {
        proof {
            assert(entity.fields@.subrange(0, i + 1).drop_last() == entity.fields@.subrange(0, i as int));
        }
        let field = &entity.fields[i];
        if let FieldType::Relation { target } = &field.ty {
            proof {
                assert(entity.fields@[i as int].ty matches FieldType::Relation { target }
                    ==> find_entity_spec(ir.entities@, target@) is Some);
            }
            let target_entity = find_target(ir, target.as_str()).unwrap();
            let target_name = module_name(target_entity);
            let target_module = match parse_ident(target_name.as_str()) {
                Ok(target_module) => target_module,
                Err(error) => {
                    proof {
                        lemma_relation_checks_error(*ir, entity.fields@, i + 1);
                    }
                    return Err(error);
                },
            };
            let field_name = match parse_ident(field.rust_name.as_str()) {
                Ok(field_name) => field_name,
                Err(error) => {
                    proof {
                        lemma_relation_checks_error(*ir, entity.fields@, i + 1);
                    }
                    return Err(error);
                },
            };
            let scope = match member_scope(target_entity, target_module.as_str(), &target_entity.access.read) {
                Ok(scope) => scope,
                Err(error) => {
                    proof {
                        lemma_relation_checks_error(*ir, entity.fields@, i + 1);
                    }
                    return Err(error);
                },
            };
            let id = if field.nullable {
                joined("model.", field_name.as_str())
            } else {
                let mut id = joined("Some(model.", field_name.as_str());
                id.append(")");
                id
            };
            let policy = joined(target_name.as_str(), "_policy");
            let check = relation_check(id.as_str(), target_module.as_str(), scope.as_str(), policy.as_str());
            let ghost before = texts(checks@);
            checks.push(check);
            proof {
                assert(texts(checks@) == before.push(check@));
            }
        }
        i = i + 1;
    }
    proof {
        assert(entity.fields@.subrange(0, entity.fields@.len() as int) == entity.fields@);
    }
    Ok(relations_block(module.as_str(), &checks))
}

/// The name, record binding and earlier record of a row change.
pub open spec fn operation_name(operation: WriteOperation) -> Seq<char> {
    match operation {
        WriteOperation::Create => "create"@,
        WriteOperation::Update => "update"@,
        WriteOperation::Delete => "delete"@,
    }
}

pub open spec fn operation_model(operation: WriteOperation) -> Seq<char> {
    match operation {
        WriteOperation::Update => "after"@,
        _ => "model"@,
    }
}

/// The record before the change, as the audit trail sees it.
pub open spec fn before_text(operation: WriteOperation) -> Seq<char> {
    match operation {
        WriteOperation::Create => "None"@,
        WriteOperation::Update => "Some(&before)"@,
        WriteOperation::Delete => "Some(&model)"@,
    }
}

/// The record after the change, as the audit trail sees it.
pub open spec fn after_text(operation: WriteOperation) -> Seq<char> {
    match operation {
        WriteOperation::Delete => "None"@,
        _ => "Some(&"@ + operation_model(operation) + ")"@,
    }
}

/// The audit and activity records of a row change, each where it is on.
pub open spec fn row_events_text(entity: Entity, resource: Option<Seq<char>>, primary: Seq<char>, operation: WriteOperation) -> Seq<char> {
    (if entity.audit_enabled {
        row_audit_text(
            literal_text(entity.id@),
            operation_model(operation),
            primary,
            literal_text(operation_name(operation)),
            before_text(operation),
            after_text(operation),
        )
    } else {
        Seq::<char>::empty()
    }) + " "@ + match resource {
        Some(name) => row_activity_text(
            literal_text(name),
            operation_model(operation),
            primary,
            literal_text(operation_name(operation) + "d"@),
        ),
        None => Seq::<char>::empty(),
    }
}

/// The words of a row change: its name, the record it binds, and the
/// records before and after it.
fn operation_words(operation: WriteOperation) -> (words: (&'static str, &'static str, &'static str, &'static str))
    ensures
        words.0@ == operation_name(operation),
        words.1@ == operation_model(operation),
        words.2@ == before_text(operation),
        words.3@ == after_text(operation),
{
    match operation {
        WriteOperation::Create => {
            proof {
                reveal_strlit("create");
                reveal_strlit("model");
                reveal_strlit("None");
                reveal_strlit("Some(&model)");
                reveal_strlit("Some(&");
                reveal_strlit(")");
            }
            ("create", "model", "None", "Some(&model)")
        },
        WriteOperation::Update => {
            proof {
                reveal_strlit("update");
                reveal_strlit("after");
                reveal_strlit("Some(&before)");
                reveal_strlit("Some(&after)");
                reveal_strlit("Some(&");
                reveal_strlit(")");
            }
            ("update", "after", "Some(&before)", "Some(&after)")
        },
        WriteOperation::Delete => {
            proof {
                reveal_strlit("delete");
                reveal_strlit("model");
                reveal_strlit("Some(&model)");
                reveal_strlit("None");
            }
            ("delete", "model", "Some(&model)", "None")
        },
    }
}

fn row_events(entity: &Entity, resource: Option<&str>, primary: &str, operation: WriteOperation) -> (text: String)
    ensures
        text@ == row_events_text(
            *entity,
            match resource {
                Some(name) => Some(name@),
                None => None,
            },
            primary@,
            operation,
        ),
{
    let (name, model, before, after) = operation_words(operation);
    let mut text = if entity.audit_enabled {
        let entity_id = string_literal(entity.id.as_str());
        let operation_literal = string_literal(name);
        row_audit(entity_id.as_str(), model, primary, operation_literal.as_str(), before, after)
    } else {
        String::new()
    };
    text.append(" ");
    match resource {
        Some(resource_name) => {
            let literal = string_literal(resource_name);
            let event = joined(name, "d");
            let event_literal = string_literal(event.as_str());
            let activity = row_activity(literal.as_str(), model, primary, event_literal.as_str());
            text.append(activity.as_str());
        },
        None => {},
    }
    text
}

/// What a collection entity's row operations need from the compiler: the
/// relation to the parent exists, its defaults parse and its relation
/// targets exist.
pub open spec fn rows_ready(ir: AppIr, entity: Entity, aggregate: Aggregate) -> bool {
    &&& find_field(entity.fields@, aggregate.relation@) is Some
    &&& defaults_parse(entity)
    &&& relation_targets_exist(ir, entity)
}

/// The row operations of a collection entity, or the first error: its module
/// name, primary key and its name, the relation's name and column, the
/// primary key's column, the read scope, the create, update and delete
/// guards, the create and update assignments, then the relation checks.
pub open spec fn rows_spec(ir: AppIr, entity: Entity, aggregate: Aggregate, resource: Option<Seq<char>>) -> Result<Seq<char>, Seq<char>> {
    let fields = entity.fields@;
    let name = snake_text(entity.rust_name@);
    match ident_result(name) {
        Err(error) => Err(error),
        Ok(module) => match first_primary(fields) {
            None => Err(no_primary_key(entity.id@)),
            Some(key) => match ident_result(key.rust_name@) {
                Err(error) => Err(error),
                Ok(primary) => {
                    let relation = find_field(fields, aggregate.relation@)->Some_0;
                    match ident_result(relation.rust_name@) {
                        Err(error) => Err(error),
                        Ok(relation_name) => match column_result(relation) {
                            Err(error) => Err(error),
                            Ok(relation_column) => match column_result(key) {
                                Err(error) => Err(error),
                                Ok(primary_column) => match condition_error(fields, entity.access.read) {
                                    Some(error) => Err(error),
                                    None => match guard_error(fields, entity.access.create) {
                                        Some(error) => Err(error),
                                        None => match guard_error(fields, entity.access.update) {
                                            Some(error) => Err(error),
                                            None => match guard_error(fields, entity.access.delete) {
                                                Some(error) => Err(error),
                                                None => match create_values_spec(entity, fields) {
                                                    Err(error) => Err(error),
                                                    Ok(creates) => match update_values_spec(
                                                        fields.filter(|f: Field| is_writable(entity, f, true)),
                                                    ) {
                                                        Err(error) => Err(error),
                                                        Ok(updates) => match relations_spec(ir, entity) {
                                                            Err(error) => Err(error),
                                                            Ok(relations) => Ok(rows_block_text(
                                                                input_text(entity, aggregate),
                                                                relations,
                                                                module,
                                                                relation_column,
                                                                member_scope_text(entity, module, entity.access.read),
                                                                primary_column,
                                                                name + "_policy"@,
                                                                name + "_hooks"@,
                                                                guard_text(fields, entity.access.create, "input"@, None),
                                                                creates,
                                                                relation_name,
                                                                row_events_text(entity, resource, primary, WriteOperation::Create),
                                                                updates,
                                                                guard_text(fields, entity.access.update, "before"@, Some("candidate"@)),
                                                                row_events_text(entity, resource, primary, WriteOperation::Update),
                                                                guard_text(fields, entity.access.delete, "model"@, None),
                                                                row_events_text(entity, resource, primary, WriteOperation::Delete),
                                                                literal_text(name),
                                                            )),
                                                        },
                                                    },
                                                },
                                            },
                                        },
                                    },
                                },
                            },
                        },
                    }
                },
            },
        },
    }
}

/// The row operations of a collection entity; `resource` is its activity
/// resource, if it has one.
pub fn rows_support(ir: &AppIr, entity: &Entity, aggregate: &Aggregate, resource: Option<&str>) -> (result: Result<String, CodegenError>)
    requires
        rows_ready(*ir, *entity, *aggregate),
    ensures
        match result {
            Ok(text) => rows_spec(
                *ir,
                *entity,
                *aggregate,
                match resource {
                    Some(name) => Some(name@),
                    None => None,
                },
            ) == Ok::<Seq<char>, Seq<char>>(text@),
            Err(error) => rows_spec(
                *ir,
                *entity,
                *aggregate,
                match resource {
                    Some(name) => Some(name@),
                    None => None,
                },
            ) == Err::<Seq<char>, Seq<char>>(error@),
        },
{
    let name = module_name(entity);
    let module = parse_ident(name.as_str())?;
    let hooks = joined(name.as_str(), "_hooks");
    let policy = joined(name.as_str(), "_policy");
    let key = primary_key(entity)?;
    let primary = parse_ident(key.rust_name.as_str())?;
    let relation = field_with_id(&entity.fields, aggregate.relation.as_str()).unwrap();
    let relation_name = parse_ident(relation.rust_name.as_str())?;
    let relation_column = column_ident(relation)?;
    let primary_column = column_ident(key)?;
    let scope = member_scope(entity, module.as_str(), &entity.access.read)?;
    let create_guard = create_allowed(entity, &entity.access.create)?;
    let update_guard = update_allowed(entity, &entity.access.update)?;
    let delete_guard = row_allowed(entity, &entity.access.delete)?;
    let creates = create_values(entity)?;
    let updates = update_values(entity)?;
    let input = input_support(entity, aggregate);
    let relations = relations_support(ir, entity)?;
    let create_event = row_events(entity, resource, primary.as_str(), WriteOperation::Create);
    let update_event = row_events(entity, resource, primary.as_str(), WriteOperation::Update);
    let delete_event = row_events(entity, resource, primary.as_str(), WriteOperation::Delete);
    let event_prefix = string_literal(name.as_str());
    Ok(rows_block(
        input.as_str(),
        relations.as_str(),
        module.as_str(),
        relation_column.as_str(),
        scope.as_str(),
        primary_column.as_str(),
        policy.as_str(),
        hooks.as_str(),
        create_guard.as_str(),
        &creates,
        relation_name.as_str(),
        create_event.as_str(),
        &updates,
        update_guard.as_str(),
        update_event.as_str(),
        delete_guard.as_str(),
        delete_event.as_str(),
        event_prefix.as_str(),
    ))
}

/// The field that holds the entity's workflow state, if it has a workflow.
pub open spec fn workflow_field(entity: Entity) -> Option<Field> {
    match entity.workflow {
        Some(workflow) => find_field(entity.fields@, workflow.field@),
        None => None,
    }
}

/// The states in which the collection may be edited, as string literals.
pub open spec fn states_text(states: Seq<String>) -> Seq<Seq<char>> {
    states.map_values(|state: String| literal_text(state@))
}

/// The parent's read and write endpoints of one collection and their route,
/// or the first error: the parent's module name, the child's module name,
/// primary key and its name, the parent's primary key and its name, the read
/// scope, the update guard, then the workflow field's name.
pub open spec fn parent_spec(ir: AppIr, parent: Entity, aggregate: Aggregate, resource: Option<Seq<char>>) -> Result<(Seq<char>, Seq<char>), Seq<char>> {
    let name = snake_text(parent.rust_name@);
    let child = find_entity_spec(ir.entities@, aggregate.child@)->Some_0;
    match ident_result(name) {
        Err(error) => Err(error),
        Ok(module) => match ident_result(snake_text(child.rust_name@)) {
            Err(error) => Err(error),
            Ok(child_module) => match first_primary(child.fields@) {
                None => Err(no_primary_key(child.id@)),
                Some(child_key) => match ident_result(child_key.rust_name@) {
                    Err(error) => Err(error),
                    Ok(child_primary) => match first_primary(parent.fields@) {
                        None => Err(no_primary_key(parent.id@)),
                        Some(key) => match ident_result(key.rust_name@) {
                            Err(error) => Err(error),
                            Ok(primary) => match condition_error(parent.fields@, parent.access.read) {
                                Some(error) => Err(error),
                                None => match guard_error(parent.fields@, parent.access.update) {
                                    Some(error) => Err(error),
                                    None => match (match workflow_field(parent) {
                                        Some(field) => match ident_result(field.rust_name@) {
                                            Err(error) => Err(error),
                                            Ok(field_name) => Ok(state_guard_text(states_text(aggregate.states@), field_name)),
                                        },
                                        None => Ok(Seq::<char>::empty()),
                                    }) {
                                        Err(error) => Err(error),
                                        Ok(guard) => {
                                            let read = "read_aggregate_"@ + aggregate.name@;
                                            let write = "write_aggregate_"@ + aggregate.name@;
                                            let event = literal_text(name + ".aggregate."@ + aggregate.name@);
                                            Ok((
                                                collection_route_text(
                                                    literal_text("/{id}/_aggregates/"@ + aggregate.name@),
                                                    read,
                                                    write,
                                                ),
                                                parent_block_text(
                                                    read,
                                                    member_scope_text(parent, module, parent.access.read),
                                                    module,
                                                    name + "_policy"@,
                                                    child_module,
                                                    decimal_text(aggregate.max_items as nat) + "u64"@,
                                                    write,
                                                    guard,
                                                    guard_text(parent.fields@, parent.access.update, "before"@, Some("candidate"@)),
                                                    child_primary,
                                                    if parent.audit_enabled {
                                                        parent_audit_text(literal_text(parent.id@), primary, event)
                                                    } else {
                                                        Seq::<char>::empty()
                                                    },
                                                    match resource {
                                                        Some(resource_name) => parent_activity_text(literal_text(resource_name), primary, event),
                                                        None => Seq::<char>::empty(),
                                                    },
                                                    event,
                                                ),
                                            ))
                                        },
                                    },
                                },
                            },
                        },
                    },
                },
            },
        },
    }
}

pub(crate) fn state_literals(states: &Vec<String>) -> (literals: Vec<String>)
    ensures
        texts(literals@) == states_text(states@),
{
    let mut literals: Vec<String> = Vec::new();
    let mut i: usize = 0;
    proof {
        assert(states_text(states@.subrange(0, 0)) == Seq::<Seq<char>>::empty());
    }
    while i < states.len()
        invariant
            i <= states.len(),
            texts(literals@) == states_text(states@.subrange(0, i as int)),
        decreases states.len() - i,
    {
        let literal = string_literal(states[i].as_str());
        let ghost before = texts(literals@);
        literals.push(literal);
        proof {
            assert(texts(literals@) == before.push(literal@));
            assert(texts(literals@) =~= states_text(states@.subrange(0, i + 1)));
        }
        i = i + 1;
    }
    proof {
        assert(states@.subrange(0, states@.len() as int) == states@);
    }
    literals
}

/// The parent's endpoints of one collection, and their route.
pub fn parent_support(ir: &AppIr, parent: &Entity, aggregate: &Aggregate, resource: Option<&str>) -> (result: Result<(String, String), CodegenError>)
    requires
        find_entity_spec(ir.entities@, aggregate.child@) is Some,
    ensures
        match result {
            Ok((route, tokens)) => parent_spec(
                *ir,
                *parent,
                *aggregate,
                match resource {
                    Some(name) => Some(name@),
                    None => None,
                },
            ) == Ok::<(Seq<char>, Seq<char>), Seq<char>>((route@, tokens@)),
            Err(error) => parent_spec(
                *ir,
                *parent,
                *aggregate,
                match resource {
                    Some(name) => Some(name@),
                    None => None,
                },
            ) == Err::<(Seq<char>, Seq<char>), Seq<char>>(error@),
        },
{
    let name = module_name(parent);
    let module = parse_ident(name.as_str())?;
    let policy = joined(name.as_str(), "_policy");
    let child = find_target(ir, aggregate.child.as_str()).unwrap();
    let child_name = module_name(child);
    let child_module = parse_ident(child_name.as_str())?;
    let child_key = primary_key(child)?;
    let child_primary = parse_ident(child_key.rust_name.as_str())?;
    let key = primary_key(parent)?;
    let primary = parse_ident(key.rust_name.as_str())?;
    let read = joined("read_aggregate_", aggregate.name.as_str());
    let write = joined("write_aggregate_", aggregate.name.as_str());
    let raw_path = joined("/{id}/_aggregates/", aggregate.name.as_str());
    let path = string_literal(raw_path.as_str());
    let mut limit = decimal(aggregate.max_items as u64);
    limit.append("u64");
    let scope = member_scope(parent, module.as_str(), &parent.access.read)?;
    let allowed = update_allowed(parent, &parent.access.update)?;
    let guard = match &parent.workflow {
        Some(workflow) => match field_with_id(&parent.fields, workflow.field.as_str()) {
            Some(field) => {
                let field_name = parse_ident(field.rust_name.as_str())?;
                let states = state_literals(&aggregate.states);
                state_guard(&states, field_name.as_str())
            },
            None => String::new(),
        },
        None => String::new(),
    };
    let mut raw_event = joined(name.as_str(), ".aggregate.");
    raw_event.append(aggregate.name.as_str());
    let event = string_literal(raw_event.as_str());
    let audit = if parent.audit_enabled {
        let entity_id = string_literal(parent.id.as_str());
        parent_audit(entity_id.as_str(), primary.as_str(), event.as_str())
    } else {
        String::new()
    };
    let activity = match resource {
        Some(resource_name) => {
            let literal = string_literal(resource_name);
            parent_activity(literal.as_str(), primary.as_str(), event.as_str())
        },
        None => String::new(),
    };
    let tokens = parent_block(
        read.as_str(),
        scope.as_str(),
        module.as_str(),
        policy.as_str(),
        child_module.as_str(),
        limit.as_str(),
        write.as_str(),
        guard.as_str(),
        allowed.as_str(),
        child_primary.as_str(),
        audit.as_str(),
        activity.as_str(),
        event.as_str(),
    );
    let route = collection_route(path.as_str(), read.as_str(), write.as_str());
    Ok((route, tokens))
}

/// The collection that owns an entity's records: the first collection, over
/// the entities and their collections in order, whose child is the entity.
pub open spec fn owning_collection(entities: Seq<Entity>, id: Seq<char>) -> Option<Aggregate>
    decreases entities.len(),
{
    if entities.len() == 0 {
        None
    } else {
        match first_child_collection(entities[0].views.aggregates@, id) {
            Some(aggregate) => Some(aggregate),
            None => owning_collection(entities.drop_first(), id),
        }
    }
}

/// The first of the collections whose child is the entity.
pub open spec fn first_child_collection(aggregates: Seq<Aggregate>, id: Seq<char>) -> Option<Aggregate>
    decreases aggregates.len(),
{
    if aggregates.len() == 0 {
        None
    } else if aggregates[0].child@ == id {
        Some(aggregates[0])
    } else {
        first_child_collection(aggregates.drop_first(), id)
    }
}

/// The routes and endpoints of an entity's own collections, in order, or the first error.
pub open spec fn parents_spec(ir: AppIr, entity: Entity, aggregates: Seq<Aggregate>, resource: Option<Seq<char>>) -> Result<(Seq<char>, Seq<char>), Seq<char>>
    decreases aggregates.len(),
{
    if aggregates.len() == 0 {
        Ok((Seq::<char>::empty(), Seq::<char>::empty()))
    } else {
        match parents_spec(ir, entity, aggregates.drop_last(), resource) {
            Err(error) => Err(error),
            Ok((routes, tokens)) => match parent_spec(ir, entity, aggregates.last(), resource) {
                Err(error) => Err(error),
                Ok((route, more)) => Ok((routes + route + " "@, tokens + more + " "@)),
            },
        }
    }
}

proof fn lemma_parents_error(ir: AppIr, entity: Entity, aggregates: Seq<Aggregate>, resource: Option<Seq<char>>, k: int)
    requires
        0 <= k <= aggregates.len(),
        parents_spec(ir, entity, aggregates.subrange(0, k), resource) is Err,
    ensures
        parents_spec(ir, entity, aggregates, resource) == parents_spec(ir, entity, aggregates.subrange(0, k), resource),
    decreases aggregates.len() - k,
{
    if k < aggregates.len() {
        assert(aggregates.subrange(0, k + 1).drop_last() == aggregates.subrange(0, k));
        lemma_parents_error(ir, entity, aggregates, resource, k + 1);
    } else {
        assert(aggregates.subrange(0, k) == aggregates);
    }
}

/// What the collections of an entity need from the compiler: the children of
/// its own collections exist, and where a collection owns its records, that
/// collection's rows are ready.
pub open spec fn collections_ready(ir: AppIr, entity: Entity) -> bool {
    &&& forall|i: int| 0 <= i < entity.views.aggregates@.len()
        ==> find_entity_spec(ir.entities@, (#[trigger] entity.views.aggregates@[i]).child@) is Some
    &&& owning_collection(ir.entities@, entity.id@) matches Some(aggregate) ==> rows_ready(ir, entity, aggregate)
}

/// The collection support of an entity: its routes, its endpoints, and the
/// layer that keeps it read-only where a parent owns its records.
pub open spec fn collections_spec(ir: AppIr, entity: Entity, resource: Option<Seq<char>>) -> Result<(Seq<char>, Seq<char>, Seq<char>), Seq<char>> {
    match parents_spec(ir, entity, entity.views.aggregates@, resource) {
        Err(error) => Err(error),
        Ok((routes, tokens)) => match owning_collection(ir.entities@, entity.id@) {
            None => Ok((routes, tokens, Seq::<char>::empty())),
            Some(aggregate) => match rows_spec(ir, entity, aggregate, resource) {
                Err(error) => Err(error),
                Ok(rows) => Ok((routes, tokens + child_block_text(rows), read_only_layer_text())),
            },
        },
    }
}

fn first_child<'a>(aggregates: &'a Vec<Aggregate>, id: &String) -> (result: Option<&'a Aggregate>)
    ensures
        match result {
            Some(aggregate) => first_child_collection(aggregates@, id@) == Some(*aggregate),
            None => first_child_collection(aggregates@, id@) is None,
        },
{
    let mut i: usize = 0;
    proof {
        assert(aggregates@.skip(0) == aggregates@);
    }
    while i < aggregates.len()
        invariant
            i <= aggregates.len(),
            first_child_collection(aggregates@, id@) == first_child_collection(aggregates@.skip(i as int), id@),
        decreases aggregates.len() - i,
    {
        proof {
            assert(aggregates@.skip(i as int).drop_first() == aggregates@.skip(i + 1));
        }
        if aggregates[i].child == *id {
            return Some(&aggregates[i]);
        }
        i = i + 1;
    }
    None
}

pub(crate) fn owner_of<'a>(entities: &'a Vec<Entity>, id: &String) -> (result: Option<&'a Aggregate>)
    ensures
        match result {
            Some(aggregate) => owning_collection(entities@, id@) == Some(*aggregate),
            None => owning_collection(entities@, id@) is None,
        },
{
    let mut i: usize = 0;
    proof {
        assert(entities@.skip(0) == entities@);
    }
    while i < entities.len()
        invariant
            i <= entities.len(),
            owning_collection(entities@, id@) == owning_collection(entities@.skip(i as int), id@),
        decreases entities.len() - i,
    {
        proof {
            assert(entities@.skip(i as int).drop_first() == entities@.skip(i + 1));
            assert(entities@.skip(i as int)[0] == entities@[i as int]);
        }
        match first_child(&entities[i].views.aggregates, id) {
            Some(aggregate) => {
                return Some(aggregate);
            },
            None => {},
        }
        i = i + 1;
    }
    None
}

/// The collection support of an entity; `resource` is its activity resource, if any.
pub fn collections_support(ir: &AppIr, entity: &Entity, resource: Option<&str>) -> (result: Result<(String, String, String), CodegenError>)
    requires
        collections_ready(*ir, *entity),
    ensures
        match result {
            Ok((routes, tokens, guard)) => collections_spec(
                *ir,
                *entity,
                match resource {
                    Some(name) => Some(name@),
                    None => None,
                },
            ) == Ok::<(Seq<char>, Seq<char>, Seq<char>), Seq<char>>((routes@, tokens@, guard@)),
            Err(error) => collections_spec(
                *ir,
                *entity,
                match resource {
                    Some(name) => Some(name@),
                    None => None,
                },
            ) == Err::<(Seq<char>, Seq<char>, Seq<char>), Seq<char>>(error@),
        },
{
    let ghost view = match resource {
        Some(name) => Some(name@),
        None => None,
    };
    let aggregates = &entity.views.aggregates;
    let mut routes = String::new();
    let mut tokens = String::new();
    let mut i: usize = 0;
    proof {
        assert(aggregates@.subrange(0, 0) == Seq::<Aggregate>::empty());
    }
    while i < aggregates.len()
        invariant
            i <= aggregates.len(),
            aggregates == &entity.views.aggregates,
            collections_ready(*ir, *entity),
            view == match resource {
                Some(name) => Some(name@),
                None => None::<Seq<char>>,
            },
            parents_spec(*ir, *entity, aggregates@.subrange(0, i as int), view)
                == Ok::<(Seq<char>, Seq<char>), Seq<char>>((routes@, tokens@)),
        decreases aggregates.len() - i,
    {
        proof {
            assert(aggregates@.subrange(0, i + 1).drop_last() == aggregates@.subrange(0, i as int));
            assert(find_entity_spec(ir.entities@, aggregates@[i as int].child@) is Some);
        }
        match parent_support(ir, entity, &aggregates[i], resource) {
            Ok((route, more)) => {
                routes.append(route.as_str());
                routes.append(" ");
                tokens.append(more.as_str());
                tokens.append(" ");
            },
            Err(error) => {
                proof {
                    lemma_parents_error(*ir, *entity, aggregates@, view, i + 1);
                }
                return Err(error);
            },
        }
        i = i + 1;
    }
    proof {
        assert(aggregates@.subrange(0, aggregates@.len() as int) == aggregates@);
    }
    match owner_of(&ir.entities, &entity.id) {
        None => Ok((routes, tokens, String::new())),
        Some(aggregate) => {
            let rows = rows_support(ir, entity, aggregate, resource)?;
            let child = child_block(rows.as_str());
            tokens.append(child.as_str());
            Ok((routes, tokens, read_only_layer()))
        },
    }
}

} // verus!
