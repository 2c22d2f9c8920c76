use vstd::prelude::*;
use vstd::string::StringExecFns;
use crate::access::{
    condition_error, guard_error, guard_text, list_scope_text, member_scope, member_scope_text, row_allowed, scope,
};
use crate::artifact::CodegenError;
use crate::ir::Entity;

verus! {

/// The realtime authorisation of an entity: a subscription to one record
/// needs that record to be readable, one to the whole resource needs the
/// list rule and policy; an event reaches a subscriber only if its record is
/// in the subscriber's tenant and readable.
#[verifier::opaque]
pub open spec fn realtime_text(parse_id: Seq<char>, read_scope: Seq<char>, module: Seq<char>, policy: Seq<char>, list_scope: Seq<char>, tenant_allowed: Seq<char>, read_allowed: Seq<char>) -> Seq<char> {
    "pub(crate) async fn authorize_realtime_scope(state: &AppState, context: &RequestContext<'_>, record_id: Option<&str>,) -> Result<(), ApiError> { "@
        + "if let Some(record_id) = record_id { let id = record_id.to_owned(); let id = "@
        + parse_id
        + "; "@
        + read_scope
        + " let model = "@
        + module
        + "::Entity::find_by_id(id).filter(access_condition).one(&state.database).await?.ok_or(ApiError::NotFound)?; "@
        + "if !state.extensions."@
        + policy
        + "().can_read(context, &model).await? { return Err(ApiError::NotFound); } return Ok(()); } "@
        + "let mut select = "@
        + module
        + "::Entity::find(); "@
        + list_scope
        + " let _ = select; if !state.extensions."@
        + policy
        + "().can_list(context).await? { return Err(access_denied(context)); } Ok(()) } "@
        + "pub(crate) async fn authorize_realtime_event(state: &AppState, context: &RequestContext<'_>, event: &crate::RealtimeEvent,) -> Result<bool, ApiError> { "@
        + "let Ok(model) = serde_json::from_value::<"@
        + module
        + "::Model>(event.data.clone()) else { return Ok(false); }; if !("@
        + tenant_allowed
        + ") || !("@
        + read_allowed
        + ") { return Ok(false); } state.extensions."@
        + policy
        + "().can_read(context, &model).await }"@
}

fn realtime_block(parse_id: &str, read_scope: &str, module: &str, policy: &str, list_scope: &str, tenant_allowed: &str, read_allowed: &str) -> (text: String)
    ensures
        text@ == realtime_text(parse_id@, read_scope@, module@, policy@, list_scope@, tenant_allowed@, read_allowed@),
{
    proof {
        reveal(realtime_text);
    }
    let mut text = String::from_str("pub(crate) async fn authorize_realtime_scope(state: &AppState, context: &RequestContext<'_>, record_id: Option<&str>,) -> Result<(), ApiError> { ");
    text.append("if let Some(record_id) = record_id { let id = record_id.to_owned(); let id = ");
    text.append(parse_id);
    text.append("; ");
    text.append(read_scope);
    text.append(" let model = ");
    text.append(module);
    text.append("::Entity::find_by_id(id).filter(access_condition).one(&state.database).await?.ok_or(ApiError::NotFound)?; ");
    text.append("if !state.extensions.");
    text.append(policy);
    text.append("().can_read(context, &model).await? { return Err(ApiError::NotFound); } return Ok(()); } ");
    text.append("let mut select = ");
    text.append(module);
    text.append("::Entity::find(); ");
    text.append(list_scope);
    text.append(" let _ = select; if !state.extensions.");
    text.append(policy);
    text.append("().can_list(context).await? { return Err(access_denied(context)); } Ok(()) } ");
    text.append("pub(crate) async fn authorize_realtime_event(state: &AppState, context: &RequestContext<'_>, event: &crate::RealtimeEvent,) -> Result<bool, ApiError> { ");
    text.append("let Ok(model) = serde_json::from_value::<");
    text.append(module);
    text.append("::Model>(event.data.clone()) else { return Ok(false); }; if !(");
    text.append(tenant_allowed);
    text.append(") || !(");
    text.append(read_allowed);
    text.append(") { return Ok(false); } state.extensions.");
    text.append(policy);
    text.append("().can_read(context, &model).await }");
    text
}

/// The tenant check of a realtime event's record.
pub open spec fn tenant_allowed_text(tenant_scoped: bool) -> Seq<char> {
    if tenant_scoped {
        "model.tenant_id == context.require_tenant()?"@
    } else {
        "true"@
    }
}

/// The realtime authorisation, or the first error: the list scope, the read
/// scope, then the read guard.
pub open spec fn realtime_spec(entity: Entity, module: Seq<char>, policy: Seq<char>, parse_id: Seq<char>) -> Result<Seq<char>, Seq<char>> {
    let fields = entity.fields@;
    match condition_error(fields, entity.access.list) {
        Some(error) => Err(error),
        None => match condition_error(fields, entity.access.read) {
            Some(error) => Err(error),
            None => match guard_error(fields, entity.access.read) {
                Some(error) => Err(error),
                None => Ok(realtime_text(
                    parse_id,
                    member_scope_text(entity, module, entity.access.read),
                    module,
                    policy,
                    list_scope_text(entity, module, entity.access.list),
                    tenant_allowed_text(entity.tenant_scoped),
                    guard_text(fields, entity.access.read, "model"@, None)
                )),
            },
        },
    }
}

/// The realtime authorisation of an entity.
pub fn realtime_support(entity: &Entity, module: &str, policy: &str, parse_id: &str) -> (result: Result<String, CodegenError>)
    ensures
        match result {
            Ok(text) => realtime_spec(*entity, module@, policy@, parse_id@) == Ok::<Seq<char>, Seq<char>>(text@),
            Err(error) => realtime_spec(*entity, module@, policy@, parse_id@) == Err::<Seq<char>, Seq<char>>(error@),
        },
{
    let list_scope = scope(entity, module, &entity.access.list)?;
    let read_scope = member_scope(entity, module, &entity.access.read)?;
    let read_allowed = row_allowed(entity, &entity.access.read)?;
    let tenant_allowed = if entity.tenant_scoped {
        "model.tenant_id == context.require_tenant()?"
    } else {
        "true"
    };
    Ok(realtime_block(parse_id, read_scope.as_str(), module, policy, list_scope.as_str(), tenant_allowed, read_allowed.as_str()))
}

/// The check that an activity entry's target record is readable.
#[verifier::opaque]
pub open spec fn activity_target_text(parse_id: Seq<char>, read_scope: Seq<char>, module: Seq<char>, policy: Seq<char>) -> Seq<char> {
    "pub(crate) async fn authorize_activity_target(state: &AppState, context: &RequestContext<'_>, record_id: &str,) -> Result<(), ApiError> { "@
        + "let id = record_id.to_owned(); let id = "@
        + parse_id
        + "; "@
        + read_scope
        + " let model = "@
        + module
        + "::Entity::find_by_id(id).filter(access_condition).one(context).await?.ok_or(ApiError::NotFound)?; "@
        + "if !state.extensions."@
        + policy
        + "().can_read(context, &model).await? { return Err(ApiError::NotFound); } Ok(()) }"@
}

fn activity_block(parse_id: &str, read_scope: &str, module: &str, policy: &str) -> (text: String)
    ensures
        text@ == activity_target_text(parse_id@, read_scope@, module@, policy@),
{
    proof {
        reveal(activity_target_text);
    }
    let mut text = String::from_str("pub(crate) async fn authorize_activity_target(state: &AppState, context: &RequestContext<'_>, record_id: &str,) -> Result<(), ApiError> { ");
    text.append("let id = record_id.to_owned(); let id = ");
    text.append(parse_id);
    text.append("; ");
    text.append(read_scope);
    text.append(" let model = ");
    text.append(module);
    text.append("::Entity::find_by_id(id).filter(access_condition).one(context).await?.ok_or(ApiError::NotFound)?; ");
    text.append("if !state.extensions.");
    text.append(policy);
    text.append("().can_read(context, &model).await? { return Err(ApiError::NotFound); } Ok(()) }");
    text
}

/// The activity authorisation, where the entity feeds an activity resource,
/// or the error of its read scope.
pub open spec fn activity_spec(entity: Entity, module: Seq<char>, policy: Seq<char>, parse_id: Seq<char>, has_resource: bool) -> Result<Seq<char>, Seq<char>> {
    if !has_resource {
        Ok(Seq::<char>::empty())
    } else {
        match condition_error(entity.fields@, entity.access.read) {
            Some(error) => Err(error),
            None => Ok(activity_target_text(parse_id, member_scope_text(entity, module, entity.access.read), module, policy)),
        }
    }
}

/// The activity authorisation of an entity; `has_resource` tells whether the
/// application's activity feed has a resource for it.
pub fn activity_support(entity: &Entity, module: &str, policy: &str, parse_id: &str, has_resource: bool) -> (result: Result<String, CodegenError>)
    ensures
        match result {
            Ok(text) => activity_spec(*entity, module@, policy@, parse_id@, has_resource) == Ok::<Seq<char>, Seq<char>>(text@),
            Err(error) => activity_spec(*entity, module@, policy@, parse_id@, has_resource) == Err::<Seq<char>, Seq<char>>(error@),
        },
{
    if !has_resource {
        return Ok(String::new());
    }
    let read_scope = member_scope(entity, module, &entity.access.read)?;
    Ok(activity_block(parse_id, read_scope.as_str(), module, policy))
}

} // verus!
