use vstd::prelude::*;
use vstd::string::StringExecFns;
use crate::access::{condition_error, list_scope_text, scope};
use crate::artifact::CodegenError;
use crate::ir::Entity;

verus! {

/// The lookup endpoint: between 1 and 100 comma-separated ids, each parsed
/// as the primary key, looked up inside the read scope; records the policy
/// refuses are left out.
pub open spec fn lookup_text(module: Seq<char>, policy: Seq<char>, primary: Seq<char>, parse_id: Seq<char>, scope: Seq<char>) -> Seq<char> {
    "#[derive(Deserialize)] struct LookupQuery { ids: String } "@
        + "async fn lookup(State(state): State<AppState>, headers: HeaderMap, axum::extract::Query(query): axum::extract::Query<LookupQuery>) -> Result<Json<Vec<serde_json::Value>>, ApiError> { "@
        + "let context = state.context(&headers).await?; "@
        + "let raw_ids = query.ids.split(',').collect::<Vec<_>>(); "@
        + "if raw_ids.is_empty() || raw_ids.len() > 100 || raw_ids.iter().any(|id| id.is_empty()) { "@
        + "return Err(ApiError::InvalidQuery(\"lookup requires between 1 and 100 IDs\".to_owned())); } "@
        + "let ids = raw_ids.into_iter().map(|id| { let id = id.to_owned(); Ok("@
        + parse_id
        + ") }).collect::<Result<Vec<_>, ApiError>>()?; let mut select = "@
        + module
        + "::Entity::find(); "@
        + scope
        + " let models = select.filter("@
        + module
        + "::Column::"@
        + primary
        + ".is_in(ids)).all(&state.database).await?; "@
        + "let mut records = Vec::with_capacity(models.len()); for model in models { "@
        + "if state.extensions."@
        + policy
        + "().can_read(&context, &model).await? { records.push(redact_model(&context, model)?); } } "@
        + "Ok(Json(records)) }"@
}

/// The lookup endpoint, or the error of the read scope.
pub open spec fn lookup_spec(entity: Entity, module: Seq<char>, policy: Seq<char>, primary: Seq<char>, parse_id: Seq<char>) -> Result<Seq<char>, Seq<char>> {
    match condition_error(entity.fields@, entity.access.read) {
        Some(error) => Err(error),
        None => Ok(lookup_text(module, policy, primary, parse_id, list_scope_text(entity, module, entity.access.read))),
    }
}

/// The lookup endpoint of an entity; `primary` is the primary key's column.
pub fn lookup_support(entity: &Entity, module: &str, policy: &str, primary: &str, parse_id: &str) -> (result: Result<String, CodegenError>)
    ensures
        match result {
            Ok(text) => lookup_spec(*entity, module@, policy@, primary@, parse_id@) == Ok::<Seq<char>, Seq<char>>(text@),
            Err(error) => lookup_spec(*entity, module@, policy@, primary@, parse_id@) == Err::<Seq<char>, Seq<char>>(error@),
        },
{
    let read_scope = scope(entity, module, &entity.access.read)?;
    let scope = read_scope.as_str();
    let mut text = String::from_str("#[derive(Deserialize)] struct LookupQuery { ids: String } ");
    text.append("async fn lookup(State(state): State<AppState>, headers: HeaderMap, axum::extract::Query(query): axum::extract::Query<LookupQuery>) -> Result<Json<Vec<serde_json::Value>>, ApiError> { ");
    text.append("let context = state.context(&headers).await?; ");
    text.append("let raw_ids = query.ids.split(',').collect::<Vec<_>>(); ");
    text.append("if raw_ids.is_empty() || raw_ids.len() > 100 || raw_ids.iter().any(|id| id.is_empty()) { ");
    text.append("return Err(ApiError::InvalidQuery(\"lookup requires between 1 and 100 IDs\".to_owned())); } ");
    text.append("let ids = raw_ids.into_iter().map(|id| { let id = id.to_owned(); Ok(");
    text.append(parse_id);
    text.append(") }).collect::<Result<Vec<_>, ApiError>>()?; let mut select = ");
    text.append(module);
    text.append("::Entity::find(); ");
    text.append(scope);
    text.append(" let models = select.filter(");
    text.append(module);
    text.append("::Column::");
    text.append(primary);
    text.append(".is_in(ids)).all(&state.database).await?; ");
    text.append("let mut records = Vec::with_capacity(models.len()); for model in models { ");
    text.append("if state.extensions.");
    text.append(policy);
    text.append("().can_read(&context, &model).await? { records.push(redact_model(&context, model)?); } } ");
    text.append("Ok(Json(records)) }");
    Ok(text)
}

} // verus!
