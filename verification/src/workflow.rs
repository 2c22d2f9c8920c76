use vstd::prelude::*;
use vstd::string::StringExecFns;
use crate::access::{condition_error, member_scope, member_scope_text};
use crate::artifact::CodegenError;
use crate::billing::join_text;
use crate::collections::{field_with_id, state_literals, states_text, workflow_field};
use crate::expressions::find_value_spec;
use crate::field_access::{literal_text, string_literal};
use crate::fields::texts;
use crate::ident::{ident_result, parse_ident};
use crate::ir::{AppIr, Entity, Transition, ValueObject};
use crate::naming::{module_name, pascal_case, pascal_text, snake_text};
use crate::text::{append_joined, append_suffixed, suffixed_text};
use crate::write::HandlerContext;

verus! {

/// A transition variant that carries its input value object.
#[verifier::opaque]
pub open spec fn variant_with_input_text(variant: Seq<char>, value: Seq<char>) -> Seq<char> {
    variant
        + "(crate::extensions::"@
        + value
        + ")"@
}

fn variant_with_input(variant: &str, value: &str) -> (text: String)
    ensures
        text@ == variant_with_input_text(variant@, value@),
{
    proof {
        reveal(variant_with_input_text);
    }
    let mut text = String::new();
    text.append(variant);
    text.append("(crate::extensions::");
    text.append(value);
    text.append(")");
    text
}

/// How a transition without input reads its request body: empty or null.
#[verifier::opaque]
pub open spec fn unit_input_arm_text(name: Seq<char>, variant: Seq<char>) -> Seq<char> {
    name
        + " => { if !value.is_null() && !value.as_object().is_some_and(serde_json::Map::is_empty) { "@
        + "return Err(ApiError::InvalidWorkflowInput(\"this transition does not accept input\".to_owned(),)); "@
        + "} Ok(WorkflowTransitionInput::"@
        + variant
        + ") }"@
}

fn unit_input_arm(name: &str, variant: &str) -> (text: String)
    ensures
        text@ == unit_input_arm_text(name@, variant@),
{
    proof {
        reveal(unit_input_arm_text);
    }
    let mut text = String::new();
    text.append(name);
    text.append(" => { if !value.is_null() && !value.as_object().is_some_and(serde_json::Map::is_empty) { ");
    text.append("return Err(ApiError::InvalidWorkflowInput(\"this transition does not accept input\".to_owned(),)); ");
    text.append("} Ok(WorkflowTransitionInput::");
    text.append(variant);
    text.append(") }");
    text
}

/// How a transition with input reads its request body as the value object.
#[verifier::opaque]
pub open spec fn value_input_arm_text(name: Seq<char>, value_type: Seq<char>, variant: Seq<char>) -> Seq<char> {
    name
        + " => serde_json::from_value::<crate::extensions::"@
        + value_type
        + ">(value).map(WorkflowTransitionInput::"@
        + variant
        + ").map_err(|error| ApiError::InvalidWorkflowInput(error.to_string())),"@
}

fn value_input_arm(name: &str, value_type: &str, variant: &str) -> (text: String)
    ensures
        text@ == value_input_arm_text(name@, value_type@, variant@),
{
    proof {
        reveal(value_input_arm_text);
    }
    let mut text = String::new();
    text.append(name);
    text.append(" => serde_json::from_value::<crate::extensions::");
    text.append(value_type);
    text.append(">(value).map(WorkflowTransitionInput::");
    text.append(variant);
    text.append(").map_err(|error| ApiError::InvalidWorkflowInput(error.to_string())),");
    text
}

/// The arms that pick a transition's target state, or refuse the current state.
#[verifier::opaque]
pub open spec fn target_arm_text(name: Seq<char>, sources: Seq<Seq<char>>, field_name: Seq<char>, target: Seq<char>) -> Seq<char> {
    name
        + " if ["@
        + join_text(sources, ", "@)
        + "].contains(&before."@
        + field_name
        + ".as_str()) => ("@
        + name
        + ", "@
        + target
        + "), "@
        + name
        + " => return Err(ApiError::InvalidWorkflowState),"@
}

fn target_arm(name: &str, sources: &Vec<String>, field_name: &str, target: &str) -> (text: String)
    ensures
        text@ == target_arm_text(name@, texts(sources@), field_name@, target@),
{
    proof {
        reveal(target_arm_text);
    }
    let mut text = String::new();
    text.append(name);
    text.append(" if [");
    append_joined(&mut text, sources, ", ");
    text.append("].contains(&before.");
    text.append(field_name);
    text.append(".as_str()) => (");
    text.append(name);
    text.append(", ");
    text.append(target);
    text.append("), ");
    text.append(name);
    text.append(" => return Err(ApiError::InvalidWorkflowState),");
    text
}

/// The check that lists a transition among those the caller may take now.
#[verifier::opaque]
pub open spec fn capability_check_text(sources: Seq<Seq<char>>, field_name: Seq<char>, target: Seq<char>, allowed: Seq<char>, policy: Seq<char>, name: Seq<char>, input: Seq<char>) -> Seq<char> {
    "if ["@
        + join_text(sources, ", "@)
        + "].contains(&before."@
        + field_name
        + ".as_str()) { let candidate = workflow_candidate(before, "@
        + target
        + ")?; if ("@
        + allowed
        + ") && state.extensions."@
        + policy
        + "().can_view_transition(&context, "@
        + name
        + ", before, &candidate).await? { allowed_transitions.push(WorkflowTransitionCapability { "@
        + "name: "@
        + name
        + ".to_owned(), to: "@
        + target
        + ".to_owned(), input: "@
        + input
        + ", }); } }"@
}

fn capability_check(sources: &Vec<String>, field_name: &str, target: &str, allowed: &str, policy: &str, name: &str, input: &str) -> (text: String)
    ensures
        text@ == capability_check_text(texts(sources@), field_name@, target@, allowed@, policy@, name@, input@),
{
    proof {
        reveal(capability_check_text);
    }
    let mut text = String::from_str("if [");
    append_joined(&mut text, sources, ", ");
    text.append("].contains(&before.");
    text.append(field_name);
    text.append(".as_str()) { let candidate = workflow_candidate(before, ");
    text.append(target);
    text.append(")?; if (");
    text.append(allowed);
    text.append(") && state.extensions.");
    text.append(policy);
    text.append("().can_view_transition(&context, ");
    text.append(name);
    text.append(", before, &candidate).await? { allowed_transitions.push(WorkflowTransitionCapability { ");
    text.append("name: ");
    text.append(name);
    text.append(".to_owned(), to: ");
    text.append(target);
    text.append(".to_owned(), input: ");
    text.append(input);
    text.append(", }); } }");
    text
}

/// The audit record of a transition, with a digest of its input.
#[verifier::opaque]
pub open spec fn workflow_audit_text(entity_id: Seq<char>, primary: Seq<char>) -> Seq<char> {
    "let input_bytes = serde_json::to_vec(&input).map_err(|_| ApiError::Internal)?; "@
        + "let input_digest = <sha2::Sha256 as sha2::Digest>::digest(&input_bytes); "@
        + "let audit_metadata = serde_json::json!({ "@
        + "\"transition\": transition, \"input_sha256\": format!(\"sha256:{input_digest:x}\"), \"from_revision\": before.revision, \"to_revision\": after.revision, }); "@
        + "crate::audit::record_with_metadata(&transaction, &context, "@
        + entity_id
        + ", after."@
        + primary
        + ".to_string(), &format!(\"workflow.{transition}\"), Some(&before), Some(&after), &audit_metadata,).await?;"@
}

fn workflow_audit(entity_id: &str, primary: &str) -> (text: String)
    ensures
        text@ == workflow_audit_text(entity_id@, primary@),
{
    proof {
        reveal(workflow_audit_text);
    }
    let mut text = String::from_str("let input_bytes = serde_json::to_vec(&input).map_err(|_| ApiError::Internal)?; ");
    text.append("let input_digest = <sha2::Sha256 as sha2::Digest>::digest(&input_bytes); ");
    text.append("let audit_metadata = serde_json::json!({ ");
    text.append("\"transition\": transition, \"input_sha256\": format!(\"sha256:{input_digest:x}\"), \"from_revision\": before.revision, \"to_revision\": after.revision, }); ");
    text.append("crate::audit::record_with_metadata(&transaction, &context, ");
    text.append(entity_id);
    text.append(", after.");
    text.append(primary);
    text.append(".to_string(), &format!(\"workflow.{transition}\"), Some(&before), Some(&after), &audit_metadata,).await?;");
    text
}

/// The activity record of a transition.
#[verifier::opaque]
pub open spec fn workflow_activity_text(resource: Seq<char>, primary: Seq<char>) -> Seq<char> {
    "crate::activity::record_system_event(&transaction, &context, "@
        + resource
        + ", after."@
        + primary
        + ".to_string(), &format!(\"workflow.{transition}\"),).await?;"@
}

fn workflow_activity(resource: &str, primary: &str) -> (text: String)
    ensures
        text@ == workflow_activity_text(resource@, primary@),
{
    proof {
        reveal(workflow_activity_text);
    }
    let mut text = String::from_str("crate::activity::record_system_event(&transaction, &context, ");
    text.append(resource);
    text.append(", after.");
    text.append(primary);
    text.append(".to_string(), &format!(\"workflow.{transition}\"),).await?;");
    text
}

/// The webhook event of a transition.
#[verifier::opaque]
pub open spec fn workflow_webhook_text(event_prefix: Seq<char>, entity_id: Seq<char>, primary: Seq<char>) -> Seq<char> {
    "let event = format!(concat!("@
        + event_prefix
        + ", \".workflow.{}\"), transition); let idempotency_key = format!(\"workflow:{}:{}:{}\", "@
        + entity_id
        + ", after."@
        + primary
        + ", after.revision,); let payload = serde_json::json!({ "@
        + "\"transition\": transition, \"input\": &input, \"before\": &before, \"after\": &after, }); "@
        + "crate::webhooks::publish(&transaction, &event, &payload, Some(&idempotency_key), context.tenant(),).await.map_err(|error| { "@
        + "tracing::error!(?error, transition, \"workflow event could not be persisted\"); "@
        + "ApiError::Internal })?;"@
}

fn workflow_webhook(event_prefix: &str, entity_id: &str, primary: &str) -> (text: String)
    ensures
        text@ == workflow_webhook_text(event_prefix@, entity_id@, primary@),
{
    proof {
        reveal(workflow_webhook_text);
    }
    let mut text = String::from_str("let event = format!(concat!(");
    text.append(event_prefix);
    text.append(", \".workflow.{}\"), transition); let idempotency_key = format!(\"workflow:{}:{}:{}\", ");
    text.append(entity_id);
    text.append(", after.");
    text.append(primary);
    text.append(", after.revision,); let payload = serde_json::json!({ ");
    text.append("\"transition\": transition, \"input\": &input, \"before\": &before, \"after\": &after, }); ");
    text.append("crate::webhooks::publish(&transaction, &event, &payload, Some(&idempotency_key), context.tenant(),).await.map_err(|error| { ");
    text.append("tracing::error!(?error, transition, \"workflow event could not be persisted\"); ");
    text.append("ApiError::Internal })?;");
    text
}

/// The input and capability types of a workflow.
#[verifier::opaque]
pub open spec fn workflow_types_text(input_variants: Seq<Seq<char>>) -> Seq<char> {
    "#[derive(Clone, Debug, Serialize)] pub enum WorkflowTransitionInput { "@
        + suffixed_text(input_variants, ", "@)
        + " } #[derive(Clone, Debug, Serialize)] pub struct WorkflowTransitionCapability { "@
        + "pub name: String, pub to: String, pub input: Option<String>, } "@
        + "#[derive(Clone, Debug, Serialize)] pub struct WorkflowCapabilities { "@
        + "pub state: String, pub revision: i64, pub allowed_transitions: Vec<WorkflowTransitionCapability>, } "@
}

fn workflow_types(input_variants: &Vec<String>) -> (text: String)
    ensures
        text@ == workflow_types_text(texts(input_variants@)),
{
    proof {
        reveal(workflow_types_text);
    }
    let mut text = String::from_str("#[derive(Clone, Debug, Serialize)] pub enum WorkflowTransitionInput { ");
    append_suffixed(&mut text, input_variants, ", ");
    text.append(" } #[derive(Clone, Debug, Serialize)] pub struct WorkflowTransitionCapability { ");
    text.append("pub name: String, pub to: String, pub input: Option<String>, } ");
    text.append("#[derive(Clone, Debug, Serialize)] pub struct WorkflowCapabilities { ");
    text.append("pub state: String, pub revision: i64, pub allowed_transitions: Vec<WorkflowTransitionCapability>, } ");
    text
}

/// The endpoint that lists the transitions the caller may take.
#[verifier::opaque]
pub open spec fn capabilities_handler_text(parse_id: Seq<char>, read_scope: Seq<char>, module: Seq<char>, policy: Seq<char>, capability_checks: Seq<Seq<char>>, field_name: Seq<char>) -> Seq<char> {
    "async fn workflow_capabilities(State(state): State<AppState>, Path(id): Path<String>, headers: HeaderMap,) -> Result<([(header::HeaderName, String); "@
        + "1], Json<WorkflowCapabilities>), ApiError> { "@
        + "let context = state.context(&headers).await?; let id = "@
        + parse_id
        + "; "@
        + read_scope
        + " let model = "@
        + module
        + "::Entity::find_by_id(id).filter(access_condition).one(&state.database).await?.ok_or(ApiError::NotFound)?; "@
        + "if !state.extensions."@
        + policy
        + "().can_read(&context, &model).await? { return Err(ApiError::NotFound); } "@
        + "let before = &model; let mut allowed_transitions = Vec::new(); "@
        + suffixed_text(capability_checks, " "@)
        + " Ok((etag_header(&model), Json(WorkflowCapabilities { state: model."@
        + field_name
        + ".clone(), revision: model.revision, allowed_transitions, }),)) } "@
}

fn capabilities_handler(parse_id: &str, read_scope: &str, module: &str, policy: &str, capability_checks: &Vec<String>, field_name: &str) -> (text: String)
    ensures
        text@ == capabilities_handler_text(parse_id@, read_scope@, module@, policy@, texts(capability_checks@), field_name@),
{
    proof {
        reveal(capabilities_handler_text);
    }
    let mut text = String::from_str("async fn workflow_capabilities(State(state): State<AppState>, Path(id): Path<String>, headers: HeaderMap,) -> Result<([(header::HeaderName, String); ");
    text.append("1], Json<WorkflowCapabilities>), ApiError> { ");
    text.append("let context = state.context(&headers).await?; let id = ");
    text.append(parse_id);
    text.append("; ");
    text.append(read_scope);
    text.append(" let model = ");
    text.append(module);
    text.append("::Entity::find_by_id(id).filter(access_condition).one(&state.database).await?.ok_or(ApiError::NotFound)?; ");
    text.append("if !state.extensions.");
    text.append(policy);
    text.append("().can_read(&context, &model).await? { return Err(ApiError::NotFound); } ");
    text.append("let before = &model; let mut allowed_transitions = Vec::new(); ");
    append_suffixed(&mut text, capability_checks, " ");
    text.append(" Ok((etag_header(&model), Json(WorkflowCapabilities { state: model.");
    text.append(field_name);
    text.append(".clone(), revision: model.revision, allowed_transitions, }),)) } ");
    text
}

/// The endpoint that takes a transition.
#[verifier::opaque]
pub open spec fn transition_handler_text(parse_id: Seq<char>, read_scope: Seq<char>, module: Seq<char>, policy: Seq<char>, target_arms: Seq<Seq<char>>, allowed_arms: Seq<Seq<char>>, hooks: Seq<char>, field_name: Seq<char>, audit: Seq<char>, activity: Seq<char>, webhook: Seq<char>, event_prefix: Seq<char>) -> Seq<char> {
    "async fn execute_workflow_transition(State(state): State<AppState>, Path((id, action)): Path<(String, String)>, headers: HeaderMap, input: Result<Json<serde_json::Value>, axum::extract::rejection::JsonRejection>,) -> Result<([(header::HeaderName, String); "@
        + "1], Json<serde_json::Value>), ApiError> { let expected = expected_revision(&headers)?; "@
        + "let context = state.mutation_context(&headers).await?; "@
        + "let actor = context.actor().cloned(); let tenant = context.tenant(); "@
        + "let raw_input = input.map_err(|error| ApiError::InvalidWorkflowInput(error.body_text()))?.0; "@
        + "let id = "@
        + parse_id
        + "; let transaction = state.database.begin().await?; let after = { "@
        + "let context = RequestContext::transaction_with_file(&transaction, &state.mail, &state.file, &state.realtime, actor.clone(), tenant,); "@
        + read_scope
        + " let before = "@
        + module
        + "::Entity::find_by_id(id).filter(access_condition).lock_exclusive().one(&transaction).await?.ok_or(ApiError::NotFound)?; "@
        + "if !state.extensions."@
        + policy
        + "().can_read(&context, &before).await? { return Err(ApiError::NotFound); } "@
        + "if before.revision != expected { return Err(ApiError::ConcurrentModification); } "@
        + "let (transition, target) = match action.as_str() { "@
        + suffixed_text(target_arms, " "@)
        + " _ => return Err(ApiError::UnknownWorkflowTransition), }; "@
        + "let candidate = workflow_candidate(&before, target)?; "@
        + "let transition_allowed = match transition { "@
        + suffixed_text(allowed_arms, ", "@)
        + " _ => false, }; if !transition_allowed { return Err(access_denied(&context)); } "@
        + "let mut input = parse_workflow_transition_input(transition, raw_input)?; state.extensions."@
        + hooks
        + "().before_transition(&context, transition, &before, &mut input).await?; "@
        + "if !state.extensions."@
        + policy
        + "().can_transition(&context, transition, &before, &input, &candidate).await? { "@
        + "return Err(ApiError::Forbidden); } let mut active = before.clone().into_active_model(); "@
        + "active."@
        + field_name
        + " = Set(target.to_owned()); "@
        + "active.revision = Set(before.revision.checked_add(1).ok_or_else(|| sea_orm::DbErr::Custom(\"revision overflow\".to_owned()))?); "@
        + "let after = active.update(&transaction).await?; state.extensions."@
        + hooks
        + "().after_transition(&context, transition, &before, &input, &after).await?; "@
        + audit
        + " "@
        + activity
        + " "@
        + webhook
        + " after }; transaction.commit().await?; let event = format!(concat!("@
        + event_prefix
        + ", \".workflow.{}\"), action); publish_realtime_event(&state, &context, &event, &after); "@
        + "run_after_commit(&state, crate::HookOperation::Transition, &after, actor, tenant,).await; "@
        + "Ok((etag_header(&after), Json(redact_model(&context, after)?))) } "@
}

fn transition_handler(parse_id: &str, read_scope: &str, module: &str, policy: &str, target_arms: &Vec<String>, allowed_arms: &Vec<String>, hooks: &str, field_name: &str, audit: &str, activity: &str, webhook: &str, event_prefix: &str) -> (text: String)
    ensures
        text@ == transition_handler_text(parse_id@, read_scope@, module@, policy@, texts(target_arms@), texts(allowed_arms@), hooks@, field_name@, audit@, activity@, webhook@, event_prefix@),
{
    proof {
        reveal(transition_handler_text);
    }
    let mut text = String::from_str("async fn execute_workflow_transition(State(state): State<AppState>, Path((id, action)): Path<(String, String)>, headers: HeaderMap, input: Result<Json<serde_json::Value>, axum::extract::rejection::JsonRejection>,) -> Result<([(header::HeaderName, String); ");
    text.append("1], Json<serde_json::Value>), ApiError> { let expected = expected_revision(&headers)?; ");
    text.append("let context = state.mutation_context(&headers).await?; ");
    text.append("let actor = context.actor().cloned(); let tenant = context.tenant(); ");
    text.append("let raw_input = input.map_err(|error| ApiError::InvalidWorkflowInput(error.body_text()))?.0; ");
    text.append("let id = ");
    text.append(parse_id);
    text.append("; let transaction = state.database.begin().await?; let after = { ");
    text.append("let context = RequestContext::transaction_with_file(&transaction, &state.mail, &state.file, &state.realtime, actor.clone(), tenant,); ");
    text.append(read_scope);
    text.append(" let before = ");
    text.append(module);
    text.append("::Entity::find_by_id(id).filter(access_condition).lock_exclusive().one(&transaction).await?.ok_or(ApiError::NotFound)?; ");
    text.append("if !state.extensions.");
    text.append(policy);
    text.append("().can_read(&context, &before).await? { return Err(ApiError::NotFound); } ");
    text.append("if before.revision != expected { return Err(ApiError::ConcurrentModification); } ");
    text.append("let (transition, target) = match action.as_str() { ");
    append_suffixed(&mut text, target_arms, " ");
    text.append(" _ => return Err(ApiError::UnknownWorkflowTransition), }; ");
    text.append("let candidate = workflow_candidate(&before, target)?; ");
    text.append("let transition_allowed = match transition { ");
    append_suffixed(&mut text, allowed_arms, ", ");
    text.append(" _ => false, }; if !transition_allowed { return Err(access_denied(&context)); } ");
    text.append("let mut input = parse_workflow_transition_input(transition, raw_input)?; state.extensions.");
    text.append(hooks);
    text.append("().before_transition(&context, transition, &before, &mut input).await?; ");
    text.append("if !state.extensions.");
    text.append(policy);
    text.append("().can_transition(&context, transition, &before, &input, &candidate).await? { ");
    text.append("return Err(ApiError::Forbidden); } let mut active = before.clone().into_active_model(); ");
    text.append("active.");
    text.append(field_name);
    text.append(" = Set(target.to_owned()); ");
    text.append("active.revision = Set(before.revision.checked_add(1).ok_or_else(|| sea_orm::DbErr::Custom(\"revision overflow\".to_owned()))?); ");
    text.append("let after = active.update(&transaction).await?; state.extensions.");
    text.append(hooks);
    text.append("().after_transition(&context, transition, &before, &input, &after).await?; ");
    text.append(audit);
    text.append(" ");
    text.append(activity);
    text.append(" ");
    text.append(webhook);
    text.append(" after }; transaction.commit().await?; let event = format!(concat!(");
    text.append(event_prefix);
    text.append(", \".workflow.{}\"), action); publish_realtime_event(&state, &context, &event, &after); ");
    text.append("run_after_commit(&state, crate::HookOperation::Transition, &after, actor, tenant,).await; ");
    text.append("Ok((etag_header(&after), Json(redact_model(&context, after)?))) } ");
    text
}

/// The input parser and the candidate record of a transition.
#[verifier::opaque]
pub open spec fn workflow_helpers_text(parse_input_arms: Seq<Seq<char>>, module: Seq<char>, field_name: Seq<char>) -> Seq<char> {
    "fn parse_workflow_transition_input(transition: &str, value: serde_json::Value,) -> Result<WorkflowTransitionInput, ApiError> { "@
        + "match transition { "@
        + suffixed_text(parse_input_arms, " "@)
        + " _ => Err(ApiError::UnknownWorkflowTransition), } } fn workflow_candidate(before: &"@
        + module
        + "::Model, target: &str,) -> Result<"@
        + module
        + "::Model, ApiError> { let mut active = before.clone().into_active_model(); active."@
        + field_name
        + " = Set(target.to_owned()); "@
        + "active.revision = Set(before.revision.checked_add(1).ok_or_else(|| sea_orm::DbErr::Custom(\"revision overflow\".to_owned()))?); "@
        + "Ok(active.try_into_model()?) }"@
}

fn workflow_helpers(parse_input_arms: &Vec<String>, module: &str, field_name: &str) -> (text: String)
    ensures
        text@ == workflow_helpers_text(texts(parse_input_arms@), module@, field_name@),
{
    proof {
        reveal(workflow_helpers_text);
    }
    let mut text = String::from_str("fn parse_workflow_transition_input(transition: &str, value: serde_json::Value,) -> Result<WorkflowTransitionInput, ApiError> { ");
    text.append("match transition { ");
    append_suffixed(&mut text, parse_input_arms, " ");
    text.append(" _ => Err(ApiError::UnknownWorkflowTransition), } } fn workflow_candidate(before: &");
    text.append(module);
    text.append("::Model, target: &str,) -> Result<");
    text.append(module);
    text.append("::Model, ApiError> { let mut active = before.clone().into_active_model(); active.");
    text.append(field_name);
    text.append(" = Set(target.to_owned()); ");
    text.append("active.revision = Set(before.revision.checked_add(1).ok_or_else(|| sea_orm::DbErr::Custom(\"revision overflow\".to_owned()))?); ");
    text.append("Ok(active.try_into_model()?) }");
    text
}

/// The routes of a workflow: its capabilities and its transitions.
pub open spec fn workflow_routes_text() -> Seq<char> {
    ".route(\"/{id}/_transitions\", get(workflow_capabilities))"@
        + ".route(\"/{id}/_transitions/{action}\", axum::routing::post(execute_workflow_transition))"@
}

fn workflow_routes() -> (text: String)
    ensures
        text@ == workflow_routes_text(),
{
    let mut text = String::from_str(".route(\"/{id}/_transitions\", get(workflow_capabilities))");
    text.append(".route(\"/{id}/_transitions/{action}\", axum::routing::post(execute_workflow_transition))");
    text
}

/// A transition's input names a value object of the application.
pub open spec fn input_exists(ir: AppIr, transition: Transition) -> bool {
    transition.input matches Some(id) ==> find_value_spec(ir.value_objects@, id@) is Some
}

/// The pieces of one transition, or the value object's name where it is no
/// identifier: its input variant, its input parser arm, its target arms, its
/// access arm and its capability check.
pub open spec fn transition_spec(ir: AppIr, transition: Transition, allowed: Seq<char>, field_name: Seq<char>, policy: Seq<char>) -> Result<(Seq<char>, Seq<char>, Seq<char>, Seq<char>, Seq<char>), Seq<char>> {
    let name = literal_text(transition.name@);
    let variant = pascal_text(transition.name@);
    let target = literal_text(transition.to@);
    let sources = states_text(transition.from@);
    let target_arm = target_arm_text(name, sources, field_name, target);
    let allowed_arm = name + " => "@ + allowed;
    match transition.input {
        None => Ok((
            variant,
            unit_input_arm_text(name, variant),
            target_arm,
            allowed_arm,
            capability_check_text(sources, field_name, target, allowed, policy, name, "None"@),
        )),
        Some(id) => {
            let value = find_value_spec(ir.value_objects@, id@)->Some_0;
            match ident_result(value.rust_name@) {
                Err(error) => Err(error),
                Ok(value_type) => Ok((
                    variant_with_input_text(variant, value_type),
                    value_input_arm_text(name, value_type, variant),
                    target_arm,
                    allowed_arm,
                    capability_check_text(
                        sources,
                        field_name,
                        target,
                        allowed,
                        policy,
                        name,
                        "Some("@ + literal_text(value.rust_name@) + ".to_owned())"@,
                    ),
                )),
            }
        },
    }
}

/// The first value object with the given id.
pub(crate) fn find_value<'a>(values: &'a Vec<ValueObject>, id: &String) -> (result: Option<&'a ValueObject>)
    ensures
        match result {
            Some(value) => find_value_spec(values@, id@) == Some(*value),
            None => find_value_spec(values@, id@) is None,
        },
{
    let mut i: usize = 0;
    proof {
        assert(values@.skip(0) == values@);
    }
    while i < values.len()
        invariant
            i <= values.len(),
            find_value_spec(values@, id@) == find_value_spec(values@.skip(i as int), id@),
        decreases values.len() - i,
    {
        proof {
            assert(values@.skip(i as int).drop_first() == values@.skip(i + 1));
            assert(values@.skip(i as int)[0] == values@[i as int]);
        }
        if values[i].id == *id {
            return Some(&values[i]);
        }
        i = i + 1;
    }
    None
}

fn joined(first: &str, second: &str) -> (text: String)
    ensures
        text@ == first@ + second@,
{
    let mut text = String::from_str(first);
    text.append(second);
    text
}

fn transition_pieces(ir: &AppIr, transition: &Transition, allowed: &str, field_name: &str, policy: &str) -> (result: Result<(String, String, String, String, String), CodegenError>)
    requires
        input_exists(*ir, *transition),
    ensures
        match result {
            Ok((variant, parse_arm, target_arm, allowed_arm, check)) => transition_spec(*ir, *transition, allowed@, field_name@, policy@)
                == Ok::<(Seq<char>, Seq<char>, Seq<char>, Seq<char>, Seq<char>), Seq<char>>((variant@, parse_arm@, target_arm@, allowed_arm@, check@)),
            Err(error) => transition_spec(*ir, *transition, allowed@, field_name@, policy@)
                == Err::<(Seq<char>, Seq<char>, Seq<char>, Seq<char>, Seq<char>), Seq<char>>(error@),
        },
{
    let name = string_literal(transition.name.as_str());
    let variant = pascal_case(transition.name.as_str());
    let target = string_literal(transition.to.as_str());
    let sources = state_literals(&transition.from);
    let target_arm = target_arm(name.as_str(), &sources, field_name, target.as_str());
    let mut allowed_arm = joined(name.as_str(), " => ");
    allowed_arm.append(allowed);
    match &transition.input {
        None => {
            proof {
                reveal_strlit("None");
            }
            let parse_arm = unit_input_arm(name.as_str(), variant.as_str());
            let check = capability_check(&sources, field_name, target.as_str(), allowed, policy, name.as_str(), "None");
            Ok((variant, parse_arm, target_arm, allowed_arm, check))
        },
        Some(id) => {
            let value = find_value(&ir.value_objects, id).unwrap();
            let value_type = parse_ident(value.rust_name.as_str())?;
            let with_input = variant_with_input(variant.as_str(), value_type.as_str());
            let parse_arm = value_input_arm(name.as_str(), value_type.as_str(), variant.as_str());
            let value_literal = string_literal(value.rust_name.as_str());
            let mut input = joined("Some(", value_literal.as_str());
            input.append(".to_owned())");
            let check = capability_check(&sources, field_name, target.as_str(), allowed, policy, name.as_str(), input.as_str());
            Ok((with_input, parse_arm, target_arm, allowed_arm, check))
        },
    }
}

/// The pieces of a workflow's transitions, in order, or the first error:
/// input variants, input parser arms, target arms, access arms and
/// capability checks; `allowed` holds each transition's access expression.
pub open spec fn transitions_spec(ir: AppIr, transitions: Seq<Transition>, allowed: Seq<Seq<char>>, field_name: Seq<char>, policy: Seq<char>) -> Result<(Seq<Seq<char>>, Seq<Seq<char>>, Seq<Seq<char>>, Seq<Seq<char>>, Seq<Seq<char>>), Seq<char>>
    decreases transitions.len(),
{
    if transitions.len() == 0 {
        Ok((Seq::empty(), Seq::empty(), Seq::empty(), Seq::empty(), Seq::empty()))
    } else {
        match transitions_spec(ir, transitions.drop_last(), allowed, field_name, policy) {
            Err(error) => Err(error),
            Ok((variants, parse_arms, target_arms, allowed_arms, checks)) => match transition_spec(
                ir,
                transitions.last(),
                allowed[transitions.len() - 1],
                field_name,
                policy,
            ) {
                Err(error) => Err(error),
                Ok((variant, parse_arm, target_arm, allowed_arm, check)) => Ok((
                    variants.push(variant),
                    parse_arms.push(parse_arm),
                    target_arms.push(target_arm),
                    allowed_arms.push(allowed_arm),
                    checks.push(check),
                )),
            },
        }
    }
}

proof fn lemma_transitions_error(ir: AppIr, transitions: Seq<Transition>, allowed: Seq<Seq<char>>, field_name: Seq<char>, policy: Seq<char>, k: int)
    requires
        0 <= k <= transitions.len(),
        transitions_spec(ir, transitions.subrange(0, k), allowed, field_name, policy) is Err,
    ensures
        transitions_spec(ir, transitions, allowed, field_name, policy)
            == transitions_spec(ir, transitions.subrange(0, k), allowed, field_name, policy),
    decreases transitions.len() - k,
{
    if k < transitions.len() {
        assert(transitions.subrange(0, k + 1).drop_last() == transitions.subrange(0, k));
        lemma_transitions_error(ir, transitions, allowed, field_name, policy, k + 1);
    } else {
        assert(transitions.subrange(0, k) == transitions);
    }
}

fn transition_lists(ir: &AppIr, transitions: &Vec<Transition>, allowed: &Vec<String>, field_name: &str, policy: &str) -> (result: Result<(Vec<String>, Vec<String>, Vec<String>, Vec<String>, Vec<String>), CodegenError>)
    requires
        allowed.len() == transitions.len(),
        forall|i: int| 0 <= i < transitions.len() ==> input_exists(*ir, #[trigger] transitions@[i]),
    ensures
        match result {
            Ok((variants, parse_arms, target_arms, allowed_arms, checks)) => transitions_spec(*ir, transitions@, texts(allowed@), field_name@, policy@)
                == Ok::<(Seq<Seq<char>>, Seq<Seq<char>>, Seq<Seq<char>>, Seq<Seq<char>>, Seq<Seq<char>>), Seq<char>>((
                    texts(variants@),
                    texts(parse_arms@),
                    texts(target_arms@),
                    texts(allowed_arms@),
                    texts(checks@),
                )),
            Err(error) => transitions_spec(*ir, transitions@, texts(allowed@), field_name@, policy@)
                == Err::<(Seq<Seq<char>>, Seq<Seq<char>>, Seq<Seq<char>>, Seq<Seq<char>>, Seq<Seq<char>>), Seq<char>>(error@),
        },
{
    let ghost access = texts(allowed@);
    let mut variants: Vec<String> = Vec::new();
    let mut parse_arms: Vec<String> = Vec::new();
    let mut target_arms: Vec<String> = Vec::new();
    let mut allowed_arms: Vec<String> = Vec::new();
    let mut checks: Vec<String> = Vec::new();
    let mut i: usize = 0;
    proof {
        assert(transitions@.subrange(0, 0) == Seq::<Transition>::empty());
        assert(texts(variants@) == Seq::<Seq<char>>::empty());
        assert(texts(parse_arms@) == Seq::<Seq<char>>::empty());
        assert(texts(target_arms@) == Seq::<Seq<char>>::empty());
        assert(texts(allowed_arms@) == Seq::<Seq<char>>::empty());
        assert(texts(checks@) == Seq::<Seq<char>>::empty());
    }
    while i < transitions.len()
        invariant
            i <= transitions.len(),
            allowed.len() == transitions.len(),
            access == texts(allowed@),
            forall|j: int| 0 <= j < transitions.len() ==> input_exists(*ir, #[trigger] transitions@[j]),
            transitions_spec(*ir, transitions@.subrange(0, i as int), access, field_name@, policy@)
                == Ok::<(Seq<Seq<char>>, Seq<Seq<char>>, Seq<Seq<char>>, Seq<Seq<char>>, Seq<Seq<char>>), Seq<char>>((
                    texts(variants@),
                    texts(parse_arms@),
                    texts(target_arms@),
                    texts(allowed_arms@),
                    texts(checks@),
                )),
        decreases transitions.len() - i,
    {
        proof {
            assert(transitions@.subrange(0, i + 1).drop_last() == transitions@.subrange(0, i as int));
            assert(transitions@.subrange(0, i + 1).last() == transitions@[i as int]);
            assert(access[i as int] == allowed@[i as int]@);
        }
        match transition_pieces(ir, &transitions[i], allowed[i].as_str(), field_name, policy) {
            Ok((variant, parse_arm, target_arm, allowed_arm, check)) => {
                let ghost before = (texts(variants@), texts(parse_arms@), texts(target_arms@), texts(allowed_arms@), texts(checks@));
                variants.push(variant);
                parse_arms.push(parse_arm);
                target_arms.push(target_arm);
                allowed_arms.push(allowed_arm);
                checks.push(check);
                proof {
                    assert(texts(variants@) == before.0.push(variant@));
                    assert(texts(parse_arms@) == before.1.push(parse_arm@));
                    assert(texts(target_arms@) == before.2.push(target_arm@));
                    assert(texts(allowed_arms@) == before.3.push(allowed_arm@));
                    assert(texts(checks@) == before.4.push(check@));
                }
            },
            Err(error) => {
                proof {
                    lemma_transitions_error(*ir, transitions@, access, field_name@, policy@, i + 1);
                }
                return Err(error);
            },
        }
        i = i + 1;
    }
    proof {
        assert(transitions@.subrange(0, transitions@.len() as int) == transitions@);
    }
    Ok((variants, parse_arms, target_arms, allowed_arms, checks))
}

/// The routes and endpoints of an entity's workflow.
#[derive(Debug)]
pub struct WorkflowSupport {
    pub routes: String,
    pub tokens: String,
}

/// What the workflow endpoints need from the compiler: the workflow's state
/// field exists, each transition has its access expression, and each
/// transition's input names a value object.
pub open spec fn workflow_ready(ir: AppIr, entity: Entity, allowed: Seq<Seq<char>>) -> bool {
    match entity.workflow {
        None => true,
        Some(workflow) => {
            &&& workflow_field(entity) is Some
            &&& allowed.len() == workflow.transitions@.len()
            &&& forall|i: int| 0 <= i < workflow.transitions@.len() ==> input_exists(ir, #[trigger] workflow.transitions@[i])
        },
    }
}

/// The workflow endpoints of an entity and their routes, or the first error:
/// the state field's name, the read scope, then the transitions' input value
/// objects. An entity without a workflow has none. The handler context gives
/// the entity's module, hooks, policy, id parser, primary key and activity
/// resource; `allowed` gives each transition's access expression, in order.
pub open spec fn workflow_spec(ir: AppIr, entity: Entity, module: Seq<char>, hooks: Seq<char>, policy: Seq<char>, parse_id: Seq<char>, primary: Seq<char>, resource: Option<Seq<char>>, allowed: Seq<Seq<char>>) -> Result<(Seq<char>, Seq<char>), Seq<char>> {
    match entity.workflow {
        None => Ok((Seq::<char>::empty(), Seq::<char>::empty())),
        Some(workflow) => match ident_result(workflow_field(entity)->Some_0.rust_name@) {
            Err(error) => Err(error),
            Ok(field_name) => match condition_error(entity.fields@, entity.access.read) {
                Some(error) => Err(error),
                None => match transitions_spec(ir, workflow.transitions@, allowed, field_name, policy) {
                    Err(error) => Err(error),
                    Ok((variants, parse_arms, target_arms, allowed_arms, checks)) => {
                        let read_scope = member_scope_text(entity, module, entity.access.read);
                        let entity_id = literal_text(entity.id@);
                        let event_prefix = literal_text(snake_text(entity.rust_name@));
                        let audit = if entity.audit_enabled {
                            workflow_audit_text(entity_id, primary)
                        } else {
                            Seq::<char>::empty()
                        };
                        let activity = match resource {
                            Some(name) => workflow_activity_text(literal_text(name), primary),
                            None => Seq::<char>::empty(),
                        };
                        let webhook = if ir.webhooks.enabled {
                            workflow_webhook_text(event_prefix, entity_id, primary)
                        } else {
                            Seq::<char>::empty()
                        };
                        Ok((
                            workflow_routes_text(),
                            workflow_types_text(variants)
                                + capabilities_handler_text(parse_id, read_scope, module, policy, checks, field_name)
                                + transition_handler_text(
                                    parse_id,
                                    read_scope,
                                    module,
                                    policy,
                                    target_arms,
                                    allowed_arms,
                                    hooks,
                                    field_name,
                                    audit,
                                    activity,
                                    webhook,
                                    event_prefix,
                                )
                                + workflow_helpers_text(parse_arms, module, field_name),
                        ))
                    },
                },
            },
        },
    }
}

/// The view of a handler context's activity resource.
pub open spec fn activity_view(context: HandlerContext) -> Option<Seq<char>> {
    match context.activity_resource {
        Some(name) => Some(name@),
        None => None,
    }
}

/// The workflow endpoints of an entity and their routes.
pub fn workflow_support(ir: &AppIr, entity: &Entity, context: &HandlerContext, allowed: &Vec<String>) -> (result: Result<WorkflowSupport, CodegenError>)
    requires
        workflow_ready(*ir, *entity, texts(allowed@)),
    ensures
        match result {
            Ok(support) => workflow_spec(
                *ir,
                *entity,
                context.module@,
                context.hooks@,
                context.policy@,
                context.parse_id@,
                context.primary@,
                activity_view(*context),
                texts(allowed@),
            ) == Ok::<(Seq<char>, Seq<char>), Seq<char>>((support.routes@, support.tokens@)),
            Err(error) => workflow_spec(
                *ir,
                *entity,
                context.module@,
                context.hooks@,
                context.policy@,
                context.parse_id@,
                context.primary@,
                activity_view(*context),
                texts(allowed@),
            ) == Err::<(Seq<char>, Seq<char>), Seq<char>>(error@),
        },
{
    match &entity.workflow {
        None => Ok(WorkflowSupport { routes: String::new(), tokens: String::new() }),
        Some(workflow) => {
            let field = field_with_id(&entity.fields, workflow.field.as_str()).unwrap();
            let field_name = parse_ident(field.rust_name.as_str())?;
            let read_scope = member_scope(entity, context.module.as_str(), &entity.access.read)?;
            let (variants, parse_arms, target_arms, allowed_arms, checks) = transition_lists(
                ir,
                &workflow.transitions,
                allowed,
                field_name.as_str(),
                context.policy.as_str(),
            )?;
            let entity_id = string_literal(entity.id.as_str());
            let module = module_name(entity);
            let event_prefix = string_literal(module.as_str());
            let audit = if entity.audit_enabled {
                workflow_audit(entity_id.as_str(), context.primary.as_str())
            } else {
                String::new()
            };
            let activity = match &context.activity_resource {
                Some(name) => {
                    let resource = string_literal(name.as_str());
                    workflow_activity(resource.as_str(), context.primary.as_str())
                },
                None => String::new(),
            };
            let webhook = if ir.webhooks.enabled {
                workflow_webhook(event_prefix.as_str(), entity_id.as_str(), context.primary.as_str())
            } else {
                String::new()
            };
            let mut tokens = workflow_types(&variants);
            let capabilities = capabilities_handler(
                context.parse_id.as_str(),
                read_scope.as_str(),
                context.module.as_str(),
                context.policy.as_str(),
                &checks,
                field_name.as_str(),
            );
            tokens.append(capabilities.as_str());
            let handler = transition_handler(
                context.parse_id.as_str(),
                read_scope.as_str(),
                context.module.as_str(),
                context.policy.as_str(),
                &target_arms,
                &allowed_arms,
                context.hooks.as_str(),
                field_name.as_str(),
                audit.as_str(),
                activity.as_str(),
                webhook.as_str(),
                event_prefix.as_str(),
            );
            tokens.append(handler.as_str());
            let helpers = workflow_helpers(&parse_arms, context.module.as_str(), field_name.as_str());
            tokens.append(helpers.as_str());
            Ok(WorkflowSupport { routes: workflow_routes(), tokens })
        },
    }
}

} // verus!
