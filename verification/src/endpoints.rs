use vstd::prelude::*;
use vstd::string::StringExecFns;
use crate::access::{
    column_ident, column_result, condition_error, create_allowed, guard_error, guard_text, list_scope_text, row_allowed,
    scope, update_allowed,
};
use crate::aggregate::{aggregate_support, aggregate_support_spec};
use crate::artifact::CodegenError;
use crate::authorize::{activity_spec, activity_support, realtime_spec, realtime_support};
use crate::bulk::{bulk_source, bulk_text_spec, BulkSource};
use crate::collections::{collections_ready, collections_spec, collections_support};
use crate::expressions::{parse_id_expression, parse_id_text};
use crate::field_access::{field_rules_owner_free, field_support, field_support_spec};
use crate::fields::{first_primary, is_writable, no_primary_key, optional_type, optional_type_text, primary_key, rust_type, rust_type_text, texts};
use crate::ident::{ident_result, parse_ident};
use crate::ir::{AppIr, Entity, Field, GeneratedValue};
use crate::list::{list_support, list_support_spec};
use crate::lookup::{lookup_spec, lookup_support};
use crate::models::{scalar_at, scalar_for, ScalarAttributes};
use crate::naming::{module_name, snake_text};
use crate::source::{render, render_spec};
use crate::text::{append_suffixed, suffixed_text};
use crate::values::{create_values, create_values_spec, defaults_parse, update_values, update_values_spec};
use crate::workflow::{workflow_ready, workflow_spec, workflow_support};
use crate::write::{handlers, handlers_text_spec, HandlerContext};

verus! {

/// What an entity's endpoint module takes from the parts of the compiler that
/// describe scalar types, validation, transition access, related scopes and
/// activity: each field's scalar attributes (in the order of the entity's
/// fields), the create and update validation rules, each workflow
/// transition's access expression, the related list scope of each field's
/// relation target (in the order of the entity's fields), the scopes of the
/// trash and restore endpoints, and the entity's activity resource.
pub struct EndpointInputs {
    pub scalars: Vec<ScalarAttributes>,
    pub create_rules: Vec<String>,
    pub update_rules: Vec<String>,
    pub transition_access: Vec<String>,
    pub related_scopes: Vec<String>,
    pub trash_scope: String,
    pub restore_scope: String,
    pub activity_resource: Option<String>,
}

/// The view of the activity resource.
pub open spec fn inputs_resource(inputs: EndpointInputs) -> Option<Seq<char>> {
    match inputs.activity_resource {
        Some(name) => Some(name@),
        None => None,
    }
}

/// The validation of create and update inputs, and the access error.
#[verifier::opaque]
pub open spec fn validators_text(create_rules: Seq<Seq<char>>, update_rules: Seq<Seq<char>>) -> Seq<char> {
    "#[allow(unused_mut, unused_variables)] fn validate_create(input: &CreateInput) -> Result<(), ApiError> { "@
        + "let mut violations = Vec::new(); "@
        + suffixed_text(create_rules, " "@)
        + " finish_validation(violations) } "@
        + "#[allow(unused_mut, unused_variables)] fn validate_update(input: &UpdateInput) -> Result<(), ApiError> { "@
        + "let mut violations = Vec::new(); "@
        + suffixed_text(update_rules, " "@)
        + " finish_validation(violations) } "@
        + "fn finish_validation(violations: Vec<FieldViolation>) -> Result<(), ApiError> { "@
        + "if violations.is_empty() { Ok(()) } else { Err(ApiError::Validation(violations)) } } "@
        + "fn access_denied(context: &RequestContext) -> ApiError { if context.actor().is_some() { "@
        + "ApiError::Forbidden } else { ApiError::Unauthorized } }"@
}

fn validators(create_rules: &Vec<String>, update_rules: &Vec<String>) -> (text: String)
    ensures
        text@ == validators_text(texts(create_rules@), texts(update_rules@)),
{
    proof {
        reveal(validators_text);
    }
    let mut text = String::from_str("#[allow(unused_mut, unused_variables)] fn validate_create(input: &CreateInput) -> Result<(), ApiError> { ");
    text.append("let mut violations = Vec::new(); ");
    append_suffixed(&mut text, create_rules, " ");
    text.append(" finish_validation(violations) } ");
    text.append("#[allow(unused_mut, unused_variables)] fn validate_update(input: &UpdateInput) -> Result<(), ApiError> { ");
    text.append("let mut violations = Vec::new(); ");
    append_suffixed(&mut text, update_rules, " ");
    text.append(" finish_validation(violations) } ");
    text.append("fn finish_validation(violations: Vec<FieldViolation>) -> Result<(), ApiError> { ");
    text.append("if violations.is_empty() { Ok(()) } else { Err(ApiError::Validation(violations)) } } ");
    text.append("fn access_denied(context: &RequestContext) -> ApiError { if context.actor().is_some() { ");
    text.append("ApiError::Forbidden } else { ApiError::Unauthorized } }");
    text
}

/// One field of a create or update input.
#[verifier::opaque]
pub open spec fn dto_line_text(scalar: Seq<char>, name: Seq<char>, ty: Seq<char>) -> Seq<char> {
    scalar
        + " pub "@
        + name
        + ": "@
        + ty
}

fn dto_line(scalar: &str, name: &str, ty: &str) -> (text: String)
    ensures
        text@ == dto_line_text(scalar@, name@, ty@),
{
    proof {
        reveal(dto_line_text);
    }
    let mut text = String::new();
    text.append(scalar);
    text.append(" pub ");
    text.append(name);
    text.append(": ");
    text.append(ty);
    text
}

/// The imports, inputs and router of an entity's endpoint module.
#[verifier::opaque]
pub open spec fn api_header_text(module: Seq<char>, model_trait: Seq<char>, create_fields: Seq<Seq<char>>, update_fields: Seq<Seq<char>>, restore_route: Seq<char>, workflow_routes: Seq<char>, collection_routes: Seq<char>, collection_guard: Seq<char>) -> Seq<char> {
    "use crate::{AppState, ApiError, FieldViolation, RequestContext, entities::"@
        + module
        + "}; use axum::{ "@
        + "Json, Router, extract::{Path, State}, http::{HeaderMap, StatusCode, header}, routing::get, }; "@
        + "use sea_orm::{ ActiveModelTrait, ActiveValue::Set, EntityTrait, IntoActiveModel, "@
        + model_trait
        + " ColumnTrait as _, QuerySelect, TransactionTrait, TryIntoModel, }; "@
        + "use serde::{Deserialize, Serialize}; use std::collections::BTreeMap; "@
        + "#[derive(Clone, Debug, Default, Deserialize)] pub struct CreateInput { "@
        + suffixed_text(create_fields, ", "@)
        + " } #[derive(Clone, Debug, Default, Deserialize)] pub struct UpdateInput { "@
        + suffixed_text(update_fields, ", "@)
        + " } pub fn router() -> Router<AppState> { "@
        + "Router::new().route(\"/\", get(list).post(create)).route(\"/_aggregate\", get(aggregate)).route(\"/_lookup\", get(lookup)).route(\"/_bulk\", axum::routing::patch(bulk_update).delete(bulk_delete)).route(\"/_export.csv\", get(export_csv)).route(\"/_import.csv\", axum::routing::post(import_csv)) "@
        + restore_route
        + " "@
        + workflow_routes
        + " "@
        + collection_routes
        + ".route(\"/{id}\", get(read).patch(update).delete(delete)) "@
        + collection_guard
        + " } "@
}

fn api_header(module: &str, model_trait: &str, create_fields: &Vec<String>, update_fields: &Vec<String>, restore_route: &str, workflow_routes: &str, collection_routes: &str, collection_guard: &str) -> (text: String)
    ensures
        text@ == api_header_text(module@, model_trait@, texts(create_fields@), texts(update_fields@), restore_route@, workflow_routes@, collection_routes@, collection_guard@),
{
    proof {
        reveal(api_header_text);
    }
    let mut text = String::from_str("use crate::{AppState, ApiError, FieldViolation, RequestContext, entities::");
    text.append(module);
    text.append("}; use axum::{ ");
    text.append("Json, Router, extract::{Path, State}, http::{HeaderMap, StatusCode, header}, routing::get, }; ");
    text.append("use sea_orm::{ ActiveModelTrait, ActiveValue::Set, EntityTrait, IntoActiveModel, ");
    text.append(model_trait);
    text.append(" ColumnTrait as _, QuerySelect, TransactionTrait, TryIntoModel, }; ");
    text.append("use serde::{Deserialize, Serialize}; use std::collections::BTreeMap; ");
    text.append("#[derive(Clone, Debug, Default, Deserialize)] pub struct CreateInput { ");
    append_suffixed(&mut text, create_fields, ", ");
    text.append(" } #[derive(Clone, Debug, Default, Deserialize)] pub struct UpdateInput { ");
    append_suffixed(&mut text, update_fields, ", ");
    text.append(" } pub fn router() -> Router<AppState> { ");
    text.append("Router::new().route(\"/\", get(list).post(create)).route(\"/_aggregate\", get(aggregate)).route(\"/_lookup\", get(lookup)).route(\"/_bulk\", axum::routing::patch(bulk_update).delete(bulk_delete)).route(\"/_export.csv\", get(export_csv)).route(\"/_import.csv\", axum::routing::post(import_csv)) ");
    text.append(restore_route);
    text.append(" ");
    text.append(workflow_routes);
    text.append(" ");
    text.append(collection_routes);
    text.append(".route(\"/{id}\", get(read).patch(update).delete(delete)) ");
    text.append(collection_guard);
    text.append(" } ");
    text
}

/// The validation, field access, realtime, activity, workflow and bulk parts of an entity's endpoint module.
#[verifier::opaque]
pub open spec fn api_body_text(validators: Seq<char>, field_access: Seq<char>, realtime: Seq<char>, activity: Seq<char>, workflow_support: Seq<char>, bulk: Seq<char>) -> Seq<char> {
    validators
        + " "@
        + field_access
        + " "@
        + realtime
        + " "@
        + activity
        + " "@
        + workflow_support
        + " "@
        + bulk
}

fn api_body(validators: &str, field_access: &str, realtime: &str, activity: &str, workflow_support: &str, bulk: &str) -> (text: String)
    ensures
        text@ == api_body_text(validators@, field_access@, realtime@, activity@, workflow_support@, bulk@),
{
    proof {
        reveal(api_body_text);
    }
    let mut text = String::new();
    text.append(validators);
    text.append(" ");
    text.append(field_access);
    text.append(" ");
    text.append(realtime);
    text.append(" ");
    text.append(activity);
    text.append(" ");
    text.append(workflow_support);
    text.append(" ");
    text.append(bulk);
    text
}

/// Whether an input field is optional beyond its nullability: every update
/// field is, and so is a field with a default or a write rule.
pub open spec fn dto_optional(field: Field, update: bool) -> bool {
    update || field.default is Some || field.write_access is Some
}

/// One field of a create or update input, or its name where that is no
/// identifier; its scalar attributes are those for its depth of `Option`.
pub open spec fn dto_field_spec(field: Field, update: bool, scalars: ScalarAttributes) -> Result<Seq<char>, Seq<char>> {
    match ident_result(field.rust_name@) {
        Err(error) => Err(error),
        Ok(name) => Ok(dto_line_text(
            scalar_at(scalars, (if field.nullable { 1nat } else { 0nat }) + (if dto_optional(field, update) { 1nat } else { 0nat })),
            name,
            optional_type_text(optional_type_text(rust_type_text(field.ty), field.nullable), dto_optional(field, update)),
        )),
    }
}

fn dto_field(field: &Field, update: bool, scalars: &ScalarAttributes) -> (result: Result<String, CodegenError>)
    ensures
        match result {
            Ok(text) => dto_field_spec(*field, update, *scalars) == Ok::<Seq<char>, Seq<char>>(text@),
            Err(error) => dto_field_spec(*field, update, *scalars) == Err::<Seq<char>, Seq<char>>(error@),
        },
{
    let name = parse_ident(field.rust_name.as_str())?;
    let optional = update || field.default.is_some() || field.write_access.is_some();
    let ty = optional_type(optional_type(String::from_str(rust_type(&field.ty)), field.nullable), optional);
    let mut depth: u8 = 0;
    if field.nullable {
        depth = depth + 1;
    }
    if optional {
        depth = depth + 1;
    }
    let scalar = scalar_for(scalars, depth);
    Ok(dto_line(scalar.as_str(), name.as_str(), ty.as_str()))
}

/// The fields of a create or update input: the writable fields among
/// `fields`, in order, or the first error.
pub open spec fn dto_fields_spec(entity: Entity, fields: Seq<Field>, scalars: Seq<ScalarAttributes>, update: bool) -> Result<Seq<Seq<char>>, Seq<char>>
    decreases fields.len(),
{
    if fields.len() == 0 {
        Ok(Seq::<Seq<char>>::empty())
    } else {
        match dto_fields_spec(entity, fields.drop_last(), scalars, update) {
            Err(error) => Err(error),
            Ok(lines) => if is_writable(entity, fields.last(), update) {
                match dto_field_spec(fields.last(), update, scalars[fields.len() - 1]) {
                    Err(error) => Err(error),
                    Ok(line) => Ok(lines.push(line)),
                }
            } else {
                Ok(lines)
            },
        }
    }
}

proof fn lemma_dto_fields_error(entity: Entity, fields: Seq<Field>, scalars: Seq<ScalarAttributes>, update: bool, k: int)
    requires
        0 <= k <= fields.len(),
        dto_fields_spec(entity, fields.subrange(0, k), scalars, update) is Err,
    ensures
        dto_fields_spec(entity, fields, scalars, update) == dto_fields_spec(entity, fields.subrange(0, k), scalars, update),
    decreases fields.len() - k,
{
    if k < fields.len() {
        assert(fields.subrange(0, k + 1).drop_last() == fields.subrange(0, k));
        lemma_dto_fields_error(entity, fields, scalars, update, k + 1);
    } else {
        assert(fields.subrange(0, k) == fields);
    }
}

fn dto_fields(entity: &Entity, update: bool, scalars: &Vec<ScalarAttributes>) -> (result: Result<Vec<String>, CodegenError>)
    requires
        scalars.len() == entity.fields.len(),
    ensures
        match result {
            Ok(lines) => dto_fields_spec(*entity, entity.fields@, scalars@, update) == Ok::<Seq<Seq<char>>, Seq<char>>(texts(lines@)),
            Err(error) => dto_fields_spec(*entity, entity.fields@, scalars@, update) == Err::<Seq<Seq<char>>, Seq<char>>(error@),
        },
{
    let fields = &entity.fields;
    let mut lines: Vec<String> = Vec::new();
    let mut i: usize = 0;
    proof {
        assert(fields@.subrange(0, 0) == Seq::<Field>::empty());
        assert(texts(lines@) == Seq::<Seq<char>>::empty());
    }
    while i < fields.len()
        invariant
            i <= fields.len(),
            fields == &entity.fields,
            scalars.len() == fields.len(),
            dto_fields_spec(*entity, fields@.subrange(0, i as int), scalars@, update) == Ok::<Seq<Seq<char>>, Seq<char>>(texts(lines@)),
        decreases fields.len() - i,
    {
        proof {
            assert(fields@.subrange(0, i + 1).drop_last() == fields@.subrange(0, i as int));
            assert(fields@.subrange(0, i + 1).last() == fields@[i as int]);
        }
        let field = &fields[i];
        if field.generated.is_none() && !entity.is_workflow_field(field) && (!update || !field.primary_key) {
            match dto_field(field, update, &scalars[i]) {
                Ok(line) => {
                    let ghost before = texts(lines@);
                    lines.push(line);
                    proof {
                        assert(texts(lines@) == before.push(line@));
                    }
                },
                Err(error) => {
                    proof {
                        lemma_dto_fields_error(*entity, fields@, scalars@, update, i + 1);
                    }
                    return Err(error);
                },
            }
        }
        i = i + 1;
    }
    proof {
        assert(fields@.subrange(0, fields@.len() as int) == fields@);
    }
    Ok(lines)
}

/// Some field of the entity increments by itself.
pub open spec fn auto_increments(fields: Seq<Field>) -> bool {
    exists|i: int| 0 <= i < fields.len() && (#[trigger] fields[i]).generated == Some(GeneratedValue::AutoIncrement)
}

fn any_auto_increment(fields: &Vec<Field>) -> (found: bool)
    ensures
        found == auto_increments(fields@),
{
    let mut i: usize = 0;
    while i < fields.len()
        invariant
            i <= fields.len(),
            forall|j: int| 0 <= j < i ==> (#[trigger] fields@[j]).generated != Some(GeneratedValue::AutoIncrement),
        decreases fields.len() - i,
    {
        match fields[i].generated {
            Some(GeneratedValue::AutoIncrement) => {
                return true;
            },
            _ => {},
        }
        i = i + 1;
    }
    false
}

/// The routes of the trash and restore endpoints.
pub open spec fn restore_route_text() -> Seq<char> {
    ".route(\"/_restore\", axum::routing::post(restore)).route(\"/_trash\", get(trash))"@
}

/// What an entity's endpoint module needs from the compiler: one set of
/// scalar attributes and one related scope per field, defaults that parse, owner-free field rules,
/// a consistent collection model and a consistent workflow.
pub open spec fn api_ready(ir: AppIr, entity: Entity, inputs: EndpointInputs) -> bool {
    &&& inputs.scalars@.len() == entity.fields@.len()
    &&& inputs.related_scopes@.len() == entity.fields@.len()
    &&& defaults_parse(entity)
    &&& field_rules_owner_free(entity.fields@, true)
    &&& field_rules_owner_free(entity.fields@, false)
    &&& collections_ready(ir, entity)
    &&& workflow_ready(ir, entity, texts(inputs.transition_access@))
}

/// The endpoint module of an entity with its header, or the first error in
/// the order the compiler meets them: the module name, the create and update
/// inputs, the create and update assignments, the primary key and its name,
/// the list endpoint, the primary key's column, the lookup, aggregate and
/// collection endpoints, the write handlers, the field access helpers, the
/// realtime, activity and workflow endpoints, the list scope, the create,
/// update and delete guards, and the bulk endpoints.
#[verifier::opaque]
pub open spec fn api_source_spec(ir: AppIr, entity: Entity, inputs: EndpointInputs, header: Seq<char>) -> Result<Seq<char>, Seq<char>> {
    let name = snake_text(entity.rust_name@);
    let hooks = name + "_hooks"@;
    let policy = name + "_policy"@;
    let resource = inputs_resource(inputs);
    let scopes = texts(inputs.related_scopes@);
    let fields = entity.fields@;
    let soft_delete = entity.views.soft_delete;
    let active_default = if auto_increments(fields) { "..Default::default()"@ } else { Seq::<char>::empty() };
    match ident_result(name) {
        Err(error) => Err(error),
        Ok(module) => match dto_fields_spec(entity, fields, inputs.scalars@, false) {
            Err(error) => Err(error),
            Ok(create_fields) => match dto_fields_spec(entity, fields, inputs.scalars@, true) {
                Err(error) => Err(error),
                Ok(update_fields) => match create_values_spec(entity, fields) {
                    Err(error) => Err(error),
                    Ok(create_values) => match update_values_spec(fields.filter(|f: Field| is_writable(entity, f, true))) {
                        Err(error) => Err(error),
                        Ok(updates) => match first_primary(fields) {
                            None => Err(no_primary_key(entity.id@)),
                            Some(key) => match ident_result(key.rust_name@) {
                                Err(error) => Err(error),
                                Ok(primary) => {
                                    let parse_id = parse_id_text(key.ty);
                                    match list_support_spec(ir, entity, module, policy, scopes) {
                                        Err(error) => Err(error),
                                        Ok(list) => match column_result(key) {
                                            Err(error) => Err(error),
                                            Ok(column) => match lookup_spec(entity, module, policy, column, parse_id) {
                                                Err(error) => Err(error),
                                                Ok(lookup) => match aggregate_support_spec(ir, entity, module, policy, scopes) {
                                                    Err(error) => Err(error),
                                                    Ok(aggregate) => match collections_spec(ir, entity, resource) {
                                                        Err(error) => Err(error),
                                                        Ok((collection_routes, collection_support, collection_guard)) => match handlers_text_spec(
                                                            entity,
                                                            module,
                                                            hooks,
                                                            policy,
                                                            parse_id,
                                                            primary,
                                                            soft_delete,
                                                            resource,
                                                            create_values,
                                                            active_default,
                                                            updates,
                                                        ) {
                                                            Err(error) => Err(error),
                                                            Ok(handlers) => api_rest_spec(
                                                                ir,
                                                                entity,
                                                                inputs,
                                                                header,
                                                                module,
                                                                primary,
                                                                parse_id,
                                                                create_fields,
                                                                update_fields,
                                                                create_values,
                                                                updates,
                                                                list + " "@ + lookup + " "@ + aggregate + " "@ + collection_support + " "@ + handlers,
                                                                collection_routes,
                                                                collection_guard,
                                                            ),
                                                        },
                                                    },
                                                },
                                            },
                                        },
                                    }
                                },
                            },
                        },
                    },
                },
            },
        },
    }
}

/// The rest of an entity's endpoint module, once its handlers are written:
/// `written` holds the list, lookup, aggregate, collection and write
/// endpoints, in that order.
#[verifier::opaque]
pub open spec fn api_rest_spec(
    ir: AppIr,
    entity: Entity,
    inputs: EndpointInputs,
    header: Seq<char>,
    module: Seq<char>,
    primary: Seq<char>,
    parse_id: Seq<char>,
    create_fields: Seq<Seq<char>>,
    update_fields: Seq<Seq<char>>,
    create_values: Seq<Seq<char>>,
    updates: Seq<Seq<char>>,
    written: Seq<char>,
    collection_routes: Seq<char>,
    collection_guard: Seq<char>,
) -> Result<Seq<char>, Seq<char>> {
    let name = snake_text(entity.rust_name@);
    let hooks = name + "_hooks"@;
    let policy = name + "_policy"@;
    let resource = inputs_resource(inputs);
    let fields = entity.fields@;
    let soft_delete = entity.views.soft_delete;
    let active_default = if auto_increments(fields) { "..Default::default()"@ } else { Seq::<char>::empty() };
    match field_support_spec(entity, module) {
        Err(error) => Err(error),
        Ok(field_access) => match (if ir.realtime.enabled {
            realtime_spec(entity, module, policy, parse_id)
        } else {
            Ok(Seq::<char>::empty())
        }) {
            Err(error) => Err(error),
            Ok(realtime) => match activity_spec(entity, module, policy, parse_id, resource is Some) {
                Err(error) => Err(error),
                Ok(activity) => match workflow_spec(ir, entity, module, hooks, policy, parse_id, primary, resource, texts(inputs.transition_access@)) {
                    Err(error) => Err(error),
                    Ok((workflow_routes, workflow_support)) => match condition_error(fields, entity.access.list) {
                        Some(error) => Err(error),
                        None => match guard_error(fields, entity.access.create) {
                            Some(error) => Err(error),
                            None => match guard_error(fields, entity.access.update) {
                                Some(error) => Err(error),
                                None => match guard_error(fields, entity.access.delete) {
                                    Some(error) => Err(error),
                                    None => match bulk_text_spec(
                                        entity,
                                        module,
                                        primary,
                                        hooks,
                                        policy,
                                        list_scope_text(entity, module, entity.access.list),
                                        guard_text(fields, entity.access.create, "input"@, None),
                                        guard_text(fields, entity.access.delete, "model"@, None),
                                        guard_text(fields, entity.access.update, "before"@, Some("candidate"@)),
                                        create_values,
                                        active_default,
                                        updates,
                                        inputs.trash_scope@,
                                        inputs.restore_scope@,
                                    ) {
                                        Err(error) => Err(error),
                                        Ok(bulk) => render_spec(
                                            api_header_text(
                                                module,
                                                if soft_delete { Seq::<char>::empty() } else { "ModelTrait,"@ },
                                                create_fields,
                                                update_fields,
                                                if soft_delete { restore_route_text() } else { Seq::<char>::empty() },
                                                workflow_routes,
                                                collection_routes,
                                                collection_guard,
                                            ) + written + " "@ + api_body_text(
                                                validators_text(texts(inputs.create_rules@), texts(inputs.update_rules@)),
                                                field_access,
                                                realtime,
                                                activity,
                                                workflow_support,
                                                bulk,
                                            ),
                                            header,
                                        ),
                                    },
                                },
                            },
                        },
                    },
                },
            },
        },
    }
}

fn joined(first: &str, second: &str) -> (text: String)
    ensures
        text@ == first@ + second@,
{
    let mut text = String::from_str(first);
    text.append(second);
    text
}

/// The endpoint module of an entity, with its header.
#[verifier::rlimit(50)]
pub fn api_source(ir: &AppIr, entity: &Entity, inputs: &EndpointInputs, header: &str) -> (result: Result<String, CodegenError>)
    requires
        api_ready(*ir, *entity, *inputs),
    ensures
        match result {
            Ok(text) => api_source_spec(*ir, *entity, *inputs, header@) == Ok::<Seq<char>, Seq<char>>(text@),
            Err(error) => api_source_spec(*ir, *entity, *inputs, header@) == Err::<Seq<char>, Seq<char>>(error@),
        },
{
    proof {
        reveal(api_source_spec);
    }
    let name = module_name(entity);
    let module = parse_ident(name.as_str())?;
    let create_fields = dto_fields(entity, false, &inputs.scalars)?;
    let update_fields = dto_fields(entity, true, &inputs.scalars)?;
    let create_values = create_values(entity)?;
    proof {
        reveal_strlit("..Default::default()");
    }
    let active_default: Option<&str> = if any_auto_increment(&entity.fields) {
        Some("..Default::default()")
    } else {
        None
    };
    let updates = update_values(entity)?;
    let key = primary_key(entity)?;
    let parse_id = parse_id_expression(key);
    let primary = parse_ident(key.rust_name.as_str())?;
    let hooks = joined(name.as_str(), "_hooks");
    let policy = joined(name.as_str(), "_policy");
    let list = list_support(ir, entity, module.as_str(), policy.as_str(), &inputs.related_scopes)?;
    let column = column_ident(key)?;
    let lookup = lookup_support(entity, module.as_str(), policy.as_str(), column.as_str(), parse_id)?;
    let aggregate = aggregate_support(ir, entity, module.as_str(), policy.as_str(), &inputs.related_scopes)?;
    let resource: Option<&str> = match &inputs.activity_resource {
        Some(resource_name) => Some(resource_name.as_str()),
        None => None,
    };
    let (collection_routes, collection_support, collection_guard) = collections_support(ir, entity, resource)?;
    let context = HandlerContext {
        module: module.clone(),
        hooks: hooks.clone(),
        policy: policy.clone(),
        parse_id: String::from_str(parse_id),
        primary: primary.clone(),
        soft_delete: entity.views.soft_delete,
        activity_resource: match resource {
            Some(resource_name) => Some(String::from_str(resource_name)),
            None => None,
        },
    };
    let written_handlers = handlers(entity, &context, &create_values, active_default, &updates)?;
    let mut written = list;
    written.append(" ");
    written.append(lookup.as_str());
    written.append(" ");
    written.append(aggregate.as_str());
    written.append(" ");
    written.append(collection_support.as_str());
    written.append(" ");
    written.append(written_handlers.as_str());
    api_rest(
        ir,
        entity,
        inputs,
        header,
        &context,
        &create_fields,
        &update_fields,
        create_values,
        updates,
        active_default,
        written.as_str(),
        collection_routes.as_str(),
        collection_guard.as_str(),
    )
}

#[verifier::rlimit(50)]
fn api_rest(
    ir: &AppIr,
    entity: &Entity,
    inputs: &EndpointInputs,
    header: &str,
    context: &HandlerContext,
    create_fields: &Vec<String>,
    update_fields: &Vec<String>,
    create_values: Vec<String>,
    updates: Vec<String>,
    active_default: Option<&str>,
    written: &str,
    collection_routes: &str,
    collection_guard: &str,
) -> (result: Result<String, CodegenError>)
    requires
        api_ready(*ir, *entity, *inputs),
        context.hooks@ == snake_text(entity.rust_name@) + "_hooks"@,
        context.policy@ == snake_text(entity.rust_name@) + "_policy"@,
        context.soft_delete == entity.views.soft_delete,
        match context.activity_resource {
            Some(name) => inputs_resource(*inputs) == Some(name@),
            None => inputs_resource(*inputs) is None,
        },
        match active_default {
            Some(text) => auto_increments(entity.fields@) && text@ == "..Default::default()"@,
            None => !auto_increments(entity.fields@),
        },
    ensures
        match result {
            Ok(text) => api_rest_spec(
                *ir,
                *entity,
                *inputs,
                header@,
                context.module@,
                context.primary@,
                context.parse_id@,
                texts(create_fields@),
                texts(update_fields@),
                texts(create_values@),
                texts(updates@),
                written@,
                collection_routes@,
                collection_guard@,
            ) == Ok::<Seq<char>, Seq<char>>(text@),
            Err(error) => api_rest_spec(
                *ir,
                *entity,
                *inputs,
                header@,
                context.module@,
                context.primary@,
                context.parse_id@,
                texts(create_fields@),
                texts(update_fields@),
                texts(create_values@),
                texts(updates@),
                written@,
                collection_routes@,
                collection_guard@,
            ) == Err::<Seq<char>, Seq<char>>(error@),
        },
{
    proof {
        reveal(api_rest_spec);
    }
    let module = context.module.as_str();
    let policy = context.policy.as_str();
    let parse_id = context.parse_id.as_str();
    let field_access = field_support(entity, module)?;
    let realtime = if ir.realtime.enabled {
        realtime_support(entity, module, policy, parse_id)?
    } else {
        String::new()
    };
    let activity = activity_support(entity, module, policy, parse_id, context.activity_resource.is_some())?;
    let workflow = workflow_support(ir, entity, context, &inputs.transition_access)?;
    let list_scope = scope(entity, module, &entity.access.list)?;
    let create_guard = create_allowed(entity, &entity.access.create)?;
    let update_guard = update_allowed(entity, &entity.access.update)?;
    let delete_guard = row_allowed(entity, &entity.access.delete)?;
    let bulk_input = BulkSource {
        module: context.module.clone(),
        primary: context.primary.clone(),
        hooks: context.hooks.clone(),
        policy: context.policy.clone(),
        list_scope,
        create_allowed: create_guard,
        delete_allowed: delete_guard,
        update_allowed: update_guard,
        create_values,
        active_default: match active_default {
            Some(text) => Some(String::from_str(text)),
            None => None,
        },
        updates,
        trash_scope: inputs.trash_scope.clone(),
        restore_scope: inputs.restore_scope.clone(),
    };
    let bulk = bulk_source(entity, &bulk_input)?;
    proof {
        reveal_strlit("ModelTrait,");
    }
    let model_trait = if entity.views.soft_delete {
        String::new()
    } else {
        String::from_str("ModelTrait,")
    };
    let restore_route = if entity.views.soft_delete {
        String::from_str(".route(\"/_restore\", axum::routing::post(restore)).route(\"/_trash\", get(trash))")
    } else {
        String::new()
    };
    proof {
        reveal_strlit(".route(\"/_restore\", axum::routing::post(restore)).route(\"/_trash\", get(trash))");
    }
    let validation = validators(&inputs.create_rules, &inputs.update_rules);
    let mut source = api_header(
        module,
        model_trait.as_str(),
        create_fields,
        update_fields,
        restore_route.as_str(),
        workflow.routes.as_str(),
        collection_routes,
        collection_guard,
    );
    source.append(written);
    source.append(" ");
    let body = api_body(
        validation.as_str(),
        field_access.as_str(),
        realtime.as_str(),
        activity.as_str(),
        workflow.tokens.as_str(),
        bulk.as_str(),
    );
    source.append(body.as_str());
    render(source.as_str(), header)
}

} // verus!
