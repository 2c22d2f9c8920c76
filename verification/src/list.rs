use vstd::prelude::*;
use vstd::string::StringExecFns;
use crate::access::{column_ident, column_result, condition_error, list_scope_text, scope};
use crate::artifact::CodegenError;
use crate::expressions::{parsed_value, parsed_value_text};
use crate::fields::{
    filter_keys, filter_keys_spec, first_primary, has_filters, has_filters_spec, no_primary_key, primary_key,
    relation_filter_keys, relation_keys_spec, texts,
};
use crate::ident::{ident_result, parse_ident};
use crate::ir::{AppIr, Entity};
use crate::relation_filters::{relation_filter_rules, relation_rules_spec};
use crate::query::{
    filter_rules, filter_rules_spec, filter_validation, filter_validation_text, search_rule, search_rule_spec,
    sort_rules, sort_rules_spec,
};
use crate::text::{append_suffixed, suffixed_text};

verus! {

/// The list endpoint: it checks the list policy and the filter keys, applies
/// the access scope, filters and search, then pages either by cursor (`limit`
/// in 1..=100, rows after the cursor in primary-key order) or by page number
/// (`page` at least 1, `page_size` in 1..=100, the requested sorts, then the
/// primary key unless it was sorted on).
pub open spec fn list_handler_text(
    module: Seq<char>,
    policy: Seq<char>,
    validation: Seq<char>,
    scope: Seq<char>,
    filters: Seq<Seq<char>>,
    relation_filters: Seq<Seq<char>>,
    search: Seq<char>,
    cursor_value: Seq<char>,
    primary: Seq<char>,
    primary_name: Seq<char>,
    sorts: Seq<Seq<char>>,
) -> Seq<char> {
    "async fn list(State(state): State<AppState>, headers: HeaderMap, axum::extract::Query(query): axum::extract::Query<ListQuery>,) -> Result<Json<ListResponse<serde_json::Value>>, ApiError> { "@
        + "let context = state.context(&headers).await?; if !state.extensions."@
        + policy
        + "().can_list(&context).await? { return Err(access_denied(&context)); } "@
        + validation
        + " let mut select = "@
        + module
        + "::Entity::find(); "@
        + scope
        + " "@
        + suffixed_text(filters, " "@)
        + suffixed_text(relation_filters, " "@)
        + search
        + " let cursor_mode = query.cursor.is_some() || query.limit.is_some(); if cursor_mode { "@
        + "if query.page.is_some() || query.page_size.is_some() || query.sort.is_some() { "@
        + "return Err(ApiError::InvalidQuery(\"cursor pagination cannot be combined with `page`, `page_size`, or `sort`\".to_owned())); "@
        + "} let limit = query.limit.unwrap_or(25); if !(1..=100).contains(&limit) { "@
        + "return Err(ApiError::InvalidQuery(\"`limit` must be between 1 and 100\".to_owned())); } "@
        + "if let Some(cursor) = query.cursor.as_deref() { "@
        + "let raw_cursor = decode_cursor(cursor).ok_or_else(|| ApiError::InvalidQuery(\"invalid cursor\".to_owned()))?; "@
        + "let cursor_value = "@
        + cursor_value
        + "; select = select.filter("@
        + module
        + "::Column::"@
        + primary
        + ".gt(cursor_value)); } let mut data = select.order_by_asc("@
        + module
        + "::Column::"@
        + primary
        + ").limit(limit + 1).all(&state.database).await?; "@
        + "let has_more = data.len() > usize::try_from(limit).unwrap_or(usize::MAX); if has_more { "@
        + "data.pop(); } let next_cursor = has_more.then(|| { "@
        + "data.last().map(|model| encode_cursor(&model."@
        + primary_name
        + ".to_string())).expect(\"a cursor page with more rows is not empty\") }); "@
        + "let data = data.into_iter().map(|model| redact_model(&context, model)).collect::<Result<Vec<_>, _>>()?; "@
        + "return Ok(Json(ListResponse { data, meta: ListMeta::Cursor { "@
        + "limit, next_cursor, has_more }, })); } let page = query.page.unwrap_or(1); "@
        + "let page_size = query.page_size.unwrap_or(25); "@
        + "if page == 0 || !(1..=100).contains(&page_size) { "@
        + "return Err(ApiError::InvalidQuery(\"`page` must be at least 1 and `page_size` must be between 1 and 100\".to_owned())); "@
        + "} let mut primary_sorted = false; if let Some(sort) = &query.sort { "@
        + "for item in sort.split(',').filter(|item| !item.is_empty()) { "@
        + "let (descending, name) = item.strip_prefix('-').map_or((false, item), |name| (true, name)); "@
        + "match name { "@
        + suffixed_text(sorts, ", "@)
        + "_ => return Err(ApiError::InvalidQuery(format!(\"field `{name}` is not sortable\"))), } } } "@
        + "if !primary_sorted { select = select.order_by_asc("@
        + module
        + "::Column::"@
        + primary
        + "); } let total = select.clone().count(&state.database).await?; "@
        + "let data = select.paginate(&state.database, page_size).fetch_page(page - 1).await?.into_iter().map(|model| redact_model(&context, model)).collect::<Result<Vec<_>, _>>()?; "@
        + "Ok(Json(ListResponse { data, meta: ListMeta::Page { page, page_size, total }, })) }"@
}

fn list_handler(
    module: &str,
    policy: &str,
    validation: &str,
    scope: &str,
    filters: &Vec<String>,
    relation_filters: &Vec<String>,
    search: &str,
    cursor_value: &str,
    primary: &str,
    primary_name: &str,
    sorts: &Vec<String>,
) -> (text: String)
    ensures
        text@ == list_handler_text(
            module@,
            policy@,
            validation@,
            scope@,
            texts(filters@),
            texts(relation_filters@),
            search@,
            cursor_value@,
            primary@,
            primary_name@,
            texts(sorts@),
        ),
{
    let mut text = String::from_str("async fn list(State(state): State<AppState>, headers: HeaderMap, axum::extract::Query(query): axum::extract::Query<ListQuery>,) -> Result<Json<ListResponse<serde_json::Value>>, ApiError> { ");
    text.append("let context = state.context(&headers).await?; if !state.extensions.");
    text.append(policy);
    text.append("().can_list(&context).await? { return Err(access_denied(&context)); } ");
    text.append(validation);
    text.append(" let mut select = ");
    text.append(module);
    text.append("::Entity::find(); ");
    text.append(scope);
    text.append(" ");
    append_suffixed(&mut text, filters, " ");
    append_suffixed(&mut text, relation_filters, " ");
    text.append(search);
    text.append(" let cursor_mode = query.cursor.is_some() || query.limit.is_some(); if cursor_mode { ");
    text.append("if query.page.is_some() || query.page_size.is_some() || query.sort.is_some() { ");
    text.append("return Err(ApiError::InvalidQuery(\"cursor pagination cannot be combined with `page`, `page_size`, or `sort`\".to_owned())); ");
    text.append("} let limit = query.limit.unwrap_or(25); if !(1..=100).contains(&limit) { ");
    text.append("return Err(ApiError::InvalidQuery(\"`limit` must be between 1 and 100\".to_owned())); } ");
    text.append("if let Some(cursor) = query.cursor.as_deref() { ");
    text.append("let raw_cursor = decode_cursor(cursor).ok_or_else(|| ApiError::InvalidQuery(\"invalid cursor\".to_owned()))?; ");
    text.append("let cursor_value = ");
    text.append(cursor_value);
    text.append("; select = select.filter(");
    text.append(module);
    text.append("::Column::");
    text.append(primary);
    text.append(".gt(cursor_value)); } let mut data = select.order_by_asc(");
    text.append(module);
    text.append("::Column::");
    text.append(primary);
    text.append(").limit(limit + 1).all(&state.database).await?; ");
    text.append("let has_more = data.len() > usize::try_from(limit).unwrap_or(usize::MAX); if has_more { ");
    text.append("data.pop(); } let next_cursor = has_more.then(|| { ");
    text.append("data.last().map(|model| encode_cursor(&model.");
    text.append(primary_name);
    text.append(".to_string())).expect(\"a cursor page with more rows is not empty\") }); ");
    text.append("let data = data.into_iter().map(|model| redact_model(&context, model)).collect::<Result<Vec<_>, _>>()?; ");
    text.append("return Ok(Json(ListResponse { data, meta: ListMeta::Cursor { ");
    text.append("limit, next_cursor, has_more }, })); } let page = query.page.unwrap_or(1); ");
    text.append("let page_size = query.page_size.unwrap_or(25); ");
    text.append("if page == 0 || !(1..=100).contains(&page_size) { ");
    text.append("return Err(ApiError::InvalidQuery(\"`page` must be at least 1 and `page_size` must be between 1 and 100\".to_owned())); ");
    text.append("} let mut primary_sorted = false; if let Some(sort) = &query.sort { ");
    text.append("for item in sort.split(',').filter(|item| !item.is_empty()) { ");
    text.append("let (descending, name) = item.strip_prefix('-').map_or((false, item), |name| (true, name)); ");
    text.append("match name { ");
    append_suffixed(&mut text, sorts, ", ");
    text.append("_ => return Err(ApiError::InvalidQuery(format!(\"field `{name}` is not sortable\"))), } } } ");
    text.append("if !primary_sorted { select = select.order_by_asc(");
    text.append(module);
    text.append("::Column::");
    text.append(primary);
    text.append("); } let total = select.clone().count(&state.database).await?; ");
    text.append("let data = select.paginate(&state.database, page_size).fetch_page(page - 1).await?.into_iter().map(|model| redact_model(&context, model)).collect::<Result<Vec<_>, _>>()?; ");
    text.append("Ok(Json(ListResponse { data, meta: ListMeta::Page { page, page_size, total }, })) }");
    text
}

/// `ColumnTrait` is imported where some filter, sort or soft-delete rule uses a column.
pub open spec fn column_trait_text(
    filters: Seq<Seq<char>>,
    relation_filters: Seq<Seq<char>>,
    sorts: Seq<Seq<char>>,
    soft_delete: bool,
) -> Seq<char> {
    if filters.len() > 0 || relation_filters.len() > 0 || sorts.len() > 0 || soft_delete {
        "ColumnTrait as _, "@
    } else {
        Seq::<char>::empty()
    }
}

/// `QueryTrait` is imported where some relation filter builds a subquery.
pub open spec fn query_trait_text(related: bool) -> Seq<char> {
    if related {
        "QueryTrait as _, "@
    } else {
        Seq::<char>::empty()
    }
}

/// The list module's imports, then its handler.
pub open spec fn list_support_text(column_trait: Seq<char>, query_trait: Seq<char>, handler: Seq<char>) -> Seq<char> {
    "use appstruct_runtime::{ListMeta, ListQuery, ListResponse, decode_cursor, encode_cursor}; "@
        + "use sea_orm::{"@
        + column_trait
        + query_trait
        + "Condition, PaginatorTrait, QueryFilter, QueryOrder}; "@
        + handler
}

/// The list support of an entity, or the first error met while building its
/// parts: the filter rules, the relation filter rules, the relation filter keys, the search rule, the
/// sort rules, the primary key, its column and its name, the list scope and
/// the relation check, in that order.
pub open spec fn list_support_spec(
    ir: AppIr,
    entity: Entity,
    module: Seq<char>,
    policy: Seq<char>,
    scopes: Seq<Seq<char>>,
) -> Result<Seq<char>, Seq<char>> {
    let fields = entity.fields@;
    match filter_rules_spec(fields, module) {
        Err(error) => Err(error),
        Ok(filters) => match relation_rules_spec(ir, fields, scopes, module) {
        Err(error) => Err(error),
        Ok(relation_filters) => match relation_keys_spec(ir.entities@, fields) {
            Err(error) => Err(error),
            Ok(relation_keys) => match search_rule_spec(fields, module) {
                Err(error) => Err(error),
                Ok(search) => match sort_rules_spec(fields, module) {
                    Err(error) => Err(error),
                    Ok(sorts) => match first_primary(fields) {
                        None => Err(no_primary_key(entity.id@)),
                        Some(primary) => match column_result(primary) {
                            Err(error) => Err(error),
                            Ok(column) => match ident_result(primary.rust_name@) {
                                Err(error) => Err(error),
                                Ok(primary_name) => match condition_error(fields, entity.access.list) {
                                    Some(error) => Err(error),
                                    None => match has_filters_spec(ir.entities@, fields) {
                                        Err(error) => Err(error),
                                        Ok(related) => Ok(list_support_text(
                                            column_trait_text(filters, relation_filters, sorts, entity.views.soft_delete),
                                            query_trait_text(related),
                                            list_handler_text(
                                                module,
                                                policy,
                                                filter_validation_text(
                                                    filter_keys_spec(Seq::<char>::empty(), fields) + relation_keys,
                                                ),
                                                list_scope_text(entity, module, entity.access.list),
                                                filters,
                                                relation_filters,
                                                search,
                                                parsed_value_text(primary, "raw_cursor.as_str()"@),
                                                column,
                                                primary_name,
                                                sorts,
                                            ),
                                        )),
                                    },
                                },
                            },
                        },
                    },
                },
            },
        },
        },
    }
}

/// The list endpoint of an entity with its imports; `scopes` gives, for each
/// field of the entity in order, the related list scope of its target, which
/// the filters through relations read.
pub fn list_support(
    ir: &AppIr,
    entity: &Entity,
    module: &str,
    policy: &str,
    scopes: &Vec<String>,
) -> (result: Result<String, CodegenError>)
    requires
        scopes.len() == entity.fields.len(),
    ensures
        match result {
            Ok(text) => list_support_spec(*ir, *entity, module@, policy@, texts(scopes@))
                == Ok::<Seq<char>, Seq<char>>(text@),
            Err(error) => list_support_spec(*ir, *entity, module@, policy@, texts(scopes@))
                == Err::<Seq<char>, Seq<char>>(error@),
        },
{
    let filters = filter_rules(entity, module)?;
    let relation_filters = relation_filter_rules(ir, entity, module, scopes)?;
    let mut keys = filter_keys(entity);
    let mut related_keys = relation_filter_keys(ir, entity)?;
    let ghost own = texts(keys@);
    let ghost others = texts(related_keys@);
    keys.append(&mut related_keys);
    proof {
        assert(texts(keys@) =~= own + others);
    }
    let validation = filter_validation(&keys);
    let search = search_rule(entity, module)?;
    let sorts = sort_rules(entity, module)?;
    let column_trait = if filters.len() > 0 || relation_filters.len() > 0 || sorts.len() > 0 || entity.views.soft_delete {
        String::from_str("ColumnTrait as _, ")
    } else {
        String::new()
    };
    let primary_field = primary_key(entity)?;
    let primary = column_ident(primary_field)?;
    let cursor_value = parsed_value(primary_field, "raw_cursor.as_str()");
    let primary_name = parse_ident(primary_field.rust_name.as_str())?;
    let list_scope = scope(entity, module, &entity.access.list)?;
    let query_trait = if has_filters(ir, entity)? {
        String::from_str("QueryTrait as _, ")
    } else {
        String::new()
    };
    let handler = list_handler(
        module,
        policy,
        validation.as_str(),
        list_scope.as_str(),
        &filters,
        &relation_filters,
        search.as_str(),
        cursor_value.as_str(),
        primary.as_str(),
        primary_name.as_str(),
        &sorts,
    );
    let column_trait = column_trait.as_str();
    let query_trait = query_trait.as_str();
    let handler = handler.as_str();
    let mut text = String::from_str("use appstruct_runtime::{ListMeta, ListQuery, ListResponse, decode_cursor, encode_cursor}; ");
    text.append("use sea_orm::{");
    text.append(column_trait);
    text.append(query_trait);
    text.append("Condition, PaginatorTrait, QueryFilter, QueryOrder}; ");
    text.append(handler);
    Ok(text)
}

} // verus!
