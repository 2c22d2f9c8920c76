use vstd::prelude::*;
use vstd::string::StringExecFns;
use crate::access::{column_ident, column_result, condition_error, list_scope_text, scope};
use crate::artifact::CodegenError;
use crate::field_access::{literal_text, string_literal};
use crate::fields::{
    aggregate_fields, first_primary, groupable, groupable_type, is_aggregate_field, min_max_type,
    filter_keys, filter_keys_spec, no_primary_key, primary_key, relation_filter_keys, relation_keys_spec,
    sum_avg_type, supports_min_max, supports_sum_avg, texts,
};
use crate::ir::{AppIr, Entity, Field, FieldType};
use crate::relation_filters::{relation_filter_rules, relation_rules_spec};
use crate::query::{
    filter_rules, filter_rules_spec, filter_validation, filter_validation_text, search_rule, search_rule_spec,
};
use crate::text::{append_suffixed, suffixed_text};

verus! {

/// Field types whose aggregates travel as text, so that JSON keeps them exact.
pub open spec fn wire_text_type(ty: FieldType) -> bool {
    ty is Bigint || ty is Decimal
}

fn is_wire_text(ty: &FieldType) -> (result: bool)
    ensures
        result == wire_text_type(*ty),
{
    match ty {
        FieldType::Bigint | FieldType::Decimal => true,
        _ => false,
    }
}

/// The cast that turns an aggregate of the type into text, if it needs one.
pub open spec fn wire_cast_text(ty: FieldType) -> Seq<char> {
    if wire_text_type(ty) {
        ".cast_as(\"text\")"@
    } else {
        Seq::<char>::empty()
    }
}

/// The check that the caller may read the named field.
pub open spec fn read_guard_text(name: Seq<char>) -> Seq<char> {
    "if !field_read_allowed(&context, "@ + literal_text(name) + ") { return Err(access_denied(&context)); }"@
}

/// The arm of `count` (also spelled `count:*`): the number of rows, counted on the primary key.
pub open spec fn count_arm_text(module: Seq<char>, primary: Seq<char>) -> Seq<char> {
    "\"count\" | \"count:*\" => { select = select.column_as("@ + module + "::Column::"@ + primary
        + ".count(), \"count\"); }"@
}

/// The arm of the metric `kind:field`: the caller must be allowed to read the
/// field, and `kind` of its column is selected as `kind_field`.
pub open spec fn metric_arm_text(field: Field, module: Seq<char>, column: Seq<char>, kind: Seq<char>) -> Seq<char> {
    literal_text(kind + ":"@ + field.rust_name@) + " => { "@ + read_guard_text(field.rust_name@)
        + " select = select.column_as("@ + module + "::Column::"@ + column + "."@ + kind + "()"@
        + wire_cast_text(field.ty) + ", "@ + literal_text(kind + "_"@ + field.rust_name@) + "); }"@
}

/// Two metric arms that one field offers together.
pub open spec fn metric_pair_text(field: Field, module: Seq<char>, column: Seq<char>, first: Seq<char>, second: Seq<char>) -> Seq<char> {
    metric_arm_text(field, module, column, first) + ", "@ + metric_arm_text(field, module, column, second)
}

/// The metric arms of one aggregate field: `sum` and `avg` for numbers,
/// `min` and `max` for ordered types.
pub open spec fn field_metric_arms(field: Field, module: Seq<char>, column: Seq<char>) -> Seq<Seq<char>> {
    (if sum_avg_type(field.ty) {
        seq![metric_pair_text(field, module, column, "sum"@, "avg"@)]
    } else {
        Seq::<Seq<char>>::empty()
    }) + (if min_max_type(field.ty) {
        seq![metric_pair_text(field, module, column, "min"@, "max"@)]
    } else {
        Seq::<Seq<char>>::empty()
    })
}

/// The metric arms of the given aggregate fields, in order, or the first error.
pub open spec fn field_metrics_spec(fields: Seq<Field>, module: Seq<char>) -> Result<Seq<Seq<char>>, Seq<char>>
    decreases fields.len(),
{
    if fields.len() == 0 {
        Ok(Seq::<Seq<char>>::empty())
    } else {
        match field_metrics_spec(fields.drop_last(), module) {
            Err(error) => Err(error),
            Ok(arms) => match column_result(fields.last()) {
                Err(error) => Err(error),
                Ok(column) => Ok(arms + field_metric_arms(fields.last(), module, column)),
            },
        }
    }
}

/// The arms of the aggregate endpoint's metric `match`: `count` first, then
/// the metrics of every aggregate field.
pub open spec fn metric_arms_spec(entity: Entity, module: Seq<char>) -> Result<Seq<Seq<char>>, Seq<char>> {
    match first_primary(entity.fields@) {
        None => Err(no_primary_key(entity.id@)),
        Some(primary) => match column_result(primary) {
            Err(error) => Err(error),
            Ok(column) => match field_metrics_spec(entity.fields@.filter(|f: Field| is_aggregate_field(f)), module) {
                Err(error) => Err(error),
                Ok(arms) => Ok(seq![count_arm_text(module, column)] + arms),
            },
        },
    }
}

proof fn lemma_field_metrics_error(fields: Seq<Field>, module: Seq<char>, k: int)
    requires
        0 <= k <= fields.len(),
        field_metrics_spec(fields.subrange(0, k), module) is Err,
    ensures
        field_metrics_spec(fields, module) == field_metrics_spec(fields.subrange(0, k), module),
    decreases fields.len() - k,
{
    if k < fields.len() {
        assert(fields.subrange(0, k + 1).drop_last() == fields.subrange(0, k));
        lemma_field_metrics_error(fields, module, k + 1);
    } else {
        assert(fields.subrange(0, k) == fields);
    }
}

fn read_guard(name: &str) -> (text: String)
    ensures
        text@ == read_guard_text(name@),
{
    let mut text = String::from_str("if !field_read_allowed(&context, ");
    let literal = string_literal(name);
    text.append(literal.as_str());
    text.append(") { return Err(access_denied(&context)); }");
    text
}

fn metric_arm(field: &Field, module: &str, column: &str, kind: &str) -> (text: String)
    ensures
        text@ == metric_arm_text(*field, module@, column@, kind@),
{
    let mut name = String::from_str(kind);
    name.append(":");
    name.append(field.rust_name.as_str());
    let mut alias = String::from_str(kind);
    alias.append("_");
    alias.append(field.rust_name.as_str());
    let mut text = string_literal(name.as_str());
    text.append(" => { ");
    let guard = read_guard(field.rust_name.as_str());
    text.append(guard.as_str());
    text.append(" select = select.column_as(");
    text.append(module);
    text.append("::Column::");
    text.append(column);
    text.append(".");
    text.append(kind);
    text.append("()");
    if is_wire_text(&field.ty) {
        text.append(".cast_as(\"text\")");
    }
    text.append(", ");
    let alias_literal = string_literal(alias.as_str());
    text.append(alias_literal.as_str());
    text.append("); }");
    text
}

fn metric_pair(field: &Field, module: &str, column: &str, first: &str, second: &str) -> (text: String)
    ensures
        text@ == metric_pair_text(*field, module@, column@, first@, second@),
{
    let mut text = metric_arm(field, module, column, first);
    text.append(", ");
    let other = metric_arm(field, module, column, second);
    text.append(other.as_str());
    text
}

/// The arms of the aggregate endpoint's metric `match`.
pub fn metric_arms(entity: &Entity, module: &str) -> (result: Result<Vec<String>, CodegenError>)
    ensures
        match result {
            Ok(arms) => metric_arms_spec(*entity, module@) == Ok::<Seq<Seq<char>>, Seq<char>>(texts(arms@)),
            Err(error) => metric_arms_spec(*entity, module@) == Err::<Seq<Seq<char>>, Seq<char>>(error@),
        },
{
    let primary_field = primary_key(entity)?;
    let primary = column_ident(primary_field)?;
    let mut count = String::from_str("\"count\" | \"count:*\" => { select = select.column_as(");
    count.append(module);
    count.append("::Column::");
    count.append(primary.as_str());
    count.append(".count(), \"count\"); }");
    let mut arms: Vec<String> = Vec::new();
    arms.push(count);
    let fields = aggregate_fields(entity);
    let ghost all = fields@.map_values(|r: &Field| *r);
    let ghost head = count_arm_text(module@, primary@);
    let mut i: usize = 0;
    proof {
        assert(all.subrange(0, 0) == Seq::<Field>::empty());
        assert(texts(arms@) == seq![head] + Seq::<Seq<char>>::empty());
    }
    while i < fields.len()
        invariant
            i <= fields.len(),
            all == fields@.map_values(|r: &Field| *r),
            all == entity.fields@.filter(|f: Field| is_aggregate_field(f)),
            head == count_arm_text(module@, primary@),
            first_primary(entity.fields@) == Some(*primary_field),
            column_result(*primary_field) == Ok::<Seq<char>, Seq<char>>(primary@),
            field_metrics_spec(all.subrange(0, i as int), module@) is Ok,
            texts(arms@) == seq![head] + field_metrics_spec(all.subrange(0, i as int), module@)->Ok_0,
        decreases fields.len() - i,
    {
        let field: &Field = fields[i];
        proof {
            assert(all.subrange(0, i + 1).drop_last() == all.subrange(0, i as int));
            assert(all.subrange(0, i + 1).last() == *field);
        }
        let column = match column_ident(field) {
            Ok(column) => column,
            Err(error) => {
                proof {
                    lemma_field_metrics_error(all, module@, i + 1);
                }
                return Err(error);
            },
        };
        let ghost before = texts(arms@);
        if supports_sum_avg(&field.ty) {
            let pair = metric_pair(field, module, column.as_str(), "sum", "avg");
            arms.push(pair);
        }
        let ghost middle = texts(arms@);
        if supports_min_max(&field.ty) {
            let pair = metric_pair(field, module, column.as_str(), "min", "max");
            arms.push(pair);
        }
        proof {
            assert(texts(arms@) =~= before + field_metric_arms(*field, module@, column@));
        }
        i = i + 1;
    }
    proof {
        assert(all.subrange(0, all.len() as int) == all);
    }
    Ok(arms)
}

/// What a group arm selects: the column itself, or its text for types that travel as text.
pub open spec fn group_selected_text(field: Field, module: Seq<char>, column: Seq<char>) -> Seq<char> {
    if wire_text_type(field.ty) {
        "sea_orm::sea_query::Expr::col(("@ + module + "::Entity, "@ + module + "::Column::"@ + column
            + ")).cast_as(\"text\")"@
    } else {
        module + "::Column::"@ + column
    }
}

/// The arm that groups by a field: the caller must be allowed to read it, and
/// its column is selected as `group_field` and grouped by.
pub open spec fn group_arm_text(field: Field, module: Seq<char>, column: Seq<char>) -> Seq<char> {
    literal_text(field.rust_name@) + " => { "@ + read_guard_text(field.rust_name@) + " select = select.column_as("@
        + group_selected_text(field, module, column) + ", "@ + literal_text("group_"@ + field.rust_name@)
        + ").group_by("@ + module + "::Column::"@ + column + "); }"@
}

/// The group arms of the filterable, groupable fields, in order, or the first error.
pub open spec fn group_arms_spec(fields: Seq<Field>, module: Seq<char>) -> Result<Seq<Seq<char>>, Seq<char>>
    decreases fields.len(),
{
    if fields.len() == 0 {
        Ok(Seq::<Seq<char>>::empty())
    } else {
        match group_arms_spec(fields.drop_last(), module) {
            Err(error) => Err(error),
            Ok(arms) => if fields.last().capabilities.filterable && groupable_type(fields.last().ty) {
                match column_result(fields.last()) {
                    Err(error) => Err(error),
                    Ok(column) => Ok(arms.push(group_arm_text(fields.last(), module, column))),
                }
            } else {
                Ok(arms)
            },
        }
    }
}

proof fn lemma_group_arms_error(fields: Seq<Field>, module: Seq<char>, k: int)
    requires
        0 <= k <= fields.len(),
        group_arms_spec(fields.subrange(0, k), module) is Err,
    ensures
        group_arms_spec(fields, module) == group_arms_spec(fields.subrange(0, k), module),
    decreases fields.len() - k,
{
    if k < fields.len() {
        assert(fields.subrange(0, k + 1).drop_last() == fields.subrange(0, k));
        lemma_group_arms_error(fields, module, k + 1);
    } else {
        assert(fields.subrange(0, k) == fields);
    }
}

fn group_arm(field: &Field, module: &str, column: &str) -> (text: String)
    ensures
        text@ == group_arm_text(*field, module@, column@),
{
    let name = string_literal(field.rust_name.as_str());
    let mut alias = String::from_str("group_");
    alias.append(field.rust_name.as_str());
    let mut text = name.clone();
    text.append(" => { ");
    let guard = read_guard(field.rust_name.as_str());
    text.append(guard.as_str());
    text.append(" select = select.column_as(");
    if is_wire_text(&field.ty) {
        text.append("sea_orm::sea_query::Expr::col((");
        text.append(module);
        text.append("::Entity, ");
        text.append(module);
        text.append("::Column::");
        text.append(column);
        text.append(")).cast_as(\"text\")");
    } else {
        text.append(module);
        text.append("::Column::");
        text.append(column);
    }
    text.append(", ");
    let alias_literal = string_literal(alias.as_str());
    text.append(alias_literal.as_str());
    text.append(").group_by(");
    text.append(module);
    text.append("::Column::");
    text.append(column);
    text.append("); }");
    text
}

/// The arms of the aggregate endpoint's `group_by` `match`.
pub fn group_arms(entity: &Entity, module: &str) -> (result: Result<Vec<String>, CodegenError>)
    ensures
        match result {
            Ok(arms) => group_arms_spec(entity.fields@, module@) == Ok::<Seq<Seq<char>>, Seq<char>>(texts(arms@)),
            Err(error) => group_arms_spec(entity.fields@, module@) == Err::<Seq<Seq<char>>, Seq<char>>(error@),
        },
{
    let mut arms: Vec<String> = Vec::new();
    let mut i: usize = 0;
    proof {
        assert(entity.fields@.subrange(0, 0) == Seq::<Field>::empty());
        assert(texts(arms@) == Seq::<Seq<char>>::empty());
    }
    while i < entity.fields.len()
        invariant
            i <= entity.fields.len(),
            group_arms_spec(entity.fields@.subrange(0, i as int), module@) == Ok::<Seq<Seq<char>>, Seq<char>>(texts(arms@)),
        decreases entity.fields.len() - i,
    {
        proof {
            assert(entity.fields@.subrange(0, i + 1).drop_last() == entity.fields@.subrange(0, i as int));
        }
        let field = &entity.fields[i];
        if field.capabilities.filterable && groupable(&field.ty) {
            let column = match column_ident(field) {
                Ok(column) => column,
                Err(error) => {
                    proof {
                        lemma_group_arms_error(entity.fields@, module@, i + 1);
                    }
                    return Err(error);
                },
            };
            let arm = group_arm(field, module, column.as_str());
            let ghost before = texts(arms@);
            arms.push(arm);
            proof {
                assert(texts(arms@) == before.push(arm@));
            }
        }
        i = i + 1;
    }
    proof {
        assert(entity.fields@.subrange(0, entity.fields@.len() as int) == entity.fields@);
    }
    Ok(arms)
}

/// Whether some filterable field aggregates as text; the generated module then
/// needs `ExprTrait` in scope.
pub open spec fn needs_expression_trait(fields: Seq<Field>) -> bool {
    exists|i: int| 0 <= i < fields.len() && #[trigger] fields[i].capabilities.filterable && wire_text_type(fields[i].ty)
}

/// The import that the text casts need, if any field aggregates as text.
pub open spec fn expression_import_text(fields: Seq<Field>) -> Seq<char> {
    if needs_expression_trait(fields) {
        "use sea_orm::ExprTrait as _; "@
    } else {
        Seq::<char>::empty()
    }
}

fn uses_expression_trait(fields: &Vec<Field>) -> (result: bool)
    ensures
        result == needs_expression_trait(fields@),
{
    let mut i: usize = 0;
    while i < fields.len()
        invariant
            i <= fields.len(),
            forall|j: int| 0 <= j < i ==> !(#[trigger] fields@[j].capabilities.filterable && wire_text_type(fields@[j].ty)),
        decreases fields.len() - i,
    {
        if fields[i].capabilities.filterable && is_wire_text(&fields[i].ty) {
            return true;
        }
        i = i + 1;
    }
    false
}

/// The aggregate endpoint: it checks the list policy and the filter keys,
/// bounds `limit` to 1..=500, applies the access scope, filters and search,
/// selects each requested metric once and groups by each requested field once.
pub open spec fn aggregate_handler_text(
    module: Seq<char>,
    policy: Seq<char>,
    validation: Seq<char>,
    scope: Seq<char>,
    filters: Seq<Seq<char>>,
    relation_filters: Seq<Seq<char>>,
    search: Seq<char>,
    metrics: Seq<Seq<char>>,
    groups: Seq<Seq<char>>,
) -> Seq<char> {
    "async fn aggregate(State(state): State<AppState>, headers: HeaderMap, axum::extract::Query(query): axum::extract::Query<AggregateQuery>) -> Result<Json<AggregateResponse>, ApiError> { "@
        + "let context = state.context(&headers).await?; if !state.extensions."@
        + policy
        + "().can_list(&context).await? { return Err(access_denied(&context)); } "@
        + validation
        + " let limit = query.limit.unwrap_or(100); if !(1..=500).contains(&limit) { "@
        + "return Err(ApiError::InvalidQuery(\"`limit` must be between 1 and 500\".to_owned())); } "@
        + "let metrics = query.metrics.as_deref().unwrap_or(\"count\").split(',').map(str::trim).filter(|metric| !metric.is_empty()).collect::<Vec<_>>(); "@
        + "if metrics.is_empty() { "@
        + "return Err(ApiError::InvalidQuery(\"at least one aggregate metric is required\".to_owned())); "@
        + "} let mut selected_metrics = BTreeSet::new(); let mut select = "@
        + module
        + "::Entity::find(); "@
        + scope
        + " "@
        + suffixed_text(filters, " "@)
        + suffixed_text(relation_filters, " "@)
        + search
        + " let mut select = select.select_only(); for metric in &metrics { "@
        + "if !selected_metrics.insert(*metric) { "@
        + "return Err(ApiError::InvalidQuery(format!(\"duplicate aggregate metric `{metric}`\"))); } "@
        + "match *metric { "@
        + suffixed_text(metrics, ", "@)
        + "_ => return Err(ApiError::InvalidQuery(format!(\"aggregate metric `{metric}` is not allowed\"))), } "@
        + "} "@
        + "let group_by = query.group_by.as_deref().unwrap_or(\"\").split(',').map(str::trim).filter(|field| !field.is_empty()).collect::<Vec<_>>(); "@
        + "let mut selected_groups = BTreeSet::new(); for field in &group_by { "@
        + "if !selected_groups.insert(*field) { "@
        + "return Err(ApiError::InvalidQuery(format!(\"duplicate group field `{field}`\"))); } "@
        + "match *field { "@
        + suffixed_text(groups, ", "@)
        + "_ => return Err(ApiError::InvalidQuery(format!(\"group field `{field}` is not allowed\"))), } "@
        + "} let data = select.limit(limit).into_json().all(&state.database).await?; "@
        + "Ok(Json(AggregateResponse { data, meta: AggregateMeta { "@
        + "metrics: metrics.into_iter().map(str::to_owned).collect(), group_by: group_by.into_iter().map(str::to_owned).collect(), limit, }, })) }"@
}

fn aggregate_handler(
    module: &str,
    policy: &str,
    validation: &str,
    scope: &str,
    filters: &Vec<String>,
    relation_filters: &Vec<String>,
    search: &str,
    metrics: &Vec<String>,
    groups: &Vec<String>,
) -> (text: String)
    ensures
        text@ == aggregate_handler_text(
            module@,
            policy@,
            validation@,
            scope@,
            texts(filters@),
            texts(relation_filters@),
            search@,
            texts(metrics@),
            texts(groups@),
        ),
{
    let mut text = String::from_str("async fn aggregate(State(state): State<AppState>, headers: HeaderMap, axum::extract::Query(query): axum::extract::Query<AggregateQuery>) -> Result<Json<AggregateResponse>, ApiError> { ");
    text.append("let context = state.context(&headers).await?; if !state.extensions.");
    text.append(policy);
    text.append("().can_list(&context).await? { return Err(access_denied(&context)); } ");
    text.append(validation);
    text.append(" let limit = query.limit.unwrap_or(100); if !(1..=500).contains(&limit) { ");
    text.append("return Err(ApiError::InvalidQuery(\"`limit` must be between 1 and 500\".to_owned())); } ");
    text.append("let metrics = query.metrics.as_deref().unwrap_or(\"count\").split(',').map(str::trim).filter(|metric| !metric.is_empty()).collect::<Vec<_>>(); ");
    text.append("if metrics.is_empty() { ");
    text.append("return Err(ApiError::InvalidQuery(\"at least one aggregate metric is required\".to_owned())); ");
    text.append("} let mut selected_metrics = BTreeSet::new(); let mut select = ");
    text.append(module);
    text.append("::Entity::find(); ");
    text.append(scope);
    text.append(" ");
    append_suffixed(&mut text, filters, " ");
    append_suffixed(&mut text, relation_filters, " ");
    text.append(search);
    text.append(" let mut select = select.select_only(); for metric in &metrics { ");
    text.append("if !selected_metrics.insert(*metric) { ");
    text.append("return Err(ApiError::InvalidQuery(format!(\"duplicate aggregate metric `{metric}`\"))); } ");
    text.append("match *metric { ");
    append_suffixed(&mut text, metrics, ", ");
    text.append("_ => return Err(ApiError::InvalidQuery(format!(\"aggregate metric `{metric}` is not allowed\"))), } ");
    text.append("} ");
    text.append("let group_by = query.group_by.as_deref().unwrap_or(\"\").split(',').map(str::trim).filter(|field| !field.is_empty()).collect::<Vec<_>>(); ");
    text.append("let mut selected_groups = BTreeSet::new(); for field in &group_by { ");
    text.append("if !selected_groups.insert(*field) { ");
    text.append("return Err(ApiError::InvalidQuery(format!(\"duplicate group field `{field}`\"))); } ");
    text.append("match *field { ");
    append_suffixed(&mut text, groups, ", ");
    text.append("_ => return Err(ApiError::InvalidQuery(format!(\"group field `{field}` is not allowed\"))), } ");
    text.append("} let data = select.limit(limit).into_json().all(&state.database).await?; ");
    text.append("Ok(Json(AggregateResponse { data, meta: AggregateMeta { ");
    text.append("metrics: metrics.into_iter().map(str::to_owned).collect(), group_by: group_by.into_iter().map(str::to_owned).collect(), limit, }, })) }");
    text
}

/// The aggregate module's query and response types, then its handler.
pub open spec fn aggregate_support_text(expression: Seq<char>, handler: Seq<char>) -> Seq<char> {
    "use std::collections::BTreeSet; "@
        + expression
        + "#[derive(Debug, Default, Deserialize)] pub struct AggregateQuery { "@
        + "metrics: Option<String>, group_by: Option<String>, limit: Option<u64>, q: Option<String>, #[serde(flatten)] filters: BTreeMap<String, String>, } "@
        + "#[derive(Debug, Serialize)] pub struct AggregateMeta { "@
        + "metrics: Vec<String>, group_by: Vec<String>, limit: u64, } "@
        + "#[derive(Debug, Serialize)] pub struct AggregateResponse { "@
        + "data: Vec<serde_json::Value>, meta: AggregateMeta, } "@
        + handler
}

/// The aggregate support of an entity, or the first error met while building
/// its parts: the relation filter keys, the filter rules, the relation filter
/// rules, the search rule, the list scope, the metric arms and the group arms,
/// in that order.
pub open spec fn aggregate_support_spec(
    ir: AppIr,
    entity: Entity,
    module: Seq<char>,
    policy: Seq<char>,
    scopes: Seq<Seq<char>>,
) -> Result<Seq<char>, Seq<char>> {
    match relation_keys_spec(ir.entities@, entity.fields@) {
        Err(error) => Err(error),
        Ok(relation_keys) => match filter_rules_spec(entity.fields@, module) {
            Err(error) => Err(error),
            Ok(filters) => match relation_rules_spec(ir, entity.fields@, scopes, module) {
            Err(error) => Err(error),
            Ok(relation_filters) => match search_rule_spec(entity.fields@, module) {
                Err(error) => Err(error),
                Ok(search) => match condition_error(entity.fields@, entity.access.list) {
                    Some(error) => Err(error),
                    None => match metric_arms_spec(entity, module) {
                        Err(error) => Err(error),
                        Ok(metrics) => match group_arms_spec(entity.fields@, module) {
                            Err(error) => Err(error),
                            Ok(groups) => Ok(aggregate_support_text(
                                expression_import_text(entity.fields@),
                                aggregate_handler_text(
                                    module,
                                    policy,
                                    filter_validation_text(
                                        filter_keys_spec(Seq::<char>::empty(), entity.fields@) + relation_keys,
                                    ),
                                    list_scope_text(entity, module, entity.access.list),
                                    filters,
                                    relation_filters,
                                    search,
                                    metrics,
                                    groups,
                                ),
                            )),
                        },
                    },
                },
            },
            },
        },
    }
}

/// The aggregate endpoint of an entity with its types; `scopes` gives, for
/// each field of the entity in order, the related list scope of its target,
/// which the filters through relations read.
pub fn aggregate_support(
    ir: &AppIr,
    entity: &Entity,
    module: &str,
    policy: &str,
    scopes: &Vec<String>,
) -> (result: Result<String, CodegenError>)
    requires
        scopes.len() == entity.fields.len(),
    ensures
        match result {
            Ok(text) => aggregate_support_spec(*ir, *entity, module@, policy@, texts(scopes@))
                == Ok::<Seq<char>, Seq<char>>(text@),
            Err(error) => aggregate_support_spec(*ir, *entity, module@, policy@, texts(scopes@))
                == Err::<Seq<char>, Seq<char>>(error@),
        },
{
    let mut keys = filter_keys(entity);
    let mut related = relation_filter_keys(ir, entity)?;
    let ghost own = texts(keys@);
    let ghost others = texts(related@);
    keys.append(&mut related);
    proof {
        assert(texts(keys@) =~= own + others);
    }
    let validation = filter_validation(&keys);
    let filters = filter_rules(entity, module)?;
    let relation_filters = relation_filter_rules(ir, entity, module, scopes)?;
    let search = search_rule(entity, module)?;
    let list_scope = scope(entity, module, &entity.access.list)?;
    let metrics = metric_arms(entity, module)?;
    let groups = group_arms(entity, module)?;
    let handler = aggregate_handler(
        module,
        policy,
        validation.as_str(),
        list_scope.as_str(),
        &filters,
        &relation_filters,
        search.as_str(),
        &metrics,
        &groups,
    );
    let expression = if uses_expression_trait(&entity.fields) {
        String::from_str("use sea_orm::ExprTrait as _; ")
    } else {
        String::new()
    };
    let expression = expression.as_str();
    let handler = handler.as_str();
    let mut text = String::from_str("use std::collections::BTreeSet; ");
    text.append(expression);
    text.append("#[derive(Debug, Default, Deserialize)] pub struct AggregateQuery { ");
    text.append("metrics: Option<String>, group_by: Option<String>, limit: Option<u64>, q: Option<String>, #[serde(flatten)] filters: BTreeMap<String, String>, } ");
    text.append("#[derive(Debug, Serialize)] pub struct AggregateMeta { ");
    text.append("metrics: Vec<String>, group_by: Vec<String>, limit: u64, } ");
    text.append("#[derive(Debug, Serialize)] pub struct AggregateResponse { ");
    text.append("data: Vec<serde_json::Value>, meta: AggregateMeta, } ");
    text.append(handler);
    Ok(text)
}

} // verus!
