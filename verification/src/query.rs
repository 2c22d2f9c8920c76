use vstd::prelude::*;
use vstd::string::StringExecFns;
use crate::access::{column_ident, column_result};
use crate::artifact::CodegenError;
use crate::expressions::{parsed_value, parsed_value_text};
use crate::field_access::{literal_text, string_literal};
use crate::fields::{range_type, supports_range, texts};
use crate::ident::{ident_result, parse_ident};
use crate::ir::{Entity, Field};

verus! {

/// The error that an unknown query parameter gets.
pub open spec fn unsupported_text() -> Seq<char> {
    "return Err(ApiError::InvalidQuery(format!(\"unsupported query parameter `{key}`\")))"@
}

/// The `match` arms that accept the known filter keys.
pub open spec fn key_arms_text(keys: Seq<Seq<char>>) -> Seq<char>
    decreases keys.len(),
{
    if keys.len() == 0 {
        Seq::<char>::empty()
    } else {
        key_arms_text(keys.drop_last()) + literal_text(keys.last()) + " => {}, "@
    }
}

/// The statement that refuses filter parameters other than the known keys.
pub open spec fn filter_validation_text(keys: Seq<Seq<char>>) -> Seq<char> {
    if keys.len() == 0 {
        "if let Some(key) = query.filters.keys().next() { "@ + unsupported_text() + "; }"@
    } else {
        "for key in query.filters.keys() { match key.as_str() { "@ + key_arms_text(keys) + "_ => "@
            + unsupported_text() + ", } }"@
    }
}

pub fn filter_validation(keys: &Vec<String>) -> (text: String)
    ensures
        text@ == filter_validation_text(texts(keys@)),
{
    if keys.len() == 0 {
        let mut text = String::from_str("if let Some(key) = query.filters.keys().next() { ");
        text.append("return Err(ApiError::InvalidQuery(format!(\"unsupported query parameter `{key}`\")))");
        text.append("; }");
        return text;
    }
    let mut arms = String::new();
    let mut i: usize = 0;
    while i < keys.len()
        invariant
            i <= keys.len(),
            arms@ == key_arms_text(texts(keys@.subrange(0, i as int))),
        decreases keys.len() - i,
    {
        proof {
            assert(texts(keys@.subrange(0, i + 1)).drop_last() == texts(keys@.subrange(0, i as int)));
            assert(texts(keys@.subrange(0, i + 1)).last() == keys@[i as int]@);
        }
        let literal = string_literal(keys[i].as_str());
        arms.append(literal.as_str());
        arms.append(" => {}, ");
        i = i + 1;
    }
    proof {
        assert(keys@.subrange(0, keys@.len() as int) == keys@);
    }
    let mut text = String::from_str("for key in query.filters.keys() { match key.as_str() { ");
    text.append(arms.as_str());
    text.append("_ => ");
    text.append("return Err(ApiError::InvalidQuery(format!(\"unsupported query parameter `{key}`\")))");
    text.append(", } }");
    text
}

/// The statement that applies one filter key: the caller must be allowed to
/// read the field, the raw value is parsed, and the column is compared by `method`.
pub open spec fn filter_rule_text(field: Field, module: Seq<char>, column: Seq<char>, key: Seq<char>, method: Seq<char>) -> Seq<char> {
    "if let Some(raw) = query.filters.get("@ + literal_text(key) + ") { if !field_read_allowed(&context, "@
        + literal_text(field.rust_name@) + ") { return Err(access_denied(&context)); } let value = "@
        + parsed_value_text(field, "raw"@) + "; select = select.filter("@ + module + "::Column::"@ + column + "."@
        + method + "(value)); }"@
}

pub open spec fn exact_key(field: Field) -> Seq<char> {
    "filter["@ + field.rust_name@ + "]"@
}

/// The filter rules of one field: exact match, then `gte` and `lte` for range types.
pub open spec fn field_filter_rules(field: Field, module: Seq<char>) -> Result<Seq<Seq<char>>, Seq<char>> {
    match column_result(field) {
        Err(error) => Err(error),
        Ok(column) => {
            let exact = seq![filter_rule_text(field, module, column, exact_key(field), "eq"@)];
            if range_type(field.ty) {
                match ident_result("gte"@) {
                    Err(error) => Err(error),
                    Ok(gte) => match ident_result("lte"@) {
                        Err(error) => Err(error),
                        Ok(lte) => Ok(exact + seq![
                            filter_rule_text(field, module, column, exact_key(field) + "[gte]"@, gte),
                            filter_rule_text(field, module, column, exact_key(field) + "[lte]"@, lte),
                        ]),
                    },
                }
            } else {
                Ok(exact)
            }
        },
    }
}

/// The filter rules of every filterable field, or the first error.
pub open spec fn filter_rules_spec(fields: Seq<Field>, module: Seq<char>) -> Result<Seq<Seq<char>>, Seq<char>>
    decreases fields.len(),
{
    if fields.len() == 0 {
        Ok(Seq::<Seq<char>>::empty())
    } else {
        match filter_rules_spec(fields.drop_last(), module) {
            Err(error) => Err(error),
            Ok(rules) => if fields.last().capabilities.filterable {
                match field_filter_rules(fields.last(), module) {
                    Ok(more) => Ok(rules + more),
                    Err(error) => Err(error),
                }
            } else {
                Ok(rules)
            },
        }
    }
}

proof fn lemma_filter_rules_error(fields: Seq<Field>, module: Seq<char>, k: int)
    requires
        0 <= k <= fields.len(),
        filter_rules_spec(fields.subrange(0, k), module) is Err,
    ensures
        filter_rules_spec(fields, module) == filter_rules_spec(fields.subrange(0, k), module),
    decreases fields.len() - k,
{
    if k < fields.len() {
        assert(fields.subrange(0, k + 1).drop_last() == fields.subrange(0, k));
        lemma_filter_rules_error(fields, module, k + 1);
    } else {
        assert(fields.subrange(0, k) == fields);
    }
}

fn filter_rule(field: &Field, module: &str, column: &str, key: &str, method: &str) -> (text: String)
    ensures
        text@ == filter_rule_text(*field, module@, column@, key@, method@),
{
    let mut text = String::from_str("if let Some(raw) = query.filters.get(");
    let key_literal = string_literal(key);
    text.append(key_literal.as_str());
    text.append(") { if !field_read_allowed(&context, ");
    let name_literal = string_literal(field.rust_name.as_str());
    text.append(name_literal.as_str());
    text.append(") { return Err(access_denied(&context)); } let value = ");
    let value = parsed_value(field, "raw");
    text.append(value.as_str());
    text.append("; select = select.filter(");
    text.append(module);
    text.append("::Column::");
    text.append(column);
    text.append(".");
    text.append(method);
    text.append("(value)); }");
    text
}

fn push_field_filter_rules(rules: &mut Vec<String>, field: &Field, module: &str) -> (result: Result<(), CodegenError>)
    ensures
        match result {
            Ok(()) => field_filter_rules(*field, module@) matches Ok(more) && texts(final(rules)@) == texts(old(rules)@) + more,
            Err(error) => field_filter_rules(*field, module@) == Err::<Seq<Seq<char>>, Seq<char>>(error@),
        },
{
    let column = column_ident(field)?;
    let mut key = String::from_str("filter[");
    key.append(field.rust_name.as_str());
    key.append("]");
    let ghost start = texts(rules@);
    let exact = filter_rule(field, module, column.as_str(), key.as_str(), "eq");
    rules.push(exact);
    if supports_range(&field.ty) {
        let gte = parse_ident("gte")?;
        let lte = parse_ident("lte")?;
        let mut gte_key = key.clone();
        gte_key.append("[gte]");
        let mut lte_key = key.clone();
        lte_key.append("[lte]");
        let low = filter_rule(field, module, column.as_str(), gte_key.as_str(), gte.as_str());
        let high = filter_rule(field, module, column.as_str(), lte_key.as_str(), lte.as_str());
        rules.push(low);
        rules.push(high);
        proof {
            assert(texts(rules@) =~= start + (seq![exact@] + seq![low@, high@]));
        }
    } else {
        proof {
            assert(texts(rules@) =~= start + seq![exact@]);
        }
    }
    Ok(())
}

/// The statements that apply the entity's own filter keys.
pub fn filter_rules(entity: &Entity, module: &str) -> (result: Result<Vec<String>, CodegenError>)
    ensures
        match result {
            Ok(rules) => filter_rules_spec(entity.fields@, module@) == Ok::<Seq<Seq<char>>, Seq<char>>(texts(rules@)),
            Err(error) => filter_rules_spec(entity.fields@, module@) == Err::<Seq<Seq<char>>, Seq<char>>(error@),
        },
{
    let mut rules: Vec<String> = Vec::new();
    let mut i: usize = 0;
    proof {
        assert(entity.fields@.subrange(0, 0) == Seq::<Field>::empty());
        assert(texts(rules@) == Seq::<Seq<char>>::empty());
    }
    while i < entity.fields.len()
        invariant
            i <= entity.fields.len(),
            filter_rules_spec(entity.fields@.subrange(0, i as int), module@) == Ok::<Seq<Seq<char>>, Seq<char>>(texts(rules@)),
        decreases entity.fields.len() - i,
    {
        proof {
            assert(entity.fields@.subrange(0, i + 1).drop_last() == entity.fields@.subrange(0, i as int));
        }
        let field = &entity.fields[i];
        if field.capabilities.filterable {
            match push_field_filter_rules(&mut rules, field, module) {
                Ok(()) => {},
                Err(error) => {
                    proof {
                        lemma_filter_rules_error(entity.fields@, module@, i + 1);
                    }
                    return Err(error);
                },
            }
        }
        i = i + 1;
    }
    proof {
        assert(entity.fields@.subrange(0, entity.fields@.len() as int) == entity.fields@);
    }
    Ok(rules)
}

/// One sort arm: the field may be read, then the order is applied.
pub open spec fn sort_rule_text(field: Field, module: Seq<char>, column: Seq<char>) -> Seq<char> {
    literal_text(field.rust_name@) + " => { if !field_read_allowed(&context, "@ + literal_text(field.rust_name@)
        + ") { return Err(access_denied(&context)); } select = if descending { select.order_by_desc("@ + module
        + "::Column::"@ + column + ") } else { select.order_by_asc("@ + module + "::Column::"@ + column
        + ") }; primary_sorted |= "@ + if field.primary_key {
        "true"@
    } else {
        "false"@
    } + "; }"@
}

/// The sort arms of the primary key and the sortable fields, or the first error.
pub open spec fn sort_rules_spec(fields: Seq<Field>, module: Seq<char>) -> Result<Seq<Seq<char>>, Seq<char>>
    decreases fields.len(),
{
    if fields.len() == 0 {
        Ok(Seq::<Seq<char>>::empty())
    } else {
        match sort_rules_spec(fields.drop_last(), module) {
            Err(error) => Err(error),
            Ok(rules) => if fields.last().primary_key || fields.last().capabilities.sortable {
                match column_result(fields.last()) {
                    Ok(column) => Ok(rules.push(sort_rule_text(fields.last(), module, column))),
                    Err(error) => Err(error),
                }
            } else {
                Ok(rules)
            },
        }
    }
}

proof fn lemma_sort_rules_error(fields: Seq<Field>, module: Seq<char>, k: int)
    requires
        0 <= k <= fields.len(),
        sort_rules_spec(fields.subrange(0, k), module) is Err,
    ensures
        sort_rules_spec(fields, module) == sort_rules_spec(fields.subrange(0, k), module),
    decreases fields.len() - k,
{
    if k < fields.len() {
        assert(fields.subrange(0, k + 1).drop_last() == fields.subrange(0, k));
        lemma_sort_rules_error(fields, module, k + 1);
    } else {
        assert(fields.subrange(0, k) == fields);
    }
}

pub fn sort_rules(entity: &Entity, module: &str) -> (result: Result<Vec<String>, CodegenError>)
    ensures
        match result {
            Ok(rules) => sort_rules_spec(entity.fields@, module@) == Ok::<Seq<Seq<char>>, Seq<char>>(texts(rules@)),
            Err(error) => sort_rules_spec(entity.fields@, module@) == Err::<Seq<Seq<char>>, Seq<char>>(error@),
        },
{
    let mut rules: Vec<String> = Vec::new();
    let mut i: usize = 0;
    proof {
        assert(entity.fields@.subrange(0, 0) == Seq::<Field>::empty());
        assert(texts(rules@) == Seq::<Seq<char>>::empty());
    }
    while i < entity.fields.len()
        invariant
            i <= entity.fields.len(),
            sort_rules_spec(entity.fields@.subrange(0, i as int), module@) == Ok::<Seq<Seq<char>>, Seq<char>>(texts(rules@)),
        decreases entity.fields.len() - i,
    {
        proof {
            assert(entity.fields@.subrange(0, i + 1).drop_last() == entity.fields@.subrange(0, i as int));
        }
        let field = &entity.fields[i];
        if field.primary_key || field.capabilities.sortable {
            let column = match column_ident(field) {
                Ok(column) => column,
                Err(error) => {
                    proof {
                        lemma_sort_rules_error(entity.fields@, module@, i + 1);
                    }
                    return Err(error);
                },
            };
            let name = string_literal(field.rust_name.as_str());
            let mut text = name.clone();
            text.append(" => { if !field_read_allowed(&context, ");
            text.append(name.as_str());
            text.append(") { return Err(access_denied(&context)); } select = if descending { select.order_by_desc(");
            text.append(module);
            text.append("::Column::");
            text.append(column.as_str());
            text.append(") } else { select.order_by_asc(");
            text.append(module);
            text.append("::Column::");
            text.append(column.as_str());
            text.append(") }; primary_sorted |= ");
            if field.primary_key {
                text.append("true");
            } else {
                text.append("false");
            }
            text.append("; }");
            let ghost before = texts(rules@);
            rules.push(text);
            proof {
                assert(texts(rules@) == before.push(text@));
            }
        }
        i = i + 1;
    }
    proof {
        assert(entity.fields@.subrange(0, entity.fields@.len() as int) == entity.fields@);
    }
    Ok(rules)
}

/// The check that adds one searchable column to the search condition.
pub open spec fn search_check_text(module: Seq<char>, column: Seq<char>, name: Seq<char>) -> Seq<char> {
    "if field_read_allowed(&context, "@ + literal_text(name) + ") { searchable_field_allowed = true; condition = condition.add("@
        + module + "::Column::"@ + column + ".contains(term)); } "@
}

/// The search checks of the searchable fields, or the first error.
pub open spec fn search_checks_spec(fields: Seq<Field>, module: Seq<char>) -> Result<Seq<Seq<char>>, Seq<char>>
    decreases fields.len(),
{
    if fields.len() == 0 {
        Ok(Seq::<Seq<char>>::empty())
    } else {
        match search_checks_spec(fields.drop_last(), module) {
            Err(error) => Err(error),
            Ok(checks) => if fields.last().capabilities.searchable {
                match column_result(fields.last()) {
                    Ok(column) => Ok(checks.push(search_check_text(module, column, fields.last().rust_name@))),
                    Err(error) => Err(error),
                }
            } else {
                Ok(checks)
            },
        }
    }
}

pub open spec fn concat_text(parts: Seq<Seq<char>>) -> Seq<char>
    decreases parts.len(),
{
    if parts.len() == 0 {
        Seq::<char>::empty()
    } else {
        concat_text(parts.drop_last()) + parts.last()
    }
}

/// The statement that applies the free-text search `q`: refused where no
/// field is searchable, otherwise matched against every searchable field the
/// caller may read.
pub open spec fn search_rule_spec(fields: Seq<Field>, module: Seq<char>) -> Result<Seq<char>, Seq<char>> {
    match search_checks_spec(fields, module) {
        Err(error) => Err(error),
        Ok(checks) => if checks.len() == 0 {
            Ok("if query.q.as_ref().is_some_and(|value| !value.trim().is_empty()) { return Err(ApiError::InvalidQuery(\"this resource does not support search\".to_owned())); }"@)
        } else {
            Ok("if let Some(term) = query.q.as_deref().map(str::trim).filter(|value| !value.is_empty()) { let mut condition = Condition::any(); let mut searchable_field_allowed = false; "@
                + concat_text(checks)
                + "if !searchable_field_allowed { return Err(access_denied(&context)); } select = select.filter(condition); }"@)
        },
    }
}

proof fn lemma_search_checks_error(fields: Seq<Field>, module: Seq<char>, k: int)
    requires
        0 <= k <= fields.len(),
        search_checks_spec(fields.subrange(0, k), module) is Err,
    ensures
        search_checks_spec(fields, module) == search_checks_spec(fields.subrange(0, k), module),
    decreases fields.len() - k,
{
    if k < fields.len() {
        assert(fields.subrange(0, k + 1).drop_last() == fields.subrange(0, k));
        lemma_search_checks_error(fields, module, k + 1);
    } else {
        assert(fields.subrange(0, k) == fields);
    }
}

pub fn search_rule(entity: &Entity, module: &str) -> (result: Result<String, CodegenError>)
    ensures
        match result {
            Ok(text) => search_rule_spec(entity.fields@, module@) == Ok::<Seq<char>, Seq<char>>(text@),
            Err(error) => search_rule_spec(entity.fields@, module@) == Err::<Seq<char>, Seq<char>>(error@),
        },
{
    let mut checks = String::new();
    let mut count: usize = 0;
    let ghost mut parts: Seq<Seq<char>> = Seq::empty();
    let mut i: usize = 0;
    proof {
        assert(entity.fields@.subrange(0, 0) == Seq::<Field>::empty());
    }
    while i < entity.fields.len()
        invariant
            i <= entity.fields.len(),
            count == parts.len(),
            count <= i,
            search_checks_spec(entity.fields@.subrange(0, i as int), module@) == Ok::<Seq<Seq<char>>, Seq<char>>(parts),
            checks@ == concat_text(parts),
        decreases entity.fields.len() - i,
    {
        proof {
            assert(entity.fields@.subrange(0, i + 1).drop_last() == entity.fields@.subrange(0, i as int));
        }
        let field = &entity.fields[i];
        if field.capabilities.searchable {
            let column = match column_ident(field) {
                Ok(column) => column,
                Err(error) => {
                    proof {
                        lemma_search_checks_error(entity.fields@, module@, i + 1);
                    }
                    return Err(error);
                },
            };
            let mut check = String::from_str("if field_read_allowed(&context, ");
            let name = string_literal(field.rust_name.as_str());
            check.append(name.as_str());
            check.append(") { searchable_field_allowed = true; condition = condition.add(");
            check.append(module);
            check.append("::Column::");
            check.append(column.as_str());
            check.append(".contains(term)); } ");
            checks.append(check.as_str());
            proof {
                assert(parts.push(check@).drop_last() == parts);
                parts = parts.push(check@);
            }
            count = count + 1;
        }
        i = i + 1;
    }
    proof {
        assert(entity.fields@.subrange(0, entity.fields@.len() as int) == entity.fields@);
    }
    if count == 0 {
        return Ok(String::from_str("if query.q.as_ref().is_some_and(|value| !value.trim().is_empty()) { return Err(ApiError::InvalidQuery(\"this resource does not support search\".to_owned())); }"));
    }
    let mut text = String::from_str("if let Some(term) = query.q.as_deref().map(str::trim).filter(|value| !value.is_empty()) { let mut condition = Condition::any(); let mut searchable_field_allowed = false; ");
    text.append(checks.as_str());
    text.append("if !searchable_field_allowed { return Err(access_denied(&context)); } select = select.filter(condition); }");
    Ok(text)
}

} // verus!
