use vstd::prelude::*;
use vstd::string::StringExecFns;
use crate::access::{column_ident, column_result};
use crate::artifact::CodegenError;
use crate::expressions::{parsed_value, parsed_value_text};
use crate::field_access::{literal_text, string_literal};
use crate::fields::{
    find_entity, find_entity_spec, first_primary, is_filterable, is_relation_filter, missing_entity, no_primary_key, primary_key,
    range_type, relation_target, supports_range, texts,
};
use crate::ident::{ident_result, parse_ident};
use crate::ir::{AppIr, Entity, Field, FieldType};
use crate::naming::{module_name, snake_text};

verus! {

/// The rule that keeps records whose related record has the given value.
#[verifier::opaque]
pub open spec fn exact_rule_text(exact_key: Seq<char>, target_module: Seq<char>, value: Seq<char>, target_primary: Seq<char>, target_scope: Seq<char>, target_column: Seq<char>, module: Seq<char>, source_column: Seq<char>) -> Seq<char> {
    "if let Some(raw) = query.filters.get("@
        + exact_key
        + ") { use crate::entities::"@
        + target_module
        + "; let value = "@
        + value
        + "; let mut relation_select = "@
        + target_module
        + "::Entity::find().select_only().column("@
        + target_module
        + "::Column::"@
        + target_primary
        + "); "@
        + target_scope
        + " relation_select = relation_select.filter("@
        + target_module
        + "::Column::"@
        + target_column
        + ".eq(value)); select = select.filter("@
        + module
        + "::Column::"@
        + source_column
        + ".in_subquery(relation_select.into_query())); }"@
}

fn exact_rule(exact_key: &str, target_module: &str, value: &str, target_primary: &str, target_scope: &str, target_column: &str, module: &str, source_column: &str) -> (text: String)
    ensures
        text@ == exact_rule_text(exact_key@, target_module@, value@, target_primary@, target_scope@, target_column@, module@, source_column@),
{
    proof {
        reveal(exact_rule_text);
    }
    let mut text = String::from_str("if let Some(raw) = query.filters.get(");
    text.append(exact_key);
    text.append(") { use crate::entities::");
    text.append(target_module);
    text.append("; let value = ");
    text.append(value);
    text.append("; let mut relation_select = ");
    text.append(target_module);
    text.append("::Entity::find().select_only().column(");
    text.append(target_module);
    text.append("::Column::");
    text.append(target_primary);
    text.append("); ");
    text.append(target_scope);
    text.append(" relation_select = relation_select.filter(");
    text.append(target_module);
    text.append("::Column::");
    text.append(target_column);
    text.append(".eq(value)); select = select.filter(");
    text.append(module);
    text.append("::Column::");
    text.append(source_column);
    text.append(".in_subquery(relation_select.into_query())); }");
    text
}

/// The rule that keeps records whose related record's value is at least or at most the given one.
#[verifier::opaque]
pub open spec fn range_rule_text(key: Seq<char>, target_module: Seq<char>, value: Seq<char>, target_primary: Seq<char>, target_scope: Seq<char>, target_column: Seq<char>, method: Seq<char>, module: Seq<char>, source_column: Seq<char>) -> Seq<char> {
    "if let Some(raw) = query.filters.get("@
        + key
        + ") { use crate::entities::"@
        + target_module
        + "; let value = "@
        + value
        + "; let mut relation_select = "@
        + target_module
        + "::Entity::find().select_only().column("@
        + target_module
        + "::Column::"@
        + target_primary
        + "); "@
        + target_scope
        + " relation_select = relation_select.filter("@
        + target_module
        + "::Column::"@
        + target_column
        + "."@
        + method
        + "(value)); select = select.filter("@
        + module
        + "::Column::"@
        + source_column
        + ".in_subquery(relation_select.into_query())); }"@
}

fn range_rule(key: &str, target_module: &str, value: &str, target_primary: &str, target_scope: &str, target_column: &str, method: &str, module: &str, source_column: &str) -> (text: String)
    ensures
        text@ == range_rule_text(key@, target_module@, value@, target_primary@, target_scope@, target_column@, method@, module@, source_column@),
{
    proof {
        reveal(range_rule_text);
    }
    let mut text = String::from_str("if let Some(raw) = query.filters.get(");
    text.append(key);
    text.append(") { use crate::entities::");
    text.append(target_module);
    text.append("; let value = ");
    text.append(value);
    text.append("; let mut relation_select = ");
    text.append(target_module);
    text.append("::Entity::find().select_only().column(");
    text.append(target_module);
    text.append("::Column::");
    text.append(target_primary);
    text.append("); ");
    text.append(target_scope);
    text.append(" relation_select = relation_select.filter(");
    text.append(target_module);
    text.append("::Column::");
    text.append(target_column);
    text.append(".");
    text.append(method);
    text.append("(value)); select = select.filter(");
    text.append(module);
    text.append("::Column::");
    text.append(source_column);
    text.append(".in_subquery(relation_select.into_query())); }");
    text
}

/// The key of a filter through a relation field to a field of its target,
/// `filter[relation.field]`, with an optional operator suffix.
pub open spec fn relation_key_text(relation: Field, target: Field, suffix: Seq<char>) -> Seq<char> {
    literal_text("filter["@ + relation.api_name@ + "."@ + target.rust_name@ + "]"@ + suffix)
}

fn relation_key(relation: &Field, target: &Field, suffix: &str) -> (text: String)
    ensures
        text@ == relation_key_text(*relation, *target, suffix@),
{
    let mut key = String::from_str("filter[");
    key.append(relation.api_name.as_str());
    key.append(".");
    key.append(target.rust_name.as_str());
    key.append("]");
    key.append(suffix);
    string_literal(key.as_str())
}

/// The rules of one filterable relation field, over the fields of its target
/// in order, or the first error: a target field's column, then the range
/// methods. A filterable target field gives an exact rule, and a range type
/// also gives `gte` and `lte` rules.
pub open spec fn target_rules_spec(
    relation: Field,
    module: Seq<char>,
    target_module: Seq<char>,
    source_column: Seq<char>,
    target_primary: Seq<char>,
    scope: Seq<char>,
    targets: Seq<Field>,
) -> Result<Seq<Seq<char>>, Seq<char>>
    decreases targets.len(),
{
    if targets.len() == 0 {
        Ok(Seq::<Seq<char>>::empty())
    } else {
        match target_rules_spec(relation, module, target_module, source_column, target_primary, scope, targets.drop_last()) {
            Err(error) => Err(error),
            Ok(rules) => {
                let target = targets.last();
                if !is_filterable(target) {
                    Ok(rules)
                } else {
                    match column_result(target) {
                        Err(error) => Err(error),
                        Ok(column) => {
                            let value = parsed_value_text(target, "raw"@);
                            let exact = exact_rule_text(
                                relation_key_text(relation, target, Seq::<char>::empty()),
                                target_module,
                                value,
                                target_primary,
                                scope,
                                column,
                                module,
                                source_column,
                            );
                            if !range_type(target.ty) {
                                Ok(rules.push(exact))
                            } else {
                                match ident_result("gte"@) {
                                    Err(error) => Err(error),
                                    Ok(gte) => match ident_result("lte"@) {
                                        Err(error) => Err(error),
                                        Ok(lte) => Ok(rules.push(exact).push(range_rule_text(
                                            relation_key_text(relation, target, "[gte]"@),
                                            target_module,
                                            value,
                                            target_primary,
                                            scope,
                                            column,
                                            gte,
                                            module,
                                            source_column,
                                        )).push(range_rule_text(
                                            relation_key_text(relation, target, "[lte]"@),
                                            target_module,
                                            value,
                                            target_primary,
                                            scope,
                                            column,
                                            lte,
                                            module,
                                            source_column,
                                        ))),
                                    },
                                }
                            }
                        },
                    }
                }
            },
        }
    }
}

proof fn lemma_target_rules_error(
    relation: Field,
    module: Seq<char>,
    target_module: Seq<char>,
    source_column: Seq<char>,
    target_primary: Seq<char>,
    scope: Seq<char>,
    targets: Seq<Field>,
    k: int,
)
    requires
        0 <= k <= targets.len(),
        target_rules_spec(relation, module, target_module, source_column, target_primary, scope, targets.subrange(0, k)) is Err,
    ensures
        target_rules_spec(relation, module, target_module, source_column, target_primary, scope, targets)
            == target_rules_spec(relation, module, target_module, source_column, target_primary, scope, targets.subrange(0, k)),
    decreases targets.len() - k,
{
    if k < targets.len() {
        assert(targets.subrange(0, k + 1).drop_last() == targets.subrange(0, k));
        lemma_target_rules_error(relation, module, target_module, source_column, target_primary, scope, targets, k + 1);
    } else {
        assert(targets.subrange(0, k) == targets);
    }
}

fn target_rules(
    relation: &Field,
    module: &str,
    target_module: &str,
    source_column: &str,
    target_primary: &str,
    scope: &str,
    targets: &Vec<Field>,
    rules: &mut Vec<String>,
) -> (result: Result<(), CodegenError>)
    ensures
        match result {
            Ok(()) => target_rules_spec(*relation, module@, target_module@, source_column@, target_primary@, scope@, targets@)
                matches Ok(more) && texts(final(rules)@) == texts(old(rules)@) + more,
            Err(error) => target_rules_spec(*relation, module@, target_module@, source_column@, target_primary@, scope@, targets@)
                == Err::<Seq<Seq<char>>, Seq<char>>(error@),
        },
{
    let ghost start = texts(rules@);
    let mut i: usize = 0;
    proof {
        assert(targets@.subrange(0, 0) == Seq::<Field>::empty());
        assert(start + Seq::<Seq<char>>::empty() == start);
    }
    while i < targets.len()
        invariant
            i <= targets.len(),
            target_rules_spec(*relation, module@, target_module@, source_column@, target_primary@, scope@, targets@.subrange(0, i as int))
                matches Ok(done) && texts(rules@) == start + done,
        decreases targets.len() - i,
    {
        let ghost done = target_rules_spec(*relation, module@, target_module@, source_column@, target_primary@, scope@, targets@.subrange(0, i as int))->Ok_0;
        proof {
            assert(targets@.subrange(0, i + 1).drop_last() == targets@.subrange(0, i as int));
            assert(targets@.subrange(0, i + 1).last() == targets@[i as int]);
        }
        let target = &targets[i];
        if target.capabilities.filterable {
            let column = match column_ident(target) {
                Ok(column) => column,
                Err(error) => {
                    proof {
                        lemma_target_rules_error(*relation, module@, target_module@, source_column@, target_primary@, scope@, targets@, i + 1);
                    }
                    return Err(error);
                },
            };
            proof {
                reveal_strlit("raw");
                reveal_strlit("");
                reveal_strlit("[gte]");
                reveal_strlit("[lte]");
                reveal_strlit("gte");
                reveal_strlit("lte");
            }
            let value = parsed_value(target, "raw");
            let exact_key = relation_key(relation, target, "");
            let exact = exact_rule(
                exact_key.as_str(),
                target_module,
                value.as_str(),
                target_primary,
                scope,
                column.as_str(),
                module,
                source_column,
            );
            let ghost before = rules@;
            if !supports_range(&target.ty) {
                rules.push(exact);
                proof {
                    assert(texts(rules@) =~= texts(before).push(exact@));
                    assert(start + done.push(exact@) =~= (start + done).push(exact@));
                }
            } else {
                let gte = match parse_ident("gte") {
                    Ok(method) => method,
                    Err(error) => {
                        proof {
                            lemma_target_rules_error(*relation, module@, target_module@, source_column@, target_primary@, scope@, targets@, i + 1);
                        }
                        return Err(error);
                    },
                };
                let lte = match parse_ident("lte") {
                    Ok(method) => method,
                    Err(error) => {
                        proof {
                            lemma_target_rules_error(*relation, module@, target_module@, source_column@, target_primary@, scope@, targets@, i + 1);
                        }
                        return Err(error);
                    },
                };
                let gte_key = relation_key(relation, target, "[gte]");
                let lte_key = relation_key(relation, target, "[lte]");
                let at_least = range_rule(
                    gte_key.as_str(),
                    target_module,
                    value.as_str(),
                    target_primary,
                    scope,
                    column.as_str(),
                    gte.as_str(),
                    module,
                    source_column,
                );
                let at_most = range_rule(
                    lte_key.as_str(),
                    target_module,
                    value.as_str(),
                    target_primary,
                    scope,
                    column.as_str(),
                    lte.as_str(),
                    module,
                    source_column,
                );
                rules.push(exact);
                rules.push(at_least);
                rules.push(at_most);
                proof {
                    assert(texts(rules@) =~= texts(before).push(exact@).push(at_least@).push(at_most@));
                    assert(start + done.push(exact@).push(at_least@).push(at_most@)
                        =~= (start + done).push(exact@).push(at_least@).push(at_most@));
                }
            }
        }
        i = i + 1;
    }
    proof {
        assert(targets@.subrange(0, targets@.len() as int) == targets@);
    }
    Ok(())
}

/// The filter rules through the entity's relation fields, field by field, or
/// the first error: an unknown target, the target's module name, the
/// relation's column, the target's primary key and its column, then the
/// target's rules. `scopes` gives, for each field of the entity in order, the
/// list scope of its target as the related query reads it.
pub open spec fn relation_rules_spec(ir: AppIr, fields: Seq<Field>, scopes: Seq<Seq<char>>, module: Seq<char>) -> Result<Seq<Seq<char>>, Seq<char>>
    decreases fields.len(),
{
    if fields.len() == 0 {
        Ok(Seq::<Seq<char>>::empty())
    } else {
        match relation_rules_spec(ir, fields.drop_last(), scopes, module) {
            Err(error) => Err(error),
            Ok(rules) => {
                let relation = fields.last();
                if !is_relation_filter(relation) {
                    Ok(rules)
                } else {
                    match find_entity_spec(ir.entities@, relation_target(relation)) {
                        None => Err(missing_entity(relation_target(relation))),
                        Some(target) => match ident_result(snake_text(target.rust_name@)) {
                            Err(error) => Err(error),
                            Ok(target_module) => match column_result(relation) {
                                Err(error) => Err(error),
                                Ok(source_column) => match first_primary(target.fields@) {
                                    None => Err(no_primary_key(target.id@)),
                                    Some(key) => match column_result(key) {
                                        Err(error) => Err(error),
                                        Ok(target_primary) => match target_rules_spec(
                                            relation,
                                            module,
                                            target_module,
                                            source_column,
                                            target_primary,
                                            scopes[fields.len() - 1],
                                            target.fields@,
                                        ) {
                                            Err(error) => Err(error),
                                            Ok(more) => Ok(rules + more),
                                        },
                                    },
                                },
                            },
                        },
                    }
                }
            },
        }
    }
}

proof fn lemma_relation_rules_error(ir: AppIr, fields: Seq<Field>, scopes: Seq<Seq<char>>, module: Seq<char>, k: int)
    requires
        0 <= k <= fields.len(),
        relation_rules_spec(ir, fields.subrange(0, k), scopes, module) is Err,
    ensures
        relation_rules_spec(ir, fields, scopes, module) == relation_rules_spec(ir, fields.subrange(0, k), scopes, module),
    decreases fields.len() - k,
{
    if k < fields.len() {
        assert(fields.subrange(0, k + 1).drop_last() == fields.subrange(0, k));
        lemma_relation_rules_error(ir, fields, scopes, module, k + 1);
    } else {
        assert(fields.subrange(0, k) == fields);
    }
}

/// The filter rules through the entity's relation fields; `scopes` gives the
/// related list scope of each field's target, in the order of the entity's
/// fields.
pub fn relation_filter_rules(ir: &AppIr, entity: &Entity, module: &str, scopes: &Vec<String>) -> (result: Result<Vec<String>, CodegenError>)
    requires
        scopes.len() == entity.fields.len(),
    ensures
        match result {
            Ok(rules) => relation_rules_spec(*ir, entity.fields@, texts(scopes@), module@) == Ok::<Seq<Seq<char>>, Seq<char>>(texts(rules@)),
            Err(error) => relation_rules_spec(*ir, entity.fields@, texts(scopes@), module@) == Err::<Seq<Seq<char>>, Seq<char>>(error@),
        },
{
    let ghost scope_texts = texts(scopes@);
    let fields = &entity.fields;
    let mut rules: Vec<String> = Vec::new();
    let mut i: usize = 0;
    proof {
        assert(fields@.subrange(0, 0) == Seq::<Field>::empty());
        assert(texts(rules@) == Seq::<Seq<char>>::empty());
    }
    while i < fields.len()
        invariant
            i <= fields.len(),
            fields == &entity.fields,
            scopes.len() == fields.len(),
            scope_texts == texts(scopes@),
            relation_rules_spec(*ir, fields@.subrange(0, i as int), scope_texts, module@) == Ok::<Seq<Seq<char>>, Seq<char>>(texts(rules@)),
        decreases fields.len() - i,
    {
        proof {
            assert(fields@.subrange(0, i + 1).drop_last() == fields@.subrange(0, i as int));
            assert(fields@.subrange(0, i + 1).last() == fields@[i as int]);
            assert(scope_texts[i as int] == scopes@[i as int]@);
        }
        let relation = &fields[i];
        if relation.capabilities.filterable {
            match &relation.ty {
                FieldType::Relation { target } => {
                    let found = match find_entity(ir, target.as_str()) {
                        Ok(found) => found,
                        Err(error) => {
                            proof {
                                lemma_relation_rules_error(*ir, fields@, scope_texts, module@, i + 1);
                            }
                            return Err(error);
                        },
                    };
                    let name = module_name(found);
                    let target_module = match parse_ident(name.as_str()) {
                        Ok(target_module) => target_module,
                        Err(error) => {
                            proof {
                                lemma_relation_rules_error(*ir, fields@, scope_texts, module@, i + 1);
                            }
                            return Err(error);
                        },
                    };
                    let source_column = match column_ident(relation) {
                        Ok(column) => column,
                        Err(error) => {
                            proof {
                                lemma_relation_rules_error(*ir, fields@, scope_texts, module@, i + 1);
                            }
                            return Err(error);
                        },
                    };
                    let key = match primary_key(found) {
                        Ok(key) => key,
                        Err(error) => {
                            proof {
                                lemma_relation_rules_error(*ir, fields@, scope_texts, module@, i + 1);
                            }
                            return Err(error);
                        },
                    };
                    let target_primary = match column_ident(key) {
                        Ok(column) => column,
                        Err(error) => {
                            proof {
                                lemma_relation_rules_error(*ir, fields@, scope_texts, module@, i + 1);
                            }
                            return Err(error);
                        },
                    };
                    match target_rules(
                        relation,
                        module,
                        target_module.as_str(),
                        source_column.as_str(),
                        target_primary.as_str(),
                        scopes[i].as_str(),
                        &found.fields,
                        &mut rules,
                    ) {
                        Ok(()) => {},
                        Err(error) => {
                            proof {
                                lemma_relation_rules_error(*ir, fields@, scope_texts, module@, i + 1);
                            }
                            return Err(error);
                        },
                    }
                },
                _ => {},
            }
        }
        i = i + 1;
    }
    proof {
        assert(fields@.subrange(0, fields@.len() as int) == fields@);
    }
    Ok(rules)
}

} // verus!
