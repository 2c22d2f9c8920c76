use vstd::prelude::*;
use vstd::string::StringExecFns;
use crate::artifact::CodegenError;
use crate::ident::{ident_result, parse_ident};
use crate::ir::{AccessRule, Entity, Field};
use crate::field_access::{literal_text, string_literal};
use crate::naming::{pascal_case, pascal_text};

verus! {

/// The view of an optional text.
pub open spec fn opt_text(value: Option<&str>) -> Option<Seq<char>> {
    match value {
        Some(text) => Some(text@),
        None => None,
    }
}

/// The first field with the given id.
pub open spec fn find_field(fields: Seq<Field>, id: Seq<char>) -> Option<Field>
    decreases fields.len(),
{
    if fields.len() == 0 {
        None
    } else if fields[0].id@ == id {
        Some(fields[0])
    } else {
        find_field(fields.drop_first(), id)
    }
}

proof fn lemma_find_field(fields: Seq<Field>, id: Seq<char>, i: int)
    requires
        0 <= i <= fields.len(),
        forall|j: int| 0 <= j < i ==> fields[j].id@ != id,
    ensures
        i < fields.len() && fields[i].id@ == id ==> find_field(fields, id) == Some(fields[i]),
        i == fields.len() ==> find_field(fields, id) is None,
    decreases i,
{
    if i > 0 {
        lemma_find_field(fields.drop_first(), id, i - 1);
    }
}

/// The message for an owner rule whose field the entity lacks.
pub open spec fn missing_owner(id: Seq<char>) -> Seq<char> {
    "missing owner field `"@ + id + "`"@
}

/// The field that an owner rule names.
pub fn owner_field<'a>(fields: &'a Vec<Field>, id: &str) -> (result: Result<&'a Field, CodegenError>)
    ensures
        match result {
            Ok(field) => find_field(fields@, id@) == Some(*field),
            Err(error) => find_field(fields@, id@) is None && error@ == missing_owner(id@),
        },
{
    let key = id.to_owned();
    let mut i: usize = 0;
    while i < fields.len()
        invariant
            i <= fields.len(),
            key@ == id@,
            forall|j: int| 0 <= j < i ==> fields@[j].id@ != id@,
        decreases fields.len() - i,
    {
        if fields[i].id == key {
            proof {
                lemma_find_field(fields@, id@, i as int);
            }
            return Ok(&fields[i]);
        }
        i = i + 1;
    }
    proof {
        lemma_find_field(fields@, id@, i as int);
    }
    let mut message = String::from_str("missing owner field `");
    message.append(id);
    message.append("`");
    Err(CodegenError::new(message))
}


/// `value.name == actor.id`, or `== Some(actor.id)` for a nullable field:
/// the record stored in `value` belongs to the actor.
pub open spec fn owner_match_text(nullable: bool, value: Seq<char>, name: Seq<char>) -> Seq<char> {
    value + "."@ + name + " == "@ + if nullable {
        "Some(actor.id)"@
    } else {
        "actor.id"@
    }
}

pub fn owner_match(field: &Field, value: &str, name: &str) -> (text: String)
    ensures
        text@ == owner_match_text(field.nullable, value@, name@),
{
    let mut text = String::from_str(value);
    text.append(".");
    text.append(name);
    text.append(" == ");
    if field.nullable {
        text.append("Some(actor.id)");
    } else {
        text.append("actor.id");
    }
    text
}

/// The guard for an owner rule: the actor owns the record before the write,
/// and after it when there is an after value.
pub open spec fn owner_guard_text(
    nullable: bool,
    name: Seq<char>,
    before: Seq<char>,
    after: Option<Seq<char>>,
) -> Seq<char> {
    "context.actor().is_some_and(|actor| "@ + owner_match_text(nullable, before, name) + match after {
        Some(after) => " && "@ + owner_match_text(nullable, after, name),
        None => Seq::<char>::empty(),
    } + ")"@
}

/// The guard for a role rule.
pub open spec fn role_guard_text(role: Seq<char>) -> Seq<char> {
    "context.actor().is_some_and(|actor| actor.has_role("@ + literal_text(role) + "))"@
}

/// The Rust boolean expression generated for a rule, judged against the
/// record value named `before` and, for updates, the candidate named `after`.
pub open spec fn guard_text(
    fields: Seq<Field>,
    rule: AccessRule,
    before: Seq<char>,
    after: Option<Seq<char>>,
) -> Seq<char>
    decreases rule,
{
    match rule {
        AccessRule::Public => "true"@,
        AccessRule::Authenticated => "context.actor().is_some()"@,
        AccessRule::Role { role } => role_guard_text(role@),
        AccessRule::Owner { field } => match find_field(fields, field@) {
            Some(f) => match ident_result(f.rust_name@) {
                Ok(name) => owner_guard_text(f.nullable, name, before, after),
                Err(_) => Seq::<char>::empty(),
            },
            None => Seq::<char>::empty(),
        },
        AccessRule::Any { rules } => "false"@ + guard_tail(fields, rules@, " || "@, before, after),
        AccessRule::All { rules } => "true"@ + guard_tail(fields, rules@, " && "@, before, after),
    }
}

/// The guards of a rule list, each preceded by the operator.
pub open spec fn guard_tail(
    fields: Seq<Field>,
    rules: Seq<AccessRule>,
    operator: Seq<char>,
    before: Seq<char>,
    after: Option<Seq<char>>,
) -> Seq<char>
    decreases rules,
{
    if rules.len() == 0 {
        Seq::<char>::empty()
    } else {
        guard_tail(fields, rules.subrange(0, rules.len() - 1), operator, before, after) + operator
            + guard_text(fields, rules[rules.len() - 1], before, after)
    }
}

/// The first error met while generating a guard, in source order.
pub open spec fn guard_error(fields: Seq<Field>, rule: AccessRule) -> Option<Seq<char>>
    decreases rule,
{
    match rule {
        AccessRule::Owner { field } => match find_field(fields, field@) {
            Some(f) => match ident_result(f.rust_name@) {
                Ok(_) => None,
                Err(error) => Some(error),
            },
            None => Some(missing_owner(field@)),
        },
        AccessRule::Any { rules } => guard_errors(fields, rules@),
        AccessRule::All { rules } => guard_errors(fields, rules@),
        _ => None,
    }
}

pub open spec fn guard_errors(fields: Seq<Field>, rules: Seq<AccessRule>) -> Option<Seq<char>>
    decreases rules,
{
    if rules.len() == 0 {
        None
    } else {
        match guard_errors(fields, rules.subrange(0, rules.len() - 1)) {
            Some(error) => Some(error),
            None => guard_error(fields, rules[rules.len() - 1]),
        }
    }
}

proof fn lemma_guard_errors_prefix(fields: Seq<Field>, rules: Seq<AccessRule>, k: int)
    requires
        0 <= k <= rules.len(),
        guard_errors(fields, rules.subrange(0, k)) is Some,
    ensures
        guard_errors(fields, rules) == guard_errors(fields, rules.subrange(0, k)),
    decreases rules.len() - k,
{
    if k < rules.len() {
        let longer = rules.subrange(0, k + 1);
        assert(longer.subrange(0, k) == rules.subrange(0, k));
        lemma_guard_errors_prefix(fields, rules, k + 1);
    } else {
        assert(rules.subrange(0, k) == rules);
    }
}

/// The boolean guard that a generated handler evaluates before touching a record.
#[verifier::loop_isolation(false)]
fn allowed(fields: &Vec<Field>, rule: &AccessRule, before: &str, after: Option<&str>) -> (result: Result<String, CodegenError>)
    ensures
        match result {
            Ok(text) => guard_error(fields@, *rule) is None
                && text@ == guard_text(fields@, *rule, before@, opt_text(after)),
            Err(error) => guard_error(fields@, *rule) == Some(error@),
        },
    decreases rule,
{
    match rule {
        AccessRule::Public => Ok(String::from_str("true")),
        AccessRule::Authenticated => Ok(String::from_str("context.actor().is_some()")),
        AccessRule::Role { role } => {
            let mut text = String::from_str("context.actor().is_some_and(|actor| actor.has_role(");
            let literal = string_literal(role.as_str());
            text.append(literal.as_str());
            text.append("))");
            Ok(text)
        },
        AccessRule::Owner { field } => {
            let owner = owner_field(fields, field.as_str())?;
            let name = parse_ident(owner.rust_name.as_str())?;
            let mut text = String::from_str("context.actor().is_some_and(|actor| ");
            let before_match = owner_match(owner, before, name.as_str());
            text.append(before_match.as_str());
            match after {
                Some(after) => {
                    let after_match = owner_match(owner, after, name.as_str());
                    text.append(" && ");
                    text.append(after_match.as_str());
                },
                None => {},
            }
            text.append(")");
            Ok(text)
        },
        AccessRule::Any { rules } => {
            let mut text = String::from_str("false");
            let mut i: usize = 0;
            while i < rules.len()
                invariant
                    i <= rules.len(),
                    guard_errors(fields@, rules@.subrange(0, i as int)) is None,
                    text@ == "false"@ + guard_tail(fields@, rules@.subrange(0, i as int), " || "@, before@, opt_text(after)),
                decreases rules.len() - i,
            {
                proof {
                    assert(rules@.subrange(0, i + 1).subrange(0, i as int) == rules@.subrange(0, i as int));
                    assert(decreases_to!(rules => rules@));
                    assert(decreases_to!(rules@ => rules@[i as int]));
                }
                let child = match allowed(fields, &rules[i], before, after) {
                    Ok(child) => child,
                    Err(error) => {
                        proof {
                            lemma_guard_errors_prefix(fields@, rules@, i + 1);
                        }
                        return Err(error);
                    },
                };
                text.append(" || ");
                text.append(child.as_str());
                i = i + 1;
            }
            proof {
                assert(rules@.subrange(0, rules@.len() as int) == rules@);
            }
            Ok(text)
        },
        AccessRule::All { rules } => {
            let mut text = String::from_str("true");
            let mut i: usize = 0;
            while i < rules.len()
                invariant
                    i <= rules.len(),
                    guard_errors(fields@, rules@.subrange(0, i as int)) is None,
                    text@ == "true"@ + guard_tail(fields@, rules@.subrange(0, i as int), " && "@, before@, opt_text(after)),
                decreases rules.len() - i,
            {
                proof {
                    assert(rules@.subrange(0, i + 1).subrange(0, i as int) == rules@.subrange(0, i as int));
                    assert(decreases_to!(rules => rules@));
                    assert(decreases_to!(rules@ => rules@[i as int]));
                }
                let child = match allowed(fields, &rules[i], before, after) {
                    Ok(child) => child,
                    Err(error) => {
                        proof {
                            lemma_guard_errors_prefix(fields@, rules@, i + 1);
                        }
                        return Err(error);
                    },
                };
                text.append(" && ");
                text.append(child.as_str());
                i = i + 1;
            }
            proof {
                assert(rules@.subrange(0, rules@.len() as int) == rules@);
            }
            Ok(text)
        },
    }
}


/// A rule without owner parts: operation rules, which have no record.
pub open spec fn owner_free(rule: AccessRule) -> bool
    decreases rule,
{
    match rule {
        AccessRule::Owner { field } => false,
        AccessRule::Any { rules } => all_owner_free(rules@),
        AccessRule::All { rules } => all_owner_free(rules@),
        _ => true,
    }
}

pub open spec fn all_owner_free(rules: Seq<AccessRule>) -> bool
    decreases rules,
{
    if rules.len() == 0 {
        true
    } else {
        all_owner_free(rules.subrange(0, rules.len() - 1)) && owner_free(rules[rules.len() - 1])
    }
}

proof fn lemma_owner_free_no_error(fields: Seq<Field>, rule: AccessRule)
    requires
        owner_free(rule),
    ensures
        guard_error(fields, rule) is None,
    decreases rule,
{
    match rule {
        AccessRule::Any { rules } => lemma_all_owner_free_no_error(fields, rules@),
        AccessRule::All { rules } => lemma_all_owner_free_no_error(fields, rules@),
        _ => {},
    }
}

proof fn lemma_all_owner_free_no_error(fields: Seq<Field>, rules: Seq<AccessRule>)
    requires
        all_owner_free(rules),
    ensures
        guard_errors(fields, rules) is None,
    decreases rules,
{
    if rules.len() > 0 {
        lemma_all_owner_free_no_error(fields, rules.subrange(0, rules.len() - 1));
        lemma_owner_free_no_error(fields, rules[rules.len() - 1]);
    }
}

/// The guard a create handler checks against its input.
pub fn create_allowed(entity: &Entity, rule: &AccessRule) -> (result: Result<String, CodegenError>)
    ensures
        match result {
            Ok(text) => guard_error(entity.fields@, *rule) is None
                && text@ == guard_text(entity.fields@, *rule, "input"@, None),
            Err(error) => guard_error(entity.fields@, *rule) == Some(error@),
        },
{
    allowed(&entity.fields, rule, "input", None)
}

/// The guard a read handler checks against the loaded record.
pub fn row_allowed(entity: &Entity, rule: &AccessRule) -> (result: Result<String, CodegenError>)
    ensures
        match result {
            Ok(text) => guard_error(entity.fields@, *rule) is None
                && text@ == guard_text(entity.fields@, *rule, "model"@, None),
            Err(error) => guard_error(entity.fields@, *rule) == Some(error@),
        },
{
    allowed(&entity.fields, rule, "model", None)
}

/// The guard an update handler checks against the stored record and the candidate.
pub fn update_allowed(entity: &Entity, rule: &AccessRule) -> (result: Result<String, CodegenError>)
    ensures
        match result {
            Ok(text) => guard_error(entity.fields@, *rule) is None
                && text@ == guard_text(entity.fields@, *rule, "before"@, Some("candidate"@)),
            Err(error) => guard_error(entity.fields@, *rule) == Some(error@),
        },
{
    allowed(&entity.fields, rule, "before", Some("candidate"))
}

/// The guard of a command or query; such rules never name an owner.
pub fn operation_allowed(rule: &AccessRule) -> (text: String)
    requires
        owner_free(*rule),
    ensures
        text@ == guard_text(Seq::<Field>::empty(), *rule, Seq::<char>::empty(), None),
{
    let fields: Vec<Field> = Vec::new();
    proof {
        lemma_owner_free_no_error(fields@, *rule);
    }
    let empty = "";
    proof {
        reveal_strlit("");
        assert(empty@ == Seq::<char>::empty());
        assert(fields@ == Seq::<Field>::empty());
    }
    match allowed(&fields, rule, empty, None) {
        Ok(text) => text,
        Err(error) => {
            proof {
                assert(false);
            }
            String::new()
        },
    }
}


/// The text of a field's column variant: its name in Pascal case, parsed as an identifier.
pub open spec fn column_result(field: Field) -> Result<Seq<char>, Seq<char>> {
    ident_result(pascal_text(field.rust_name@))
}

pub fn column_ident(field: &Field) -> (result: Result<String, CodegenError>)
    ensures
        match result {
            Ok(column) => column_result(*field) == Ok::<Seq<char>, Seq<char>>(column@),
            Err(error) => column_result(*field) == Err::<Seq<char>, Seq<char>>(error@),
        },
{
    let name = pascal_case(field.rust_name.as_str());
    parse_ident(name.as_str())
}

pub open spec fn role_condition_text(role: Seq<char>) -> Seq<char> {
    "context.actor().filter(|actor| actor.has_role("@ + literal_text(role) + ")).map(|_| Condition::all())"@
}

pub open spec fn owner_condition_text(module: Seq<char>, column: Seq<char>) -> Seq<char> {
    "context.actor().map(|actor| Condition::all().add("@ + module + "::Column::"@ + column + ".eq(actor.id)))"@
}

pub open spec fn any_condition_text(children: Seq<char>) -> Seq<char> {
    "{ let children = vec!["@ + children
        + "].into_iter().flatten().collect::<Vec<_>>(); if children.is_empty() { None } else { Some(children.into_iter().fold(Condition::any(), |scope, child| scope.add(child))) } }"@
}

pub open spec fn all_condition_text(children: Seq<char>) -> Seq<char> {
    "{ let children = vec!["@ + children
        + "]; if children.iter().any(Option::is_none) { None } else { Some(children.into_iter().flatten().fold(Condition::all(), |scope, child| scope.add(child))) } }"@
}

/// The generated expression of type `Option<Condition>`: `None` refuses the
/// request, `Some(condition)` keeps the rows that the condition admits.
pub open spec fn condition_text(fields: Seq<Field>, module: Seq<char>, rule: AccessRule) -> Seq<char>
    decreases rule,
{
    match rule {
        AccessRule::Public => "Some(Condition::all())"@,
        AccessRule::Authenticated => "context.actor().map(|_| Condition::all())"@,
        AccessRule::Role { role } => role_condition_text(role@),
        AccessRule::Owner { field } => match find_field(fields, field@) {
            Some(f) => match column_result(f) {
                Ok(column) => owner_condition_text(module, column),
                Err(_) => Seq::<char>::empty(),
            },
            None => Seq::<char>::empty(),
        },
        AccessRule::Any { rules } => any_condition_text(condition_list(fields, module, rules@)),
        AccessRule::All { rules } => all_condition_text(condition_list(fields, module, rules@)),
    }
}

/// The conditions of a rule list, separated by `, `.
pub open spec fn condition_list(fields: Seq<Field>, module: Seq<char>, rules: Seq<AccessRule>) -> Seq<char>
    decreases rules,
{
    if rules.len() == 0 {
        Seq::<char>::empty()
    } else if rules.len() == 1 {
        condition_text(fields, module, rules[0])
    } else {
        condition_list(fields, module, rules.subrange(0, rules.len() - 1)) + ", "@
            + condition_text(fields, module, rules[rules.len() - 1])
    }
}

/// The first error met while generating a condition, in source order.
pub open spec fn condition_error(fields: Seq<Field>, rule: AccessRule) -> Option<Seq<char>>
    decreases rule,
{
    match rule {
        AccessRule::Owner { field } => match find_field(fields, field@) {
            Some(f) => match column_result(f) {
                Ok(_) => None,
                Err(error) => Some(error),
            },
            None => Some(missing_owner(field@)),
        },
        AccessRule::Any { rules } => condition_errors(fields, rules@),
        AccessRule::All { rules } => condition_errors(fields, rules@),
        _ => None,
    }
}

pub open spec fn condition_errors(fields: Seq<Field>, rules: Seq<AccessRule>) -> Option<Seq<char>>
    decreases rules,
{
    if rules.len() == 0 {
        None
    } else {
        match condition_errors(fields, rules.subrange(0, rules.len() - 1)) {
            Some(error) => Some(error),
            None => condition_error(fields, rules[rules.len() - 1]),
        }
    }
}

proof fn lemma_condition_errors_prefix(fields: Seq<Field>, rules: Seq<AccessRule>, k: int)
    requires
        0 <= k <= rules.len(),
        condition_errors(fields, rules.subrange(0, k)) is Some,
    ensures
        condition_errors(fields, rules) == condition_errors(fields, rules.subrange(0, k)),
    decreases rules.len() - k,
{
    if k < rules.len() {
        let longer = rules.subrange(0, k + 1);
        assert(longer.subrange(0, k) == rules.subrange(0, k));
        lemma_condition_errors_prefix(fields, rules, k + 1);
    } else {
        assert(rules.subrange(0, k) == rules);
    }
}

/// The generated children list of an `Any` or `All` condition.
#[verifier::loop_isolation(false)]
fn condition_children(fields: &Vec<Field>, module: &str, rules: &Vec<AccessRule>, parent: &AccessRule) -> (result: Result<String, CodegenError>)
    requires
        (parent matches AccessRule::Any { rules: r } && r == *rules) || (parent matches AccessRule::All { rules: r } && r == *rules),
    ensures
        match result {
            Ok(text) => condition_errors(fields@, rules@) is None
                && text@ == condition_list(fields@, module@, rules@),
            Err(error) => condition_errors(fields@, rules@) == Some(error@),
        },
    decreases parent, 0nat,
{
    let mut text = String::new();
    let mut i: usize = 0;
    while i < rules.len()
        invariant
            i <= rules.len(),
            condition_errors(fields@, rules@.subrange(0, i as int)) is None,
            text@ == condition_list(fields@, module@, rules@.subrange(0, i as int)),
        decreases rules.len() - i,
    {
        proof {
            let next = rules@.subrange(0, i + 1);
            assert(next.subrange(0, i as int) == rules@.subrange(0, i as int));
            assert(decreases_to!(*parent => rules@[i as int]));
            if i == 0 {
                assert(next == seq![rules@[0]]);
            }
        }
        let child = match condition(fields, module, &rules[i]) {
            Ok(child) => child,
            Err(error) => {
                proof {
                    lemma_condition_errors_prefix(fields@, rules@, i + 1);
                }
                return Err(error);
            },
        };
        if i > 0 {
            text.append(", ");
        }
        text.append(child.as_str());
        i = i + 1;
    }
    proof {
        assert(rules@.subrange(0, rules@.len() as int) == rules@);
    }
    Ok(text)
}

/// The access condition of a rule for list and member queries of the entity `module`.
pub fn condition(fields: &Vec<Field>, module: &str, rule: &AccessRule) -> (result: Result<String, CodegenError>)
    ensures
        match result {
            Ok(text) => condition_error(fields@, *rule) is None
                && text@ == condition_text(fields@, module@, *rule),
            Err(error) => condition_error(fields@, *rule) == Some(error@),
        },
    decreases rule, 1nat,
{
    match rule {
        AccessRule::Public => Ok(String::from_str("Some(Condition::all())")),
        AccessRule::Authenticated => Ok(String::from_str("context.actor().map(|_| Condition::all())")),
        AccessRule::Role { role } => {
            let mut text = String::from_str("context.actor().filter(|actor| actor.has_role(");
            let literal = string_literal(role.as_str());
            text.append(literal.as_str());
            text.append(")).map(|_| Condition::all())");
            Ok(text)
        },
        AccessRule::Owner { field } => {
            let owner = owner_field(fields, field.as_str())?;
            let column = column_ident(owner)?;
            let mut text = String::from_str("context.actor().map(|actor| Condition::all().add(");
            text.append(module);
            text.append("::Column::");
            text.append(column.as_str());
            text.append(".eq(actor.id)))");
            Ok(text)
        },
        AccessRule::Any { rules } => {
            let children = condition_children(fields, module, rules, rule)?;
            let mut text = String::from_str("{ let children = vec![");
            text.append(children.as_str());
            text.append("].into_iter().flatten().collect::<Vec<_>>(); if children.is_empty() { None } else { Some(children.into_iter().fold(Condition::any(), |scope, child| scope.add(child))) } }");
            Ok(text)
        },
        AccessRule::All { rules } => {
            let children = condition_children(fields, module, rules, rule)?;
            let mut text = String::from_str("{ let children = vec![");
            text.append(children.as_str());
            text.append("]; if children.iter().any(Option::is_none) { None } else { Some(children.into_iter().flatten().fold(Condition::all(), |scope, child| scope.add(child))) } }");
            Ok(text)
        },
    }
}


/// Statements that restrict a query to the caller's tenant.
pub open spec fn tenant_scope_text(tenant_scoped: bool, module: Seq<char>) -> Seq<char> {
    if tenant_scoped {
        "let tenant_id = context.require_tenant()?; select = select.filter("@ + module
            + "::Column::TenantId.eq(tenant_id));"@
    } else {
        Seq::<char>::empty()
    }
}

/// A condition suffix that restricts a record to the caller's tenant.
pub open spec fn tenant_condition_text(tenant_scoped: bool, module: Seq<char>) -> Seq<char> {
    if tenant_scoped {
        ".add("@ + module + "::Column::TenantId.eq(context.require_tenant()?))"@
    } else {
        Seq::<char>::empty()
    }
}

pub fn tenant_scope(entity: &Entity, module: &str) -> (text: String)
    ensures
        text@ == tenant_scope_text(entity.tenant_scoped, module@),
{
    if entity.tenant_scoped {
        let mut text = String::from_str("let tenant_id = context.require_tenant()?; select = select.filter(");
        text.append(module);
        text.append("::Column::TenantId.eq(tenant_id));");
        text
    } else {
        String::new()
    }
}

pub fn tenant_condition(entity: &Entity, module: &str) -> (text: String)
    ensures
        text@ == tenant_condition_text(entity.tenant_scoped, module@),
{
    if entity.tenant_scoped {
        let mut text = String::from_str(".add(");
        text.append(module);
        text.append("::Column::TenantId.eq(context.require_tenant()?))");
        text
    } else {
        String::new()
    }
}

/// A statement that keeps soft-deleted rows out of a query.
pub open spec fn live_scope_text(soft_delete: bool, module: Seq<char>) -> Seq<char> {
    if soft_delete {
        " select = select.filter("@ + module + "::Column::DeletedAt.is_null());"@
    } else {
        Seq::<char>::empty()
    }
}

/// A condition suffix that keeps a soft-deleted record out.
pub open spec fn live_condition_text(soft_delete: bool, module: Seq<char>) -> Seq<char> {
    if soft_delete {
        ".add("@ + module + "::Column::DeletedAt.is_null())"@
    } else {
        Seq::<char>::empty()
    }
}

pub fn live_scope(entity: &Entity, module: &str) -> (text: String)
    ensures
        text@ == live_scope_text(entity.views.soft_delete, module@),
{
    if entity.views.soft_delete {
        let mut text = String::from_str(" select = select.filter(");
        text.append(module);
        text.append("::Column::DeletedAt.is_null());");
        text
    } else {
        String::new()
    }
}

pub fn live_condition(entity: &Entity, module: &str) -> (text: String)
    ensures
        text@ == live_condition_text(entity.views.soft_delete, module@),
{
    if entity.views.soft_delete {
        let mut text = String::from_str(".add(");
        text.append(module);
        text.append("::Column::DeletedAt.is_null())");
        text
    } else {
        String::new()
    }
}

/// The statements that restrict a list query to the rows the rule admits:
/// the access condition, then the caller's tenant, then, for a soft-delete
/// entity, the rows not deleted.
pub open spec fn list_scope_text(entity: Entity, module: Seq<char>, rule: AccessRule) -> Seq<char> {
    "let access_scope = "@ + condition_text(entity.fields@, module, rule)
        + "; let access_condition = match access_scope { Some(condition) => condition, None => return Err(access_denied(&context)), }; select = select.filter(access_condition); "@
        + tenant_scope_text(entity.tenant_scoped, module) + live_scope_text(entity.views.soft_delete, module)
}

/// The statement that builds the condition a single record must meet: the
/// access condition, the caller's tenant and, for a soft-delete entity, that
/// the record is not deleted.
pub open spec fn member_scope_text(entity: Entity, module: Seq<char>, rule: AccessRule) -> Seq<char> {
    "let access_condition = "@ + condition_text(entity.fields@, module, rule)
        + ".ok_or_else(|| access_denied(&context))?"@ + tenant_condition_text(entity.tenant_scoped, module)
        + live_condition_text(entity.views.soft_delete, module) + ";"@
}

pub fn scope(entity: &Entity, module: &str, rule: &AccessRule) -> (result: Result<String, CodegenError>)
    ensures
        match result {
            Ok(text) => condition_error(entity.fields@, *rule) is None
                && text@ == list_scope_text(*entity, module@, *rule),
            Err(error) => condition_error(entity.fields@, *rule) == Some(error@),
        },
{
    let condition = condition(&entity.fields, module, rule)?;
    let tenant = tenant_scope(entity, module);
    let live = live_scope(entity, module);
    let mut text = String::from_str("let access_scope = ");
    text.append(condition.as_str());
    text.append("; let access_condition = match access_scope { Some(condition) => condition, None => return Err(access_denied(&context)), }; select = select.filter(access_condition); ");
    text.append(tenant.as_str());
    text.append(live.as_str());
    Ok(text)
}

pub fn member_scope(entity: &Entity, module: &str, rule: &AccessRule) -> (result: Result<String, CodegenError>)
    ensures
        match result {
            Ok(text) => condition_error(entity.fields@, *rule) is None
                && text@ == member_scope_text(*entity, module@, *rule),
            Err(error) => condition_error(entity.fields@, *rule) == Some(error@),
        },
{
    let condition = condition(&entity.fields, module, rule)?;
    let tenant = tenant_condition(entity, module);
    let live = live_condition(entity, module);
    let mut text = String::from_str("let access_condition = ");
    text.append(condition.as_str());
    text.append(".ok_or_else(|| access_denied(&context))?");
    text.append(tenant.as_str());
    text.append(live.as_str());
    text.append(";");
    Ok(text)
}

} // verus!
