use vstd::prelude::*;
use crate::access::{
    all_condition_text, any_condition_text, column_result, condition_error, condition_errors,
    condition_list, condition_text, find_field, owner_condition_text, role_condition_text,
    tenant_scope_text, list_scope_text, member_scope_text, tenant_condition_text, live_scope_text,
    live_condition_text,
};
use crate::ir::{AccessRule, Entity, Field};
use crate::policy::{Actor, all_allow, allows, any_allows};

verus! {

/// What a generated `Option<Condition>` expression computes.
pub ghost enum Scope {
    /// `Some(Condition::all())`.
    Everything,
    /// `Some(Condition::all())` when someone is signed in.
    Authenticated,
    /// `Some(Condition::all())` when the actor has the role.
    HasRole { role: Seq<char> },
    /// When someone is signed in, the rows whose field holds the actor's id.
    Owns { field: Seq<char>, module: Seq<char>, column: Seq<char> },
    /// `None` when every child is `None`, else the rows some present child admits.
    AnyOf { scopes: Seq<Scope> },
    /// `None` when some child is `None`, else the rows every child admits.
    AllOf { scopes: Seq<Scope> },
}

/// The scope that the generated condition of a rule computes.
pub open spec fn scope_of(fields: Seq<Field>, module: Seq<char>, rule: AccessRule) -> Scope
    decreases rule,
{
    match rule {
        AccessRule::Public => Scope::Everything,
        AccessRule::Authenticated => Scope::Authenticated,
        AccessRule::Role { role } => Scope::HasRole { role: role@ },
        AccessRule::Owner { field } => match find_field(fields, field@) {
            Some(f) => match column_result(f) {
                Ok(column) => Scope::Owns { field: f.id@, module, column },
                Err(_) => Scope::Everything,
            },
            None => Scope::Everything,
        },
        AccessRule::Any { rules } => Scope::AnyOf { scopes: scopes_of(fields, module, rules@) },
        AccessRule::All { rules } => Scope::AllOf { scopes: scopes_of(fields, module, rules@) },
    }
}

pub open spec fn scopes_of(fields: Seq<Field>, module: Seq<char>, rules: Seq<AccessRule>) -> Seq<Scope>
    decreases rules,
{
    if rules.len() == 0 {
        Seq::<Scope>::empty()
    } else {
        scopes_of(fields, module, rules.subrange(0, rules.len() - 1)).push(
            scope_of(fields, module, rules[rules.len() - 1]),
        )
    }
}

/// The source text of a scope.
pub open spec fn scope_text(scope: Scope) -> Seq<char>
    decreases scope,
{
    match scope {
        Scope::Everything => "Some(Condition::all())"@,
        Scope::Authenticated => "context.actor().map(|_| Condition::all())"@,
        Scope::HasRole { role } => role_condition_text(role),
        Scope::Owns { field, module, column } => owner_condition_text(module, column),
        Scope::AnyOf { scopes } => any_condition_text(scope_list_text(scopes)),
        Scope::AllOf { scopes } => all_condition_text(scope_list_text(scopes)),
    }
}

pub open spec fn scope_list_text(scopes: Seq<Scope>) -> Seq<char>
    decreases scopes,
{
    if scopes.len() == 0 {
        Seq::<char>::empty()
    } else if scopes.len() == 1 {
        scope_text(scopes[0])
    } else {
        scope_list_text(scopes.subrange(0, scopes.len() - 1)) + ", "@ + scope_text(scopes[scopes.len() - 1])
    }
}

/// The expression is `Some(..)`: the request is not refused outright.
pub open spec fn granted(scope: Scope, actor: Option<Actor>) -> bool
    decreases scope,
{
    match scope {
        Scope::Everything => true,
        Scope::Authenticated => actor is Some,
        Scope::HasRole { role } => actor is Some && actor->0.roles.contains(role),
        Scope::Owns { field, module, column } => actor is Some,
        Scope::AnyOf { scopes } => any_granted(scopes, actor),
        Scope::AllOf { scopes } => all_granted(scopes, actor),
    }
}

/// The condition inside `Some(..)` keeps a row; `row(field)` is the id stored in the field.
pub open spec fn admits(scope: Scope, actor: Option<Actor>, row: spec_fn(Seq<char>) -> Option<int>) -> bool
    decreases scope,
{
    match scope {
        Scope::Owns { field, module, column } => actor is Some && row(field) == Some(actor->0.id),
        Scope::AnyOf { scopes } => any_present_admits(scopes, actor, row),
        Scope::AllOf { scopes } => all_admit(scopes, actor, row),
        _ => true,
    }
}

pub open spec fn any_granted(scopes: Seq<Scope>, actor: Option<Actor>) -> bool
    decreases scopes,
{
    if scopes.len() == 0 {
        false
    } else {
        any_granted(scopes.subrange(0, scopes.len() - 1), actor) || granted(scopes[scopes.len() - 1], actor)
    }
}

pub open spec fn all_granted(scopes: Seq<Scope>, actor: Option<Actor>) -> bool
    decreases scopes,
{
    if scopes.len() == 0 {
        true
    } else {
        all_granted(scopes.subrange(0, scopes.len() - 1), actor) && granted(scopes[scopes.len() - 1], actor)
    }
}

/// Some child that is present admits the row (the `None` children are flattened away).
pub open spec fn any_present_admits(scopes: Seq<Scope>, actor: Option<Actor>, row: spec_fn(Seq<char>) -> Option<int>) -> bool
    decreases scopes,
{
    if scopes.len() == 0 {
        false
    } else {
        any_present_admits(scopes.subrange(0, scopes.len() - 1), actor, row) || (granted(
            scopes[scopes.len() - 1],
            actor,
        ) && admits(scopes[scopes.len() - 1], actor, row))
    }
}

pub open spec fn all_admit(scopes: Seq<Scope>, actor: Option<Actor>, row: spec_fn(Seq<char>) -> Option<int>) -> bool
    decreases scopes,
{
    if scopes.len() == 0 {
        true
    } else {
        all_admit(scopes.subrange(0, scopes.len() - 1), actor, row) && admits(scopes[scopes.len() - 1], actor, row)
    }
}

/// A row is in the result: the expression is `Some` and its condition keeps the row.
pub open spec fn visible(scope: Scope, actor: Option<Actor>, row: spec_fn(Seq<char>) -> Option<int>) -> bool {
    granted(scope, actor) && admits(scope, actor, row)
}

/// Ownership as the stored row shows it.
pub open spec fn owns_row(row: spec_fn(Seq<char>) -> Option<int>) -> spec_fn(Actor, Seq<char>) -> bool {
    |actor: Actor, field: Seq<char>| row(field) == Some(actor.id)
}

proof fn lemma_find_field_id(fields: Seq<Field>, id: Seq<char>)
    ensures
        find_field(fields, id) matches Some(f) ==> f.id@ == id,
    decreases fields.len(),
{
    if fields.len() > 0 && fields[0].id@ != id {
        lemma_find_field_id(fields.drop_first(), id);
    }
}

proof fn lemma_scope_text(fields: Seq<Field>, module: Seq<char>, rule: AccessRule)
    requires
        condition_error(fields, rule) is None,
    ensures
        scope_text(scope_of(fields, module, rule)) == condition_text(fields, module, rule),
    decreases rule,
{
    match rule {
        AccessRule::Any { rules } => lemma_scope_list_text(fields, module, rules@),
        AccessRule::All { rules } => lemma_scope_list_text(fields, module, rules@),
        _ => {},
    }
}

proof fn lemma_scope_list_text(fields: Seq<Field>, module: Seq<char>, rules: Seq<AccessRule>)
    requires
        condition_errors(fields, rules) is None,
    ensures
        scopes_of(fields, module, rules).len() == rules.len(),
        scope_list_text(scopes_of(fields, module, rules)) == condition_list(fields, module, rules),
    decreases rules,
{
    if rules.len() > 0 {
        let init = rules.subrange(0, rules.len() - 1);
        let last = rules[rules.len() - 1];
        lemma_scope_list_text(fields, module, init);
        lemma_scope_text(fields, module, last);
        let scopes = scopes_of(fields, module, rules);
        assert(scopes.subrange(0, scopes.len() - 1) == scopes_of(fields, module, init));
        assert(scopes[scopes.len() - 1] == scope_of(fields, module, last));
        if rules.len() == 1 {
            assert(rules[0] == last);
        }
    }
}

proof fn lemma_scope_eval(
    fields: Seq<Field>,
    module: Seq<char>,
    rule: AccessRule,
    actor: Option<Actor>,
    row: spec_fn(Seq<char>) -> Option<int>,
)
    requires
        condition_error(fields, rule) is None,
    ensures
        visible(scope_of(fields, module, rule), actor, row) == allows(rule, actor, owns_row(row)),
    decreases rule,
{
    match rule {
        AccessRule::Owner { field } => {
            lemma_find_field_id(fields, field@);
        },
        AccessRule::Any { rules } => lemma_any_scope_eval(fields, module, rules@, actor, row),
        AccessRule::All { rules } => lemma_all_scope_eval(fields, module, rules@, actor, row),
        _ => {},
    }
}

proof fn lemma_any_scope_eval(
    fields: Seq<Field>,
    module: Seq<char>,
    rules: Seq<AccessRule>,
    actor: Option<Actor>,
    row: spec_fn(Seq<char>) -> Option<int>,
)
    requires
        condition_errors(fields, rules) is None,
    ensures
        any_present_admits(scopes_of(fields, module, rules), actor, row) == any_allows(rules, actor, owns_row(row)),
        any_present_admits(scopes_of(fields, module, rules), actor, row) ==> any_granted(scopes_of(fields, module, rules), actor),
    decreases rules,
{
    if rules.len() > 0 {
        let init = rules.subrange(0, rules.len() - 1);
        let last = rules[rules.len() - 1];
        lemma_any_scope_eval(fields, module, init, actor, row);
        lemma_scope_eval(fields, module, last, actor, row);
        let scopes = scopes_of(fields, module, rules);
        assert(scopes.subrange(0, scopes.len() as int - 1) == scopes_of(fields, module, init));
    }
}

proof fn lemma_all_scope_eval(
    fields: Seq<Field>,
    module: Seq<char>,
    rules: Seq<AccessRule>,
    actor: Option<Actor>,
    row: spec_fn(Seq<char>) -> Option<int>,
)
    requires
        condition_errors(fields, rules) is None,
    ensures
        (all_granted(scopes_of(fields, module, rules), actor) && all_admit(scopes_of(fields, module, rules), actor, row))
            == all_allow(rules, actor, owns_row(row)),
    decreases rules,
{
    if rules.len() > 0 {
        let init = rules.subrange(0, rules.len() - 1);
        let last = rules[rules.len() - 1];
        lemma_all_scope_eval(fields, module, init, actor, row);
        lemma_scope_eval(fields, module, last, actor, row);
        let scopes = scopes_of(fields, module, rules);
        assert(scopes.subrange(0, scopes.len() as int - 1) == scopes_of(fields, module, init));
    }
}

/// Law: the generated access condition of a rule reads as its scope model,
/// and a row passes it exactly when the policy lets the actor see that row.
pub proof fn law_condition_matches_policy(
    fields: Seq<Field>,
    module: Seq<char>,
    rule: AccessRule,
    actor: Option<Actor>,
    row: spec_fn(Seq<char>) -> Option<int>,
)
    requires
        condition_error(fields, rule) is None,
    ensures
        condition_text(fields, module, rule) == scope_text(scope_of(fields, module, rule)),
        visible(scope_of(fields, module, rule), actor, row) == allows(rule, actor, owns_row(row)),
{
    lemma_scope_text(fields, module, rule);
    lemma_scope_eval(fields, module, rule, actor, row);
}

proof fn lemma_scopes_of_index(fields: Seq<Field>, module: Seq<char>, rules: Seq<AccessRule>)
    ensures
        scopes_of(fields, module, rules).len() == rules.len(),
        forall|i: int| 0 <= i < rules.len() ==> #[trigger] scopes_of(fields, module, rules)[i] == scope_of(fields, module, rules[i]),
    decreases rules.len(),
{
    if rules.len() > 0 {
        let init = rules.subrange(0, rules.len() - 1);
        lemma_scopes_of_index(fields, module, init);
        assert forall|i: int| 0 <= i < rules.len() implies #[trigger] scopes_of(fields, module, rules)[i] == scope_of(
            fields,
            module,
            rules[i],
        ) by {
            if i < rules.len() - 1 {
                assert(init[i] == rules[i]);
            }
        }
    }
}

proof fn lemma_any_granted(scopes: Seq<Scope>, actor: Option<Actor>)
    ensures
        any_granted(scopes, actor) == exists|i: int| 0 <= i < scopes.len() && #[trigger] granted(scopes[i], actor),
    decreases scopes.len(),
{
    if scopes.len() > 0 {
        let init = scopes.subrange(0, scopes.len() - 1);
        lemma_any_granted(init, actor);
        if granted(scopes[scopes.len() - 1], actor) {
            assert(granted(scopes[scopes.len() - 1], actor));
        }
        if exists|i: int| 0 <= i < scopes.len() && #[trigger] granted(scopes[i], actor) {
            let i = choose|i: int| 0 <= i < scopes.len() && #[trigger] granted(scopes[i], actor);
            if i < scopes.len() - 1 {
                assert(granted(init[i], actor));
            }
        }
        if exists|i: int| 0 <= i < init.len() && #[trigger] granted(init[i], actor) {
            let i = choose|i: int| 0 <= i < init.len() && #[trigger] granted(init[i], actor);
            assert(granted(scopes[i], actor));
        }
    }
}

proof fn lemma_all_granted(scopes: Seq<Scope>, actor: Option<Actor>)
    ensures
        all_granted(scopes, actor) == forall|i: int| 0 <= i < scopes.len() ==> #[trigger] granted(scopes[i], actor),
    decreases scopes.len(),
{
    if scopes.len() > 0 {
        let init = scopes.subrange(0, scopes.len() - 1);
        lemma_all_granted(init, actor);
        if forall|i: int| 0 <= i < scopes.len() ==> #[trigger] granted(scopes[i], actor) {
            assert forall|i: int| 0 <= i < init.len() implies #[trigger] granted(init[i], actor) by {
                assert(granted(scopes[i], actor));
            }
            assert(granted(scopes[scopes.len() - 1], actor));
        }
        if all_granted(scopes, actor) {
            assert forall|i: int| 0 <= i < scopes.len() implies #[trigger] granted(scopes[i], actor) by {
                if i < scopes.len() - 1 {
                    assert(granted(init[i], actor));
                }
            }
        }
    }
}

proof fn lemma_any_present(scopes: Seq<Scope>, actor: Option<Actor>, row: spec_fn(Seq<char>) -> Option<int>)
    ensures
        any_present_admits(scopes, actor, row) == exists|i: int| 0 <= i < scopes.len() && #[trigger] visible(scopes[i], actor, row),
    decreases scopes.len(),
{
    if scopes.len() > 0 {
        let init = scopes.subrange(0, scopes.len() - 1);
        lemma_any_present(init, actor, row);
        if visible(scopes[scopes.len() - 1], actor, row) {
            assert(visible(scopes[scopes.len() - 1], actor, row));
        }
        if exists|i: int| 0 <= i < scopes.len() && #[trigger] visible(scopes[i], actor, row) {
            let i = choose|i: int| 0 <= i < scopes.len() && #[trigger] visible(scopes[i], actor, row);
            if i < scopes.len() - 1 {
                assert(visible(init[i], actor, row));
            }
        }
        if exists|i: int| 0 <= i < init.len() && #[trigger] visible(init[i], actor, row) {
            let i = choose|i: int| 0 <= i < init.len() && #[trigger] visible(init[i], actor, row);
            assert(visible(scopes[i], actor, row));
        }
    }
}

proof fn lemma_any_present_granted(scopes: Seq<Scope>, actor: Option<Actor>, row: spec_fn(Seq<char>) -> Option<int>)
    ensures
        any_present_admits(scopes, actor, row) ==> any_granted(scopes, actor),
    decreases scopes.len(),
{
    if scopes.len() > 0 {
        lemma_any_present_granted(scopes.subrange(0, scopes.len() - 1), actor, row);
    }
}

proof fn lemma_all_admit(scopes: Seq<Scope>, actor: Option<Actor>, row: spec_fn(Seq<char>) -> Option<int>)
    ensures
        all_admit(scopes, actor, row) == forall|i: int| 0 <= i < scopes.len() ==> #[trigger] admits(scopes[i], actor, row),
    decreases scopes.len(),
{
    if scopes.len() > 0 {
        let init = scopes.subrange(0, scopes.len() - 1);
        lemma_all_admit(init, actor, row);
        if forall|i: int| 0 <= i < scopes.len() ==> #[trigger] admits(scopes[i], actor, row) {
            assert forall|i: int| 0 <= i < init.len() implies #[trigger] admits(init[i], actor, row) by {
                assert(admits(scopes[i], actor, row));
            }
            assert(admits(scopes[scopes.len() - 1], actor, row));
        }
        if all_admit(scopes, actor, row) {
            assert forall|i: int| 0 <= i < scopes.len() implies #[trigger] admits(scopes[i], actor, row) by {
                if i < scopes.len() - 1 {
                    assert(admits(init[i], actor, row));
                }
            }
        }
    }
}

/// Law: what a generated access condition yields for the request's actor, as
/// an `Option<Condition>` (`granted`: it is `Some`; `admits`: its condition
/// keeps the row). `Public` is `Some` of every row; `Authenticated` is `Some`
/// of every row exactly when someone is signed in; `Role` exactly when the
/// actor has the role; `Owner` is `Some` exactly when someone is signed in and
/// keeps the rows whose owner field holds the actor's id. `Any` is `None`
/// exactly when every child is `None`, and otherwise keeps the rows some
/// present child keeps; `All` is `None` exactly when some child is `None`, and
/// otherwise keeps the rows every child keeps. So `Any` of no rules refuses
/// and `All` of no rules admits every row.
pub proof fn law_condition_option_semantics(
    fields: Seq<Field>,
    module: Seq<char>,
    rule: AccessRule,
    actor: Option<Actor>,
    row: spec_fn(Seq<char>) -> Option<int>,
)
    requires
        condition_error(fields, rule) is None,
    ensures
        rule is Public ==> granted(scope_of(fields, module, rule), actor) && admits(scope_of(fields, module, rule), actor, row),
        rule is Authenticated ==> granted(scope_of(fields, module, rule), actor) == (actor is Some)
            && admits(scope_of(fields, module, rule), actor, row),
        rule matches AccessRule::Role { role } ==> granted(scope_of(fields, module, rule), actor) == (actor is Some
            && actor->0.roles.contains(role@)) && admits(scope_of(fields, module, rule), actor, row),
        rule matches AccessRule::Owner { field } ==> granted(scope_of(fields, module, rule), actor) == (actor is Some)
            && admits(scope_of(fields, module, rule), actor, row) == (actor is Some && row(field@) == Some(actor->0.id)),
        rule matches AccessRule::Any { rules } ==> granted(scope_of(fields, module, rule), actor) == (exists|i: int|
            0 <= i < rules@.len() && #[trigger] granted(scope_of(fields, module, rules@[i]), actor)),
        rule matches AccessRule::Any { rules } ==> visible(scope_of(fields, module, rule), actor, row) == (exists|i: int|
            0 <= i < rules@.len() && #[trigger] visible(scope_of(fields, module, rules@[i]), actor, row)),
        rule matches AccessRule::All { rules } ==> granted(scope_of(fields, module, rule), actor) == (forall|i: int|
            0 <= i < rules@.len() ==> #[trigger] granted(scope_of(fields, module, rules@[i]), actor)),
        rule matches AccessRule::All { rules } ==> admits(scope_of(fields, module, rule), actor, row) == (forall|i: int|
            0 <= i < rules@.len() ==> #[trigger] admits(scope_of(fields, module, rules@[i]), actor, row)),
        rule matches AccessRule::Any { rules } && rules@.len() == 0 ==> !granted(scope_of(fields, module, rule), actor),
        rule matches AccessRule::All { rules } && rules@.len() == 0 ==> granted(scope_of(fields, module, rule), actor)
            && admits(scope_of(fields, module, rule), actor, row),
{
    match rule {
        AccessRule::Owner { field } => {
            lemma_find_field_id(fields, field@);
        },
        AccessRule::Any { rules } => {
            let scopes = scopes_of(fields, module, rules@);
            lemma_scopes_of_index(fields, module, rules@);
            lemma_any_granted(scopes, actor);
            lemma_any_present(scopes, actor, row);
            lemma_any_present_granted(scopes, actor, row);
            assert forall|i: int| #![trigger scopes[i]] #![trigger rules@[i]] 0 <= i < rules@.len() implies granted(scope_of(fields, module, rules@[i]), actor) == granted(scopes[i], actor) by {
                assert(scopes[i] == scope_of(fields, module, rules@[i]));
            }
            assert forall|i: int| #![trigger scopes[i]] #![trigger rules@[i]] 0 <= i < rules@.len() implies visible(scope_of(fields, module, rules@[i]), actor, row) == visible(scopes[i], actor, row) by {
                assert(scopes[i] == scope_of(fields, module, rules@[i]));
            }
        },
        AccessRule::All { rules } => {
            let scopes = scopes_of(fields, module, rules@);
            lemma_scopes_of_index(fields, module, rules@);
            lemma_all_granted(scopes, actor);
            lemma_all_admit(scopes, actor, row);
            assert forall|i: int| #![trigger scopes[i]] #![trigger rules@[i]] 0 <= i < rules@.len() implies granted(scope_of(fields, module, rules@[i]), actor) == granted(scopes[i], actor) by {
                assert(scopes[i] == scope_of(fields, module, rules@[i]));
            }
            assert forall|i: int| #![trigger scopes[i]] #![trigger rules@[i]] 0 <= i < rules@.len() implies admits(scope_of(fields, module, rules@[i]), actor, row) == admits(scopes[i], actor, row) by {
                assert(scopes[i] == scope_of(fields, module, rules@[i]));
            }
        },
        _ => {},
    }
}

/// What the list-scope statements leave of a row: the access condition keeps
/// it; for a tenant-scoped entity, the request names a tenant and the row
/// belongs to it (a request without a tenant is refused); and for a
/// soft-delete entity, the row is not deleted (its `deleted_at` is null).
pub open spec fn list_visible(
    entity: Entity,
    module: Seq<char>,
    rule: AccessRule,
    actor: Option<Actor>,
    tenant: Option<int>,
    row: spec_fn(Seq<char>) -> Option<int>,
    row_tenant: int,
    row_deleted: bool,
) -> bool {
    &&& visible(scope_of(entity.fields@, module, rule), actor, row)
    &&& entity.tenant_scoped ==> tenant == Some(row_tenant)
    &&& entity.views.soft_delete ==> !row_deleted
}

/// Law: a list query shows a row exactly when the policy lets the actor see
/// it, for tenant-scoped entities the row belongs to the request's tenant, and
/// for soft-delete entities the row is not deleted; the generated statements
/// are the scope's text followed by the tenant filter and the filter on
/// `deleted_at`.
pub proof fn law_list_scope_matches_policy(
    entity: Entity,
    module: Seq<char>,
    rule: AccessRule,
    actor: Option<Actor>,
    tenant: Option<int>,
    row: spec_fn(Seq<char>) -> Option<int>,
    row_tenant: int,
    row_deleted: bool,
)
    requires
        condition_error(entity.fields@, rule) is None,
    ensures
        list_scope_text(entity, module, rule) == "let access_scope = "@ + scope_text(scope_of(entity.fields@, module, rule))
            + "; let access_condition = match access_scope { Some(condition) => condition, None => return Err(access_denied(&context)), }; select = select.filter(access_condition); "@
            + tenant_scope_text(entity.tenant_scoped, module) + live_scope_text(entity.views.soft_delete, module),
        entity.views.soft_delete ==> live_scope_text(entity.views.soft_delete, module) == " select = select.filter("@
            + module + "::Column::DeletedAt.is_null());"@,
        list_visible(entity, module, rule, actor, tenant, row, row_tenant, row_deleted) == (allows(rule, actor, owns_row(row))
            && (entity.tenant_scoped ==> tenant == Some(row_tenant)) && (entity.views.soft_delete ==> !row_deleted)),
{
    law_condition_matches_policy(entity.fields@, module, rule, actor, row);
}

/// What the member-scope statement leaves of a single record: the access
/// condition is present and keeps the record; for a tenant-scoped entity, the
/// request names a tenant (else `require_tenant()?` refuses it) and the
/// record's tenant column holds that tenant; and for a soft-delete entity, the
/// record is not deleted.
pub open spec fn member_visible(
    entity: Entity,
    module: Seq<char>,
    rule: AccessRule,
    actor: Option<Actor>,
    tenant: Option<int>,
    row: spec_fn(Seq<char>) -> Option<int>,
    row_tenant: int,
    row_deleted: bool,
) -> bool {
    &&& visible(scope_of(entity.fields@, module, rule), actor, row)
    &&& entity.tenant_scoped ==> tenant == Some(row_tenant)
    &&& entity.views.soft_delete ==> !row_deleted
}

/// The member-scope statement refuses the request before any record is read:
/// the condition is `None`, or a tenant-scoped entity is asked for without a tenant.
pub open spec fn member_refused(
    entity: Entity,
    module: Seq<char>,
    rule: AccessRule,
    actor: Option<Actor>,
    tenant: Option<int>,
) -> bool {
    ||| !granted(scope_of(entity.fields@, module, rule), actor)
    ||| (entity.tenant_scoped && tenant is None)
}

/// Law: a single record passes the member scope exactly when the policy lets
/// the actor see it, for a tenant-scoped entity the record belongs to the
/// request's tenant, and for a soft-delete entity the record is not deleted;
/// the generated statement is the scope's text, the refusal of an absent
/// condition, and the tenant and `deleted_at` clauses added to the condition.
/// A request refused outright shows no record.
pub proof fn law_member_scope_matches_policy(
    entity: Entity,
    module: Seq<char>,
    rule: AccessRule,
    actor: Option<Actor>,
    tenant: Option<int>,
    row: spec_fn(Seq<char>) -> Option<int>,
    row_tenant: int,
    row_deleted: bool,
)
    requires
        condition_error(entity.fields@, rule) is None,
    ensures
        member_scope_text(entity, module, rule) == "let access_condition = "@ + scope_text(scope_of(entity.fields@, module, rule))
            + ".ok_or_else(|| access_denied(&context))?"@ + tenant_condition_text(entity.tenant_scoped, module)
            + live_condition_text(entity.views.soft_delete, module) + ";"@,
        entity.tenant_scoped ==> tenant_condition_text(entity.tenant_scoped, module) == ".add("@ + module
            + "::Column::TenantId.eq(context.require_tenant()?))"@,
        entity.views.soft_delete ==> live_condition_text(entity.views.soft_delete, module) == ".add("@ + module
            + "::Column::DeletedAt.is_null())"@,
        member_visible(entity, module, rule, actor, tenant, row, row_tenant, row_deleted) == (allows(rule, actor, owns_row(row))
            && (entity.tenant_scoped ==> tenant == Some(row_tenant)) && (entity.views.soft_delete ==> !row_deleted)),
        member_refused(entity, module, rule, actor, tenant) ==> !member_visible(entity, module, rule, actor, tenant, row, row_tenant, row_deleted),
{
    law_condition_matches_policy(entity.fields@, module, rule, actor, row);
}

} // verus!
