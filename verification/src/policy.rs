use vstd::prelude::*;
use crate::ir::AccessRule;

verus! {

/// The signed-in user as access rules see it.
pub ghost struct Actor {
    pub id: int,
    pub roles: Seq<Seq<char>>,
}

/// Whether an actor passes a rule; `owns(actor, field)` says whether the actor
/// owns the record through the field with that id.
pub open spec fn allows(
    rule: AccessRule,
    actor: Option<Actor>,
    owns: spec_fn(Actor, Seq<char>) -> bool,
) -> bool
    decreases rule,
{
    match rule {
        AccessRule::Public => true,
        AccessRule::Authenticated => actor is Some,
        AccessRule::Role { role } => actor is Some && actor->0.roles.contains(role@),
        AccessRule::Owner { field } => actor is Some && owns(actor->0, field@),
        AccessRule::Any { rules } => any_allows(rules@, actor, owns),
        AccessRule::All { rules } => all_allow(rules@, actor, owns),
    }
}

/// Some rule of the list passes.
pub open spec fn any_allows(
    rules: Seq<AccessRule>,
    actor: Option<Actor>,
    owns: spec_fn(Actor, Seq<char>) -> bool,
) -> bool
    decreases rules,
{
    if rules.len() == 0 {
        false
    } else {
        any_allows(rules.subrange(0, rules.len() - 1), actor, owns)
            || allows(rules[rules.len() - 1], actor, owns)
    }
}

/// Every rule of the list passes.
pub open spec fn all_allow(
    rules: Seq<AccessRule>,
    actor: Option<Actor>,
    owns: spec_fn(Actor, Seq<char>) -> bool,
) -> bool
    decreases rules,
{
    if rules.len() == 0 {
        true
    } else {
        all_allow(rules.subrange(0, rules.len() - 1), actor, owns)
            && allows(rules[rules.len() - 1], actor, owns)
    }
}

} // verus!
