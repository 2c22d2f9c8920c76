use vstd::prelude::*;
use crate::access::{find_field, guard_error, guard_errors, guard_tail, guard_text, owner_guard_text, role_guard_text};
use crate::ident::ident_result;
use crate::ir::{AccessRule, Field};
use crate::policy::{Actor, all_allow, allows, any_allows};

verus! {

/// One operand of a generated guard: the generated text joins operands with
/// `||` and `&&` and nothing groups a nested rule, so Rust's precedence decides.
pub ghost enum Atom {
    Literal { value: bool },
    Authenticated,
    HasRole { role: Seq<char> },
    Owns { field: Seq<char>, name: Seq<char>, nullable: bool, before: Seq<char>, after: Option<Seq<char>> },
}

/// An operand with the operator that precedes it (`or` for `||`, else `&&`).
pub ghost struct Link {
    pub or: bool,
    pub atom: Atom,
}

pub open spec fn atom_text(atom: Atom) -> Seq<char> {
    match atom {
        Atom::Literal { value } => if value {
            "true"@
        } else {
            "false"@
        },
        Atom::Authenticated => "context.actor().is_some()"@,
        Atom::HasRole { role } => role_guard_text(role),
        Atom::Owns { field, name, nullable, before, after } => owner_guard_text(nullable, name, before, after),
    }
}

pub open spec fn link_text(link: Link) -> Seq<char> {
    (if link.or {
        " || "@
    } else {
        " && "@
    }) + atom_text(link.atom)
}

pub open spec fn links_text(links: Seq<Link>) -> Seq<char>
    decreases links.len(),
{
    if links.len() == 0 {
        Seq::<char>::empty()
    } else {
        links_text(links.drop_last()) + link_text(links.last())
    }
}

/// The text of an operand chain.
pub open spec fn chain_text(chain: Seq<Link>) -> Seq<char> {
    if chain.len() == 0 {
        Seq::<char>::empty()
    } else {
        atom_text(chain[0].atom) + links_text(chain.drop_first())
    }
}

/// A chain whose first operator is replaced.
pub open spec fn relink(or: bool, chain: Seq<Link>) -> Seq<Link> {
    if chain.len() == 0 {
        chain
    } else {
        chain.update(0, Link { or, atom: chain[0].atom })
    }
}

/// The operand chain that the generated guard of a rule consists of.
pub open spec fn guard_chain(
    fields: Seq<Field>,
    rule: AccessRule,
    before: Seq<char>,
    after: Option<Seq<char>>,
) -> Seq<Link>
    decreases rule,
{
    match rule {
        AccessRule::Public => seq![Link { or: false, atom: Atom::Literal { value: true } }],
        AccessRule::Authenticated => seq![Link { or: false, atom: Atom::Authenticated }],
        AccessRule::Role { role } => seq![Link { or: false, atom: Atom::HasRole { role: role@ } }],
        AccessRule::Owner { field } => match find_field(fields, field@) {
            Some(f) => match ident_result(f.rust_name@) {
                Ok(name) => seq![Link { or: false, atom: Atom::Owns { field: f.id@, name, nullable: f.nullable, before, after } }],
                Err(_) => Seq::<Link>::empty(),
            },
            None => Seq::<Link>::empty(),
        },
        AccessRule::Any { rules } => seq![Link { or: false, atom: Atom::Literal { value: false } }]
            + chain_tail(fields, rules@, true, before, after),
        AccessRule::All { rules } => seq![Link { or: false, atom: Atom::Literal { value: true } }]
            + chain_tail(fields, rules@, false, before, after),
    }
}

pub open spec fn chain_tail(
    fields: Seq<Field>,
    rules: Seq<AccessRule>,
    or: bool,
    before: Seq<char>,
    after: Option<Seq<char>>,
) -> Seq<Link>
    decreases rules,
{
    if rules.len() == 0 {
        Seq::<Link>::empty()
    } else {
        chain_tail(fields, rules.subrange(0, rules.len() - 1), or, before, after)
            + relink(or, guard_chain(fields, rules[rules.len() - 1], before, after))
    }
}

/// The value of one operand at run time. `value(variable, field)` is the owner
/// id stored in that field of the record held by that variable.
pub open spec fn eval_atom(
    atom: Atom,
    actor: Option<Actor>,
    value: spec_fn(Seq<char>, Seq<char>) -> Option<int>,
) -> bool {
    match atom {
        Atom::Literal { value: v } => v,
        Atom::Authenticated => actor is Some,
        Atom::HasRole { role } => actor is Some && actor->0.roles.contains(role),
        Atom::Owns { field, name, nullable, before, after } => actor is Some
            && value(before, field) == Some(actor->0.id)
            && match after {
                Some(after) => value(after, field) == Some(actor->0.id),
                None => true,
            },
    }
}

/// Rust's evaluation of `... || ... && ...`: `acc` is the disjunction of the
/// finished `&&` groups and `cur` the group being built.
pub open spec fn eval_from(
    acc: bool,
    cur: bool,
    links: Seq<Link>,
    actor: Option<Actor>,
    value: spec_fn(Seq<char>, Seq<char>) -> Option<int>,
) -> bool
    decreases links.len(),
{
    if links.len() == 0 {
        acc || cur
    } else {
        let v = eval_atom(links[0].atom, actor, value);
        if links[0].or {
            eval_from(acc || cur, v, links.drop_first(), actor, value)
        } else {
            eval_from(acc, cur && v, links.drop_first(), actor, value)
        }
    }
}

pub open spec fn eval_chain(
    chain: Seq<Link>,
    actor: Option<Actor>,
    value: spec_fn(Seq<char>, Seq<char>) -> Option<int>,
) -> bool {
    if chain.len() == 0 {
        false
    } else {
        eval_from(false, eval_atom(chain[0].atom, actor, value), chain.drop_first(), actor, value)
    }
}

/// The ownership that a guard checks: the actor owns the record before the
/// write and, for updates, the candidate after it.
pub open spec fn owns_records(
    value: spec_fn(Seq<char>, Seq<char>) -> Option<int>,
    before: Seq<char>,
    after: Option<Seq<char>>,
) -> spec_fn(Actor, Seq<char>) -> bool {
    |actor: Actor, field: Seq<char>| value(before, field) == Some(actor.id) && match after {
        Some(after) => value(after, field) == Some(actor.id),
        None => true,
    }
}

/// No `Any` rule anywhere in the rule.
pub open spec fn any_free(rule: AccessRule) -> bool
    decreases rule,
{
    match rule {
        AccessRule::Any { rules } => false,
        AccessRule::All { rules } => all_any_free(rules@),
        _ => true,
    }
}

pub open spec fn all_any_free(rules: Seq<AccessRule>) -> bool
    decreases rules,
{
    if rules.len() == 0 {
        true
    } else {
        all_any_free(rules.subrange(0, rules.len() - 1)) && any_free(rules[rules.len() - 1])
    }
}

/// No `Any` rule stands below an `All` rule: the rules whose ungrouped guard
/// text Rust reads as the rule means.
pub open spec fn grouping_safe(rule: AccessRule) -> bool
    decreases rule,
{
    match rule {
        AccessRule::Any { rules } => all_grouping_safe(rules@),
        AccessRule::All { rules } => all_any_free(rules@),
        _ => true,
    }
}

pub open spec fn all_grouping_safe(rules: Seq<AccessRule>) -> bool
    decreases rules,
{
    if rules.len() == 0 {
        true
    } else {
        all_grouping_safe(rules.subrange(0, rules.len() - 1)) && grouping_safe(rules[rules.len() - 1])
    }
}

/// Every operator of the links is `&&`.
pub open spec fn and_only(links: Seq<Link>) -> bool {
    forall|i: int| 0 <= i < links.len() ==> !(#[trigger] links[i]).or
}

/// The conjunction of the operands.
pub open spec fn and_eval(
    links: Seq<Link>,
    actor: Option<Actor>,
    value: spec_fn(Seq<char>, Seq<char>) -> Option<int>,
) -> bool
    decreases links.len(),
{
    if links.len() == 0 {
        true
    } else {
        eval_atom(links[0].atom, actor, value) && and_eval(links.drop_first(), actor, value)
    }
}

pub open spec fn or_led(links: Seq<Link>) -> bool {
    links.len() == 0 || links[0].or
}

proof fn lemma_links_text_concat(a: Seq<Link>, b: Seq<Link>)
    ensures
        links_text(a + b) == links_text(a) + links_text(b),
    decreases b.len(),
{
    if b.len() == 0 {
        assert(a + b == a);
    } else {
        assert((a + b).drop_last() == a + b.drop_last());
        assert((a + b).last() == b.last());
        lemma_links_text_concat(a, b.drop_last());
    }
}

proof fn lemma_links_text_cons(link: Link, rest: Seq<Link>)
    ensures
        links_text(seq![link] + rest) == link_text(link) + links_text(rest),
{
    lemma_links_text_concat(seq![link], rest);
    assert(seq![link].drop_last() == Seq::<Link>::empty());
    assert(seq![link].last() == link);
    assert(links_text(Seq::<Link>::empty()) == Seq::<char>::empty());
    assert(links_text(seq![link]) == links_text(seq![link].drop_last()) + link_text(seq![link].last()));
    assert(Seq::<char>::empty() + link_text(link) == link_text(link));
}

proof fn lemma_acc(acc: bool, cur: bool, links: Seq<Link>, actor: Option<Actor>, value: spec_fn(Seq<char>, Seq<char>) -> Option<int>)
    ensures
        eval_from(acc, cur, links, actor, value) == (acc || eval_from(false, cur, links, actor, value)),
    decreases links.len(),
{
    if links.len() > 0 {
        let v = eval_atom(links[0].atom, actor, value);
        if links[0].or {
            lemma_acc(acc || cur, v, links.drop_first(), actor, value);
            lemma_acc(cur, v, links.drop_first(), actor, value);
        } else {
            lemma_acc(acc, cur && v, links.drop_first(), actor, value);
        }
    }
}

proof fn lemma_or_group(acc: bool, cur: bool, tail: Seq<Link>, rest: Seq<Link>, actor: Option<Actor>, value: spec_fn(Seq<char>, Seq<char>) -> Option<int>)
    requires
        or_led(rest),
    ensures
        eval_from(acc, cur, tail + rest, actor, value)
            == eval_from(acc || eval_from(false, cur, tail, actor, value), false, rest, actor, value),
    decreases tail.len(),
{
    if tail.len() == 0 {
        assert(tail + rest == rest);
        if rest.len() > 0 {
            let v = eval_atom(rest[0].atom, actor, value);
            assert(eval_from(acc || cur, false, rest, actor, value) == eval_from(acc || cur, v, rest.drop_first(), actor, value));
        }
    } else {
        let v = eval_atom(tail[0].atom, actor, value);
        assert((tail + rest).drop_first() == tail.drop_first() + rest);
        assert((tail + rest)[0] == tail[0]);
        if tail[0].or {
            lemma_or_group(acc || cur, v, tail.drop_first(), rest, actor, value);
            lemma_acc(cur, v, tail.drop_first(), actor, value);
        } else {
            lemma_or_group(acc, cur && v, tail.drop_first(), rest, actor, value);
        }
    }
}

proof fn lemma_and_group(acc: bool, cur: bool, tail: Seq<Link>, rest: Seq<Link>, actor: Option<Actor>, value: spec_fn(Seq<char>, Seq<char>) -> Option<int>)
    requires
        and_only(tail),
    ensures
        eval_from(acc, cur, tail + rest, actor, value)
            == eval_from(acc, cur && and_eval(tail, actor, value), rest, actor, value),
    decreases tail.len(),
{
    if tail.len() == 0 {
        assert(tail + rest == rest);
    } else {
        let v = eval_atom(tail[0].atom, actor, value);
        assert((tail + rest).drop_first() == tail.drop_first() + rest);
        assert((tail + rest)[0] == tail[0]);
        assert(!tail[0].or);
        assert(and_only(tail.drop_first())) by {
            assert forall|i: int| 0 <= i < tail.drop_first().len() implies !(#[trigger] tail.drop_first()[i]).or by {
                assert(tail.drop_first()[i] == tail[i + 1]);
            }
        }
        lemma_and_group(acc, cur && v, tail.drop_first(), rest, actor, value);
    }
}

/// Splicing a chain after `||` adds its value as one more disjunct.
proof fn lemma_or_splice(acc: bool, cur: bool, chain: Seq<Link>, rest: Seq<Link>, actor: Option<Actor>, value: spec_fn(Seq<char>, Seq<char>) -> Option<int>)
    requires
        chain.len() > 0,
        or_led(rest),
    ensures
        eval_from(acc, cur, relink(true, chain) + rest, actor, value)
            == eval_from(acc || cur || eval_chain(chain, actor, value), false, rest, actor, value),
{
    let linked = relink(true, chain);
    let v = eval_atom(chain[0].atom, actor, value);
    assert((linked + rest)[0] == linked[0]);
    assert((linked + rest).drop_first() == chain.drop_first() + rest);
    lemma_or_group(acc || cur, v, chain.drop_first(), rest, actor, value);
}

/// Splicing an `&&`-only chain after `&&` conjoins its value.
proof fn lemma_and_splice(acc: bool, cur: bool, chain: Seq<Link>, rest: Seq<Link>, actor: Option<Actor>, value: spec_fn(Seq<char>, Seq<char>) -> Option<int>)
    requires
        chain.len() > 0,
        and_only(chain.drop_first()),
    ensures
        eval_from(acc, cur, relink(false, chain) + rest, actor, value)
            == eval_from(acc, cur && eval_chain(chain, actor, value), rest, actor, value),
{
    let linked = relink(false, chain);
    let v = eval_atom(chain[0].atom, actor, value);
    assert((linked + rest)[0] == linked[0]);
    assert((linked + rest).drop_first() == chain.drop_first() + rest);
    lemma_and_group(acc, cur && v, chain.drop_first(), rest, actor, value);
    lemma_and_group(false, v, chain.drop_first(), Seq::<Link>::empty(), actor, value);
    assert(chain.drop_first() + Seq::<Link>::empty() == chain.drop_first());
}


proof fn lemma_find_field_id(fields: Seq<Field>, id: Seq<char>)
    ensures
        find_field(fields, id) matches Some(f) ==> f.id@ == id,
    decreases fields.len(),
{
    if fields.len() > 0 && fields[0].id@ != id {
        lemma_find_field_id(fields.drop_first(), id);
    }
}

proof fn lemma_relink_split(or: bool, chain: Seq<Link>)
    requires
        chain.len() > 0,
    ensures
        relink(or, chain) == seq![Link { or, atom: chain[0].atom }] + chain.drop_first(),
        relink(or, chain).len() == chain.len(),
        relink(or, chain)[0] == (Link { or, atom: chain[0].atom }),
        relink(or, chain).drop_first() == chain.drop_first(),
{
    assert(relink(or, chain) =~= seq![Link { or, atom: chain[0].atom }] + chain.drop_first());
}

proof fn lemma_guard_text(fields: Seq<Field>, rule: AccessRule, before: Seq<char>, after: Option<Seq<char>>)
    requires
        guard_error(fields, rule) is None,
    ensures
        guard_chain(fields, rule, before, after).len() > 0,
        chain_text(guard_chain(fields, rule, before, after)) == guard_text(fields, rule, before, after),
    decreases rule,
{
    let chain = guard_chain(fields, rule, before, after);
    match rule {
        AccessRule::Any { rules } => {
            let tail = chain_tail(fields, rules@, true, before, after);
            assert(chain.drop_first() == tail);
            lemma_tail_text(fields, rules@, true, before, after);
        },
        AccessRule::All { rules } => {
            let tail = chain_tail(fields, rules@, false, before, after);
            assert(chain.drop_first() == tail);
            lemma_tail_text(fields, rules@, false, before, after);
        },
        _ => {
            assert(chain.drop_first() == Seq::<Link>::empty());
            assert(links_text(Seq::<Link>::empty()) == Seq::<char>::empty());
            assert(chain_text(chain) == atom_text(chain[0].atom) + Seq::<char>::empty());
            assert(atom_text(chain[0].atom) + Seq::<char>::empty() == atom_text(chain[0].atom));
        },
    }
}

proof fn lemma_tail_text(fields: Seq<Field>, rules: Seq<AccessRule>, or: bool, before: Seq<char>, after: Option<Seq<char>>)
    requires
        guard_errors(fields, rules) is None,
    ensures
        links_text(chain_tail(fields, rules, or, before, after)) == guard_tail(
            fields,
            rules,
            if or {
                " || "@
            } else {
                " && "@
            },
            before,
            after,
        ),
    decreases rules,
{
    if rules.len() > 0 {
        let init = rules.subrange(0, rules.len() - 1);
        let last = rules[rules.len() - 1];
        let op = if or {
            " || "@
        } else {
            " && "@
        };
        lemma_tail_text(fields, init, or, before, after);
        lemma_guard_text(fields, last, before, after);
        let c = guard_chain(fields, last, before, after);
        lemma_relink_split(or, c);
        lemma_links_text_concat(chain_tail(fields, init, or, before, after), relink(or, c));
        lemma_links_text_cons(Link { or, atom: c[0].atom }, c.drop_first());
        assert(link_text(Link { or, atom: c[0].atom }) == op + atom_text(c[0].atom));
        let a = guard_tail(fields, init, op, before, after);
        assert(a + (op + atom_text(c[0].atom) + links_text(c.drop_first())) =~= a + op + (atom_text(c[0].atom) + links_text(c.drop_first())));
    }
}

proof fn lemma_any_free_safe(rule: AccessRule)
    requires
        any_free(rule),
    ensures
        grouping_safe(rule),
    decreases rule,
{
    match rule {
        AccessRule::All { rules } => {},
        _ => {},
    }
}

proof fn lemma_any_free_and_only(fields: Seq<Field>, rule: AccessRule, before: Seq<char>, after: Option<Seq<char>>)
    requires
        any_free(rule),
        guard_error(fields, rule) is None,
    ensures
        and_only(guard_chain(fields, rule, before, after).drop_first()),
    decreases rule,
{
    lemma_guard_text(fields, rule, before, after);
    let chain = guard_chain(fields, rule, before, after);
    match rule {
        AccessRule::All { rules } => {
            assert(chain.drop_first() == chain_tail(fields, rules@, false, before, after));
            lemma_tail_and_only(fields, rules@, before, after);
        },
        _ => {
            assert(chain.drop_first().len() == 0);
        },
    }
}

proof fn lemma_tail_and_only(fields: Seq<Field>, rules: Seq<AccessRule>, before: Seq<char>, after: Option<Seq<char>>)
    requires
        all_any_free(rules),
        guard_errors(fields, rules) is None,
    ensures
        and_only(chain_tail(fields, rules, false, before, after)),
    decreases rules,
{
    if rules.len() > 0 {
        let init = rules.subrange(0, rules.len() - 1);
        let last = rules[rules.len() - 1];
        lemma_tail_and_only(fields, init, before, after);
        lemma_any_free_and_only(fields, last, before, after);
        lemma_guard_text(fields, last, before, after);
        let c = guard_chain(fields, last, before, after);
        lemma_relink_split(false, c);
        let a = chain_tail(fields, init, false, before, after);
        let b = relink(false, c);
        assert forall|i: int| 0 <= i < (a + b).len() implies !(#[trigger] (a + b)[i]).or by {
            if i < a.len() {
                assert((a + b)[i] == a[i]);
            } else if i == a.len() {
                assert((a + b)[i] == b[0]);
            } else {
                assert((a + b)[i] == b[i - a.len()]);
                assert(b[i - a.len()] == c.drop_first()[i - a.len() - 1]);
            }
        }
    }
}

proof fn lemma_guard_eval(
    fields: Seq<Field>,
    rule: AccessRule,
    before: Seq<char>,
    after: Option<Seq<char>>,
    actor: Option<Actor>,
    value: spec_fn(Seq<char>, Seq<char>) -> Option<int>,
)
    requires
        guard_error(fields, rule) is None,
        grouping_safe(rule),
    ensures
        eval_chain(guard_chain(fields, rule, before, after), actor, value)
            == allows(rule, actor, owns_records(value, before, after)),
    decreases rule,
{
    lemma_guard_text(fields, rule, before, after);
    let chain = guard_chain(fields, rule, before, after);
    match rule {
        AccessRule::Owner { field } => {
            lemma_find_field_id(fields, field@);
        },
        AccessRule::Any { rules } => {
            let tail = chain_tail(fields, rules@, true, before, after);
            assert(chain.drop_first() == tail);
            assert(tail + Seq::<Link>::empty() == tail);
            lemma_any_tail_eval(fields, rules@, false, Seq::<Link>::empty(), before, after, actor, value);
        },
        AccessRule::All { rules } => {
            let tail = chain_tail(fields, rules@, false, before, after);
            assert(chain.drop_first() == tail);
            assert(tail + Seq::<Link>::empty() == tail);
            lemma_all_tail_eval(fields, rules@, false, true, Seq::<Link>::empty(), before, after, actor, value);
        },
        _ => {},
    }
}

proof fn lemma_any_tail_eval(
    fields: Seq<Field>,
    rules: Seq<AccessRule>,
    acc: bool,
    rest: Seq<Link>,
    before: Seq<char>,
    after: Option<Seq<char>>,
    actor: Option<Actor>,
    value: spec_fn(Seq<char>, Seq<char>) -> Option<int>,
)
    requires
        guard_errors(fields, rules) is None,
        all_grouping_safe(rules),
        or_led(rest),
    ensures
        eval_from(acc, false, chain_tail(fields, rules, true, before, after) + rest, actor, value)
            == eval_from(acc || any_allows(rules, actor, owns_records(value, before, after)), false, rest, actor, value),
    decreases rules,
{
    if rules.len() == 0 {
        assert(chain_tail(fields, rules, true, before, after) + rest == rest);
    } else {
        let init = rules.subrange(0, rules.len() - 1);
        let last = rules[rules.len() - 1];
        let a = chain_tail(fields, init, true, before, after);
        let c = guard_chain(fields, last, before, after);
        lemma_guard_text(fields, last, before, after);
        lemma_guard_eval(fields, last, before, after, actor, value);
        lemma_relink_split(true, c);
        let b = relink(true, c);
        assert(a + b + rest == a + (b + rest));
        lemma_any_tail_eval(fields, init, acc, b + rest, before, after, actor, value);
        lemma_or_splice(acc || any_allows(init, actor, owns_records(value, before, after)), false, c, rest, actor, value);
    }
}

proof fn lemma_all_tail_eval(
    fields: Seq<Field>,
    rules: Seq<AccessRule>,
    acc: bool,
    cur: bool,
    rest: Seq<Link>,
    before: Seq<char>,
    after: Option<Seq<char>>,
    actor: Option<Actor>,
    value: spec_fn(Seq<char>, Seq<char>) -> Option<int>,
)
    requires
        guard_errors(fields, rules) is None,
        all_any_free(rules),
    ensures
        eval_from(acc, cur, chain_tail(fields, rules, false, before, after) + rest, actor, value)
            == eval_from(acc, cur && all_allow(rules, actor, owns_records(value, before, after)), rest, actor, value),
    decreases rules,
{
    if rules.len() == 0 {
        assert(chain_tail(fields, rules, false, before, after) + rest == rest);
    } else {
        let init = rules.subrange(0, rules.len() - 1);
        let last = rules[rules.len() - 1];
        let a = chain_tail(fields, init, false, before, after);
        let c = guard_chain(fields, last, before, after);
        lemma_guard_text(fields, last, before, after);
        lemma_any_free_safe(last);
        lemma_guard_eval(fields, last, before, after, actor, value);
        lemma_any_free_and_only(fields, last, before, after);
        let b = relink(false, c);
        assert(a + b + rest == a + (b + rest));
        lemma_all_tail_eval(fields, init, acc, cur, b + rest, before, after, actor, value);
        lemma_and_splice(acc, cur && all_allow(init, actor, owns_records(value, before, after)), c, rest, actor, value);
    }
}

/// Law: the guard text that `allowed` generates for a rule is an operand chain
/// whose value under Rust's precedence is the rule's verdict, for every actor
/// and record state, when the rule has no `Any` below an `All` (the generated
/// text does not group nested rules) and the guard could be generated.
pub proof fn law_guard_matches_policy(
    fields: Seq<Field>,
    rule: AccessRule,
    before: Seq<char>,
    after: Option<Seq<char>>,
    actor: Option<Actor>,
    value: spec_fn(Seq<char>, Seq<char>) -> Option<int>,
)
    requires
        guard_error(fields, rule) is None,
        grouping_safe(rule),
    ensures
        guard_text(fields, rule, before, after) == chain_text(guard_chain(fields, rule, before, after)),
        eval_chain(guard_chain(fields, rule, before, after), actor, value)
            == allows(rule, actor, owns_records(value, before, after)),
{
    lemma_guard_text(fields, rule, before, after);
    lemma_guard_eval(fields, rule, before, after, actor, value);
}

} // verus!
