use vstd::prelude::*;
use vstd::string::StringExecFns;
use crate::ir::{AppIr, BillingPlan};
use crate::naming::{escape, escape_text};
use crate::text::push_char;

verus! {

broadcast use vstd::string::group_string_axioms;

/// The decimal digits of a number.
pub open spec fn decimal_text(n: nat) -> Seq<char>
    decreases n,
{
    if n < 10 {
        seq![(48 + n) as char]
    } else {
        decimal_text(n / 10) + seq![(48 + n % 10) as char]
    }
}

pub fn decimal(n: u64) -> (text: String)
    ensures
        text@ == decimal_text(n as nat),
    decreases n,
{
    let digit = ((n % 10) as u8 + 48u8) as char;
    if n < 10 {
        let mut text = String::new();
        push_char(&mut text, digit);
        text
    } else {
        let mut text = decimal(n / 10);
        push_char(&mut text, digit);
        text
    }
}

/// Items joined by a separator.
pub open spec fn join_text(items: Seq<Seq<char>>, separator: Seq<char>) -> Seq<char>
    decreases items.len(),
{
    if items.len() == 0 {
        Seq::<char>::empty()
    } else if items.len() == 1 {
        items[0]
    } else {
        join_text(items.drop_last(), separator) + separator + items.last()
    }
}

/// `"value"` for each entitlement, unescaped, joined by `, `.
pub open spec fn entitlements_text(values: Seq<String>) -> Seq<char> {
    join_text(values.map_values(|value: String| "\""@ + value@ + "\""@), ", "@)
}

pub open spec fn trial_days_text(days: Option<u32>) -> Seq<char> {
    match days {
        Some(days) => "Some("@ + decimal_text(days as nat) + ")"@,
        None => "None"@,
    }
}

/// The Rust literal of one billing plan.
pub open spec fn plan_text(plan: BillingPlan) -> Seq<char> {
    "Plan { id: \""@ + escape_text(plan.id@) + "\", price_env: \""@ + escape_text(plan.price_env@)
        + "\", trial_days: "@ + trial_days_text(plan.trial_days) + ", entitlements: &["@
        + entitlements_text(plan.entitlements@) + "] }"@
}

/// The plan literals, one per line.
pub open spec fn plans_text(plans: Seq<BillingPlan>) -> Seq<char> {
    join_text(plans.map_values(|plan: BillingPlan| plan_text(plan)), ",\n    "@)
}

proof fn lemma_join_push(items: Seq<Seq<char>>, item: Seq<char>, separator: Seq<char>)
    ensures
        join_text(items.push(item), separator) == if items.len() == 0 {
            item
        } else {
            join_text(items, separator) + separator + item
        },
{
    assert(items.push(item).drop_last() == items);
}

fn entitlements(values: &Vec<String>) -> (text: String)
    ensures
        text@ == entitlements_text(values@),
{
    let mut text = String::new();
    let mut i: usize = 0;
    while i < values.len()
        invariant
            i <= values.len(),
            text@ == join_text(values@.subrange(0, i as int).map_values(|value: String| "\""@ + value@ + "\""@), ", "@),
        decreases values.len() - i,
    {
        let ghost done = values@.subrange(0, i as int).map_values(|value: String| "\""@ + value@ + "\""@);
        proof {
            assert(values@.subrange(0, i + 1).map_values(|value: String| "\""@ + value@ + "\""@)
                == done.push("\""@ + values@[i as int]@ + "\""@));
            lemma_join_push(done, "\""@ + values@[i as int]@ + "\""@, ", "@);
        }
        if i > 0 {
            text.append(", ");
        }
        text.append("\"");
        text.append(values[i].as_str());
        text.append("\"");
        i = i + 1;
    }
    proof {
        assert(values@.subrange(0, values@.len() as int) == values@);
    }
    text
}

/// The Rust literal of one billing plan.
pub fn plan_literal(plan: &BillingPlan) -> (text: String)
    ensures
        text@ == plan_text(*plan),
{
    let mut text = String::from_str("Plan { id: \"");
    let id = escape(plan.id.as_str());
    text.append(id.as_str());
    text.append("\", price_env: \"");
    let price_env = escape(plan.price_env.as_str());
    text.append(price_env.as_str());
    text.append("\", trial_days: ");
    match plan.trial_days {
        Some(days) => {
            text.append("Some(");
            let digits = decimal(days as u64);
            text.append(digits.as_str());
            text.append(")");
        },
        None => text.append("None"),
    }
    text.append(", entitlements: &[");
    let values = entitlements(&plan.entitlements);
    text.append(values.as_str());
    text.append("] }");
    text
}

/// The plan literals of the billing configuration, joined by `,\n    `.
pub fn plans_source(plans: &Vec<BillingPlan>) -> (text: String)
    ensures
        text@ == plans_text(plans@),
{
    let mut text = String::new();
    let mut i: usize = 0;
    while i < plans.len()
        invariant
            i <= plans.len(),
            text@ == join_text(plans@.subrange(0, i as int).map_values(|plan: BillingPlan| plan_text(plan)), ",\n    "@),
        decreases plans.len() - i,
    {
        let ghost done = plans@.subrange(0, i as int).map_values(|plan: BillingPlan| plan_text(plan));
        proof {
            assert(plans@.subrange(0, i + 1).map_values(|plan: BillingPlan| plan_text(plan))
                == done.push(plan_text(plans@[i as int])));
            lemma_join_push(done, plan_text(plans@[i as int]), ",\n    "@);
        }
        if i > 0 {
            text.append(",\n    ");
        }
        let literal = plan_literal(&plans[i]);
        text.append(literal.as_str());
        i = i + 1;
    }
    proof {
        assert(plans@.subrange(0, plans@.len() as int) == plans@);
    }
    text
}

/// Every occurrence of `pattern`, scanned from the left without overlaps,
/// replaced by `replacement` (`str::replace` for a non-empty pattern).
pub open spec fn replace_text(text: Seq<char>, pattern: Seq<char>, replacement: Seq<char>) -> Seq<char>
    decreases text.len(),
{
    if text.len() == 0 {
        text
    } else if pattern.len() > 0 && pattern.len() <= text.len() && text.take(pattern.len() as int) == pattern {
        replacement + replace_text(text.skip(pattern.len() as int), pattern, replacement)
    } else {
        seq![text[0]] + replace_text(text.skip(1), pattern, replacement)
    }
}

fn chars_of(text: &str) -> (chars: Vec<char>)
    ensures
        chars@ == text@,
{
    let mut chars: Vec<char> = Vec::new();
    for c in iter: text.chars()
        invariant
            iter.seq() == text@,
            chars@ == text@.subrange(0, iter.index() as int),
    {
        chars.push(c);
        proof {
            assert(text@.subrange(0, iter.index() + 1) == text@.subrange(0, iter.index() as int).push(c));
        }
    }
    proof {
        assert(text@.subrange(0, text@.len() as int) == text@);
    }
    chars
}

fn matches_at(text: &Vec<char>, pattern: &Vec<char>, at: usize) -> (result: bool)
    requires
        at <= text.len(),
    ensures
        result == (pattern.len() <= text.len() - at && text@.skip(at as int).take(pattern.len() as int) == pattern@),
{
    if pattern.len() > text.len() - at {
        return false;
    }
    let mut j: usize = 0;
    while j < pattern.len()
        invariant
            pattern.len() <= text.len() - at,
            j <= pattern.len(),
            forall|k: int| 0 <= k < j ==> text@[at + k] == pattern@[k],
        decreases pattern.len() - j,
    {
        if text[at + j] != pattern[j] {
            proof {
                assert(text@.skip(at as int).take(pattern.len() as int)[j as int] != pattern@[j as int]);
            }
            return false;
        }
        j = j + 1;
    }
    proof {
        assert(text@.skip(at as int).take(pattern.len() as int) =~= pattern@);
    }
    true
}

/// Replaces every occurrence of a non-empty pattern.
pub fn replace(text: &str, pattern: &str, replacement: &str) -> (output: String)
    ensures
        output@ == replace_text(text@, pattern@, replacement@),
{
    let chars = chars_of(text);
    let pat = chars_of(pattern);
    let mut output = String::new();
    let mut i: usize = 0;
    proof {
        assert(text@.skip(0) == text@);
        assert(output@ + replace_text(text@, pattern@, replacement@) == replace_text(text@, pattern@, replacement@));
    }
    while i < chars.len()
        invariant
            i <= chars.len(),
            chars@ == text@,
            pat@ == pattern@,
            output@ + replace_text(text@.skip(i as int), pattern@, replacement@) == replace_text(text@, pattern@, replacement@),
        decreases chars.len() - i,
    {
        let ghost rest = text@.skip(i as int);
        if pat.len() > 0 && matches_at(&chars, &pat, i) {
            proof {
                assert(rest.skip(pattern@.len() as int) == text@.skip(i + pattern@.len()));
                assert(output@ + replacement@ + replace_text(rest.skip(pattern@.len() as int), pattern@, replacement@)
                    == output@ + (replacement@ + replace_text(rest.skip(pattern@.len() as int), pattern@, replacement@)));
            }
            output.append(replacement);
            i = i + pat.len();
        } else {
            proof {
                assert(rest.skip(1) == text@.skip(i + 1));
                assert(rest[0] == chars@[i as int]);
                assert(output@.push(chars@[i as int]) + replace_text(rest.skip(1), pattern@, replacement@)
                    == output@ + (seq![rest[0]] + replace_text(rest.skip(1), pattern@, replacement@)));
            }
            push_char(&mut output, chars[i]);
            i = i + 1;
        }
    }
    proof {
        assert(text@.skip(i as int).len() == 0);
        assert(output@ + Seq::<char>::empty() == output@);
    }
    output
}

pub open spec fn flag_text(flag: bool) -> Seq<char> {
    if flag {
        "true"@
    } else {
        "false"@
    }
}

/// The billing module's source: the enabled template with its plans, trials
/// and customer-portal markers filled in, or the disabled template.
pub open spec fn billing_text(ir: AppIr, template: Seq<char>, disabled_template: Seq<char>) -> Seq<char> {
    if ir.billing.enabled {
        replace_text(
            replace_text(
                replace_text(template, "__PLANS__"@, plans_text(ir.billing.plans@)),
                "__TRIALS__"@,
                flag_text(ir.billing.trials),
            ),
            "__CUSTOMER_PORTAL__"@,
            flag_text(ir.billing.customer_portal),
        )
    } else {
        disabled_template
    }
}

pub fn billing_source(ir: &AppIr, template: &str, disabled_template: &str) -> (source: String)
    ensures
        source@ == billing_text(*ir, template@, disabled_template@),
{
    if ir.billing.enabled {
        let plans = plans_source(&ir.billing.plans);
        let with_plans = replace(template, "__PLANS__", plans.as_str());
        let trials = if ir.billing.trials {
            "true"
        } else {
            "false"
        };
        let with_trials = replace(with_plans.as_str(), "__TRIALS__", trials);
        let portal = if ir.billing.customer_portal {
            "true"
        } else {
            "false"
        };
        replace(with_trials.as_str(), "__CUSTOMER_PORTAL__", portal)
    } else {
        disabled_template.to_owned()
    }
}

} // verus!
