use vstd::prelude::*;
use vstd::string::StringExecFns;
use crate::artifact::CodegenError;
use crate::billing::{decimal, decimal_text};
use crate::field_access::{literal_text, string_literal};
use crate::fields::{is_copy_type, is_writable, texts, writable_fields, copy_type};
use crate::ident::{ident_result, parse_ident};
use crate::ir::{Entity, Field, FieldType, GeneratedValue};
use crate::source::{push_sign_marker, sign_marker};

verus! {

broadcast use vstd::string::group_string_axioms;

pub open spec fn is_digit(c: char) -> bool {
    '0' <= c && c <= '9'
}

pub open spec fn all_digits(digits: Seq<char>) -> bool {
    forall|i: int| 0 <= i < digits.len() ==> is_digit(#[trigger] digits[i])
}

/// The number that decimal digits denote.
pub open spec fn digits_value(digits: Seq<char>) -> nat
    decreases digits.len(),
{
    if digits.len() == 0 {
        0
    } else {
        digits_value(digits.drop_last()) * 10 + ((digits.last() as u32) - 48) as nat
    }
}

/// An integer as `str::parse` reads it: an optional `+` or `-`, then one or
/// more decimal digits, nothing else.
pub open spec fn integer_value(text: Seq<char>) -> Option<int> {
    if text.len() > 0 && (text[0] == '+' || text[0] == '-') {
        let digits = text.skip(1);
        if digits.len() > 0 && all_digits(digits) {
            Some(if text[0] == '-' {
                -(digits_value(digits) as int)
            } else {
                digits_value(digits) as int
            })
        } else {
            None
        }
    } else if text.len() > 0 && all_digits(text) {
        Some(digits_value(text) as int)
    } else {
        None
    }
}

/// The value of a text that `parse` reads into an integer type whose values
/// lie in `[-bound, bound)`.
pub open spec fn bounded_value(text: Seq<char>, bound: int) -> Option<int> {
    match integer_value(text) {
        Some(v) => if -bound <= v < bound {
            Some(v)
        } else {
            None
        },
        None => None,
    }
}

proof fn lemma_digits_prefix(digits: Seq<char>, k: int)
    requires
        0 <= k <= digits.len(),
        all_digits(digits),
    ensures
        digits_value(digits.take(k)) <= digits_value(digits),
    decreases digits.len() - k,
{
    if k < digits.len() {
        lemma_digits_prefix(digits, k + 1);
        assert(digits.take(k + 1).drop_last() == digits.take(k));
        assert(is_digit(digits[k]));
    } else {
        assert(digits.take(k) == digits);
    }
}

/// Reads a decimal integer whose magnitude is at most `limit_positive`, or
/// `limit_positive + 1` when negative.
pub(crate) fn parse_integer(text: &str, limit_positive: u64) -> (result: Option<(bool, u64)>)
    requires
        9 <= limit_positive < u64::MAX,
    ensures
        match result {
            Some((negative, magnitude)) => integer_value(text@) == Some(if negative {
                -(magnitude as int)
            } else {
                magnitude as int
            }) && magnitude <= limit_positive + if negative {
                1int
            } else {
                0int
            },
            None => match integer_value(text@) {
                Some(v) => v > limit_positive || v < -(limit_positive + 1),
                None => true,
            },
        },
{
    let mut chars: Vec<char> = Vec::new();
    for c in iter: text.chars()
        invariant
            iter.seq() == text@,
            chars@ == text@.subrange(0, iter.index() as int),
    {
        chars.push(c);
        proof {
            assert(text@.subrange(0, iter.index() + 1) == text@.subrange(0, iter.index() as int).push(c));
        }
    }
    proof {
        assert(text@.subrange(0, text@.len() as int) == text@);
    }
    if chars.len() == 0 {
        return None;
    }
    let signed = chars[0] == '+' || chars[0] == '-';
    let negative = chars[0] == '-';
    let start: usize = if signed {
        1
    } else {
        0
    };
    let ghost digits = text@.skip(start as int);
    if start >= chars.len() {
        return None;
    }
    let limit: u64 = if negative {
        limit_positive + 1
    } else {
        limit_positive
    };
    proof {
        if !signed {
            assert(digits =~= text@);
        }
        assert(text@[0] == chars@[0]);
        assert(integer_value(text@) == if digits.len() > 0 && all_digits(digits) {
            Some(if negative {
                -(digits_value(digits) as int)
            } else {
                digits_value(digits) as int
            })
        } else {
            None::<int>
        });
    }
    let mut magnitude: u64 = 0;
    let mut i: usize = start;
    while i < chars.len()
        invariant
            chars@ == text@,
            digits == text@.skip(start as int),
            digits.len() == chars.len() - start,
            limit == if negative {
                limit_positive + 1
            } else {
                limit_positive as int
            },
            integer_value(text@) == if digits.len() > 0 && all_digits(digits) {
                Some(if negative {
                    -(digits_value(digits) as int)
                } else {
                    digits_value(digits) as int
                })
            } else {
                None::<int>
            },
            start <= i <= chars.len(),
            start < chars.len(),
            forall|j: int| 0 <= j < i - start ==> is_digit(#[trigger] digits[j]),
            magnitude == digits_value(digits.take(i - start)),
            magnitude <= limit,
            9 <= limit,
        decreases chars.len() - i,
    {
        let c = chars[i];
        proof {
            assert(digits[i - start] == c);
            assert(digits.take(i - start + 1).drop_last() == digits.take(i - start));
        }
        if !('0' <= c && c <= '9') {
            proof {
                assert(!is_digit(digits[i - start]));
                assert(!all_digits(digits));
            }
            return None;
        }
        let d = (c as u32 - 48) as u64;
        if magnitude > (limit - d) / 10 {
            proof {
                assert(digits_value(digits.take(i - start + 1)) == magnitude * 10 + d);
                assert(magnitude * 10 + d > limit) by (nonlinear_arith)
                    requires
                        magnitude > (limit - d) / 10,
                        d <= 9,
                        d <= limit,
                ;
                if all_digits(digits) {
                    lemma_digits_prefix(digits, i - start + 1);
                }
            }
            return None;
        }
        proof {
            assert(magnitude * 10 + d <= limit) by (nonlinear_arith)
                requires
                    magnitude <= (limit - d) / 10,
                    d <= limit,
            ;
        }
        magnitude = magnitude * 10 + d;
        i = i + 1;
    }
    proof {
        assert(digits.take(chars.len() - start) == digits);
        assert(all_digits(digits));
    }
    Some((negative, magnitude))
}

/// The literal of an integer with its type suffix; a negative one is its
/// magnitude behind the sign marker, which rendering prints as `-`, so that
/// the file holds the one literal `quote` prints (`-5i32`).
pub open spec fn integer_literal_text(value: int, suffix: Seq<char>) -> Seq<char> {
    if value < 0 {
        sign_marker() + decimal_text((-value) as nat) + suffix
    } else {
        decimal_text(value as nat) + suffix
    }
}

pub(crate) fn integer_literal(negative: bool, magnitude: u64, suffix: &str) -> (text: String)
    ensures
        text@ == integer_literal_text(if negative && magnitude > 0 {
            -(magnitude as int)
        } else {
            magnitude as int
        }, suffix@),
{
    let mut text = String::new();
    if negative && magnitude > 0 {
        push_sign_marker(&mut text);
    }
    let digits = decimal(magnitude);
    text.append(digits.as_str());
    text.append(suffix);
    text
}

/// The field's default is one its type accepts: an integer of the type's
/// range, or `true`/`false` for a boolean. The compiler checks this, and
/// generation stops otherwise.
pub open spec fn default_parses(ty: FieldType, default: Seq<char>) -> bool {
    match ty {
        FieldType::Integer => bounded_value(default, 0x8000_0000) is Some,
        FieldType::Bigint => bounded_value(default, 0x8000_0000_0000_0000) is Some,
        FieldType::Boolean => default == "true"@ || default == "false"@,
        _ => true,
    }
}

/// The expression that builds a field's default value.
pub open spec fn default_text(ty: FieldType, default: Seq<char>) -> Seq<char> {
    match ty {
        FieldType::String | FieldType::Text | FieldType::Enum { .. } => literal_text(default) + ".to_owned()"@,
        FieldType::Integer => integer_literal_text(bounded_value(default, 0x8000_0000)->0, "i32"@),
        FieldType::Bigint => integer_literal_text(bounded_value(default, 0x8000_0000_0000_0000)->0, "i64"@),
        FieldType::Boolean => default,
        FieldType::Decimal => "rust_decimal::Decimal::from_str_exact("@ + literal_text(default)
            + ").expect(\"validated default\")"@,
        FieldType::Uuid | FieldType::Relation { .. } => "uuid::Uuid::parse_str("@ + literal_text(default)
            + ").expect(\"validated default\")"@,
        FieldType::Date => "chrono::NaiveDate::parse_from_str("@ + literal_text(default)
            + ", \"%Y-%m-%d\").expect(\"validated default\")"@,
        FieldType::Datetime => literal_text(default) + ".parse::<chrono::DateTime<chrono::Utc>>().expect(\"validated default\")"@,
        FieldType::Json => "serde_json::from_str("@ + literal_text(default) + ").expect(\"validated default\")"@,
    }
}

pub fn default_expression(field: &Field, default: &str) -> (text: String)
    requires
        default_parses(field.ty, default@),
    ensures
        text@ == default_text(field.ty, default@),
{
    match field.ty {
        FieldType::String | FieldType::Text | FieldType::Enum { .. } => {
            let mut text = string_literal(default);
            text.append(".to_owned()");
            text
        },
        FieldType::Integer => {
            match parse_integer(default, 0x7fff_ffff) {
                Some((negative, magnitude)) => integer_literal(negative, magnitude, "i32"),
                None => {
                    proof {
                        assert(false);
                    }
                    String::new()
                },
            }
        },
        FieldType::Bigint => {
            match parse_integer(default, 0x7fff_ffff_ffff_ffff) {
                Some((negative, magnitude)) => integer_literal(negative, magnitude, "i64"),
                None => {
                    proof {
                        assert(false);
                    }
                    String::new()
                },
            }
        },
        FieldType::Boolean => default.to_owned(),
        FieldType::Decimal => {
            let mut text = String::from_str("rust_decimal::Decimal::from_str_exact(");
            let literal = string_literal(default);
            text.append(literal.as_str());
            text.append(").expect(\"validated default\")");
            text
        },
        FieldType::Uuid | FieldType::Relation { .. } => {
            let mut text = String::from_str("uuid::Uuid::parse_str(");
            let literal = string_literal(default);
            text.append(literal.as_str());
            text.append(").expect(\"validated default\")");
            text
        },
        FieldType::Date => {
            let mut text = String::from_str("chrono::NaiveDate::parse_from_str(");
            let literal = string_literal(default);
            text.append(literal.as_str());
            text.append(", \"%Y-%m-%d\").expect(\"validated default\")");
            text
        },
        FieldType::Datetime => {
            let mut text = string_literal(default);
            text.append(".parse::<chrono::DateTime<chrono::Utc>>().expect(\"validated default\")");
            text
        },
        FieldType::Json => {
            let mut text = String::from_str("serde_json::from_str(");
            let literal = string_literal(default);
            text.append(literal.as_str());
            text.append(").expect(\"validated default\")");
            text
        },
    }
}


/// Creation takes the field's default from the input's fallback.
pub open spec fn default_used(entity: Entity, field: Field) -> bool {
    !entity.spec_is_workflow_field(&field) && field.generated is None && field.default is Some
}

/// Every default that creation uses is one the field's type accepts.
pub open spec fn defaults_parse(entity: Entity) -> bool {
    forall|i: int| 0 <= i < entity.fields@.len() && #[trigger] default_used(entity, entity.fields@[i])
        ==> default_parses(entity.fields@[i].ty, entity.fields@[i].default->0@)
}

/// The value a create handler stores in a field, or `None` for a database
/// sequence.
pub open spec fn create_value_expression(entity: Entity, field: Field, ident: Seq<char>) -> Option<Seq<char>> {
    if entity.spec_is_workflow_field(&field) {
        Some(literal_text(entity.workflow->0.initial@) + ".to_owned()"@)
    } else {
        match field.generated {
            Some(GeneratedValue::UuidV7) => Some("uuid::Uuid::now_v7()"@),
            Some(GeneratedValue::Now) => if field.ty is Date {
                Some("chrono::Utc::now().date_naive()"@)
            } else {
                Some("chrono::Utc::now()"@)
            },
            Some(GeneratedValue::AutoIncrement) => None,
            Some(GeneratedValue::Revision) => Some("1_i64"@),
            Some(GeneratedValue::Tenant) => Some("context.require_tenant()?"@),
            None => match field.default {
                Some(default) => Some("input."@ + ident + ".unwrap_or_else(|| "@ + default_text(field.ty, default@) + ")"@),
                None => if field.write_access is Some && !field.nullable {
                    Some("input."@ + ident + ".ok_or_else(|| ApiError::Validation(vec![FieldViolation { field: "@
                        + literal_text(field.api_name@) + ".to_owned(), message: "@
                        + literal_text("field `"@ + field.api_name@ + "` is required"@)
                        + ".to_owned() }]))?"@)
                } else {
                    Some("input."@ + ident)
                },
            },
        }
    }
}

/// The `field: Set(value)` entry of a create handler's active model.
pub open spec fn create_value_spec(entity: Entity, field: Field) -> Result<Option<Seq<char>>, Seq<char>> {
    match ident_result(field.rust_name@) {
        Ok(ident) => match create_value_expression(entity, field, ident) {
            Some(value) => Ok(Some(ident + ": Set("@ + value + ")"@)),
            None => Ok(None),
        },
        Err(error) => Err(error),
    }
}

pub fn create_value(entity: &Entity, field: &Field) -> (result: Result<Option<String>, CodegenError>)
    requires
        default_used(*entity, *field) ==> default_parses(field.ty, field.default->0@),
    ensures
        match result {
            Ok(Some(text)) => create_value_spec(*entity, *field) == Ok::<Option<Seq<char>>, Seq<char>>(Some(text@)),
            Ok(None) => create_value_spec(*entity, *field) == Ok::<Option<Seq<char>>, Seq<char>>(None),
            Err(error) => create_value_spec(*entity, *field) == Err::<Option<Seq<char>>, Seq<char>>(error@),
        },
{
    let name = parse_ident(field.rust_name.as_str())?;
    let value = if entity.is_workflow_field(field) {
        match &entity.workflow {
            Some(workflow) => {
                let mut text = string_literal(workflow.initial.as_str());
                text.append(".to_owned()");
                text
            },
            None => {
                proof {
                    assert(false);
                }
                String::new()
            },
        }
    } else {
        match field.generated {
            Some(GeneratedValue::UuidV7) => String::from_str("uuid::Uuid::now_v7()"),
            Some(GeneratedValue::Now) => match field.ty {
                FieldType::Date => String::from_str("chrono::Utc::now().date_naive()"),
                _ => String::from_str("chrono::Utc::now()"),
            },
            Some(GeneratedValue::AutoIncrement) => return Ok(None),
            Some(GeneratedValue::Revision) => String::from_str("1_i64"),
            Some(GeneratedValue::Tenant) => String::from_str("context.require_tenant()?"),
            None => match &field.default {
                Some(default) => {
                    let mut text = String::from_str("input.");
                    text.append(name.as_str());
                    text.append(".unwrap_or_else(|| ");
                    let expression = default_expression(field, default.as_str());
                    text.append(expression.as_str());
                    text.append(")");
                    text
                },
                None => if field.write_access.is_some() && !field.nullable {
                    let mut message = String::from_str("field `");
                    message.append(field.api_name.as_str());
                    message.append("` is required");
                    let mut text = String::from_str("input.");
                    text.append(name.as_str());
                    text.append(".ok_or_else(|| ApiError::Validation(vec![FieldViolation { field: ");
                    let field_literal = string_literal(field.api_name.as_str());
                    text.append(field_literal.as_str());
                    text.append(".to_owned(), message: ");
                    let message_literal = string_literal(message.as_str());
                    text.append(message_literal.as_str());
                    text.append(".to_owned() }]))?");
                    text
                } else {
                    let mut text = String::from_str("input.");
                    text.append(name.as_str());
                    text
                },
            },
        }
    };
    let mut entry = name.clone();
    entry.append(": Set(");
    entry.append(value.as_str());
    entry.append(")");
    Ok(Some(entry))
}

/// The entries of every field that creation sets, or the first error.
pub open spec fn create_values_spec(entity: Entity, fields: Seq<Field>) -> Result<Seq<Seq<char>>, Seq<char>>
    decreases fields.len(),
{
    if fields.len() == 0 {
        Ok(Seq::<Seq<char>>::empty())
    } else {
        match create_values_spec(entity, fields.drop_last()) {
            Err(error) => Err(error),
            Ok(values) => match create_value_spec(entity, fields.last()) {
                Ok(Some(value)) => Ok(values.push(value)),
                Ok(None) => Ok(values),
                Err(error) => Err(error),
            },
        }
    }
}

proof fn lemma_create_values_error(entity: Entity, fields: Seq<Field>, k: int)
    requires
        0 <= k <= fields.len(),
        create_values_spec(entity, fields.subrange(0, k)) is Err,
    ensures
        create_values_spec(entity, fields) == create_values_spec(entity, fields.subrange(0, k)),
    decreases fields.len() - k,
{
    if k < fields.len() {
        assert(fields.subrange(0, k + 1).drop_last() == fields.subrange(0, k));
        lemma_create_values_error(entity, fields, k + 1);
    } else {
        assert(fields.subrange(0, k) == fields);
    }
}

pub fn create_values(entity: &Entity) -> (result: Result<Vec<String>, CodegenError>)
    requires
        defaults_parse(*entity),
    ensures
        match result {
            Ok(values) => create_values_spec(*entity, entity.fields@) == Ok::<Seq<Seq<char>>, Seq<char>>(texts(values@)),
            Err(error) => create_values_spec(*entity, entity.fields@) == Err::<Seq<Seq<char>>, Seq<char>>(error@),
        },
{
    let mut values: Vec<String> = Vec::new();
    let mut i: usize = 0;
    proof {
        assert(entity.fields@.subrange(0, 0) == Seq::<Field>::empty());
        assert(texts(values@) == Seq::<Seq<char>>::empty());
    }
    while i < entity.fields.len()
        invariant
            i <= entity.fields.len(),
            defaults_parse(*entity),
            create_values_spec(*entity, entity.fields@.subrange(0, i as int)) == Ok::<Seq<Seq<char>>, Seq<char>>(texts(values@)),
        decreases entity.fields.len() - i,
    {
        proof {
            assert(entity.fields@.subrange(0, i + 1).drop_last() == entity.fields@.subrange(0, i as int));
            assert(default_used(*entity, entity.fields@[i as int]) ==> default_parses(entity.fields@[i as int].ty, entity.fields@[i as int].default->0@));
        }
        match create_value(entity, &entity.fields[i]) {
            Ok(Some(value)) => {
                let ghost before = texts(values@);
                values.push(value);
                proof {
                    assert(texts(values@) == before.push(value@));
                }
            },
            Ok(None) => {},
            Err(error) => {
                proof {
                    lemma_create_values_error(*entity, entity.fields@, i + 1);
                }
                return Err(error);
            },
        }
        i = i + 1;
    }
    proof {
        assert(entity.fields@.subrange(0, entity.fields@.len() as int) == entity.fields@);
    }
    Ok(values)
}

/// The statement that copies one optional input into the active model.
pub open spec fn update_value_text(field: Field, ident: Seq<char>) -> Seq<char> {
    "if let Some(value) = &input."@ + ident + " { active."@ + ident + " = Set("@ + if is_copy_type(field.ty) {
        "*value"@
    } else {
        "value.clone()"@
    } + "); }"@
}

/// The update statements of every field clients write on update, or the
/// first identifier error.
pub open spec fn update_values_spec(fields: Seq<Field>) -> Result<Seq<Seq<char>>, Seq<char>>
    decreases fields.len(),
{
    if fields.len() == 0 {
        Ok(Seq::<Seq<char>>::empty())
    } else {
        match update_values_spec(fields.drop_last()) {
            Err(error) => Err(error),
            Ok(values) => match ident_result(fields.last().rust_name@) {
                Ok(ident) => Ok(values.push(update_value_text(fields.last(), ident))),
                Err(error) => Err(error),
            },
        }
    }
}

proof fn lemma_update_values_error(fields: Seq<Field>, k: int)
    requires
        0 <= k <= fields.len(),
        update_values_spec(fields.subrange(0, k)) is Err,
    ensures
        update_values_spec(fields) == update_values_spec(fields.subrange(0, k)),
    decreases fields.len() - k,
{
    if k < fields.len() {
        assert(fields.subrange(0, k + 1).drop_last() == fields.subrange(0, k));
        lemma_update_values_error(fields, k + 1);
    } else {
        assert(fields.subrange(0, k) == fields);
    }
}

#[verifier::loop_isolation(false)]
pub fn update_values(entity: &Entity) -> (result: Result<Vec<String>, CodegenError>)
    ensures
        match result {
            Ok(values) => update_values_spec(entity.fields@.filter(|f: Field| is_writable(*entity, f, true)))
                == Ok::<Seq<Seq<char>>, Seq<char>>(texts(values@)),
            Err(error) => update_values_spec(entity.fields@.filter(|f: Field| is_writable(*entity, f, true)))
                == Err::<Seq<Seq<char>>, Seq<char>>(error@),
        },
{
    let fields = writable_fields(entity, true);
    let ghost writable = entity.fields@.filter(|f: Field| is_writable(*entity, f, true));
    let mut values: Vec<String> = Vec::new();
    let mut i: usize = 0;
    proof {
        assert(writable.subrange(0, 0) == Seq::<Field>::empty());
        assert(texts(values@) == Seq::<Seq<char>>::empty());
    }
    while i < fields.len()
        invariant
            i <= fields.len(),
            fields@.map_values(|r: &Field| *r) == writable,
            update_values_spec(writable.subrange(0, i as int)) == Ok::<Seq<Seq<char>>, Seq<char>>(texts(values@)),
        decreases fields.len() - i,
    {
        let field = fields[i];
        proof {
            assert(writable.subrange(0, i + 1).drop_last() == writable.subrange(0, i as int));
            assert(writable[i as int] == *field);
        }
        let ident = match parse_ident(field.rust_name.as_str()) {
            Ok(ident) => ident,
            Err(error) => {
                proof {
                    lemma_update_values_error(writable, i + 1);
                }
                return Err(error);
            },
        };
        let mut text = String::from_str("if let Some(value) = &input.");
        text.append(ident.as_str());
        text.append(" { active.");
        text.append(ident.as_str());
        text.append(" = Set(");
        if copy_type(&field.ty) {
            text.append("*value");
        } else {
            text.append("value.clone()");
        }
        text.append("); }");
        let ghost before = texts(values@);
        values.push(text);
        proof {
            assert(texts(values@) == before.push(text@));
        }
        i = i + 1;
    }
    proof {
        assert(writable.subrange(0, writable.len() as int) == writable);
    }
    Ok(values)
}

} // verus!
