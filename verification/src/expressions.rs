use vstd::prelude::*;
use vstd::string::StringExecFns;
use crate::artifact::CodegenError;
use crate::field_access::{literal_text, string_literal};
use crate::fields::{find_entity, find_entity_spec, missing_entity, rust_type, rust_type_text};
use crate::ident::{ident_result, parse_ident};
use crate::ir::{AppIr, Field, FieldType, OperationType, ValueObject};
use crate::naming::{module_name, snake_text};

verus! {

/// The expression that turns the path parameter `id` into the primary-key type.
pub open spec fn parse_id_text(ty: FieldType) -> Seq<char> {
    match ty {
        FieldType::Uuid | FieldType::Relation { .. } => "uuid::Uuid::parse_str(&id).map_err(|_| ApiError::InvalidId)?"@,
        FieldType::Integer => "id.parse::<i32>().map_err(|_| ApiError::InvalidId)?"@,
        FieldType::Bigint => "id.parse::<i64>().map_err(|_| ApiError::InvalidId)?"@,
        _ => "id"@,
    }
}

pub fn parse_id_expression(field: &Field) -> (text: &'static str)
    ensures
        text@ == parse_id_text(field.ty),
{
    match field.ty {
        FieldType::Uuid | FieldType::Relation { .. } => "uuid::Uuid::parse_str(&id).map_err(|_| ApiError::InvalidId)?",
        FieldType::Integer => "id.parse::<i32>().map_err(|_| ApiError::InvalidId)?",
        FieldType::Bigint => "id.parse::<i64>().map_err(|_| ApiError::InvalidId)?",
        _ => "id",
    }
}

/// `.map_err(..)?` that reports an unparsable filter value of the field.
pub open spec fn invalid_value_text(name: Seq<char>) -> Seq<char> {
    ".map_err(|_| ApiError::InvalidQuery("@ + literal_text("invalid value for `"@ + name + "`"@) + ".to_owned()))?"@
}

/// The expression that turns the raw filter text `raw` into the field's type.
pub open spec fn parsed_value_text(field: Field, raw: Seq<char>) -> Seq<char> {
    let error = invalid_value_text(field.rust_name@);
    match field.ty {
        FieldType::String | FieldType::Text | FieldType::Enum { .. } => raw + ".to_owned()"@,
        FieldType::Uuid | FieldType::Relation { .. } => "uuid::Uuid::parse_str("@ + raw + ")"@ + error,
        FieldType::Date => "chrono::NaiveDate::parse_from_str("@ + raw + ", \"%Y-%m-%d\")"@ + error,
        FieldType::Datetime => raw + ".parse::<chrono::DateTime<chrono::Utc>>()"@ + error,
        FieldType::Json => "serde_json::from_str::<serde_json::Value>("@ + raw + ")"@ + error,
        _ => raw + ".parse::<"@ + rust_type_text(field.ty) + ">()"@ + error,
    }
}

fn invalid_value(name: &str) -> (text: String)
    ensures
        text@ == invalid_value_text(name@),
{
    let mut message = String::from_str("invalid value for `");
    message.append(name);
    message.append("`");
    let literal = string_literal(message.as_str());
    let mut text = String::from_str(".map_err(|_| ApiError::InvalidQuery(");
    text.append(literal.as_str());
    text.append(".to_owned()))?");
    text
}

pub fn parsed_value(field: &Field, raw: &str) -> (text: String)
    ensures
        text@ == parsed_value_text(*field, raw@),
{
    let error = invalid_value(field.rust_name.as_str());
    match field.ty {
        FieldType::String | FieldType::Text | FieldType::Enum { .. } => {
            let mut text = String::from_str(raw);
            text.append(".to_owned()");
            text
        },
        FieldType::Uuid | FieldType::Relation { .. } => {
            let mut text = String::from_str("uuid::Uuid::parse_str(");
            text.append(raw);
            text.append(")");
            text.append(error.as_str());
            text
        },
        FieldType::Date => {
            let mut text = String::from_str("chrono::NaiveDate::parse_from_str(");
            text.append(raw);
            text.append(", \"%Y-%m-%d\")");
            text.append(error.as_str());
            text
        },
        FieldType::Datetime => {
            let mut text = String::from_str(raw);
            text.append(".parse::<chrono::DateTime<chrono::Utc>>()");
            text.append(error.as_str());
            text
        },
        FieldType::Json => {
            let mut text = String::from_str("serde_json::from_str::<serde_json::Value>(");
            text.append(raw);
            text.append(")");
            text.append(error.as_str());
            text
        },
        _ => {
            let mut text = String::from_str(raw);
            text.append(".parse::<");
            text.append(rust_type(&field.ty));
            text.append(">()");
            text.append(error.as_str());
            text
        },
    }
}

/// The name of a belongs-to relation: the foreign-key field's name without `_id`.
pub open spec fn relation_name_text(name: Seq<char>) -> Seq<char> {
    if name.len() >= 3 && name.subrange(name.len() - 3, name.len() as int) == seq!['_', 'i', 'd'] {
        name.subrange(0, name.len() - 3)
    } else {
        name
    }
}

pub fn relation_name(name: &str) -> (text: String)
    ensures
        text@ == relation_name_text(name@),
{
    let mut chars: Vec<char> = Vec::new();
    for c in iter: name.chars()
        invariant
            iter.seq() == name@,
            chars@ == name@.subrange(0, iter.index() as int),
    {
        chars.push(c);
        proof {
            assert(name@.subrange(0, iter.index() + 1) == name@.subrange(0, iter.index() as int).push(c));
        }
    }
    proof {
        assert(name@.subrange(0, name@.len() as int) == name@);
    }
    let n = chars.len();
    let keep = if n >= 3 && chars[n - 3] == '_' && chars[n - 2] == 'i' && chars[n - 1] == 'd' {
        proof {
            assert(name@.subrange(n - 3, n as int) =~= seq!['_', 'i', 'd']);
        }
        n - 3
    } else {
        proof {
            if n >= 3 {
                assert(name@.subrange(n - 3, n as int)[0] == chars@[n - 3]);
                assert(name@.subrange(n - 3, n as int)[1] == chars@[n - 2]);
                assert(name@.subrange(n - 3, n as int)[2] == chars@[n - 1]);
            }
        }
        n
    };
    let mut text = String::new();
    let mut i: usize = 0;
    while i < keep
        invariant
            keep <= n == chars.len(),
            chars@ == name@,
            i <= keep,
            text@ == chars@.subrange(0, i as int),
        decreases keep - i,
    {
        crate::text::push_char(&mut text, chars[i]);
        proof {
            assert(chars@.subrange(0, i + 1) == chars@.subrange(0, i as int).push(chars@[i as int]));
        }
        i = i + 1;
    }
    proof {
        assert(name@.subrange(0, n as int) == name@);
    }
    text
}

/// The first value object with the given id.
pub open spec fn find_value_spec(values: Seq<ValueObject>, id: Seq<char>) -> Option<ValueObject>
    decreases values.len(),
{
    if values.len() == 0 {
        None
    } else if values[0].id@ == id {
        Some(values[0])
    } else {
        find_value_spec(values.drop_first(), id)
    }
}

pub open spec fn missing_value(id: Seq<char>) -> Seq<char> {
    "missing value object `"@ + id + "`"@
}

/// The Rust type of a command's or query's input or output.
pub open spec fn operation_type_spec(ir: AppIr, ty: OperationType) -> Result<Seq<char>, Seq<char>> {
    match ty {
        OperationType::Entity { entity } => match find_entity_spec(ir.entities@, entity@) {
            Some(found) => match ident_result(snake_text(found.rust_name@)) {
                Ok(module) => Ok("entities::"@ + module + "::Model"@),
                Err(error) => Err(error),
            },
            None => Err(missing_entity(entity@)),
        },
        OperationType::ValueObject { value_object } => match find_value_spec(ir.value_objects@, value_object@) {
            Some(value) => ident_result(value.rust_name@),
            None => Err(missing_value(value_object@)),
        },
    }
}

#[verifier::loop_isolation(false)]
pub fn operation_type(ir: &AppIr, ty: &OperationType) -> (result: Result<String, CodegenError>)
    ensures
        match result {
            Ok(text) => operation_type_spec(*ir, *ty) == Ok::<Seq<char>, Seq<char>>(text@),
            Err(error) => operation_type_spec(*ir, *ty) == Err::<Seq<char>, Seq<char>>(error@),
        },
{
    match ty {
        OperationType::Entity { entity } => {
            let found = find_entity(ir, entity.as_str())?;
            let name = module_name(found);
            let module = parse_ident(name.as_str())?;
            let mut text = String::from_str("entities::");
            text.append(module.as_str());
            text.append("::Model");
            Ok(text)
        },
        OperationType::ValueObject { value_object } => {
            let key = value_object.clone();
            let mut i: usize = 0;
            proof {
                assert(ir.value_objects@.skip(0) == ir.value_objects@);
            }
            while i < ir.value_objects.len()
                invariant
                    i <= ir.value_objects.len(),
                    key@ == value_object@,
                    find_value_spec(ir.value_objects@, value_object@) == find_value_spec(ir.value_objects@.skip(i as int), value_object@),
                decreases ir.value_objects.len() - i,
            {
                proof {
                    assert(ir.value_objects@.skip(i as int).drop_first() == ir.value_objects@.skip(i + 1));
                    assert(ir.value_objects@.skip(i as int)[0] == ir.value_objects@[i as int]);
                }
                if ir.value_objects[i].id == key {
                    return parse_ident(ir.value_objects[i].rust_name.as_str());
                }
                i = i + 1;
            }
            let mut message = String::from_str("missing value object `");
            message.append(value_object.as_str());
            message.append("`");
            Err(CodegenError::new(message))
        },
    }
}

} // verus!
