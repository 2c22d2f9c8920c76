use vstd::prelude::*;
use vstd::string::StringExecFns;
use crate::artifact::CodegenError;
use crate::field_access::{literal_text, string_literal};
use crate::fields::{optional_type, optional_type_text, rust_type, rust_type_text, texts};
use crate::ident::{ident_result, parse_ident};
use crate::ir::{AppIr, Entity, Field, GeneratedValue};
use crate::relations::{relation_fields, relation_fields_spec};
use crate::source::{render, render_spec};
use crate::text::{append_suffixed, suffixed_text};

verus! {

/// The attributes that describe a field's scalar type to the database layer,
/// as they stand on the field's Rust type and on that type wrapped in one and
/// in two `Option`s.
pub struct ScalarAttributes {
    pub plain: String,
    pub optional: String,
    pub nested: String,
}

/// The scalar attributes for a type wrapped in `depth` `Option`s.
pub open spec fn scalar_at(scalars: ScalarAttributes, depth: nat) -> Seq<char> {
    if depth == 0 {
        scalars.plain@
    } else if depth == 1 {
        scalars.optional@
    } else {
        scalars.nested@
    }
}

pub(crate) fn scalar_for(scalars: &ScalarAttributes, depth: u8) -> (text: String)
    ensures
        text@ == scalar_at(*scalars, depth as nat),
{
    if depth == 0 {
        scalars.plain.clone()
    } else if depth == 1 {
        scalars.optional.clone()
    } else {
        scalars.nested.clone()
    }
}

/// The column attributes of a primary key.
#[verifier::opaque]
pub open spec fn key_attributes_text(auto_increment: Seq<char>, column: Seq<char>) -> Seq<char> {
    "#[sea_orm(primary_key, auto_increment = "@
        + auto_increment
        + ", column_name = "@
        + column
        + ")]"@
}

fn key_attributes(auto_increment: &str, column: &str) -> (text: String)
    ensures
        text@ == key_attributes_text(auto_increment@, column@),
{
    proof {
        reveal(key_attributes_text);
    }
    let mut text = String::from_str("#[sea_orm(primary_key, auto_increment = ");
    text.append(auto_increment);
    text.append(", column_name = ");
    text.append(column);
    text.append(")]");
    text
}

/// The column attributes of a unique field.
#[verifier::opaque]
pub open spec fn unique_attributes_text(column: Seq<char>) -> Seq<char> {
    "#[sea_orm(unique, column_name = "@
        + column
        + ")]"@
}

fn unique_attributes(column: &str) -> (text: String)
    ensures
        text@ == unique_attributes_text(column@),
{
    proof {
        reveal(unique_attributes_text);
    }
    let mut text = String::from_str("#[sea_orm(unique, column_name = ");
    text.append(column);
    text.append(")]");
    text
}

/// The column attributes of any other field.
#[verifier::opaque]
pub open spec fn column_attributes_text(column: Seq<char>) -> Seq<char> {
    "#[sea_orm(column_name = "@
        + column
        + ")]"@
}

fn column_attributes(column: &str) -> (text: String)
    ensures
        text@ == column_attributes_text(column@),
{
    proof {
        reveal(column_attributes_text);
    }
    let mut text = String::from_str("#[sea_orm(column_name = ");
    text.append(column);
    text.append(")]");
    text
}

/// One field of the database model.
#[verifier::opaque]
pub open spec fn model_field_text(attributes: Seq<char>, scalar: Seq<char>, name: Seq<char>, ty: Seq<char>) -> Seq<char> {
    attributes
        + " "@
        + scalar
        + " pub "@
        + name
        + ": "@
        + ty
}

fn model_field(attributes: &str, scalar: &str, name: &str, ty: &str) -> (text: String)
    ensures
        text@ == model_field_text(attributes@, scalar@, name@, ty@),
{
    proof {
        reveal(model_field_text);
    }
    let mut text = String::new();
    text.append(attributes);
    text.append(" ");
    text.append(scalar);
    text.append(" pub ");
    text.append(name);
    text.append(": ");
    text.append(ty);
    text
}

/// The database model of an entity: its table, fields and relations.
#[verifier::opaque]
pub open spec fn model_source_text(table: Seq<char>, fields: Seq<Seq<char>>, relations: Seq<Seq<char>>) -> Seq<char> {
    "use sea_orm::entity::prelude::*; use serde::{Deserialize, Serialize}; "@
        + "#[sea_orm::model] #[derive(Clone, Debug, PartialEq, DeriveEntityModel, Serialize, Deserialize)] #[sea_orm(table_name = "@
        + table
        + ")] pub struct Model { "@
        + suffixed_text(fields, ", "@)
        + " "@
        + suffixed_text(relations, ", "@)
        + " } impl ActiveModelBehavior for ActiveModel {}"@
}

fn model_source(table: &str, fields: &Vec<String>, relations: &Vec<String>) -> (text: String)
    ensures
        text@ == model_source_text(table@, texts(fields@), texts(relations@)),
{
    proof {
        reveal(model_source_text);
    }
    let mut text = String::from_str("use sea_orm::entity::prelude::*; use serde::{Deserialize, Serialize}; ");
    text.append("#[sea_orm::model] #[derive(Clone, Debug, PartialEq, DeriveEntityModel, Serialize, Deserialize)] #[sea_orm(table_name = ");
    text.append(table);
    text.append(")] pub struct Model { ");
    append_suffixed(&mut text, fields, ", ");
    text.append(" ");
    append_suffixed(&mut text, relations, ", ");
    text.append(" } impl ActiveModelBehavior for ActiveModel {}");
    text
}

/// The column attributes of a field: a primary key says whether it
/// increments, a unique field says so, and each names its column.
pub open spec fn field_attributes_text(field: Field) -> Seq<char> {
    let column = literal_text(field.column_name@);
    if field.primary_key {
        key_attributes_text(
            if field.generated == Some(GeneratedValue::AutoIncrement) {
                "true"@
            } else {
                "false"@
            },
            column,
        )
    } else if field.unique {
        unique_attributes_text(column)
    } else {
        column_attributes_text(column)
    }
}

/// One field of the database model, or its name where that is no
/// identifier; a revision field carries no scalar attributes.
pub open spec fn entity_field_spec(field: Field, scalars: ScalarAttributes) -> Result<Seq<char>, Seq<char>> {
    match ident_result(field.rust_name@) {
        Err(error) => Err(error),
        Ok(name) => Ok(model_field_text(
            field_attributes_text(field),
            if field.generated == Some(GeneratedValue::Revision) {
                Seq::<char>::empty()
            } else {
                scalar_at(scalars, if field.nullable { 1 } else { 0 })
            },
            name,
            optional_type_text(rust_type_text(field.ty), field.nullable),
        )),
    }
}

/// One field of the database model.
pub fn entity_field(field: &Field, scalars: &ScalarAttributes) -> (result: Result<String, CodegenError>)
    ensures
        match result {
            Ok(text) => entity_field_spec(*field, *scalars) == Ok::<Seq<char>, Seq<char>>(text@),
            Err(error) => entity_field_spec(*field, *scalars) == Err::<Seq<char>, Seq<char>>(error@),
        },
{
    let name = parse_ident(field.rust_name.as_str())?;
    let ty = optional_type(String::from_str(rust_type(&field.ty)), field.nullable);
    let column = string_literal(field.column_name.as_str());
    let attributes = if field.primary_key {
        proof {
            reveal_strlit("true");
            reveal_strlit("false");
        }
        let auto_increment = match field.generated {
            Some(GeneratedValue::AutoIncrement) => "true",
            _ => "false",
        };
        key_attributes(auto_increment, column.as_str())
    } else if field.unique {
        unique_attributes(column.as_str())
    } else {
        column_attributes(column.as_str())
    };
    let scalar = match field.generated {
        Some(GeneratedValue::Revision) => String::new(),
        _ => {
            let depth: u8 = if field.nullable { 1 } else { 0 };
            scalar_for(scalars, depth)
        },
    };
    Ok(model_field(attributes.as_str(), scalar.as_str(), name.as_str(), ty.as_str()))
}

/// The fields of the database model, in order, or the first error.
pub open spec fn entity_fields_spec(fields: Seq<Field>, scalars: Seq<ScalarAttributes>) -> Result<Seq<Seq<char>>, Seq<char>>
    decreases fields.len(),
{
    if fields.len() == 0 {
        Ok(Seq::<Seq<char>>::empty())
    } else {
        match entity_fields_spec(fields.drop_last(), scalars) {
            Err(error) => Err(error),
            Ok(lines) => match entity_field_spec(fields.last(), scalars[fields.len() - 1]) {
                Err(error) => Err(error),
                Ok(text) => Ok(lines.push(text)),
            },
        }
    }
}

proof fn lemma_entity_fields_error(fields: Seq<Field>, scalars: Seq<ScalarAttributes>, k: int)
    requires
        0 <= k <= fields.len(),
        entity_fields_spec(fields.subrange(0, k), scalars) is Err,
    ensures
        entity_fields_spec(fields, scalars) == entity_fields_spec(fields.subrange(0, k), scalars),
    decreases fields.len() - k,
{
    if k < fields.len() {
        assert(fields.subrange(0, k + 1).drop_last() == fields.subrange(0, k));
        lemma_entity_fields_error(fields, scalars, k + 1);
    } else {
        assert(fields.subrange(0, k) == fields);
    }
}

fn entity_fields(fields: &Vec<Field>, scalars: &Vec<ScalarAttributes>) -> (result: Result<Vec<String>, CodegenError>)
    requires
        scalars.len() == fields.len(),
    ensures
        match result {
            Ok(lines) => entity_fields_spec(fields@, scalars@) == Ok::<Seq<Seq<char>>, Seq<char>>(texts(lines@)),
            Err(error) => entity_fields_spec(fields@, scalars@) == Err::<Seq<Seq<char>>, Seq<char>>(error@),
        },
{
    let mut lines: Vec<String> = Vec::new();
    let mut i: usize = 0;
    proof {
        assert(fields@.subrange(0, 0) == Seq::<Field>::empty());
        assert(texts(lines@) == Seq::<Seq<char>>::empty());
    }
    while i < fields.len()
        invariant
            i <= fields.len(),
            scalars.len() == fields.len(),
            entity_fields_spec(fields@.subrange(0, i as int), scalars@) == Ok::<Seq<Seq<char>>, Seq<char>>(texts(lines@)),
        decreases fields.len() - i,
    {
        proof {
            assert(fields@.subrange(0, i + 1).drop_last() == fields@.subrange(0, i as int));
            assert(fields@.subrange(0, i + 1).last() == fields@[i as int]);
        }
        match entity_field(&fields[i], &scalars[i]) {
            Ok(line) => {
                let ghost before = texts(lines@);
                lines.push(line);
                proof {
                    assert(texts(lines@) == before.push(line@));
                }
            },
            Err(error) => {
                proof {
                    lemma_entity_fields_error(fields@, scalars@, i + 1);
                }
                return Err(error);
            },
        }
        i = i + 1;
    }
    proof {
        assert(fields@.subrange(0, fields@.len() as int) == fields@);
    }
    Ok(lines)
}

/// The database model of an entity with its header, or the first error: its
/// fields, then its relation fields. `scalars` gives each field's scalar
/// attributes, in order.
#[verifier::opaque]
pub open spec fn entity_source_spec(ir: AppIr, entity: Entity, scalars: Seq<ScalarAttributes>, header: Seq<char>) -> Result<Seq<char>, Seq<char>> {
    match entity_fields_spec(entity.fields@, scalars) {
        Err(error) => Err(error),
        Ok(fields) => match relation_fields_spec(ir, entity, ir.relations@) {
            Err(error) => Err(error),
            Ok(relations) => render_spec(model_source_text(literal_text(entity.table_name@), fields, relations), header),
        },
    }
}

/// The database model of an entity, with its header.
pub fn entity_source(ir: &AppIr, entity: &Entity, scalars: &Vec<ScalarAttributes>, header: &str) -> (result: Result<String, CodegenError>)
    requires
        scalars.len() == entity.fields.len(),
    ensures
        match result {
            Ok(text) => entity_source_spec(*ir, *entity, scalars@, header@) == Ok::<Seq<char>, Seq<char>>(text@),
            Err(error) => entity_source_spec(*ir, *entity, scalars@, header@) == Err::<Seq<char>, Seq<char>>(error@),
        },
{
    proof {
        reveal(entity_source_spec);
    }
    let table = string_literal(entity.table_name.as_str());
    let fields = entity_fields(&entity.fields, scalars)?;
    let relations = relation_fields(ir, entity)?;
    let source = model_source(table.as_str(), &fields, &relations);
    render(source.as_str(), header)
}

} // verus!
