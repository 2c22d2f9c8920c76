use vstd::prelude::*;
use vstd::string::StringExecFns;
use crate::artifact::CodegenError;
use crate::expressions::{relation_name, relation_name_text};
use crate::field_access::{literal_text, string_literal};
use crate::fields::{find_entity, find_entity_spec, first_primary, missing_entity, texts};
use crate::ident::{ident_result, parse_ident};
use crate::ir::{AppIr, Cardinality, Entity, Field, Relation};
use crate::naming::{module_name, snake_text};

verus! {

/// The field through which a record reaches the record it belongs to.
#[verifier::opaque]
pub open spec fn belongs_to_text(from: Seq<char>, to: Seq<char>, name: Seq<char>, target_module: Seq<char>) -> Seq<char> {
    "#[sea_orm(belongs_to, from = "@
        + from
        + ", to = "@
        + to
        + ")] pub "@
        + name
        + ": BelongsTo<super::"@
        + target_module
        + "::Entity>"@
}

fn belongs_to(from: &str, to: &str, name: &str, target_module: &str) -> (text: String)
    ensures
        text@ == belongs_to_text(from@, to@, name@, target_module@),
{
    proof {
        reveal(belongs_to_text);
    }
    let mut text = String::from_str("#[sea_orm(belongs_to, from = ");
    text.append(from);
    text.append(", to = ");
    text.append(to);
    text.append(")] pub ");
    text.append(name);
    text.append(": BelongsTo<super::");
    text.append(target_module);
    text.append("::Entity>");
    text
}

/// The field through which a record reaches the one record that belongs to it.
#[verifier::opaque]
pub open spec fn has_one_text(name: Seq<char>, source_module: Seq<char>) -> Seq<char> {
    "#[sea_orm(has_one)] pub "@
        + name
        + ": HasOne<super::"@
        + source_module
        + "::Entity>"@
}

fn has_one(name: &str, source_module: &str) -> (text: String)
    ensures
        text@ == has_one_text(name@, source_module@),
{
    proof {
        reveal(has_one_text);
    }
    let mut text = String::from_str("#[sea_orm(has_one)] pub ");
    text.append(name);
    text.append(": HasOne<super::");
    text.append(source_module);
    text.append("::Entity>");
    text
}

/// The field through which a record reaches the records that belong to it.
#[verifier::opaque]
pub open spec fn has_many_text(name: Seq<char>, source_module: Seq<char>) -> Seq<char> {
    "#[sea_orm(has_many)] pub "@
        + name
        + ": HasMany<super::"@
        + source_module
        + "::Entity>"@
}

fn has_many(name: &str, source_module: &str) -> (text: String)
    ensures
        text@ == has_many_text(name@, source_module@),
{
    proof {
        reveal(has_many_text);
    }
    let mut text = String::from_str("#[sea_orm(has_many)] pub ");
    text.append(name);
    text.append(": HasMany<super::");
    text.append(source_module);
    text.append("::Entity>");
    text
}

/// The first field of the entity that the relation names as a foreign key.
pub open spec fn foreign_key_field(fields: Seq<Field>, keys: Seq<String>) -> Option<Field>
    decreases fields.len(),
{
    if fields.len() == 0 {
        None
    } else if exists|k: int| 0 <= k < keys.len() && #[trigger] keys[k]@ == fields[0].id@ {
        Some(fields[0])
    } else {
        foreign_key_field(fields.drop_first(), keys)
    }
}

/// The message of a relation whose foreign-key field is missing.
pub open spec fn missing_field_text(relation: Seq<char>) -> Seq<char> {
    "missing field for `"@ + relation + "`"@
}

/// The message of a relation target without a primary key.
pub open spec fn missing_key_text(target: Seq<char>) -> Seq<char> {
    "missing key for `"@ + target + "`"@
}

/// The belongs-to field of a relation whose source is the entity, or the first
/// error: the foreign-key field, the target entity, its key, then the names.
pub open spec fn belongs_to_spec(ir: AppIr, entity: Entity, relation: Relation) -> Result<Seq<char>, Seq<char>> {
    match foreign_key_field(entity.fields@, relation.foreign_key_fields@) {
        None => Err(missing_field_text(relation.id@)),
        Some(source_field) => match find_entity_spec(ir.entities@, relation.target@) {
            None => Err(missing_entity(relation.target@)),
            Some(target) => match first_primary(target.fields@) {
                None => Err(missing_key_text(target.id@)),
                Some(target_key) => match ident_result(relation_name_text(source_field.rust_name@)) {
                    Err(error) => Err(error),
                    Ok(name) => match ident_result(snake_text(target.rust_name@)) {
                        Err(error) => Err(error),
                        Ok(target_module) => Ok(belongs_to_text(
                            literal_text(source_field.rust_name@),
                            literal_text(target_key.rust_name@),
                            name,
                            target_module,
                        )),
                    },
                },
            },
        },
    }
}

/// The inverse field of a relation whose target is the entity, or the first
/// error: the source entity, its module name, then, for a many-to-one
/// relation, its table name.
pub open spec fn inverse_spec(ir: AppIr, relation: Relation) -> Result<Seq<char>, Seq<char>> {
    match find_entity_spec(ir.entities@, relation.source@) {
        None => Err(missing_entity(relation.source@)),
        Some(source) => match ident_result(snake_text(source.rust_name@)) {
            Err(error) => Err(error),
            Ok(source_module) => match relation.cardinality {
                Cardinality::OneToOne => Ok(has_one_text(source_module, source_module)),
                Cardinality::ManyToOne => match ident_result(source.table_name@) {
                    Err(error) => Err(error),
                    Ok(name) => Ok(has_many_text(name, source_module)),
                },
            },
        },
    }
}

/// The relation fields of an entity's model, in the order of the relations:
/// for each, the belongs-to field where the entity is the source, then the
/// inverse field where it is the target; or the first error.
pub open spec fn relation_fields_spec(ir: AppIr, entity: Entity, relations: Seq<Relation>) -> Result<Seq<Seq<char>>, Seq<char>>
    decreases relations.len(),
{
    if relations.len() == 0 {
        Ok(Seq::<Seq<char>>::empty())
    } else {
        match relation_fields_spec(ir, entity, relations.drop_last()) {
            Err(error) => Err(error),
            Ok(fields) => {
                let relation = relations.last();
                match (if relation.source@ == entity.id@ {
                    match belongs_to_spec(ir, entity, relation) {
                        Err(error) => Err(error),
                        Ok(field) => Ok(fields.push(field)),
                    }
                } else {
                    Ok(fields)
                }) {
                    Err(error) => Err(error),
                    Ok(fields) => if relation.target@ == entity.id@ {
                        match inverse_spec(ir, relation) {
                            Err(error) => Err(error),
                            Ok(field) => Ok(fields.push(field)),
                        }
                    } else {
                        Ok(fields)
                    },
                }
            },
        }
    }
}

proof fn lemma_relation_fields_error(ir: AppIr, entity: Entity, relations: Seq<Relation>, k: int)
    requires
        0 <= k <= relations.len(),
        relation_fields_spec(ir, entity, relations.subrange(0, k)) is Err,
    ensures
        relation_fields_spec(ir, entity, relations) == relation_fields_spec(ir, entity, relations.subrange(0, k)),
    decreases relations.len() - k,
{
    if k < relations.len() {
        assert(relations.subrange(0, k + 1).drop_last() == relations.subrange(0, k));
        lemma_relation_fields_error(ir, entity, relations, k + 1);
    } else {
        assert(relations.subrange(0, k) == relations);
    }
}

fn names_key(keys: &Vec<String>, id: &String) -> (result: bool)
    ensures
        result == exists|k: int| 0 <= k < keys@.len() && #[trigger] keys@[k]@ == id@,
{
    let mut k: usize = 0;
    while k < keys.len()
        invariant
            k <= keys.len(),
            forall|j: int| 0 <= j < k ==> #[trigger] keys@[j]@ != id@,
        decreases keys.len() - k,
    {
        if keys[k] == *id {
            return true;
        }
        k = k + 1;
    }
    false
}

fn find_foreign_key<'a>(fields: &'a Vec<Field>, keys: &Vec<String>) -> (result: Option<&'a Field>)
    ensures
        match result {
            Some(field) => foreign_key_field(fields@, keys@) == Some(*field),
            None => foreign_key_field(fields@, keys@) is None,
        },
{
    let mut i: usize = 0;
    proof {
        assert(fields@.skip(0) == fields@);
    }
    while i < fields.len()
        invariant
            i <= fields.len(),
            foreign_key_field(fields@, keys@) == foreign_key_field(fields@.skip(i as int), keys@),
        decreases fields.len() - i,
    {
        proof {
            assert(fields@.skip(i as int).drop_first() == fields@.skip(i + 1));
            assert(fields@.skip(i as int)[0] == fields@[i as int]);
        }
        if names_key(keys, &fields[i].id) {
            return Some(&fields[i]);
        }
        i = i + 1;
    }
    None
}

fn find_key<'a>(fields: &'a Vec<Field>) -> (result: Option<&'a Field>)
    ensures
        match result {
            Some(field) => first_primary(fields@) == Some(*field),
            None => first_primary(fields@) is None,
        },
{
    let mut i: usize = 0;
    proof {
        assert(fields@.skip(0) == fields@);
    }
    while i < fields.len()
        invariant
            i <= fields.len(),
            first_primary(fields@) == first_primary(fields@.skip(i as int)),
        decreases fields.len() - i,
    {
        proof {
            assert(fields@.skip(i as int).drop_first() == fields@.skip(i + 1));
        }
        if fields[i].primary_key {
            return Some(&fields[i]);
        }
        i = i + 1;
    }
    None
}

fn quoted_message(prefix: &str, name: &str) -> (text: String)
    ensures
        text@ == prefix@ + name@ + "`"@,
{
    let mut text = String::from_str(prefix);
    text.append(name);
    text.append("`");
    text
}

/// The belongs-to field of a relation whose source is the entity.
pub fn belongs_to_field(ir: &AppIr, entity: &Entity, relation: &Relation) -> (result: Result<String, CodegenError>)
    ensures
        match result {
            Ok(text) => belongs_to_spec(*ir, *entity, *relation) == Ok::<Seq<char>, Seq<char>>(text@),
            Err(error) => belongs_to_spec(*ir, *entity, *relation) == Err::<Seq<char>, Seq<char>>(error@),
        },
{
    let source_field = match find_foreign_key(&entity.fields, &relation.foreign_key_fields) {
        Some(field) => field,
        None => {
            return Err(CodegenError::new(quoted_message("missing field for `", relation.id.as_str())));
        },
    };
    let target = find_entity(ir, relation.target.as_str())?;
    let target_key = match find_key(&target.fields) {
        Some(field) => field,
        None => {
            return Err(CodegenError::new(quoted_message("missing key for `", target.id.as_str())));
        },
    };
    let stripped = relation_name(source_field.rust_name.as_str());
    let name = parse_ident(stripped.as_str())?;
    let target_name = module_name(target);
    let target_module = parse_ident(target_name.as_str())?;
    let from = string_literal(source_field.rust_name.as_str());
    let to = string_literal(target_key.rust_name.as_str());
    Ok(belongs_to(from.as_str(), to.as_str(), name.as_str(), target_module.as_str()))
}

/// The inverse field of a relation whose target is the entity.
pub fn inverse_relation_field(ir: &AppIr, relation: &Relation) -> (result: Result<String, CodegenError>)
    ensures
        match result {
            Ok(text) => inverse_spec(*ir, *relation) == Ok::<Seq<char>, Seq<char>>(text@),
            Err(error) => inverse_spec(*ir, *relation) == Err::<Seq<char>, Seq<char>>(error@),
        },
{
    let source = find_entity(ir, relation.source.as_str())?;
    let source_name = module_name(source);
    let source_module = parse_ident(source_name.as_str())?;
    match relation.cardinality {
        Cardinality::OneToOne => Ok(has_one(source_module.as_str(), source_module.as_str())),
        Cardinality::ManyToOne => {
            let name = parse_ident(source.table_name.as_str())?;
            Ok(has_many(name.as_str(), source_module.as_str()))
        },
    }
}

/// The relation fields of an entity's model.
pub fn relation_fields(ir: &AppIr, entity: &Entity) -> (result: Result<Vec<String>, CodegenError>)
    ensures
        match result {
            Ok(fields) => relation_fields_spec(*ir, *entity, ir.relations@) == Ok::<Seq<Seq<char>>, Seq<char>>(texts(fields@)),
            Err(error) => relation_fields_spec(*ir, *entity, ir.relations@) == Err::<Seq<Seq<char>>, Seq<char>>(error@),
        },
{
    let mut fields: Vec<String> = Vec::new();
    let mut i: usize = 0;
    proof {
        assert(ir.relations@.subrange(0, 0) == Seq::<Relation>::empty());
        assert(texts(fields@) == Seq::<Seq<char>>::empty());
    }
    while i < ir.relations.len()
        invariant
            i <= ir.relations.len(),
            relation_fields_spec(*ir, *entity, ir.relations@.subrange(0, i as int)) == Ok::<Seq<Seq<char>>, Seq<char>>(texts(fields@)),
        decreases ir.relations.len() - i,
    {
        proof {
            assert(ir.relations@.subrange(0, i + 1).drop_last() == ir.relations@.subrange(0, i as int));
        }
        let relation = &ir.relations[i];
        let ghost start = texts(fields@);
        if relation.source == entity.id {
            match belongs_to_field(ir, entity, relation) {
                Ok(field) => {
                    fields.push(field);
                    proof {
                        assert(texts(fields@) == start.push(field@));
                    }
                },
                Err(error) => {
                    proof {
                        lemma_relation_fields_error(*ir, *entity, ir.relations@, i + 1);
                    }
                    return Err(error);
                },
            }
        }
        let ghost middle = texts(fields@);
        if relation.target == entity.id {
            match inverse_relation_field(ir, relation) {
                Ok(field) => {
                    fields.push(field);
                    proof {
                        assert(texts(fields@) == middle.push(field@));
                    }
                },
                Err(error) => {
                    proof {
                        lemma_relation_fields_error(*ir, *entity, ir.relations@, i + 1);
                    }
                    return Err(error);
                },
            }
        }
        i = i + 1;
    }
    proof {
        assert(ir.relations@.subrange(0, ir.relations@.len() as int) == ir.relations@);
    }
    Ok(fields)
}

} // verus!
