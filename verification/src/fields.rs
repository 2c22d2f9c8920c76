use vstd::prelude::*;
use vstd::string::StringExecFns;
use crate::artifact::CodegenError;
use crate::ir::{AppIr, Entity, Field, FieldType};

verus! {

/// The Rust type that stores a field of this type.
pub open spec fn rust_type_text(ty: FieldType) -> Seq<char> {
    match ty {
        FieldType::Uuid | FieldType::Relation { .. } => "uuid::Uuid"@,
        FieldType::String | FieldType::Text | FieldType::Enum { .. } => "String"@,
        FieldType::Integer => "i32"@,
        FieldType::Bigint => "i64"@,
        FieldType::Decimal => "rust_decimal::Decimal"@,
        FieldType::Boolean => "bool"@,
        FieldType::Date => "chrono::NaiveDate"@,
        FieldType::Datetime => "chrono::DateTime<chrono::Utc>"@,
        FieldType::Json => "serde_json::Value"@,
    }
}

pub fn rust_type(field_type: &FieldType) -> (text: &'static str)
    ensures
        text@ == rust_type_text(*field_type),
{
    match field_type {
        FieldType::Uuid | FieldType::Relation { .. } => "uuid::Uuid",
        FieldType::String | FieldType::Text | FieldType::Enum { .. } => "String",
        FieldType::Integer => "i32",
        FieldType::Bigint => "i64",
        FieldType::Decimal => "rust_decimal::Decimal",
        FieldType::Boolean => "bool",
        FieldType::Date => "chrono::NaiveDate",
        FieldType::Datetime => "chrono::DateTime<chrono::Utc>",
        FieldType::Json => "serde_json::Value",
    }
}

/// `Option<base>` for a nullable field, else `base`.
pub open spec fn optional_type_text(base: Seq<char>, nullable: bool) -> Seq<char> {
    if nullable {
        "Option<"@ + base + ">"@
    } else {
        base
    }
}

pub fn optional_type(base: String, nullable: bool) -> (text: String)
    ensures
        text@ == optional_type_text(base@, nullable),
{
    if nullable {
        let mut text = String::from_str("Option<");
        text.append(base.as_str());
        text.append(">");
        text
    } else {
        base
    }
}

/// Field types whose Rust values are `Copy`.
pub open spec fn is_copy_type(ty: FieldType) -> bool {
    match ty {
        FieldType::Uuid | FieldType::Integer | FieldType::Bigint | FieldType::Decimal | FieldType::Boolean
        | FieldType::Date | FieldType::Datetime | FieldType::Relation { .. } => true,
        _ => false,
    }
}

pub fn copy_type(field_type: &FieldType) -> (result: bool)
    ensures
        result == is_copy_type(*field_type),
{
    match field_type {
        FieldType::Uuid | FieldType::Integer | FieldType::Bigint | FieldType::Decimal | FieldType::Boolean
        | FieldType::Date | FieldType::Datetime | FieldType::Relation { .. } => true,
        _ => false,
    }
}

/// Field types that `sum` and `avg` aggregates accept.
pub open spec fn sum_avg_type(ty: FieldType) -> bool {
    match ty {
        FieldType::Integer | FieldType::Bigint | FieldType::Decimal => true,
        _ => false,
    }
}

pub fn supports_sum_avg(field_type: &FieldType) -> (result: bool)
    ensures
        result == sum_avg_type(*field_type),
{
    match field_type {
        FieldType::Integer | FieldType::Bigint | FieldType::Decimal => true,
        _ => false,
    }
}

/// Field types that `min` and `max` aggregates accept.
pub open spec fn min_max_type(ty: FieldType) -> bool {
    match ty {
        FieldType::Integer | FieldType::Bigint | FieldType::Decimal | FieldType::String | FieldType::Enum { .. }
        | FieldType::Date | FieldType::Datetime => true,
        _ => false,
    }
}

pub fn supports_min_max(field_type: &FieldType) -> (result: bool)
    ensures
        result == min_max_type(*field_type),
{
    match field_type {
        FieldType::Integer | FieldType::Bigint | FieldType::Decimal | FieldType::String | FieldType::Enum { .. }
        | FieldType::Date | FieldType::Datetime => true,
        _ => false,
    }
}

/// Field types that aggregates may group by: all but JSON and relations.
pub open spec fn groupable_type(ty: FieldType) -> bool {
    !(ty is Json || ty is Relation)
}

pub fn groupable(field_type: &FieldType) -> (result: bool)
    ensures
        result == groupable_type(*field_type),
{
    match field_type {
        FieldType::Json | FieldType::Relation { .. } => false,
        _ => true,
    }
}

/// Field types that list filters accept `gte` and `lte` bounds for.
pub open spec fn range_type(ty: FieldType) -> bool {
    match ty {
        FieldType::Integer | FieldType::Bigint | FieldType::Decimal | FieldType::Date | FieldType::Datetime => true,
        _ => false,
    }
}

pub fn supports_range(field_type: &FieldType) -> (result: bool)
    ensures
        result == range_type(*field_type),
{
    match field_type {
        FieldType::Integer | FieldType::Bigint | FieldType::Decimal | FieldType::Date | FieldType::Datetime => true,
        _ => false,
    }
}

/// The CSV column kind of a field type.
pub open spec fn csv_kind(ty: FieldType) -> Seq<char> {
    match ty {
        FieldType::Boolean => "boolean"@,
        FieldType::Integer => "integer"@,
        FieldType::Bigint => "bigint"@,
        _ => "string"@,
    }
}

pub fn kind(ty: &FieldType) -> (text: &'static str)
    ensures
        text@ == csv_kind(*ty),
{
    match ty {
        FieldType::Boolean => "boolean",
        FieldType::Integer => "integer",
        FieldType::Bigint => "bigint",
        _ => "string",
    }
}


/// Fields that clients write: not generated, not the workflow state, and on
/// update not the primary key.
pub open spec fn is_writable(entity: Entity, field: Field, update: bool) -> bool {
    field.generated is None && !entity.spec_is_workflow_field(&field) && (!update || !field.primary_key)
}

pub fn writable_fields(entity: &Entity, update: bool) -> (fields: Vec<&Field>)
    ensures
        fields@.map_values(|r: &Field| *r) == entity.fields@.filter(|f: Field| is_writable(*entity, f, update)),
{
    let mut fields: Vec<&Field> = Vec::new();
    let ghost pred = |f: Field| is_writable(*entity, f, update);
    let mut i: usize = 0;
    while i < entity.fields.len()
        invariant
            i <= entity.fields.len(),
            pred == (|f: Field| is_writable(*entity, f, update)),
            fields@.map_values(|r: &Field| *r) == entity.fields@.subrange(0, i as int).filter(pred),
        decreases entity.fields.len() - i,
    {
        let field = &entity.fields[i];
        let ghost old_view = fields@.map_values(|r: &Field| *r);
        proof {
            reveal(Seq::filter);
            assert(entity.fields@.subrange(0, i + 1).drop_last() == entity.fields@.subrange(0, i as int));
        }
        if field.generated.is_none() && !entity.is_workflow_field(field) && (!update || !field.primary_key) {
            fields.push(field);
            proof {
                assert(fields@.map_values(|r: &Field| *r) == old_view.push(*field));
            }
        }
        i = i + 1;
    }
    proof {
        assert(entity.fields@.subrange(0, entity.fields@.len() as int) == entity.fields@);
    }
    fields
}


/// Fields that list queries may filter on.
pub open spec fn is_filterable(field: Field) -> bool {
    field.capabilities.filterable
}

/// Filterable relation fields: the ones whose targets' fields can be filtered through.
pub open spec fn is_relation_filter(field: Field) -> bool {
    field.capabilities.filterable && field.ty is Relation
}

/// Fields that aggregates may compute over.
pub open spec fn is_aggregate_field(field: Field) -> bool {
    field.capabilities.filterable && !field.primary_key && !(field.ty is Relation || field.ty is Json)
        && (sum_avg_type(field.ty) || min_max_type(field.ty))
}

pub fn filterable_fields(entity: &Entity) -> (fields: Vec<&Field>)
    ensures
        fields@.map_values(|r: &Field| *r) == entity.fields@.filter(|f: Field| is_filterable(f)),
{
    let mut fields: Vec<&Field> = Vec::new();
    let ghost pred = |f: Field| is_filterable(f);
    let mut i: usize = 0;
    while i < entity.fields.len()
        invariant
            i <= entity.fields.len(),
            pred == (|f: Field| is_filterable(f)),
            fields@.map_values(|r: &Field| *r) == entity.fields@.subrange(0, i as int).filter(pred),
        decreases entity.fields.len() - i,
    {
        let field = &entity.fields[i];
        let ghost old_view = fields@.map_values(|r: &Field| *r);
        proof {
            reveal(Seq::filter);
            assert(entity.fields@.subrange(0, i + 1).drop_last() == entity.fields@.subrange(0, i as int));
        }
        if field.capabilities.filterable {
            fields.push(field);
            proof {
                assert(fields@.map_values(|r: &Field| *r) == old_view.push(*field));
            }
        }
        i = i + 1;
    }
    proof {
        assert(entity.fields@.subrange(0, entity.fields@.len() as int) == entity.fields@);
    }
    fields
}

pub fn relation_fields(entity: &Entity) -> (fields: Vec<&Field>)
    ensures
        fields@.map_values(|r: &Field| *r) == entity.fields@.filter(|f: Field| is_relation_filter(f)),
{
    let mut fields: Vec<&Field> = Vec::new();
    let ghost pred = |f: Field| is_relation_filter(f);
    let mut i: usize = 0;
    while i < entity.fields.len()
        invariant
            i <= entity.fields.len(),
            pred == (|f: Field| is_relation_filter(f)),
            fields@.map_values(|r: &Field| *r) == entity.fields@.subrange(0, i as int).filter(pred),
        decreases entity.fields.len() - i,
    {
        let field = &entity.fields[i];
        let ghost old_view = fields@.map_values(|r: &Field| *r);
        proof {
            reveal(Seq::filter);
            assert(entity.fields@.subrange(0, i + 1).drop_last() == entity.fields@.subrange(0, i as int));
        }
        if field.capabilities.filterable && is_relation(&field.ty) {
            fields.push(field);
            proof {
                assert(fields@.map_values(|r: &Field| *r) == old_view.push(*field));
            }
        }
        i = i + 1;
    }
    proof {
        assert(entity.fields@.subrange(0, entity.fields@.len() as int) == entity.fields@);
    }
    fields
}

pub fn aggregate_fields(entity: &Entity) -> (fields: Vec<&Field>)
    ensures
        fields@.map_values(|r: &Field| *r) == entity.fields@.filter(|f: Field| is_aggregate_field(f)),
{
    let mut fields: Vec<&Field> = Vec::new();
    let ghost pred = |f: Field| is_aggregate_field(f);
    let mut i: usize = 0;
    while i < entity.fields.len()
        invariant
            i <= entity.fields.len(),
            pred == (|f: Field| is_aggregate_field(f)),
            fields@.map_values(|r: &Field| *r) == entity.fields@.subrange(0, i as int).filter(pred),
        decreases entity.fields.len() - i,
    {
        let field = &entity.fields[i];
        let ghost old_view = fields@.map_values(|r: &Field| *r);
        proof {
            reveal(Seq::filter);
            assert(entity.fields@.subrange(0, i + 1).drop_last() == entity.fields@.subrange(0, i as int));
        }
        if field.capabilities.filterable && !field.primary_key && !is_relation(&field.ty) && !is_json(&field.ty)
            && (supports_sum_avg(&field.ty) || supports_min_max(&field.ty)) {
            fields.push(field);
            proof {
                assert(fields@.map_values(|r: &Field| *r) == old_view.push(*field));
            }
        }
        i = i + 1;
    }
    proof {
        assert(entity.fields@.subrange(0, entity.fields@.len() as int) == entity.fields@);
    }
    fields
}

fn is_relation(ty: &FieldType) -> (result: bool)
    ensures
        result == ty is Relation,
{
    match ty {
        FieldType::Relation { .. } => true,
        _ => false,
    }
}

fn is_json(ty: &FieldType) -> (result: bool)
    ensures
        result == ty is Json,
{
    match ty {
        FieldType::Json => true,
        _ => false,
    }
}


/// The first field marked as primary key.
pub open spec fn first_primary(fields: Seq<Field>) -> Option<Field>
    decreases fields.len(),
{
    if fields.len() == 0 {
        None
    } else if fields[0].primary_key {
        Some(fields[0])
    } else {
        first_primary(fields.drop_first())
    }
}

pub open spec fn no_primary_key(id: Seq<char>) -> Seq<char> {
    "entity `"@ + id + "` has no primary key"@
}

pub fn primary_key(entity: &Entity) -> (result: Result<&Field, CodegenError>)
    ensures
        match result {
            Ok(field) => first_primary(entity.fields@) == Some(*field),
            Err(error) => first_primary(entity.fields@) is None && error@ == no_primary_key(entity.id@),
        },
{
    let mut i: usize = 0;
    proof {
        assert(entity.fields@.skip(0) == entity.fields@);
    }
    while i < entity.fields.len()
        invariant
            i <= entity.fields.len(),
            first_primary(entity.fields@) == first_primary(entity.fields@.skip(i as int)),
        decreases entity.fields.len() - i,
    {
        proof {
            assert(entity.fields@.skip(i as int).drop_first() == entity.fields@.skip(i + 1));
        }
        if entity.fields[i].primary_key {
            return Ok(&entity.fields[i]);
        }
        i = i + 1;
    }
    let mut message = String::from_str("entity `");
    message.append(entity.id.as_str());
    message.append("` has no primary key");
    Err(CodegenError::new(message))
}

/// The first entity with the given id.
pub open spec fn find_entity_spec(entities: Seq<Entity>, id: Seq<char>) -> Option<Entity>
    decreases entities.len(),
{
    if entities.len() == 0 {
        None
    } else if entities[0].id@ == id {
        Some(entities[0])
    } else {
        find_entity_spec(entities.drop_first(), id)
    }
}

pub open spec fn missing_entity(id: Seq<char>) -> Seq<char> {
    "missing entity `"@ + id + "`"@
}

pub fn find_entity<'a>(ir: &'a AppIr, id: &str) -> (result: Result<&'a Entity, CodegenError>)
    ensures
        match result {
            Ok(entity) => find_entity_spec(ir.entities@, id@) == Some(*entity),
            Err(error) => find_entity_spec(ir.entities@, id@) is None && error@ == missing_entity(id@),
        },
{
    let key = id.to_owned();
    let mut i: usize = 0;
    proof {
        assert(ir.entities@.skip(0) == ir.entities@);
    }
    while i < ir.entities.len()
        invariant
            i <= ir.entities.len(),
            key@ == id@,
            find_entity_spec(ir.entities@, id@) == find_entity_spec(ir.entities@.skip(i as int), id@),
        decreases ir.entities.len() - i,
    {
        proof {
            assert(ir.entities@.skip(i as int).drop_first() == ir.entities@.skip(i + 1));
        }
        if ir.entities[i].id == key {
            return Ok(&ir.entities[i]);
        }
        i = i + 1;
    }
    let mut message = String::from_str("missing entity `");
    message.append(id);
    message.append("`");
    Err(CodegenError::new(message))
}

/// The query keys that filter on one field: `filter[name]`, and for range
/// types also `filter[name][gte]` and `filter[name][lte]`.
pub open spec fn field_filter_keys(prefix: Seq<char>, field: Field) -> Seq<Seq<char>> {
    let exact = "filter["@ + prefix + field.rust_name@ + "]"@;
    if range_type(field.ty) {
        seq![exact, exact + "[gte]"@, exact + "[lte]"@]
    } else {
        seq![exact]
    }
}

/// The filter keys of every filterable field, in field order.
pub open spec fn filter_keys_spec(prefix: Seq<char>, fields: Seq<Field>) -> Seq<Seq<char>>
    decreases fields.len(),
{
    if fields.len() == 0 {
        Seq::<Seq<char>>::empty()
    } else {
        filter_keys_spec(prefix, fields.drop_last()) + if fields.last().capabilities.filterable {
            field_filter_keys(prefix, fields.last())
        } else {
            Seq::<Seq<char>>::empty()
        }
    }
}

/// The view of a list of strings.
pub open spec fn texts(values: Seq<String>) -> Seq<Seq<char>> {
    values.map_values(|value: String| value@)
}

fn push_field_keys(keys: &mut Vec<String>, prefix: &str, field: &Field)
    ensures
        texts(final(keys)@) == texts(old(keys)@) + field_filter_keys(prefix@, *field),
{
    let mut exact = String::from_str("filter[");
    exact.append(prefix);
    exact.append(field.rust_name.as_str());
    exact.append("]");
    let ghost before = texts(keys@);
    if supports_range(&field.ty) {
        let mut gte = exact.clone();
        gte.append("[gte]");
        let mut lte = exact.clone();
        lte.append("[lte]");
        keys.push(exact);
        keys.push(gte);
        keys.push(lte);
        proof {
            assert(texts(keys@) =~= before + field_filter_keys(prefix@, *field));
        }
    } else {
        keys.push(exact);
        proof {
            assert(texts(keys@) =~= before + field_filter_keys(prefix@, *field));
        }
    }
}

fn push_filter_keys(keys: &mut Vec<String>, prefix: &str, fields: &Vec<Field>)
    ensures
        texts(final(keys)@) == texts(old(keys)@) + filter_keys_spec(prefix@, fields@),
{
    let ghost start = texts(keys@);
    let mut i: usize = 0;
    while i < fields.len()
        invariant
            i <= fields.len(),
            texts(keys@) == start + filter_keys_spec(prefix@, fields@.subrange(0, i as int)),
        decreases fields.len() - i,
    {
        proof {
            assert(fields@.subrange(0, i + 1).drop_last() == fields@.subrange(0, i as int));
        }
        let field = &fields[i];
        let ghost done = filter_keys_spec(prefix@, fields@.subrange(0, i as int));
        if field.capabilities.filterable {
            push_field_keys(keys, prefix, field);
            proof {
                assert(start + done + field_filter_keys(prefix@, *field) == start + (done + field_filter_keys(prefix@, *field)));
            }
        } else {
            proof {
                assert(done + Seq::<Seq<char>>::empty() == done);
            }
        }
        i = i + 1;
    }
    proof {
        assert(fields@.subrange(0, fields@.len() as int) == fields@);
    }
}

/// The keys that list queries accept for filtering on the entity's own fields.
pub fn filter_keys(entity: &Entity) -> (keys: Vec<String>)
    ensures
        texts(keys@) == filter_keys_spec(Seq::<char>::empty(), entity.fields@),
{
    let mut keys: Vec<String> = Vec::new();
    let empty = String::new();
    proof {
        assert(texts(keys@) == Seq::<Seq<char>>::empty());
    }
    push_filter_keys(&mut keys, empty.as_str(), &entity.fields);
    proof {
        assert(Seq::<Seq<char>>::empty() + filter_keys_spec(Seq::<char>::empty(), entity.fields@)
            == filter_keys_spec(Seq::<char>::empty(), entity.fields@));
    }
    keys
}

/// The target entity id of a relation field.
pub open spec fn relation_target(field: Field) -> Seq<char> {
    match field.ty {
        FieldType::Relation { target } => target@,
        _ => Seq::<char>::empty(),
    }
}

/// The keys that filter through the relation fields to the targets' fields,
/// `filter[relation.field]` and their range forms; an unknown target is an error.
pub open spec fn relation_keys_spec(entities: Seq<Entity>, fields: Seq<Field>) -> Result<Seq<Seq<char>>, Seq<char>>
    decreases fields.len(),
{
    if fields.len() == 0 {
        Ok(Seq::<Seq<char>>::empty())
    } else {
        match relation_keys_spec(entities, fields.drop_last()) {
            Err(error) => Err(error),
            Ok(keys) => if is_relation_filter(fields.last()) {
                match find_entity_spec(entities, relation_target(fields.last())) {
                    Some(target) => Ok(keys + filter_keys_spec(fields.last().api_name@ + "."@, target.fields@)),
                    None => Err(missing_entity(relation_target(fields.last()))),
                }
            } else {
                Ok(keys)
            },
        }
    }
}

proof fn lemma_relation_keys_error(entities: Seq<Entity>, fields: Seq<Field>, k: int)
    requires
        0 <= k <= fields.len(),
        relation_keys_spec(entities, fields.subrange(0, k)) is Err,
    ensures
        relation_keys_spec(entities, fields) == relation_keys_spec(entities, fields.subrange(0, k)),
    decreases fields.len() - k,
{
    if k < fields.len() {
        assert(fields.subrange(0, k + 1).drop_last() == fields.subrange(0, k));
        lemma_relation_keys_error(entities, fields, k + 1);
    } else {
        assert(fields.subrange(0, k) == fields);
    }
}

pub fn relation_filter_keys(ir: &AppIr, entity: &Entity) -> (result: Result<Vec<String>, CodegenError>)
    ensures
        match result {
            Ok(keys) => relation_keys_spec(ir.entities@, entity.fields@) == Ok::<Seq<Seq<char>>, Seq<char>>(texts(keys@)),
            Err(error) => relation_keys_spec(ir.entities@, entity.fields@) == Err::<Seq<Seq<char>>, Seq<char>>(error@),
        },
{
    let mut keys: Vec<String> = Vec::new();
    let mut i: usize = 0;
    proof {
        assert(texts(keys@) == Seq::<Seq<char>>::empty());
        assert(entity.fields@.subrange(0, 0) == Seq::<Field>::empty());
    }
    while i < entity.fields.len()
        invariant
            i <= entity.fields.len(),
            relation_keys_spec(ir.entities@, entity.fields@.subrange(0, i as int)) == Ok::<Seq<Seq<char>>, Seq<char>>(texts(keys@)),
        decreases entity.fields.len() - i,
    {
        let ghost prefix = entity.fields@.subrange(0, i + 1);
        proof {
            assert(prefix.drop_last() == entity.fields@.subrange(0, i as int));
            assert(prefix.last() == entity.fields@[i as int]);
        }
        let field = &entity.fields[i];
        if field.capabilities.filterable {
            match &field.ty {
                FieldType::Relation { target } => {
                    let target_entity = match find_entity(ir, target.as_str()) {
                        Ok(found) => found,
                        Err(error) => {
                            proof {
                                lemma_relation_keys_error(ir.entities@, entity.fields@, i + 1);
                            }
                            return Err(error);
                        },
                    };
                    let mut prefix_text = field.api_name.clone();
                    prefix_text.append(".");
                    push_filter_keys(&mut keys, prefix_text.as_str(), &target_entity.fields);
                },
                _ => {},
            }
        }
        i = i + 1;
    }
    proof {
        assert(entity.fields@.subrange(0, entity.fields@.len() as int) == entity.fields@);
    }
    Ok(keys)
}

/// Whether some relation field leads to a target with filterable fields; an
/// unknown target met before such a field is an error.
pub open spec fn has_filters_spec(entities: Seq<Entity>, fields: Seq<Field>) -> Result<bool, Seq<char>>
    decreases fields.len(),
{
    if fields.len() == 0 {
        Ok(false)
    } else if is_relation_filter(fields[0]) {
        match find_entity_spec(entities, relation_target(fields[0])) {
            Some(target) => if target.fields@.filter(|f: Field| is_filterable(f)).len() > 0 {
                Ok(true)
            } else {
                has_filters_spec(entities, fields.drop_first())
            },
            None => Err(missing_entity(relation_target(fields[0]))),
        }
    } else {
        has_filters_spec(entities, fields.drop_first())
    }
}

pub fn has_filters(ir: &AppIr, entity: &Entity) -> (result: Result<bool, CodegenError>)
    ensures
        match result {
            Ok(found) => has_filters_spec(ir.entities@, entity.fields@) == Ok::<bool, Seq<char>>(found),
            Err(error) => has_filters_spec(ir.entities@, entity.fields@) == Err::<bool, Seq<char>>(error@),
        },
{
    let mut i: usize = 0;
    proof {
        assert(entity.fields@.skip(0) == entity.fields@);
    }
    while i < entity.fields.len()
        invariant
            i <= entity.fields.len(),
            has_filters_spec(ir.entities@, entity.fields@) == has_filters_spec(ir.entities@, entity.fields@.skip(i as int)),
        decreases entity.fields.len() - i,
    {
        proof {
            assert(entity.fields@.skip(i as int).drop_first() == entity.fields@.skip(i + 1));
            assert(entity.fields@.skip(i as int)[0] == entity.fields@[i as int]);
        }
        let field = &entity.fields[i];
        if field.capabilities.filterable {
            match &field.ty {
                FieldType::Relation { target } => {
                    let target_entity = find_entity(ir, target.as_str())?;
                    let filterable = filterable_fields(target_entity);
                    if filterable.len() > 0 {
                        proof {
                            assert(filterable@.map_values(|r: &Field| *r).len() == filterable@.len());
                        }
                        return Ok(true);
                    }
                },
                _ => {},
            }
        }
        i = i + 1;
    }
    Ok(false)
}
} // verus!
