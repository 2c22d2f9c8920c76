use appstruct_codegen::field_access::{field_access_arms, write_guards};
use appstruct_codegen::query::{filter_rules, filter_validation, search_rule, sort_rules};
use appstruct_codegen::values::{create_value, create_values, default_expression, update_values};
use appstruct_codegen::{AccessRule, Entity, EntityAccess, EntityViews, Field, FieldCapabilities, FieldType, GeneratedValue, Workflow};

fn plain_field(name: &str, ty: FieldType) -> Field {
    Field {
        id: format!("note.{name}"),
        rust_name: name.to_owned(),
        api_name: name.to_owned(),
        column_name: name.to_owned(),
        ty,
        nullable: false,
        primary_key: false,
        unique: false,
        generated: None,
        default: None,
        read_access: None,
        write_access: None,
        capabilities: FieldCapabilities { filterable: false, searchable: false, sortable: false },
    }
}

fn note() -> Entity {
    let mut id = plain_field("id", FieldType::Uuid);
    id.primary_key = true;
    id.generated = Some(GeneratedValue::UuidV7);
    let mut title = plain_field("title", FieldType::String);
    title.capabilities = FieldCapabilities { filterable: true, searchable: true, sortable: true };
    title.write_access = Some(AccessRule::Role { role: "editor".to_owned() });
    let mut rank = plain_field("rank", FieldType::Integer);
    rank.default = Some("-7".to_owned());
    rank.capabilities.filterable = true;
    rank.read_access = Some(AccessRule::Authenticated);
    let mut body = plain_field("body", FieldType::Text);
    body.nullable = true;
    body.capabilities.searchable = true;
    let mut state = plain_field("state", FieldType::String);
    state.id = "note.state".to_owned();
    let mut serial = plain_field("serial", FieldType::Bigint);
    serial.generated = Some(GeneratedValue::AutoIncrement);
    let mut day = plain_field("day", FieldType::Date);
    day.generated = Some(GeneratedValue::Now);
    Entity {
        id: "note".to_owned(),
        rust_name: "Note".to_owned(),
        table_name: "notes".to_owned(),
        tenant_scoped: false,
        fields: vec![id, title, rank, body, state, serial, day],
        workflow: Some(Workflow { field: "note.state".to_owned(), initial: "draft".to_owned(), transitions: vec![] }),
        access: open_access(),
        views: EntityViews { soft_delete: false, aggregates: vec![] },
        audit_enabled: false,
    }
}

#[test]
fn default_expressions_by_type() {
    let note = note();
    assert_eq!(default_expression(&note.fields[2], "-7"), "\"\\u{2d}\" 7i32");
    assert_eq!(default_expression(&note.fields[2], "+0012"), "12i32");
    assert_eq!(default_expression(&note.fields[2], "-2147483648"), "\"\\u{2d}\" 2147483648i32");
    assert_eq!(default_expression(&note.fields[2], "-0"), "0i32");
    assert_eq!(default_expression(&note.fields[5], "9223372036854775807"), "9223372036854775807i64");
    assert_eq!(default_expression(&note.fields[1], "hi \"x\""), "\"hi \\\"x\\\"\".to_owned()");
    assert_eq!(default_expression(&plain_field("on", FieldType::Boolean), "true"), "true");
    assert_eq!(
        default_expression(&plain_field("at", FieldType::Date), "2024-01-02"),
        "chrono::NaiveDate::parse_from_str(\"2024-01-02\", \"%Y-%m-%d\").expect(\"validated default\")"
    );
}

#[test]
fn create_values_per_field() {
    let note = note();
    assert_eq!(
        create_values(&note).unwrap(),
        vec![
            "id: Set(uuid::Uuid::now_v7())".to_owned(),
            "title: Set(input.title.ok_or_else(|| ApiError::Validation(vec![FieldViolation { field: \"title\".to_owned(), message: \"field `title` is required\".to_owned() }]))?)".to_owned(),
            "rank: Set(input.rank.unwrap_or_else(|| \"\\u{2d}\" 7i32))".to_owned(),
            "body: Set(input.body)".to_owned(),
            "state: Set(\"draft\".to_owned())".to_owned(),
            "day: Set(chrono::Utc::now().date_naive())".to_owned(),
        ]
    );
    assert_eq!(create_value(&note, &note.fields[5]).unwrap(), None);
    let mut bad = note.fields[1].clone_shallow();
    bad.rust_name = "type".to_owned();
    assert!(create_value(&note, &bad).unwrap_err().to_string().starts_with("invalid Rust identifier `type`"));
}

trait ShallowClone {
    fn clone_shallow(&self) -> Field;
}

impl ShallowClone for Field {
    fn clone_shallow(&self) -> Field {
        Field {
            id: self.id.clone(),
            rust_name: self.rust_name.clone(),
            api_name: self.api_name.clone(),
            column_name: self.column_name.clone(),
            ty: self.ty.clone(),
            nullable: self.nullable,
            primary_key: self.primary_key,
            unique: self.unique,
            generated: self.generated,
            default: self.default.clone(),
            read_access: None,
            write_access: None,
            capabilities: self.capabilities,
        }
    }
}

#[test]
fn update_values_copy_or_clone() {
    let note = note();
    assert_eq!(
        update_values(&note).unwrap(),
        vec![
            "if let Some(value) = &input.title { active.title = Set(value.clone()); }".to_owned(),
            "if let Some(value) = &input.rank { active.rank = Set(*value); }".to_owned(),
            "if let Some(value) = &input.body { active.body = Set(value.clone()); }".to_owned(),
        ]
    );
}

#[test]
fn field_access_match_arms() {
    let note = note();
    assert_eq!(field_access_arms(&note, true), vec!["\"rank\" => context.actor().is_some()".to_owned()]);
    assert_eq!(
        field_access_arms(&note, false),
        vec!["\"title\" => context.actor().is_some_and(|actor| actor.has_role(\"editor\"))".to_owned()]
    );
}

#[test]
fn write_guard_statements() {
    let note = note();
    let check = "if !field_write_allowed(context, \"title\") { return Err(access_denied(context)); }";
    assert_eq!(write_guards(&note, false).unwrap(), vec![check.to_owned()]);
    assert_eq!(write_guards(&note, true).unwrap(), vec![format!("if input.title.is_some() {{ {check} }}")]);
}

#[test]
fn filter_statements() {
    let note = note();
    let rules = filter_rules(&note, "note").unwrap();
    assert_eq!(rules.len(), 4);
    assert_eq!(
        rules[0],
        "if let Some(raw) = query.filters.get(\"filter[title]\") { if !field_read_allowed(&context, \"title\") { return Err(access_denied(&context)); } let value = raw.to_owned(); select = select.filter(note::Column::Title.eq(value)); }"
    );
    assert!(rules[2].starts_with("if let Some(raw) = query.filters.get(\"filter[rank][gte]\")"));
    assert!(rules[2].ends_with("select = select.filter(note::Column::Rank.gte(value)); }"));
    assert!(rules[3].ends_with("select = select.filter(note::Column::Rank.lte(value)); }"));
}

#[test]
fn filter_key_validation() {
    assert_eq!(
        filter_validation(&vec![]),
        "if let Some(key) = query.filters.keys().next() { return Err(ApiError::InvalidQuery(format!(\"unsupported query parameter `{key}`\"))); }"
    );
    assert_eq!(
        filter_validation(&vec!["filter[a]".to_owned(), "filter[b]".to_owned()]),
        "for key in query.filters.keys() { match key.as_str() { \"filter[a]\" => {}, \"filter[b]\" => {}, _ => return Err(ApiError::InvalidQuery(format!(\"unsupported query parameter `{key}`\"))), } }"
    );
}

#[test]
fn sort_and_search_statements() {
    let note = note();
    let sorts = sort_rules(&note, "note").unwrap();
    assert_eq!(sorts.len(), 2);
    assert_eq!(
        sorts[0],
        "\"id\" => { if !field_read_allowed(&context, \"id\") { return Err(access_denied(&context)); } select = if descending { select.order_by_desc(note::Column::Id) } else { select.order_by_asc(note::Column::Id) }; primary_sorted |= true; }"
    );
    assert!(sorts[1].ends_with("primary_sorted |= false; }"));
    assert_eq!(
        search_rule(&note, "note").unwrap(),
        "if let Some(term) = query.q.as_deref().map(str::trim).filter(|value| !value.is_empty()) { let mut condition = Condition::any(); let mut searchable_field_allowed = false; if field_read_allowed(&context, \"title\") { searchable_field_allowed = true; condition = condition.add(note::Column::Title.contains(term)); } if field_read_allowed(&context, \"body\") { searchable_field_allowed = true; condition = condition.add(note::Column::Body.contains(term)); } if !searchable_field_allowed { return Err(access_denied(&context)); } select = select.filter(condition); }"
    );
    let mut plain = note;
    for field in plain.fields.iter_mut() {
        field.capabilities.searchable = false;
    }
    assert_eq!(
        search_rule(&plain, "note").unwrap(),
        "if query.q.as_ref().is_some_and(|value| !value.trim().is_empty()) { return Err(ApiError::InvalidQuery(\"this resource does not support search\".to_owned())); }"
    );
}

fn open_access() -> EntityAccess {
    EntityAccess {
        list: AccessRule::Public,
        read: AccessRule::Public,
        create: AccessRule::Authenticated,
        update: AccessRule::Authenticated,
        delete: AccessRule::Authenticated,
    }
}

#[test]
fn string_defaults_escape_control_characters() {
    let note = note();
    assert_eq!(default_expression(&note.fields[1], "tab\there\n"), "\"tab\\there\\n\".to_owned()");
    assert_eq!(default_expression(&note.fields[1], "it's"), "\"it's\".to_owned()");
}
