use appstruct_codegen::access::{
    column_ident, condition, create_allowed, member_scope, operation_allowed, owner_field,
    row_allowed, scope, tenant_condition, tenant_scope, update_allowed,
};
use appstruct_codegen::{AccessRule, Entity, EntityAccess, EntityViews, Field, FieldCapabilities, FieldType};

fn project_field(id: &str, name: &str, ty: FieldType, nullable: bool) -> Field {
    Field {
        id: id.to_owned(),
        rust_name: name.to_owned(),
        api_name: name.to_owned(),
        column_name: name.to_owned(),
        ty,
        nullable,
        primary_key: name == "id",
        unique: false,
        generated: None,
        default: None,
        read_access: None,
        write_access: None,
        capabilities: FieldCapabilities { filterable: true, searchable: false, sortable: false },
    }
}

fn project(tenant_scoped: bool) -> Entity {
    Entity {
        id: "project".to_owned(),
        rust_name: "Project".to_owned(),
        table_name: "projects".to_owned(),
        tenant_scoped,
        fields: vec![
            project_field("project.id", "id", FieldType::Uuid, false),
            project_field("project.owner_id", "owner_id", FieldType::Relation { target: "user".to_owned() }, false),
            project_field("project.approver_id", "approver_id", FieldType::Uuid, true),
            project_field("project.bad", "fn", FieldType::Uuid, false),
        ],
        workflow: None,
        access: open_access(),
        views: EntityViews { soft_delete: false, aggregates: vec![] },
        audit_enabled: false,
    }
}

fn owner() -> AccessRule {
    AccessRule::Owner { field: "project.owner_id".to_owned() }
}

fn admin() -> AccessRule {
    AccessRule::Role { role: "admin".to_owned() }
}

#[test]
fn leaf_guards() {
    let entity = project(false);
    assert_eq!(row_allowed(&entity, &AccessRule::Public).unwrap(), "true");
    assert_eq!(row_allowed(&entity, &AccessRule::Authenticated).unwrap(), "context.actor().is_some()");
    assert_eq!(
        row_allowed(&entity, &admin()).unwrap(),
        "context.actor().is_some_and(|actor| actor.has_role(\"admin\"))"
    );
    assert_eq!(
        row_allowed(&entity, &owner()).unwrap(),
        "context.actor().is_some_and(|actor| model.owner_id == actor.id)"
    );
    assert_eq!(
        create_allowed(&entity, &owner()).unwrap(),
        "context.actor().is_some_and(|actor| input.owner_id == actor.id)"
    );
}

#[test]
fn update_guard_checks_both_records() {
    let entity = project(false);
    assert_eq!(
        update_allowed(&entity, &owner()).unwrap(),
        "context.actor().is_some_and(|actor| before.owner_id == actor.id && candidate.owner_id == actor.id)"
    );
    let nullable = AccessRule::Owner { field: "project.approver_id".to_owned() };
    assert_eq!(
        update_allowed(&entity, &nullable).unwrap(),
        "context.actor().is_some_and(|actor| before.approver_id == Some(actor.id) && candidate.approver_id == Some(actor.id))"
    );
}

#[test]
fn combined_guards_chain_operators() {
    let entity = project(false);
    let any = AccessRule::Any { rules: vec![admin(), owner()] };
    assert_eq!(
        row_allowed(&entity, &any).unwrap(),
        "false || context.actor().is_some_and(|actor| actor.has_role(\"admin\")) || context.actor().is_some_and(|actor| model.owner_id == actor.id)"
    );
    let all = AccessRule::All { rules: vec![AccessRule::Authenticated, owner()] };
    assert_eq!(
        row_allowed(&entity, &all).unwrap(),
        "true && context.actor().is_some() && context.actor().is_some_and(|actor| model.owner_id == actor.id)"
    );
    assert_eq!(row_allowed(&entity, &AccessRule::Any { rules: vec![] }).unwrap(), "false");
    assert_eq!(row_allowed(&entity, &AccessRule::All { rules: vec![] }).unwrap(), "true");
}

#[test]
fn guard_errors_name_the_first_problem() {
    let entity = project(false);
    let missing = AccessRule::Owner { field: "project.nowhere".to_owned() };
    let rule = AccessRule::Any { rules: vec![AccessRule::Public, missing, AccessRule::Owner { field: "project.bad".to_owned() }] };
    assert_eq!(row_allowed(&entity, &rule).unwrap_err().to_string(), "missing owner field `project.nowhere`");
    let keyword = AccessRule::Owner { field: "project.bad".to_owned() };
    assert!(row_allowed(&entity, &keyword).unwrap_err().to_string().starts_with("invalid Rust identifier `fn`"));
}

#[test]
fn operation_guards() {
    assert_eq!(operation_allowed(&AccessRule::Public), "true");
    let rule = AccessRule::All { rules: vec![AccessRule::Authenticated, admin()] };
    assert_eq!(
        operation_allowed(&rule),
        "true && context.actor().is_some() && context.actor().is_some_and(|actor| actor.has_role(\"admin\"))"
    );
}

#[test]
fn role_names_are_escaped() {
    let rule = AccessRule::Role { role: "a\"b".to_owned() };
    assert_eq!(operation_allowed(&rule), "context.actor().is_some_and(|actor| actor.has_role(\"a\\\"b\"))");
}

#[test]
fn owner_field_lookup() {
    let entity = project(false);
    assert_eq!(owner_field(&entity.fields, "project.owner_id").unwrap().rust_name, "owner_id");
    assert_eq!(owner_field(&entity.fields, "x").unwrap_err().to_string(), "missing owner field `x`");
    assert_eq!(column_ident(&entity.fields[1]).unwrap(), "OwnerId");
}

#[test]
fn leaf_conditions() {
    let entity = project(false);
    assert_eq!(condition(&entity.fields, "project", &AccessRule::Public).unwrap(), "Some(Condition::all())");
    assert_eq!(
        condition(&entity.fields, "project", &AccessRule::Authenticated).unwrap(),
        "context.actor().map(|_| Condition::all())"
    );
    assert_eq!(
        condition(&entity.fields, "project", &admin()).unwrap(),
        "context.actor().filter(|actor| actor.has_role(\"admin\")).map(|_| Condition::all())"
    );
    assert_eq!(
        condition(&entity.fields, "project", &owner()).unwrap(),
        "context.actor().map(|actor| Condition::all().add(project::Column::OwnerId.eq(actor.id)))"
    );
}

#[test]
fn combined_conditions() {
    let entity = project(false);
    let any = AccessRule::Any { rules: vec![AccessRule::Public, owner()] };
    assert_eq!(
        condition(&entity.fields, "project", &any).unwrap(),
        "{ let children = vec![Some(Condition::all()), context.actor().map(|actor| Condition::all().add(project::Column::OwnerId.eq(actor.id)))].into_iter().flatten().collect::<Vec<_>>(); if children.is_empty() { None } else { Some(children.into_iter().fold(Condition::any(), |scope, child| scope.add(child))) } }"
    );
    let all = AccessRule::All { rules: vec![AccessRule::Authenticated] };
    assert_eq!(
        condition(&entity.fields, "project", &all).unwrap(),
        "{ let children = vec![context.actor().map(|_| Condition::all())]; if children.iter().any(Option::is_none) { None } else { Some(children.into_iter().flatten().fold(Condition::all(), |scope, child| scope.add(child))) } }"
    );
    let missing = AccessRule::All { rules: vec![AccessRule::Owner { field: "nowhere".to_owned() }] };
    assert_eq!(condition(&entity.fields, "project", &missing).unwrap_err().to_string(), "missing owner field `nowhere`");
}

#[test]
fn list_and_member_scopes() {
    let plain = project(false);
    assert_eq!(
        scope(&plain, "project", &AccessRule::Public).unwrap(),
        "let access_scope = Some(Condition::all()); let access_condition = match access_scope { Some(condition) => condition, None => return Err(access_denied(&context)), }; select = select.filter(access_condition); "
    );
    let tenant = project(true);
    assert_eq!(
        scope(&tenant, "project", &AccessRule::Public).unwrap(),
        "let access_scope = Some(Condition::all()); let access_condition = match access_scope { Some(condition) => condition, None => return Err(access_denied(&context)), }; select = select.filter(access_condition); let tenant_id = context.require_tenant()?; select = select.filter(project::Column::TenantId.eq(tenant_id));"
    );
    assert_eq!(
        member_scope(&tenant, "project", &AccessRule::Authenticated).unwrap(),
        "let access_condition = context.actor().map(|_| Condition::all()).ok_or_else(|| access_denied(&context))?.add(project::Column::TenantId.eq(context.require_tenant()?));"
    );
    assert_eq!(
        member_scope(&plain, "project", &AccessRule::Public).unwrap(),
        "let access_condition = Some(Condition::all()).ok_or_else(|| access_denied(&context))?;"
    );
    assert_eq!(
        member_scope(&tenant, "project", &AccessRule::Public).unwrap(),
        "let access_condition = Some(Condition::all()).ok_or_else(|| access_denied(&context))?.add(project::Column::TenantId.eq(context.require_tenant()?));"
    );
    assert_eq!(tenant_scope(&plain, "project"), "");
    let mut trashable = project(true);
    trashable.views.soft_delete = true;
    trashable.fields.push(project_field("project.deleted_at", "deleted_at", FieldType::Datetime, true));
    assert_eq!(
        scope(&trashable, "project", &AccessRule::Public).unwrap(),
        "let access_scope = Some(Condition::all()); let access_condition = match access_scope { Some(condition) => condition, None => return Err(access_denied(&context)), }; select = select.filter(access_condition); let tenant_id = context.require_tenant()?; select = select.filter(project::Column::TenantId.eq(tenant_id)); select = select.filter(project::Column::DeletedAt.is_null());"
    );
    assert_eq!(
        member_scope(&trashable, "project", &AccessRule::Authenticated).unwrap(),
        "let access_condition = context.actor().map(|_| Condition::all()).ok_or_else(|| access_denied(&context))?.add(project::Column::TenantId.eq(context.require_tenant()?)).add(project::Column::DeletedAt.is_null());"
    );
    let mut plain_trashable = project(false);
    plain_trashable.views.soft_delete = true;
    assert_eq!(
        member_scope(&plain_trashable, "project", &AccessRule::Public).unwrap(),
        "let access_condition = Some(Condition::all()).ok_or_else(|| access_denied(&context))?.add(project::Column::DeletedAt.is_null());"
    );
    assert_eq!(tenant_condition(&plain, "project"), "");
}

fn open_access() -> EntityAccess {
    EntityAccess {
        list: AccessRule::Public,
        read: AccessRule::Public,
        create: AccessRule::Authenticated,
        update: AccessRule::Authenticated,
        delete: AccessRule::Authenticated,
    }
}

#[test]
fn empty_combinations_refuse_or_admit() {
    let entity = project(false);
    assert_eq!(
        condition(&entity.fields, "project", &AccessRule::Any { rules: vec![] }).unwrap(),
        "{ let children = vec![].into_iter().flatten().collect::<Vec<_>>(); if children.is_empty() { None } else { Some(children.into_iter().fold(Condition::any(), |scope, child| scope.add(child))) } }"
    );
    assert_eq!(
        condition(&entity.fields, "project", &AccessRule::All { rules: vec![] }).unwrap(),
        "{ let children = vec![]; if children.iter().any(Option::is_none) { None } else { Some(children.into_iter().flatten().fold(Condition::all(), |scope, child| scope.add(child))) } }"
    );
}
