use vstd::prelude::*;
use vstd::string::StringExecFns;
use crate::artifact::CodegenError;
use crate::billing::join_text;
use crate::field_access::{literal_text, string_literal};
use crate::fields::{find_entity, find_entity_spec, first_primary, texts};
use crate::ir::{AppIr, Entity, Field};
use crate::source::{render, render_spec};
use crate::text::append_joined;

verus! {

/// The auth configuration constants: the features that are on, the entities
/// whose views may be saved, the default role and where users are stored.
#[verifier::opaque]
pub open spec fn config_block_text(registration: Seq<char>, password_reset: Seq<char>, oauth: Seq<char>, jobs: Seq<char>, webhooks: Seq<char>, mail: Seq<char>, file: Seq<char>, tenant: Seq<char>, audit: Seq<char>, resources: Seq<Seq<char>>, default_role: Seq<char>, user_table: Seq<char>, user_id_column: Seq<char>, user_email_column: Seq<char>) -> Seq<char> {
    "pub const REGISTRATION_ENABLED: bool = "@
        + registration
        + "; pub const PASSWORD_RESET_ENABLED: bool = "@
        + password_reset
        + "; #[allow(dead_code)] pub const OAUTH_ENABLED: bool = "@
        + oauth
        + "; pub const JOBS_ENABLED: bool = "@
        + jobs
        + "; pub const WEBHOOKS_ENABLED: bool = "@
        + webhooks
        + "; pub const MAIL_ENABLED: bool = "@
        + mail
        + "; pub const FILE_ENABLED: bool = "@
        + file
        + "; pub const TENANT_ENABLED: bool = "@
        + tenant
        + "; pub const AUDIT_ENABLED: bool = "@
        + audit
        + "; pub const SAVED_VIEW_RESOURCES: &[&str] = &["@
        + join_text(resources, ", "@)
        + "]; pub const DEFAULT_ROLE: &str = "@
        + default_role
        + "; pub const USER_TABLE: &str = "@
        + user_table
        + "; pub const USER_ID_COLUMN: &str = "@
        + user_id_column
        + "; pub const USER_EMAIL_COLUMN: &str = "@
        + user_email_column
        + ";"@
}

fn config_block(registration: &str, password_reset: &str, oauth: &str, jobs: &str, webhooks: &str, mail: &str, file: &str, tenant: &str, audit: &str, resources: &Vec<String>, default_role: &str, user_table: &str, user_id_column: &str, user_email_column: &str) -> (text: String)
    ensures
        text@ == config_block_text(registration@, password_reset@, oauth@, jobs@, webhooks@, mail@, file@, tenant@, audit@, texts(resources@), default_role@, user_table@, user_id_column@, user_email_column@),
{
    proof {
        reveal(config_block_text);
    }
    let mut text = String::from_str("pub const REGISTRATION_ENABLED: bool = ");
    text.append(registration);
    text.append("; pub const PASSWORD_RESET_ENABLED: bool = ");
    text.append(password_reset);
    text.append("; #[allow(dead_code)] pub const OAUTH_ENABLED: bool = ");
    text.append(oauth);
    text.append("; pub const JOBS_ENABLED: bool = ");
    text.append(jobs);
    text.append("; pub const WEBHOOKS_ENABLED: bool = ");
    text.append(webhooks);
    text.append("; pub const MAIL_ENABLED: bool = ");
    text.append(mail);
    text.append("; pub const FILE_ENABLED: bool = ");
    text.append(file);
    text.append("; pub const TENANT_ENABLED: bool = ");
    text.append(tenant);
    text.append("; pub const AUDIT_ENABLED: bool = ");
    text.append(audit);
    text.append("; pub const SAVED_VIEW_RESOURCES: &[&str] = &[");
    append_joined(&mut text, resources, ", ");
    text.append("]; pub const DEFAULT_ROLE: &str = ");
    text.append(default_role);
    text.append("; pub const USER_TABLE: &str = ");
    text.append(user_table);
    text.append("; pub const USER_ID_COLUMN: &str = ");
    text.append(user_id_column);
    text.append("; pub const USER_EMAIL_COLUMN: &str = ");
    text.append(user_email_column);
    text.append(";");
    text
}

/// The auth module of an application without authentication: no actor, and
/// permissive CORS outside production.
#[verifier::opaque]
pub open spec fn disabled_auth_text() -> Seq<char> {
    "use crate::{Actor, ApiError, AppState}; use axum::{Router, http::HeaderMap}; "@
        + "use sea_orm::DatabaseConnection; use tower_http::cors::CorsLayer; "@
        + "#[derive(Clone, Default)] pub struct AuthState; impl AuthState { "@
        + "pub fn from_env() -> Result<Self, String> { Ok(Self) } "@
        + "pub async fn actor(&self, _database: &DatabaseConnection, _headers: &HeaderMap,) -> Result<Option<Actor>, ApiError> { "@
        + "Ok(None) } "@
        + "pub async fn actor_for_mutation(&self, _database: &DatabaseConnection, _headers: &HeaderMap,) -> Result<Option<Actor>, ApiError> { "@
        + "Ok(None) } "@
        + "pub async fn verify_csrf(&self, _database: &DatabaseConnection, _headers: &HeaderMap,) -> Result<(), ApiError> { "@
        + "Ok(()) } pub fn cors_layer(&self) -> CorsLayer { "@
        + "if std::env::var(\"APPSTRUCT_ENV\").as_deref() == Ok(\"production\") { CorsLayer::new() } "@
        + "else { CorsLayer::permissive() } } } pub fn router() -> Router<AppState> { Router::new() }"@
}

fn disabled_auth() -> (text: String)
    ensures
        text@ == disabled_auth_text(),
{
    proof {
        reveal(disabled_auth_text);
    }
    let mut text = String::from_str("use crate::{Actor, ApiError, AppState}; use axum::{Router, http::HeaderMap}; ");
    text.append("use sea_orm::DatabaseConnection; use tower_http::cors::CorsLayer; ");
    text.append("#[derive(Clone, Default)] pub struct AuthState; impl AuthState { ");
    text.append("pub fn from_env() -> Result<Self, String> { Ok(Self) } ");
    text.append("pub async fn actor(&self, _database: &DatabaseConnection, _headers: &HeaderMap,) -> Result<Option<Actor>, ApiError> { ");
    text.append("Ok(None) } ");
    text.append("pub async fn actor_for_mutation(&self, _database: &DatabaseConnection, _headers: &HeaderMap,) -> Result<Option<Actor>, ApiError> { ");
    text.append("Ok(None) } ");
    text.append("pub async fn verify_csrf(&self, _database: &DatabaseConnection, _headers: &HeaderMap,) -> Result<(), ApiError> { ");
    text.append("Ok(()) } pub fn cors_layer(&self) -> CorsLayer { ");
    text.append("if std::env::var(\"APPSTRUCT_ENV\").as_deref() == Ok(\"production\") { CorsLayer::new() } ");
    text.append("else { CorsLayer::permissive() } } } pub fn router() -> Router<AppState> { Router::new() }");
    text
}

/// The first field with the given API name.
pub open spec fn field_named(fields: Seq<Field>, api_name: Seq<char>) -> Option<Field>
    decreases fields.len(),
{
    if fields.len() == 0 {
        None
    } else if fields[0].api_name@ == api_name {
        Some(fields[0])
    } else {
        field_named(fields.drop_first(), api_name)
    }
}

fn find_named<'a>(fields: &'a Vec<Field>, api_name: &str) -> (result: Option<&'a Field>)
    ensures
        match result {
            Some(field) => field_named(fields@, api_name@) == Some(*field),
            None => field_named(fields@, api_name@) is None,
        },
{
    let key = api_name.to_owned();
    let mut i: usize = 0;
    proof {
        assert(fields@.skip(0) == fields@);
    }
    while i < fields.len()
        invariant
            i <= fields.len(),
            key@ == api_name@,
            field_named(fields@, api_name@) == field_named(fields@.skip(i as int), api_name@),
        decreases fields.len() - i,
    {
        proof {
            assert(fields@.skip(i as int).drop_first() == fields@.skip(i + 1));
        }
        if fields[i].api_name == key {
            return Some(&fields[i]);
        }
        i = i + 1;
    }
    None
}

fn find_primary<'a>(fields: &'a Vec<Field>) -> (result: Option<&'a Field>)
    ensures
        match result {
            Some(field) => first_primary(fields@) == Some(*field),
            None => first_primary(fields@) is None,
        },
{
    let mut i: usize = 0;
    proof {
        assert(fields@.skip(0) == fields@);
    }
    while i < fields.len()
        invariant
            i <= fields.len(),
            first_primary(fields@) == first_primary(fields@.skip(i as int)),
        decreases fields.len() - i,
    {
        proof {
            assert(fields@.skip(i as int).drop_first() == fields@.skip(i + 1));
        }
        if fields[i].primary_key {
            return Some(&fields[i]);
        }
        i = i + 1;
    }
    None
}

/// What the compiler guarantees of an application with authentication: a
/// user entity and a default role are named, and the user entity, where it
/// exists, has a primary key and an `email` field.
pub open spec fn auth_ready(ir: AppIr) -> bool {
    &&& ir.auth.user_entity is Some
    &&& ir.auth.default_role is Some
    &&& find_entity_spec(ir.entities@, ir.auth.user_entity->Some_0@) matches Some(user) ==> {
        &&& first_primary(user.fields@) is Some
        &&& field_named(user.fields@, "email"@) is Some
    }
}

/// `true` or `false`.
pub open spec fn bool_text(value: bool) -> Seq<char> {
    if value { "true"@ } else { "false"@ }
}

fn bool_literal(value: bool) -> (text: &'static str)
    ensures
        text@ == bool_text(value),
{
    if value { "true" } else { "false" }
}

/// The ids of the entities, as string literals.
pub open spec fn resources_text(entities: Seq<Entity>) -> Seq<char> {
    join_text(entities.map_values(|entity: Entity| literal_text(entity.id@)), ", "@)
}

/// The auth configuration module, or the error of a missing user entity.
pub open spec fn auth_config_spec(ir: AppIr, header: Seq<char>) -> Result<Seq<char>, Seq<char>> {
    let user_id = ir.auth.user_entity->Some_0@;
    match find_entity_spec(ir.entities@, user_id) {
        None => Err(crate::fields::missing_entity(user_id)),
        Some(user) => {
            let id = first_primary(user.fields@)->Some_0;
            let email = field_named(user.fields@, "email"@)->Some_0;
            render_spec(
                config_block_text(
                    bool_text(ir.auth.registration_enabled),
                    bool_text(ir.auth.password_reset_enabled),
                    bool_text(ir.auth.oauth_enabled),
                    bool_text(ir.jobs.enabled),
                    bool_text(ir.webhooks.enabled),
                    bool_text(ir.mail.enabled),
                    bool_text(ir.file.enabled),
                    bool_text(ir.tenant.enabled),
                    bool_text(ir.audit.enabled),
                    ir.entities@.map_values(|entity: Entity| literal_text(entity.id@)),
                    literal_text(ir.auth.default_role->Some_0@),
                    literal_text(user.table_name@),
                    literal_text(id.column_name@),
                    literal_text(email.column_name@)
                ),
                header,
            )
        },
    }
}

/// The auth configuration module; `header` opens the file.
pub fn auth_config_source(ir: &AppIr, header: &str) -> (result: Result<String, CodegenError>)
    requires
        auth_ready(*ir),
    ensures
        match result {
            Ok(text) => auth_config_spec(*ir, header@) == Ok::<Seq<char>, Seq<char>>(text@),
            Err(error) => auth_config_spec(*ir, header@) == Err::<Seq<char>, Seq<char>>(error@),
        },
{
    let user_id = ir.auth.user_entity.as_ref().unwrap();
    let user = find_entity(ir, user_id.as_str())?;
    let id = find_primary(&user.fields).unwrap();
    let email = find_named(&user.fields, "email").unwrap();
    let default_role_name = ir.auth.default_role.as_ref().unwrap();
    let mut ids: Vec<String> = Vec::new();
    let mut i: usize = 0;
    proof {
        assert(ir.entities@.subrange(0, 0).map_values(|entity: Entity| literal_text(entity.id@)) == Seq::<Seq<char>>::empty());
    }
    while i < ir.entities.len()
        invariant
            i <= ir.entities.len(),
            texts(ids@) == ir.entities@.subrange(0, i as int).map_values(|entity: Entity| literal_text(entity.id@)),
        decreases ir.entities.len() - i,
    {
        let literal = string_literal(ir.entities[i].id.as_str());
        let ghost before = texts(ids@);
        ids.push(literal);
        proof {
            assert(texts(ids@) == before.push(literal@));
            assert(texts(ids@) =~= ir.entities@.subrange(0, i + 1).map_values(|entity: Entity| literal_text(entity.id@)));
        }
        i = i + 1;
    }
    proof {
        assert(ir.entities@.subrange(0, ir.entities@.len() as int) == ir.entities@);
    }
    let default_literal = string_literal(default_role_name.as_str());
    let table_literal = string_literal(user.table_name.as_str());
    let id_literal = string_literal(id.column_name.as_str());
    let email_literal = string_literal(email.column_name.as_str());
    let text = config_block(
        bool_literal(ir.auth.registration_enabled),
        bool_literal(ir.auth.password_reset_enabled),
        bool_literal(ir.auth.oauth_enabled),
        bool_literal(ir.jobs.enabled),
        bool_literal(ir.webhooks.enabled),
        bool_literal(ir.mail.enabled),
        bool_literal(ir.file.enabled),
        bool_literal(ir.tenant.enabled),
        bool_literal(ir.audit.enabled),
        &ids,
        default_literal.as_str(),
        table_literal.as_str(),
        id_literal.as_str(),
        email_literal.as_str()
    );
    render(text.as_str(), header)
}

/// The auth module of an application without authentication.
pub fn disabled_auth_source(header: &str) -> (result: Result<String, CodegenError>)
    ensures
        match result {
            Ok(text) => render_spec(disabled_auth_text(), header@) == Ok::<Seq<char>, Seq<char>>(text@),
            Err(error) => render_spec(disabled_auth_text(), header@) == Err::<Seq<char>, Seq<char>>(error@),
        },
{
    let text = disabled_auth();
    render(text.as_str(), header)
}

} // verus!
