use vstd::prelude::*;
use vstd::string::StringExecFns;
use crate::artifact::CodegenError;
use crate::expressions::{operation_type, operation_type_spec};
use crate::fields::{rust_type, rust_type_text, texts};
use crate::ident::{ident_result, parse_ident};
use crate::ir::{AppIr, Command, Entity, Query, ValueField, ValueObject};
use crate::naming::{module_name, snake_text};
use crate::source::{render, render_spec};
use crate::text::{append_suffixed, suffixed_text};

verus! {

/// The constructors and accessors of the request context.
#[verifier::opaque]
pub open spec fn context_methods_text() -> Seq<char> {
    "impl<'db> RequestContext<'db> { "@
        + "pub fn connection(database: &'db DatabaseConnection, mail: &'db crate::MailState, actor: Option<Actor>, tenant: Option<TenantId>,) -> Self { "@
        + "Self { "@
        + "database: RequestDatabase::Connection(database), mail, file: None, realtime: None, actor, tenant } "@
        + "} "@
        + "pub fn transaction(database: &'db DatabaseTransaction, mail: &'db crate::MailState, actor: Option<Actor>, tenant: Option<TenantId>,) -> Self { "@
        + "Self { "@
        + "database: RequestDatabase::Transaction(database), mail, file: None, realtime: None, actor, tenant } "@
        + "} "@
        + "pub fn connection_with_file(database: &'db DatabaseConnection, mail: &'db crate::MailState, file: &'db crate::FileState, actor: Option<Actor>, tenant: Option<TenantId>,) -> Self { "@
        + "Self { "@
        + "database: RequestDatabase::Connection(database), mail, file: Some(file), realtime: None, actor, tenant } "@
        + "} "@
        + "pub(crate) fn connection_with_services(database: &'db DatabaseConnection, mail: &'db crate::MailState, file: &'db crate::FileState, realtime: &'db crate::RealtimeState, actor: Option<Actor>, tenant: Option<TenantId>,) -> Self { "@
        + "Self { "@
        + "database: RequestDatabase::Connection(database), mail, file: Some(file), realtime: Some(realtime), actor, tenant, } "@
        + "} "@
        + "pub(crate) fn transaction_with_file(database: &'db DatabaseTransaction, mail: &'db crate::MailState, file: &'db crate::FileState, realtime: &'db crate::RealtimeState, actor: Option<Actor>, tenant: Option<TenantId>,) -> Self { "@
        + "Self { "@
        + "database: RequestDatabase::Transaction(database), mail, file: Some(file), realtime: Some(realtime), actor, tenant, } "@
        + "} pub fn database(&self) -> &Self { self } pub fn actor(&self) -> Option<&Actor> { "@
        + "self.actor.as_ref() } pub fn tenant(&self) -> Option<TenantId> { self.tenant } "@
        + "pub fn require_tenant(&self) -> Result<TenantId, ApiError> { "@
        + "self.tenant.ok_or(ApiError::InvalidTenant) } "@
        + "pub async fn send_mail(&self, template: &str, recipient: &str, variables: &std::collections::BTreeMap<String, String>,) -> Result<crate::MailDelivery, crate::MailError> { "@
        + "self.mail.send_template(template, recipient, variables, self.tenant).await } "@
        + "pub async fn enqueue_job<T: serde::Serialize>(&self, queue: &str, kind: &str, payload: &T, idempotency_key: Option<&str>, run_at: Option<chrono::DateTime<chrono::Utc>>,) -> Result<crate::JobReceipt, crate::JobError> { "@
        + "crate::jobs::enqueue(self, queue, kind, payload, idempotency_key, run_at, self.tenant,).await } "@
        + "pub async fn publish_webhook<T: serde::Serialize>(&self, event: &str, payload: &T, idempotency_key: Option<&str>,) -> Result<crate::WebhookReceipt, crate::WebhookError> { "@
        + "crate::webhooks::publish(self, event, payload, idempotency_key, self.tenant,).await } "@
        + "pub fn publish_realtime<T: serde::Serialize>(&self, event: &str, payload: &T,) -> Result<crate::RealtimeEvent, serde_json::Error> { "@
        + "if let Some(realtime) = self.realtime { "@
        + "realtime.publish(event, payload, self.actor.as_ref().map(|actor| actor.id), self.tenant,) } "@
        + "else { "@
        + "crate::RealtimeState::default().publish(event, payload, self.actor.as_ref().map(|actor| actor.id), self.tenant,) } "@
        + "} "@
        + "pub async fn put_file(&self, object_key: &str, original_name: &str, content_type: &str, content: &[u8],) -> Result<crate::FileMetadata, crate::FileError> { "@
        + "self.file.ok_or(crate::FileError::Disabled)?.put(object_key, original_name, content_type, content, self.tenant).await } "@
        + "pub async fn get_file(&self, object_key: &str,) -> Result<(crate::FileMetadata, Vec<u8>), crate::FileError> { "@
        + "self.file.ok_or(crate::FileError::Disabled)?.get(object_key, self.tenant).await } "@
        + "pub async fn delete_file(&self, object_key: &str) -> Result<(), crate::FileError> { "@
        + "self.file.ok_or(crate::FileError::Disabled)?.delete(object_key, self.tenant).await } }"@
}

fn context_methods() -> (text: String)
    ensures
        text@ == context_methods_text(),
{
    proof {
        reveal(context_methods_text);
    }
    let mut text = String::from_str("impl<'db> RequestContext<'db> { ");
    text.append("pub fn connection(database: &'db DatabaseConnection, mail: &'db crate::MailState, actor: Option<Actor>, tenant: Option<TenantId>,) -> Self { ");
    text.append("Self { ");
    text.append("database: RequestDatabase::Connection(database), mail, file: None, realtime: None, actor, tenant } ");
    text.append("} ");
    text.append("pub fn transaction(database: &'db DatabaseTransaction, mail: &'db crate::MailState, actor: Option<Actor>, tenant: Option<TenantId>,) -> Self { ");
    text.append("Self { ");
    text.append("database: RequestDatabase::Transaction(database), mail, file: None, realtime: None, actor, tenant } ");
    text.append("} ");
    text.append("pub fn connection_with_file(database: &'db DatabaseConnection, mail: &'db crate::MailState, file: &'db crate::FileState, actor: Option<Actor>, tenant: Option<TenantId>,) -> Self { ");
    text.append("Self { ");
    text.append("database: RequestDatabase::Connection(database), mail, file: Some(file), realtime: None, actor, tenant } ");
    text.append("} ");
    text.append("pub(crate) fn connection_with_services(database: &'db DatabaseConnection, mail: &'db crate::MailState, file: &'db crate::FileState, realtime: &'db crate::RealtimeState, actor: Option<Actor>, tenant: Option<TenantId>,) -> Self { ");
    text.append("Self { ");
    text.append("database: RequestDatabase::Connection(database), mail, file: Some(file), realtime: Some(realtime), actor, tenant, } ");
    text.append("} ");
    text.append("pub(crate) fn transaction_with_file(database: &'db DatabaseTransaction, mail: &'db crate::MailState, file: &'db crate::FileState, realtime: &'db crate::RealtimeState, actor: Option<Actor>, tenant: Option<TenantId>,) -> Self { ");
    text.append("Self { ");
    text.append("database: RequestDatabase::Transaction(database), mail, file: Some(file), realtime: Some(realtime), actor, tenant, } ");
    text.append("} pub fn database(&self) -> &Self { self } pub fn actor(&self) -> Option<&Actor> { ");
    text.append("self.actor.as_ref() } pub fn tenant(&self) -> Option<TenantId> { self.tenant } ");
    text.append("pub fn require_tenant(&self) -> Result<TenantId, ApiError> { ");
    text.append("self.tenant.ok_or(ApiError::InvalidTenant) } ");
    text.append("pub async fn send_mail(&self, template: &str, recipient: &str, variables: &std::collections::BTreeMap<String, String>,) -> Result<crate::MailDelivery, crate::MailError> { ");
    text.append("self.mail.send_template(template, recipient, variables, self.tenant).await } ");
    text.append("pub async fn enqueue_job<T: serde::Serialize>(&self, queue: &str, kind: &str, payload: &T, idempotency_key: Option<&str>, run_at: Option<chrono::DateTime<chrono::Utc>>,) -> Result<crate::JobReceipt, crate::JobError> { ");
    text.append("crate::jobs::enqueue(self, queue, kind, payload, idempotency_key, run_at, self.tenant,).await } ");
    text.append("pub async fn publish_webhook<T: serde::Serialize>(&self, event: &str, payload: &T, idempotency_key: Option<&str>,) -> Result<crate::WebhookReceipt, crate::WebhookError> { ");
    text.append("crate::webhooks::publish(self, event, payload, idempotency_key, self.tenant,).await } ");
    text.append("pub fn publish_realtime<T: serde::Serialize>(&self, event: &str, payload: &T,) -> Result<crate::RealtimeEvent, serde_json::Error> { ");
    text.append("if let Some(realtime) = self.realtime { ");
    text.append("realtime.publish(event, payload, self.actor.as_ref().map(|actor| actor.id), self.tenant,) } ");
    text.append("else { ");
    text.append("crate::RealtimeState::default().publish(event, payload, self.actor.as_ref().map(|actor| actor.id), self.tenant,) } ");
    text.append("} ");
    text.append("pub async fn put_file(&self, object_key: &str, original_name: &str, content_type: &str, content: &[u8],) -> Result<crate::FileMetadata, crate::FileError> { ");
    text.append("self.file.ok_or(crate::FileError::Disabled)?.put(object_key, original_name, content_type, content, self.tenant).await } ");
    text.append("pub async fn get_file(&self, object_key: &str,) -> Result<(crate::FileMetadata, Vec<u8>), crate::FileError> { ");
    text.append("self.file.ok_or(crate::FileError::Disabled)?.get(object_key, self.tenant).await } ");
    text.append("pub async fn delete_file(&self, object_key: &str) -> Result<(), crate::FileError> { ");
    text.append("self.file.ok_or(crate::FileError::Disabled)?.delete(object_key, self.tenant).await } }");
    text
}

/// The request context runs statements on its connection or transaction.
#[verifier::opaque]
pub open spec fn connection_impl_text() -> Seq<char> {
    "#[async_trait] impl ConnectionTrait for RequestContext<'_> { "@
        + "fn get_database_backend(&self) -> DbBackend { match self.database { "@
        + "RequestDatabase::Connection(database) => database.get_database_backend(), RequestDatabase::Transaction(database) => database.get_database_backend(), } "@
        + "} async fn execute_raw(&self, statement: Statement) -> Result<ExecResult, DbErr> { "@
        + "match self.database { "@
        + "RequestDatabase::Connection(database) => database.execute_raw(statement).await, RequestDatabase::Transaction(database) => database.execute_raw(statement).await, } "@
        + "} async fn execute_unprepared(&self, sql: &str) -> Result<ExecResult, DbErr> { "@
        + "match self.database { "@
        + "RequestDatabase::Connection(database) => database.execute_unprepared(sql).await, RequestDatabase::Transaction(database) => database.execute_unprepared(sql).await, } "@
        + "} "@
        + "async fn query_one_raw(&self, statement: Statement) -> Result<Option<QueryResult>, DbErr> { "@
        + "match self.database { "@
        + "RequestDatabase::Connection(database) => database.query_one_raw(statement).await, RequestDatabase::Transaction(database) => database.query_one_raw(statement).await, } "@
        + "} "@
        + "async fn query_all_raw(&self, statement: Statement) -> Result<Vec<QueryResult>, DbErr> { "@
        + "match self.database { "@
        + "RequestDatabase::Connection(database) => database.query_all_raw(statement).await, RequestDatabase::Transaction(database) => database.query_all_raw(statement).await, } "@
        + "} }"@
}

fn connection_impl() -> (text: String)
    ensures
        text@ == connection_impl_text(),
{
    proof {
        reveal(connection_impl_text);
    }
    let mut text = String::from_str("#[async_trait] impl ConnectionTrait for RequestContext<'_> { ");
    text.append("fn get_database_backend(&self) -> DbBackend { match self.database { ");
    text.append("RequestDatabase::Connection(database) => database.get_database_backend(), RequestDatabase::Transaction(database) => database.get_database_backend(), } ");
    text.append("} async fn execute_raw(&self, statement: Statement) -> Result<ExecResult, DbErr> { ");
    text.append("match self.database { ");
    text.append("RequestDatabase::Connection(database) => database.execute_raw(statement).await, RequestDatabase::Transaction(database) => database.execute_raw(statement).await, } ");
    text.append("} async fn execute_unprepared(&self, sql: &str) -> Result<ExecResult, DbErr> { ");
    text.append("match self.database { ");
    text.append("RequestDatabase::Connection(database) => database.execute_unprepared(sql).await, RequestDatabase::Transaction(database) => database.execute_unprepared(sql).await, } ");
    text.append("} ");
    text.append("async fn query_one_raw(&self, statement: Statement) -> Result<Option<QueryResult>, DbErr> { ");
    text.append("match self.database { ");
    text.append("RequestDatabase::Connection(database) => database.query_one_raw(statement).await, RequestDatabase::Transaction(database) => database.query_one_raw(statement).await, } ");
    text.append("} ");
    text.append("async fn query_all_raw(&self, statement: Statement) -> Result<Vec<QueryResult>, DbErr> { ");
    text.append("match self.database { ");
    text.append("RequestDatabase::Connection(database) => database.query_all_raw(statement).await, RequestDatabase::Transaction(database) => database.query_all_raw(statement).await, } ");
    text.append("} }");
    text
}

/// The request context: which database it runs on, the services it reaches,
/// the actor and the tenant.
#[verifier::opaque]
pub open spec fn request_context_text_of(methods: Seq<char>, connection: Seq<char>) -> Seq<char> {
    "#[derive(Clone, Copy)] enum RequestDatabase<'db> { "@
        + "Connection(&'db DatabaseConnection), Transaction(&'db DatabaseTransaction), } "@
        + "#[derive(Clone)] pub struct RequestContext<'db> { "@
        + "database: RequestDatabase<'db>, mail: &'db crate::MailState, file: Option<&'db crate::FileState>, realtime: Option<&'db crate::RealtimeState>, actor: Option<Actor>, tenant: Option<TenantId>, } "@
        + methods
        + " "@
        + connection
}

/// The request context with its methods.
pub open spec fn request_context_text() -> Seq<char> {
    request_context_text_of(context_methods_text(), connection_impl_text())
}

fn request_context() -> (text: String)
    ensures
        text@ == request_context_text(),
{
    proof {
        reveal(request_context_text_of);
    }
    let methods_text = context_methods();
    let connection_text = connection_impl();
    let methods = methods_text.as_str();
    let connection = connection_text.as_str();
    let mut text = String::from_str("#[derive(Clone, Copy)] enum RequestDatabase<'db> { ");
    text.append("Connection(&'db DatabaseConnection), Transaction(&'db DatabaseTransaction), } ");
    text.append("#[derive(Clone)] pub struct RequestContext<'db> { ");
    text.append("database: RequestDatabase<'db>, mail: &'db crate::MailState, file: Option<&'db crate::FileState>, realtime: Option<&'db crate::RealtimeState>, actor: Option<Actor>, tenant: Option<TenantId>, } ");
    text.append(methods);
    text.append(" ");
    text.append(connection);
    text
}

/// The Rust type of a value-object field: optional unless required.
pub open spec fn value_field_type(field: ValueField) -> Seq<char> {
    if field.required {
        rust_type_text(field.ty)
    } else {
        "Option<"@ + rust_type_text(field.ty) + ">"@
    }
}

/// One public field of a value object.
#[verifier::opaque]
pub open spec fn value_field_text(name: Seq<char>, ty: Seq<char>) -> Seq<char> {
    "pub "@
        + name
        + ": "@
        + ty
}

fn value_field_line(name: &str, ty: &str) -> (text: String)
    ensures
        text@ == value_field_text(name@, ty@),
{
    proof {
        reveal(value_field_text);
    }
    let mut text = String::from_str("pub ");
    text.append(name);
    text.append(": ");
    text.append(ty);
    text
}

/// A value object: a serialisable struct of its fields.
#[verifier::opaque]
pub open spec fn value_struct_text(name: Seq<char>, fields: Seq<Seq<char>>) -> Seq<char> {
    "#[derive(Clone, Debug, serde::Serialize, serde::Deserialize)] pub struct "@
        + name
        + " { "@
        + suffixed_text(fields, ", "@)
        + " }"@
}

fn value_struct(name: &str, fields: &Vec<String>) -> (text: String)
    ensures
        text@ == value_struct_text(name@, texts(fields@)),
{
    proof {
        reveal(value_struct_text);
    }
    let mut text = String::from_str("#[derive(Clone, Debug, serde::Serialize, serde::Deserialize)] pub struct ");
    text.append(name);
    text.append(" { ");
    append_suffixed(&mut text, fields, ", ");
    text.append(" }");
    text
}

/// The fields of a value object, in order, or the first invalid field name.
pub open spec fn value_fields_spec(fields: Seq<ValueField>) -> Result<Seq<Seq<char>>, Seq<char>>
    decreases fields.len(),
{
    if fields.len() == 0 {
        Ok(Seq::<Seq<char>>::empty())
    } else {
        match value_fields_spec(fields.drop_last()) {
            Err(error) => Err(error),
            Ok(lines) => match ident_result(fields.last().rust_name@) {
                Err(error) => Err(error),
                Ok(name) => Ok(lines.push(value_field_text(name, value_field_type(fields.last())))),
            },
        }
    }
}

proof fn lemma_value_fields_error(fields: Seq<ValueField>, k: int)
    requires
        0 <= k <= fields.len(),
        value_fields_spec(fields.subrange(0, k)) is Err,
    ensures
        value_fields_spec(fields) == value_fields_spec(fields.subrange(0, k)),
    decreases fields.len() - k,
{
    if k < fields.len() {
        assert(fields.subrange(0, k + 1).drop_last() == fields.subrange(0, k));
        lemma_value_fields_error(fields, k + 1);
    } else {
        assert(fields.subrange(0, k) == fields);
    }
}

/// The struct of a value object, or the first invalid name: its own, then its fields'.
pub open spec fn value_object_spec(value: ValueObject) -> Result<Seq<char>, Seq<char>> {
    match ident_result(value.rust_name@) {
        Err(error) => Err(error),
        Ok(name) => match value_fields_spec(value.fields@) {
            Err(error) => Err(error),
            Ok(fields) => Ok(value_struct_text(name, fields)),
        },
    }
}

fn field_type(field: &ValueField) -> (text: String)
    ensures
        text@ == value_field_type(*field),
{
    let base = rust_type(&field.ty);
    if field.required {
        String::from_str(base)
    } else {
        let mut text = String::from_str("Option<");
        text.append(base);
        text.append(">");
        text
    }
}

/// The struct of a value object.
pub fn value_object(value: &ValueObject) -> (result: Result<String, CodegenError>)
    ensures
        match result {
            Ok(text) => value_object_spec(*value) == Ok::<Seq<char>, Seq<char>>(text@),
            Err(error) => value_object_spec(*value) == Err::<Seq<char>, Seq<char>>(error@),
        },
{
    let name = parse_ident(value.rust_name.as_str())?;
    let mut fields: Vec<String> = Vec::new();
    let mut i: usize = 0;
    proof {
        assert(value.fields@.subrange(0, 0) == Seq::<ValueField>::empty());
        assert(texts(fields@) == Seq::<Seq<char>>::empty());
    }
    while i < value.fields.len()
        invariant
            i <= value.fields.len(),
            ident_result(value.rust_name@) == Ok::<Seq<char>, Seq<char>>(name@),
            value_fields_spec(value.fields@.subrange(0, i as int)) == Ok::<Seq<Seq<char>>, Seq<char>>(texts(fields@)),
        decreases value.fields.len() - i,
    {
        proof {
            assert(value.fields@.subrange(0, i + 1).drop_last() == value.fields@.subrange(0, i as int));
        }
        let field = &value.fields[i];
        let field_name = match parse_ident(field.rust_name.as_str()) {
            Ok(field_name) => field_name,
            Err(error) => {
                proof {
                    lemma_value_fields_error(value.fields@, i + 1);
                }
                return Err(error);
            },
        };
        let ty = field_type(field);
        let line = value_field_line(field_name.as_str(), ty.as_str());
        let ghost before = texts(fields@);
        fields.push(line);
        proof {
            assert(texts(fields@) == before.push(line@));
        }
        i = i + 1;
    }
    proof {
        assert(value.fields@.subrange(0, value.fields@.len() as int) == value.fields@);
    }
    Ok(value_struct(name.as_str(), &fields))
}

/// The module of an entity.
pub open spec fn entity_module(entity: Entity) -> Seq<char> {
    snake_text(entity.rust_name@)
}

/// The registry slot of an entity's hooks.
pub open spec fn hook_slot(entity: Entity) -> Seq<char> {
    entity_module(entity) + "_hooks"@
}

/// The registry slot of an entity's policy.
pub open spec fn policy_slot(entity: Entity) -> Seq<char> {
    entity_module(entity) + "_policy"@
}

/// The hooks trait of an entity.
pub open spec fn hook_trait(entity: Entity) -> Seq<char> {
    entity.rust_name@ + "Hooks"@
}

/// The policy trait of an entity.
pub open spec fn policy_trait(entity: Entity) -> Seq<char> {
    entity.rust_name@ + "Policy"@
}

/// The hooks that do nothing, used until the application sets its own.
pub open spec fn default_hook(entity: Entity) -> Seq<char> {
    "Default"@ + entity.rust_name@ + "Hooks"@
}

/// The policy that allows everything, used until the application sets its own.
pub open spec fn default_policy(entity: Entity) -> Seq<char> {
    "Default"@ + entity.rust_name@ + "Policy"@
}

fn joined(first: &str, second: &str) -> (text: String)
    ensures
        text@ == first@ + second@,
{
    let mut text = String::from_str(first);
    text.append(second);
    text
}

fn defaulted(name: &str, suffix: &str) -> (text: String)
    ensures
        text@ == "Default"@ + name@ + suffix@,
{
    let mut text = String::from_str("Default");
    text.append(name);
    text.append(suffix);
    text
}

/// The hooks trait of an entity, every hook a no-op by default, with its default implementation.
#[verifier::opaque]
pub open spec fn hook_contract_text(trait_name: Seq<char>, default_name: Seq<char>, module: Seq<char>) -> Seq<char> {
    "#[async_trait] pub trait "@
        + trait_name
        + ": Send + Sync { "@
        + "async fn before_validate_create(&self, _ctx: &RequestContext, _input: &mut api::"@
        + module
        + "::CreateInput) -> Result<(), ApiError> { Ok(()) } "@
        + "async fn before_validate_update(&self, _ctx: &RequestContext, _input: &mut api::"@
        + module
        + "::UpdateInput) -> Result<(), ApiError> { Ok(()) } "@
        + "async fn before_create(&self, _ctx: &RequestContext, _input: &mut api::"@
        + module
        + "::CreateInput) -> Result<(), ApiError> { Ok(()) } "@
        + "async fn after_create(&self, _ctx: &RequestContext, _model: &entities::"@
        + module
        + "::Model) -> Result<(), ApiError> { Ok(()) } "@
        + "async fn before_update(&self, _ctx: &RequestContext, _before: &entities::"@
        + module
        + "::Model, _input: &mut api::"@
        + module
        + "::UpdateInput) -> Result<(), ApiError> { Ok(()) } "@
        + "async fn after_update(&self, _ctx: &RequestContext, _before: &entities::"@
        + module
        + "::Model, _after: &entities::"@
        + module
        + "::Model) -> Result<(), ApiError> { Ok(()) } "@
        + "async fn before_delete(&self, _ctx: &RequestContext, _model: &entities::"@
        + module
        + "::Model) -> Result<(), ApiError> { Ok(()) } "@
        + "async fn after_delete(&self, _ctx: &RequestContext, _model: &entities::"@
        + module
        + "::Model) -> Result<(), ApiError> { Ok(()) } "@
        + "async fn after_commit(&self, _ctx: &RequestContext, _operation: HookOperation, _model: &entities::"@
        + module
        + "::Model) -> Result<(), ApiError> { Ok(()) } } struct "@
        + default_name
        + "; #[async_trait] impl "@
        + trait_name
        + " for "@
        + default_name
        + " {}"@
}

fn hook_text(trait_name: &str, default_name: &str, module: &str) -> (text: String)
    ensures
        text@ == hook_contract_text(trait_name@, default_name@, module@),
{
    proof {
        reveal(hook_contract_text);
    }
    let mut text = String::from_str("#[async_trait] pub trait ");
    text.append(trait_name);
    text.append(": Send + Sync { ");
    text.append("async fn before_validate_create(&self, _ctx: &RequestContext, _input: &mut api::");
    text.append(module);
    text.append("::CreateInput) -> Result<(), ApiError> { Ok(()) } ");
    text.append("async fn before_validate_update(&self, _ctx: &RequestContext, _input: &mut api::");
    text.append(module);
    text.append("::UpdateInput) -> Result<(), ApiError> { Ok(()) } ");
    text.append("async fn before_create(&self, _ctx: &RequestContext, _input: &mut api::");
    text.append(module);
    text.append("::CreateInput) -> Result<(), ApiError> { Ok(()) } ");
    text.append("async fn after_create(&self, _ctx: &RequestContext, _model: &entities::");
    text.append(module);
    text.append("::Model) -> Result<(), ApiError> { Ok(()) } ");
    text.append("async fn before_update(&self, _ctx: &RequestContext, _before: &entities::");
    text.append(module);
    text.append("::Model, _input: &mut api::");
    text.append(module);
    text.append("::UpdateInput) -> Result<(), ApiError> { Ok(()) } ");
    text.append("async fn after_update(&self, _ctx: &RequestContext, _before: &entities::");
    text.append(module);
    text.append("::Model, _after: &entities::");
    text.append(module);
    text.append("::Model) -> Result<(), ApiError> { Ok(()) } ");
    text.append("async fn before_delete(&self, _ctx: &RequestContext, _model: &entities::");
    text.append(module);
    text.append("::Model) -> Result<(), ApiError> { Ok(()) } ");
    text.append("async fn after_delete(&self, _ctx: &RequestContext, _model: &entities::");
    text.append(module);
    text.append("::Model) -> Result<(), ApiError> { Ok(()) } ");
    text.append("async fn after_commit(&self, _ctx: &RequestContext, _operation: HookOperation, _model: &entities::");
    text.append(module);
    text.append("::Model) -> Result<(), ApiError> { Ok(()) } } struct ");
    text.append(default_name);
    text.append("; #[async_trait] impl ");
    text.append(trait_name);
    text.append(" for ");
    text.append(default_name);
    text.append(" {}");
    text
}

/// The policy trait of an entity, every check allowing by default, with its default implementation.
#[verifier::opaque]
pub open spec fn policy_contract_text(trait_name: Seq<char>, default_name: Seq<char>, module: Seq<char>) -> Seq<char> {
    "#[async_trait] pub trait "@
        + trait_name
        + ": Send + Sync { async fn can_read(&self, _ctx: &RequestContext, _model: &entities::"@
        + module
        + "::Model) -> Result<bool, ApiError> { Ok(true) } "@
        + "async fn can_create(&self, _ctx: &RequestContext, _input: &api::"@
        + module
        + "::CreateInput) -> Result<bool, ApiError> { Ok(true) } "@
        + "async fn can_update(&self, _ctx: &RequestContext, _before: &entities::"@
        + module
        + "::Model, _input: &api::"@
        + module
        + "::UpdateInput, _after: &entities::"@
        + module
        + "::Model) -> Result<bool, ApiError> { Ok(true) } "@
        + "async fn can_delete(&self, _ctx: &RequestContext, _model: &entities::"@
        + module
        + "::Model) -> Result<bool, ApiError> { Ok(true) } } struct "@
        + default_name
        + "; #[async_trait] impl "@
        + trait_name
        + " for "@
        + default_name
        + " {}"@
}

fn policy_text(trait_name: &str, default_name: &str, module: &str) -> (text: String)
    ensures
        text@ == policy_contract_text(trait_name@, default_name@, module@),
{
    proof {
        reveal(policy_contract_text);
    }
    let mut text = String::from_str("#[async_trait] pub trait ");
    text.append(trait_name);
    text.append(": Send + Sync { async fn can_read(&self, _ctx: &RequestContext, _model: &entities::");
    text.append(module);
    text.append("::Model) -> Result<bool, ApiError> { Ok(true) } ");
    text.append("async fn can_create(&self, _ctx: &RequestContext, _input: &api::");
    text.append(module);
    text.append("::CreateInput) -> Result<bool, ApiError> { Ok(true) } ");
    text.append("async fn can_update(&self, _ctx: &RequestContext, _before: &entities::");
    text.append(module);
    text.append("::Model, _input: &api::");
    text.append(module);
    text.append("::UpdateInput, _after: &entities::");
    text.append(module);
    text.append("::Model) -> Result<bool, ApiError> { Ok(true) } ");
    text.append("async fn can_delete(&self, _ctx: &RequestContext, _model: &entities::");
    text.append(module);
    text.append("::Model) -> Result<bool, ApiError> { Ok(true) } } struct ");
    text.append(default_name);
    text.append("; #[async_trait] impl ");
    text.append(trait_name);
    text.append(" for ");
    text.append(default_name);
    text.append(" {}");
    text
}

/// The hook contract of an entity, or the error of its module name.
pub open spec fn hook_contract_spec(entity: Entity) -> Result<Seq<char>, Seq<char>> {
    match ident_result(entity_module(entity)) {
        Err(error) => Err(error),
        Ok(module) => Ok(hook_contract_text(hook_trait(entity), default_hook(entity), module)),
    }
}

/// The hook contract of an entity.
pub fn hook_contract(entity: &Entity) -> (result: Result<String, CodegenError>)
    ensures
        match result {
            Ok(text) => hook_contract_spec(*entity) == Ok::<Seq<char>, Seq<char>>(text@),
            Err(error) => hook_contract_spec(*entity) == Err::<Seq<char>, Seq<char>>(error@),
        },
{
    let trait_name = joined(entity.rust_name.as_str(), "Hooks");
    let default_name = defaulted(entity.rust_name.as_str(), "Hooks");
    let name = module_name(entity);
    let module = parse_ident(name.as_str())?;
    Ok(hook_text(trait_name.as_str(), default_name.as_str(), module.as_str()))
}

/// The hook contracts of the entities, in order, or the first error.
pub open spec fn hook_contracts_spec(entities: Seq<Entity>) -> Result<Seq<Seq<char>>, Seq<char>>
    decreases entities.len(),
{
    if entities.len() == 0 {
        Ok(Seq::<Seq<char>>::empty())
    } else {
        match hook_contracts_spec(entities.drop_last()) {
            Err(error) => Err(error),
            Ok(contracts) => match hook_contract_spec(entities.last()) {
                Err(error) => Err(error),
                Ok(contract) => Ok(contracts.push(contract)),
            },
        }
    }
}

proof fn lemma_hook_contracts_error(entities: Seq<Entity>, k: int)
    requires
        0 <= k <= entities.len(),
        hook_contracts_spec(entities.subrange(0, k)) is Err,
    ensures
        hook_contracts_spec(entities) == hook_contracts_spec(entities.subrange(0, k)),
    decreases entities.len() - k,
{
    if k < entities.len() {
        assert(entities.subrange(0, k + 1).drop_last() == entities.subrange(0, k));
        lemma_hook_contracts_error(entities, k + 1);
    } else {
        assert(entities.subrange(0, k) == entities);
    }
}

fn hook_contracts(entities: &Vec<Entity>) -> (result: Result<Vec<String>, CodegenError>)
    ensures
        match result {
            Ok(contracts) => hook_contracts_spec(entities@) == Ok::<Seq<Seq<char>>, Seq<char>>(texts(contracts@)),
            Err(error) => hook_contracts_spec(entities@) == Err::<Seq<Seq<char>>, Seq<char>>(error@),
        },
{
    let mut contracts: Vec<String> = Vec::new();
    let mut i: usize = 0;
    proof {
        assert(entities@.subrange(0, 0) == Seq::<Entity>::empty());
        assert(texts(contracts@) == Seq::<Seq<char>>::empty());
    }
    while i < entities.len()
        invariant
            i <= entities.len(),
            hook_contracts_spec(entities@.subrange(0, i as int)) == Ok::<Seq<Seq<char>>, Seq<char>>(texts(contracts@)),
        decreases entities.len() - i,
    {
        proof {
            assert(entities@.subrange(0, i + 1).drop_last() == entities@.subrange(0, i as int));
        }
        let contract = match hook_contract(&entities[i]) {
            Ok(contract) => contract,
            Err(error) => {
                proof {
                    lemma_hook_contracts_error(entities@, i + 1);
                }
                return Err(error);
            },
        };
        let ghost before = texts(contracts@);
        contracts.push(contract);
        proof {
            assert(texts(contracts@) == before.push(contract@));
        }
        i = i + 1;
    }
    proof {
        assert(entities@.subrange(0, entities@.len() as int) == entities@);
    }
    Ok(contracts)
}

/// The policy contract of an entity, or the error of its module name.
pub open spec fn policy_contract_spec(entity: Entity) -> Result<Seq<char>, Seq<char>> {
    match ident_result(entity_module(entity)) {
        Err(error) => Err(error),
        Ok(module) => Ok(policy_contract_text(policy_trait(entity), default_policy(entity), module)),
    }
}

/// The policy contract of an entity.
pub fn policy_contract(entity: &Entity) -> (result: Result<String, CodegenError>)
    ensures
        match result {
            Ok(text) => policy_contract_spec(*entity) == Ok::<Seq<char>, Seq<char>>(text@),
            Err(error) => policy_contract_spec(*entity) == Err::<Seq<char>, Seq<char>>(error@),
        },
{
    let trait_name = joined(entity.rust_name.as_str(), "Policy");
    let default_name = defaulted(entity.rust_name.as_str(), "Policy");
    let name = module_name(entity);
    let module = parse_ident(name.as_str())?;
    Ok(policy_text(trait_name.as_str(), default_name.as_str(), module.as_str()))
}

/// The policy contracts of the entities, in order, or the first error.
pub open spec fn policy_contracts_spec(entities: Seq<Entity>) -> Result<Seq<Seq<char>>, Seq<char>>
    decreases entities.len(),
{
    if entities.len() == 0 {
        Ok(Seq::<Seq<char>>::empty())
    } else {
        match policy_contracts_spec(entities.drop_last()) {
            Err(error) => Err(error),
            Ok(contracts) => match policy_contract_spec(entities.last()) {
                Err(error) => Err(error),
                Ok(contract) => Ok(contracts.push(contract)),
            },
        }
    }
}

proof fn lemma_policy_contracts_error(entities: Seq<Entity>, k: int)
    requires
        0 <= k <= entities.len(),
        policy_contracts_spec(entities.subrange(0, k)) is Err,
    ensures
        policy_contracts_spec(entities) == policy_contracts_spec(entities.subrange(0, k)),
    decreases entities.len() - k,
{
    if k < entities.len() {
        assert(entities.subrange(0, k + 1).drop_last() == entities.subrange(0, k));
        lemma_policy_contracts_error(entities, k + 1);
    } else {
        assert(entities.subrange(0, k) == entities);
    }
}

fn policy_contracts(entities: &Vec<Entity>) -> (result: Result<Vec<String>, CodegenError>)
    ensures
        match result {
            Ok(contracts) => policy_contracts_spec(entities@) == Ok::<Seq<Seq<char>>, Seq<char>>(texts(contracts@)),
            Err(error) => policy_contracts_spec(entities@) == Err::<Seq<Seq<char>>, Seq<char>>(error@),
        },
{
    let mut contracts: Vec<String> = Vec::new();
    let mut i: usize = 0;
    proof {
        assert(entities@.subrange(0, 0) == Seq::<Entity>::empty());
        assert(texts(contracts@) == Seq::<Seq<char>>::empty());
    }
    while i < entities.len()
        invariant
            i <= entities.len(),
            policy_contracts_spec(entities@.subrange(0, i as int)) == Ok::<Seq<Seq<char>>, Seq<char>>(texts(contracts@)),
        decreases entities.len() - i,
    {
        proof {
            assert(entities@.subrange(0, i + 1).drop_last() == entities@.subrange(0, i as int));
        }
        let contract = match policy_contract(&entities[i]) {
            Ok(contract) => contract,
            Err(error) => {
                proof {
                    lemma_policy_contracts_error(entities@, i + 1);
                }
                return Err(error);
            },
        };
        let ghost before = texts(contracts@);
        contracts.push(contract);
        proof {
            assert(texts(contracts@) == before.push(contract@));
        }
        i = i + 1;
    }
    proof {
        assert(entities@.subrange(0, entities@.len() as int) == entities@);
    }
    Ok(contracts)
}

/// The handler trait of a command, or of a query with input.
#[verifier::opaque]
pub open spec fn command_trait_text(name: Seq<char>, input: Seq<char>, output: Seq<char>) -> Seq<char> {
    "#[async_trait] pub trait "@
        + name
        + ": Send + Sync { async fn execute(&self, ctx: &RequestContext, input: "@
        + input
        + ") -> Result<"@
        + output
        + ", ApiError>; }"@
}

fn command_trait(name: &str, input: &str, output: &str) -> (text: String)
    ensures
        text@ == command_trait_text(name@, input@, output@),
{
    proof {
        reveal(command_trait_text);
    }
    let mut text = String::from_str("#[async_trait] pub trait ");
    text.append(name);
    text.append(": Send + Sync { async fn execute(&self, ctx: &RequestContext, input: ");
    text.append(input);
    text.append(") -> Result<");
    text.append(output);
    text.append(", ApiError>; }");
    text
}

/// The `execute` method of a query with input.
#[verifier::opaque]
pub open spec fn input_method_text(input: Seq<char>, output: Seq<char>) -> Seq<char> {
    "async fn execute(&self, ctx: &RequestContext, input: "@
        + input
        + ") -> Result<"@
        + output
        + ", ApiError>;"@
}

fn input_method(input: &str, output: &str) -> (text: String)
    ensures
        text@ == input_method_text(input@, output@),
{
    proof {
        reveal(input_method_text);
    }
    let mut text = String::from_str("async fn execute(&self, ctx: &RequestContext, input: ");
    text.append(input);
    text.append(") -> Result<");
    text.append(output);
    text.append(", ApiError>;");
    text
}

/// The `execute` method of a query without input.
#[verifier::opaque]
pub open spec fn plain_method_text(output: Seq<char>) -> Seq<char> {
    "async fn execute(&self, ctx: &RequestContext) -> Result<"@
        + output
        + ", ApiError>;"@
}

fn plain_method(output: &str) -> (text: String)
    ensures
        text@ == plain_method_text(output@),
{
    proof {
        reveal(plain_method_text);
    }
    let mut text = String::from_str("async fn execute(&self, ctx: &RequestContext) -> Result<");
    text.append(output);
    text.append(", ApiError>;");
    text
}

/// The handler trait of a query.
#[verifier::opaque]
pub open spec fn query_trait_text(name: Seq<char>, method: Seq<char>) -> Seq<char> {
    "#[async_trait] pub trait "@
        + name
        + ": Send + Sync { "@
        + method
        + " }"@
}

fn query_trait(name: &str, method: &str) -> (text: String)
    ensures
        text@ == query_trait_text(name@, method@),
{
    proof {
        reveal(query_trait_text);
    }
    let mut text = String::from_str("#[async_trait] pub trait ");
    text.append(name);
    text.append(": Send + Sync { ");
    text.append(method);
    text.append(" }");
    text
}

/// `+ name` for every trait name: the bounds that the required handlers combine.
pub open spec fn plus_text(names: Seq<Seq<char>>) -> Seq<char>
    decreases names.len(),
{
    if names.len() == 0 {
        Seq::<char>::empty()
    } else {
        plus_text(names.drop_last()) + "+ "@ + names.last() + " "@
    }
}

fn plus_bounds(names: &Vec<String>) -> (text: String)
    ensures
        text@ == plus_text(texts(names@)),
{
    let mut text = String::new();
    let mut i: usize = 0;
    proof {
        assert(texts(names@.subrange(0, 0)) == Seq::<Seq<char>>::empty());
    }
    while i < names.len()
        invariant
            i <= names.len(),
            text@ == plus_text(texts(names@.subrange(0, i as int))),
        decreases names.len() - i,
    {
        proof {
            assert(texts(names@.subrange(0, i + 1)).drop_last() == texts(names@.subrange(0, i as int)));
            assert(texts(names@.subrange(0, i + 1)).last() == names@[i as int]@);
        }
        text.append("+ ");
        text.append(names[i].as_str());
        text.append(" ");
        i = i + 1;
    }
    proof {
        assert(names@.subrange(0, names@.len() as int) == names@);
    }
    text
}

/// The handler traits and `RequiredHandlers`, which every one of them bounds.
#[verifier::opaque]
pub open spec fn handler_traits_text(traits: Seq<Seq<char>>, bounds: Seq<char>) -> Seq<char> {
    suffixed_text(traits, " "@)
        + " pub trait RequiredHandlers: Send + Sync "@
        + bounds
        + "{} impl<T> RequiredHandlers for T where T: Send + Sync "@
        + bounds
        + "{}"@
}

fn traits_block(traits: &Vec<String>, bounds: &str) -> (text: String)
    ensures
        text@ == handler_traits_text(texts(traits@), bounds@),
{
    proof {
        reveal(handler_traits_text);
    }
    let mut text = String::new();
    append_suffixed(&mut text, traits, " ");
    text.append(" pub trait RequiredHandlers: Send + Sync ");
    text.append(bounds);
    text.append("{} impl<T> RequiredHandlers for T where T: Send + Sync ");
    text.append(bounds);
    text.append("{}");
    text
}

/// The trait and trait name of a command, or the first error: input, then output.
pub open spec fn command_trait_spec(ir: AppIr, command: Command) -> Result<(Seq<char>, Seq<char>), Seq<char>> {
    let name = command.rust_name@ + "Handler"@;
    match operation_type_spec(ir, command.input) {
        Err(error) => Err(error),
        Ok(input) => match operation_type_spec(ir, command.output) {
            Err(error) => Err(error),
            Ok(output) => Ok((command_trait_text(name, input, output), name)),
        },
    }
}

/// The trait and trait name of a query, or the first error: output, then input.
pub open spec fn query_trait_spec(ir: AppIr, query: Query) -> Result<(Seq<char>, Seq<char>), Seq<char>> {
    let name = query.rust_name@ + "Handler"@;
    match operation_type_spec(ir, query.output) {
        Err(error) => Err(error),
        Ok(output) => match query.input {
            Some(ty) => match operation_type_spec(ir, ty) {
                Err(error) => Err(error),
                Ok(input) => Ok((query_trait_text(name, input_method_text(input, output)), name)),
            },
            None => Ok((query_trait_text(name, plain_method_text(output)), name)),
        },
    }
}

/// The traits and names of the commands' handlers, in order, or the first error.
pub open spec fn command_traits_spec(ir: AppIr, commands: Seq<Command>) -> Result<(Seq<Seq<char>>, Seq<Seq<char>>), Seq<char>>
    decreases commands.len(),
{
    if commands.len() == 0 {
        Ok((Seq::<Seq<char>>::empty(), Seq::<Seq<char>>::empty()))
    } else {
        match command_traits_spec(ir, commands.drop_last()) {
            Err(error) => Err(error),
            Ok((traits, names)) => match command_trait_spec(ir, commands.last()) {
                Err(error) => Err(error),
                Ok((one, name)) => Ok((traits.push(one), names.push(name))),
            },
        }
    }
}

/// The traits and names of the queries' handlers, in order, or the first error.
pub open spec fn query_traits_spec(ir: AppIr, queries: Seq<Query>) -> Result<(Seq<Seq<char>>, Seq<Seq<char>>), Seq<char>>
    decreases queries.len(),
{
    if queries.len() == 0 {
        Ok((Seq::<Seq<char>>::empty(), Seq::<Seq<char>>::empty()))
    } else {
        match query_traits_spec(ir, queries.drop_last()) {
            Err(error) => Err(error),
            Ok((traits, names)) => match query_trait_spec(ir, queries.last()) {
                Err(error) => Err(error),
                Ok((one, name)) => Ok((traits.push(one), names.push(name))),
            },
        }
    }
}

/// The handler traits of the commands, then of the queries, or the first error.
pub open spec fn handler_traits_spec(ir: AppIr) -> Result<Seq<char>, Seq<char>> {
    match command_traits_spec(ir, ir.commands@) {
        Err(error) => Err(error),
        Ok((command_traits, command_names)) => match query_traits_spec(ir, ir.queries@) {
            Err(error) => Err(error),
            Ok((query_traits, query_names)) => Ok(
                handler_traits_text(command_traits + query_traits, plus_text(command_names + query_names)),
            ),
        },
    }
}

proof fn lemma_command_traits_error(ir: AppIr, commands: Seq<Command>, k: int)
    requires
        0 <= k <= commands.len(),
        command_traits_spec(ir, commands.subrange(0, k)) is Err,
    ensures
        command_traits_spec(ir, commands) == command_traits_spec(ir, commands.subrange(0, k)),
    decreases commands.len() - k,
{
    if k < commands.len() {
        assert(commands.subrange(0, k + 1).drop_last() == commands.subrange(0, k));
        lemma_command_traits_error(ir, commands, k + 1);
    } else {
        assert(commands.subrange(0, k) == commands);
    }
}

proof fn lemma_query_traits_error(ir: AppIr, queries: Seq<Query>, k: int)
    requires
        0 <= k <= queries.len(),
        query_traits_spec(ir, queries.subrange(0, k)) is Err,
    ensures
        query_traits_spec(ir, queries) == query_traits_spec(ir, queries.subrange(0, k)),
    decreases queries.len() - k,
{
    if k < queries.len() {
        assert(queries.subrange(0, k + 1).drop_last() == queries.subrange(0, k));
        lemma_query_traits_error(ir, queries, k + 1);
    } else {
        assert(queries.subrange(0, k) == queries);
    }
}

fn push_command_trait(ir: &AppIr, command: &Command, traits: &mut Vec<String>, names: &mut Vec<String>) -> (result: Result<(), CodegenError>)
    ensures
        match result {
            Ok(()) => command_trait_spec(*ir, *command) matches Ok((one, name))
                && texts(final(traits)@) == texts(old(traits)@).push(one)
                && texts(final(names)@) == texts(old(names)@).push(name),
            Err(error) => command_trait_spec(*ir, *command) == Err::<(Seq<char>, Seq<char>), Seq<char>>(error@),
        },
{
    let name = joined(command.rust_name.as_str(), "Handler");
    let input = operation_type(ir, &command.input)?;
    let output = operation_type(ir, &command.output)?;
    let one = command_trait(name.as_str(), input.as_str(), output.as_str());
    let ghost old_traits = texts(traits@);
    let ghost old_names = texts(names@);
    traits.push(one);
    names.push(name);
    proof {
        assert(texts(traits@) == old_traits.push(one@));
        assert(texts(names@) == old_names.push(name@));
    }
    Ok(())
}

fn push_query_trait(ir: &AppIr, query: &Query, traits: &mut Vec<String>, names: &mut Vec<String>) -> (result: Result<(), CodegenError>)
    ensures
        match result {
            Ok(()) => query_trait_spec(*ir, *query) matches Ok((one, name))
                && texts(final(traits)@) == texts(old(traits)@).push(one)
                && texts(final(names)@) == texts(old(names)@).push(name),
            Err(error) => query_trait_spec(*ir, *query) == Err::<(Seq<char>, Seq<char>), Seq<char>>(error@),
        },
{
    let name = joined(query.rust_name.as_str(), "Handler");
    let output = operation_type(ir, &query.output)?;
    let method = match &query.input {
        Some(ty) => {
            let input = operation_type(ir, ty)?;
            input_method(input.as_str(), output.as_str())
        },
        None => plain_method(output.as_str()),
    };
    let one = query_trait(name.as_str(), method.as_str());
    let ghost old_traits = texts(traits@);
    let ghost old_names = texts(names@);
    traits.push(one);
    names.push(name);
    proof {
        assert(texts(traits@) == old_traits.push(one@));
        assert(texts(names@) == old_names.push(name@));
    }
    Ok(())
}

/// The handler traits of the application's commands and queries.
pub fn handler_traits(ir: &AppIr) -> (result: Result<String, CodegenError>)
    ensures
        match result {
            Ok(text) => handler_traits_spec(*ir) == Ok::<Seq<char>, Seq<char>>(text@),
            Err(error) => handler_traits_spec(*ir) == Err::<Seq<char>, Seq<char>>(error@),
        },
{
    let mut traits: Vec<String> = Vec::new();
    let mut names: Vec<String> = Vec::new();
    let mut i: usize = 0;
    proof {
        assert(ir.commands@.subrange(0, 0) == Seq::<Command>::empty());
        assert(texts(traits@) == Seq::<Seq<char>>::empty());
        assert(texts(names@) == Seq::<Seq<char>>::empty());
    }
    while i < ir.commands.len()
        invariant
            i <= ir.commands.len(),
            command_traits_spec(*ir, ir.commands@.subrange(0, i as int)) == Ok::<(Seq<Seq<char>>, Seq<Seq<char>>), Seq<char>>(
                (texts(traits@), texts(names@)),
            ),
        decreases ir.commands.len() - i,
    {
        proof {
            assert(ir.commands@.subrange(0, i + 1).drop_last() == ir.commands@.subrange(0, i as int));
        }
        match push_command_trait(ir, &ir.commands[i], &mut traits, &mut names) {
            Ok(()) => {},
            Err(error) => {
                proof {
                    lemma_command_traits_error(*ir, ir.commands@, i + 1);
                }
                return Err(error);
            },
        }
        i = i + 1;
    }
    proof {
        assert(ir.commands@.subrange(0, ir.commands@.len() as int) == ir.commands@);
    }
    let mut query_traits: Vec<String> = Vec::new();
    let mut query_names: Vec<String> = Vec::new();
    let mut j: usize = 0;
    proof {
        assert(ir.queries@.subrange(0, 0) == Seq::<Query>::empty());
        assert(texts(query_traits@) == Seq::<Seq<char>>::empty());
        assert(texts(query_names@) == Seq::<Seq<char>>::empty());
    }
    while j < ir.queries.len()
        invariant
            j <= ir.queries.len(),
            command_traits_spec(*ir, ir.commands@) is Ok,
            query_traits_spec(*ir, ir.queries@.subrange(0, j as int)) == Ok::<(Seq<Seq<char>>, Seq<Seq<char>>), Seq<char>>(
                (texts(query_traits@), texts(query_names@)),
            ),
        decreases ir.queries.len() - j,
    {
        proof {
            assert(ir.queries@.subrange(0, j + 1).drop_last() == ir.queries@.subrange(0, j as int));
        }
        match push_query_trait(ir, &ir.queries[j], &mut query_traits, &mut query_names) {
            Ok(()) => {},
            Err(error) => {
                proof {
                    lemma_query_traits_error(*ir, ir.queries@, j + 1);
                }
                return Err(error);
            },
        }
        j = j + 1;
    }
    proof {
        assert(ir.queries@.subrange(0, ir.queries@.len() as int) == ir.queries@);
    }
    let ghost all_traits = texts(traits@) + texts(query_traits@);
    let ghost all_names = texts(names@) + texts(query_names@);
    traits.append(&mut query_traits);
    names.append(&mut query_names);
    proof {
        assert(texts(traits@) =~= all_traits);
        assert(texts(names@) =~= all_names);
    }
    let bounds = plus_bounds(&names);
    Ok(traits_block(&traits, bounds.as_str()))
}

/// A registry slot: a shared extension behind its trait.
#[verifier::opaque]
pub open spec fn slot_field_text(field: Seq<char>, ty: Seq<char>) -> Seq<char> {
    field
        + ": Arc<dyn "@
        + ty
        + ">"@
}

fn slot_field(field: &str, ty: &str) -> (text: String)
    ensures
        text@ == slot_field_text(field@, ty@),
{
    proof {
        reveal(slot_field_text);
    }
    let mut text = String::new();
    text.append(field);
    text.append(": Arc<dyn ");
    text.append(ty);
    text.append(">");
    text
}

/// A registry slot filled with its default extension.
#[verifier::opaque]
pub open spec fn slot_default_text(hook_field: Seq<char>, hook_default: Seq<char>) -> Seq<char> {
    hook_field
        + ": Arc::new("@
        + hook_default
        + ")"@
}

fn slot_default(hook_field: &str, hook_default: &str) -> (text: String)
    ensures
        text@ == slot_default_text(hook_field@, hook_default@),
{
    proof {
        reveal(slot_default_text);
    }
    let mut text = String::new();
    text.append(hook_field);
    text.append(": Arc::new(");
    text.append(hook_default);
    text.append(")");
    text
}

/// The builder method that installs an entity's hooks.
#[verifier::opaque]
pub open spec fn hook_setter_text(hook_method: Seq<char>, hook_ty: Seq<char>) -> Seq<char> {
    "pub fn "@
        + hook_method
        + "<H: "@
        + hook_ty
        + " + 'static>(mut self, value: H) -> Self { self."@
        + hook_method
        + " = Arc::new(value); self }"@
}

fn hook_setter(hook_method: &str, hook_ty: &str) -> (text: String)
    ensures
        text@ == hook_setter_text(hook_method@, hook_ty@),
{
    proof {
        reveal(hook_setter_text);
    }
    let mut text = String::from_str("pub fn ");
    text.append(hook_method);
    text.append("<H: ");
    text.append(hook_ty);
    text.append(" + 'static>(mut self, value: H) -> Self { self.");
    text.append(hook_method);
    text.append(" = Arc::new(value); self }");
    text
}

/// The builder method that installs an entity's policy.
#[verifier::opaque]
pub open spec fn policy_setter_text(policy_method: Seq<char>, policy_ty: Seq<char>) -> Seq<char> {
    "pub fn "@
        + policy_method
        + "<P: "@
        + policy_ty
        + " + 'static>(mut self, value: P) -> Self { self."@
        + policy_method
        + " = Arc::new(value); self }"@
}

fn policy_setter(policy_method: &str, policy_ty: &str) -> (text: String)
    ensures
        text@ == policy_setter_text(policy_method@, policy_ty@),
{
    proof {
        reveal(policy_setter_text);
    }
    let mut text = String::from_str("pub fn ");
    text.append(policy_method);
    text.append("<P: ");
    text.append(policy_ty);
    text.append(" + 'static>(mut self, value: P) -> Self { self.");
    text.append(policy_method);
    text.append(" = Arc::new(value); self }");
    text
}

/// The accessor of a registry slot.
#[verifier::opaque]
pub open spec fn slot_getter_text(hook: Seq<char>, hook_ty: Seq<char>) -> Seq<char> {
    "pub(crate) fn "@
        + hook
        + "(&self) -> &dyn "@
        + hook_ty
        + " { self."@
        + hook
        + ".as_ref() }"@
}

fn slot_getter(hook: &str, hook_ty: &str) -> (text: String)
    ensures
        text@ == slot_getter_text(hook@, hook_ty@),
{
    proof {
        reveal(slot_getter_text);
    }
    let mut text = String::from_str("pub(crate) fn ");
    text.append(hook);
    text.append("(&self) -> &dyn ");
    text.append(hook_ty);
    text.append(" { self.");
    text.append(hook);
    text.append(".as_ref() }");
    text
}

/// A registry slot carried from the builder into the registry.
#[verifier::opaque]
pub open spec fn slot_move_text(hook: Seq<char>) -> Seq<char> {
    hook
        + ": self."@
        + hook
}

fn slot_move(hook: &str) -> (text: String)
    ensures
        text@ == slot_move_text(hook@),
{
    proof {
        reveal(slot_move_text);
    }
    let mut text = String::new();
    text.append(hook);
    text.append(": self.");
    text.append(hook);
    text
}

/// The builder method that installs the application's required handlers.
#[verifier::opaque]
pub open spec fn register_text(moves: Seq<char>) -> Seq<char> {
    "impl AppExtensionsBuilder<Missing> { "@
        + "pub fn handlers<H>(self, handlers: H) -> AppExtensionsBuilder<Present<H>> where H: RequiredHandlers + 'static { "@
        + "AppExtensionsBuilder { handlers: Present(Arc::new(handlers)), "@
        + moves
        + " } } }"@
}

fn register_method(moves: &str) -> (text: String)
    ensures
        text@ == register_text(moves@),
{
    proof {
        reveal(register_text);
    }
    let mut text = String::from_str("impl AppExtensionsBuilder<Missing> { ");
    text.append("pub fn handlers<H>(self, handlers: H) -> AppExtensionsBuilder<Present<H>> where H: RequiredHandlers + 'static { ");
    text.append("AppExtensionsBuilder { handlers: Present(Arc::new(handlers)), ");
    text.append(moves);
    text.append(" } } }");
    text
}

/// The extension registry and its builder: the handlers, the job handler
/// where jobs are on, and the hooks and policy of every entity.
#[verifier::opaque]
pub open spec fn registry_text(default_handler: Seq<char>, job_field: Seq<char>, hook_fields: Seq<Seq<char>>, policy_fields: Seq<Seq<char>>, initial_state: Seq<char>, initial_value: Seq<char>, job_default: Seq<char>, defaults: Seq<Seq<char>>, job_handler_access: Seq<char>, getters: Seq<char>, job_setter: Seq<char>, setters: Seq<char>, register: Seq<char>, moves: Seq<char>) -> Seq<char> {
    "pub struct Missing; pub struct Present<T>(Arc<T>); "@
        + default_handler
        + " #[derive(Clone)] pub struct AppExtensions { handlers: Arc<dyn RequiredHandlers>, "@
        + job_field
        + " "@
        + suffixed_text(hook_fields, ", "@)
        + " "@
        + suffixed_text(policy_fields, ", "@)
        + " } pub struct AppExtensionsBuilder<State> { handlers: State, "@
        + job_field
        + " "@
        + suffixed_text(hook_fields, ", "@)
        + " "@
        + suffixed_text(policy_fields, ", "@)
        + " } impl AppExtensions { pub fn builder() -> AppExtensionsBuilder<"@
        + initial_state
        + "> { AppExtensionsBuilder { handlers: "@
        + initial_value
        + ", "@
        + job_default
        + " "@
        + suffixed_text(defaults, ", "@)
        + " } } pub fn handlers(&self) -> &dyn RequiredHandlers { self.handlers.as_ref() } "@
        + job_handler_access
        + " "@
        + getters
        + " } impl<State> AppExtensionsBuilder<State> { "@
        + job_setter
        + " "@
        + setters
        + " } "@
        + register
        + " impl<H> AppExtensionsBuilder<Present<H>> where H: RequiredHandlers + 'static { "@
        + "pub fn build(self) -> AppExtensions { AppExtensions { handlers: self.handlers.0, "@
        + moves
        + " } } }"@
}

fn registry_block(default_handler: &str, job_field: &str, hook_fields: &Vec<String>, policy_fields: &Vec<String>, initial_state: &str, initial_value: &str, job_default: &str, defaults: &Vec<String>, job_handler_access: &str, getters: &str, job_setter: &str, setters: &str, register: &str, moves: &str) -> (text: String)
    ensures
        text@ == registry_text(default_handler@, job_field@, texts(hook_fields@), texts(policy_fields@), initial_state@, initial_value@, job_default@, texts(defaults@), job_handler_access@, getters@, job_setter@, setters@, register@, moves@),
{
    proof {
        reveal(registry_text);
    }
    let mut text = String::from_str("pub struct Missing; pub struct Present<T>(Arc<T>); ");
    text.append(default_handler);
    text.append(" #[derive(Clone)] pub struct AppExtensions { handlers: Arc<dyn RequiredHandlers>, ");
    text.append(job_field);
    text.append(" ");
    append_suffixed(&mut text, hook_fields, ", ");
    text.append(" ");
    append_suffixed(&mut text, policy_fields, ", ");
    text.append(" } pub struct AppExtensionsBuilder<State> { handlers: State, ");
    text.append(job_field);
    text.append(" ");
    append_suffixed(&mut text, hook_fields, ", ");
    text.append(" ");
    append_suffixed(&mut text, policy_fields, ", ");
    text.append(" } impl AppExtensions { pub fn builder() -> AppExtensionsBuilder<");
    text.append(initial_state);
    text.append("> { AppExtensionsBuilder { handlers: ");
    text.append(initial_value);
    text.append(", ");
    text.append(job_default);
    text.append(" ");
    append_suffixed(&mut text, defaults, ", ");
    text.append(" } } pub fn handlers(&self) -> &dyn RequiredHandlers { self.handlers.as_ref() } ");
    text.append(job_handler_access);
    text.append(" ");
    text.append(getters);
    text.append(" } impl<State> AppExtensionsBuilder<State> { ");
    text.append(job_setter);
    text.append(" ");
    text.append(setters);
    text.append(" } ");
    text.append(register);
    text.append(" impl<H> AppExtensionsBuilder<Present<H>> where H: RequiredHandlers + 'static { ");
    text.append("pub fn build(self) -> AppExtensions { AppExtensions { handlers: self.handlers.0, ");
    text.append(moves);
    text.append(" } } }");
    text
}

/// The hook slots of the entities.
pub open spec fn hook_fields_spec(entities: Seq<Entity>) -> Seq<Seq<char>>
    decreases entities.len(),
{
    if entities.len() == 0 {
        Seq::<Seq<char>>::empty()
    } else {
        hook_fields_spec(entities.drop_last()).push(slot_field_text(hook_slot(entities.last()), hook_trait(entities.last())))
    }
}

/// The policy slots of the entities.
pub open spec fn policy_fields_spec(entities: Seq<Entity>) -> Seq<Seq<char>>
    decreases entities.len(),
{
    if entities.len() == 0 {
        Seq::<Seq<char>>::empty()
    } else {
        policy_fields_spec(entities.drop_last()).push(slot_field_text(policy_slot(entities.last()), policy_trait(entities.last())))
    }
}

/// The default hooks and policy of every entity.
pub open spec fn defaults_spec(entities: Seq<Entity>) -> Seq<Seq<char>>
    decreases entities.len(),
{
    if entities.len() == 0 {
        Seq::<Seq<char>>::empty()
    } else {
        defaults_spec(entities.drop_last()).push(slot_default_text(hook_slot(entities.last()), default_hook(entities.last()))).push(slot_default_text(policy_slot(entities.last()), default_policy(entities.last())))
    }
}

/// The builder methods of every entity's hooks and policy.
pub open spec fn setters_spec(entities: Seq<Entity>) -> Seq<Seq<char>>
    decreases entities.len(),
{
    if entities.len() == 0 {
        Seq::<Seq<char>>::empty()
    } else {
        setters_spec(entities.drop_last()).push(hook_setter_text(hook_slot(entities.last()), hook_trait(entities.last()))).push(policy_setter_text(policy_slot(entities.last()), policy_trait(entities.last())))
    }
}

/// The accessors of every entity's hooks and policy.
pub open spec fn getters_spec(entities: Seq<Entity>) -> Seq<Seq<char>>
    decreases entities.len(),
{
    if entities.len() == 0 {
        Seq::<Seq<char>>::empty()
    } else {
        getters_spec(entities.drop_last()).push(slot_getter_text(hook_slot(entities.last()), hook_trait(entities.last()))).push(slot_getter_text(policy_slot(entities.last()), policy_trait(entities.last())))
    }
}

/// The hook and policy slots that the builder hands on.
pub open spec fn moves_spec(entities: Seq<Entity>) -> Seq<Seq<char>>
    decreases entities.len(),
{
    if entities.len() == 0 {
        Seq::<Seq<char>>::empty()
    } else {
        moves_spec(entities.drop_last()).push(slot_move_text(hook_slot(entities.last()))).push(slot_move_text(policy_slot(entities.last())))
    }
}

/// The three parts that depend on whether the application must supply
/// handlers: the builder's initial state and value, and the default handlers.
pub open spec fn initial_state_text(required: bool) -> Seq<char> {
    if required { "Missing"@ } else { "Present<DefaultHandlers>"@ }
}

pub open spec fn initial_value_text(required: bool) -> Seq<char> {
    if required { "Missing"@ } else { "Present(Arc::new(DefaultHandlers))"@ }
}

pub open spec fn default_handler_text(required: bool) -> Seq<char> {
    if required { Seq::<char>::empty() } else { "pub struct DefaultHandlers;"@ }
}

/// The job-handler slot, its default, setter and accessor, where jobs are on.
pub open spec fn job_field_text(jobs: bool) -> Seq<char> {
    if jobs { "job_handler: Option<Arc<dyn crate::JobHandler>>,"@ } else { Seq::<char>::empty() }
}

pub open spec fn job_default_text(jobs: bool) -> Seq<char> {
    if jobs { "job_handler: None,"@ } else { Seq::<char>::empty() }
}

pub open spec fn job_setter_text(jobs: bool) -> Seq<char> {
    if jobs {
        "pub fn job_handler<H: crate::JobHandler + 'static>(mut self, handler: H) -> Self { "@
            + "self.job_handler = Some(Arc::new(handler)); self }"@
    } else {
        Seq::<char>::empty()
    }
}

pub open spec fn job_access_text(jobs: bool) -> Seq<char> {
    if jobs {
        "pub(crate) fn job_handler(&self) -> Option<Arc<dyn crate::JobHandler>> { "@
            + "self.job_handler.clone() }"@
    } else {
        Seq::<char>::empty()
    }
}

pub open spec fn job_move_text(jobs: bool) -> Seq<char> {
    if jobs { "job_handler: self.job_handler,"@ } else { Seq::<char>::empty() }
}

/// What the builder hands on to the registry: the job handler, then every slot.
pub open spec fn moves_text(jobs: bool, entities: Seq<Entity>) -> Seq<char> {
    job_move_text(jobs) + " "@ + suffixed_text(moves_spec(entities), ", "@)
}

/// The application must supply handlers when it has commands or queries.
pub open spec fn handlers_required(ir: AppIr) -> bool {
    ir.commands.len() > 0 || ir.queries.len() > 0
}

/// The extension registry of the application.
pub open spec fn registry_spec(ir: AppIr) -> Seq<char> {
    let entities = ir.entities@;
    let required = handlers_required(ir);
    let jobs = ir.jobs.enabled;
    registry_text(
        default_handler_text(required),
        job_field_text(jobs),
        hook_fields_spec(entities),
        policy_fields_spec(entities),
        initial_state_text(required),
        initial_value_text(required),
        job_default_text(jobs),
        defaults_spec(entities),
        job_access_text(jobs),
        suffixed_text(getters_spec(entities), " "@),
        job_setter_text(jobs),
        suffixed_text(setters_spec(entities), " "@),
        if required { register_text(moves_text(jobs, entities)) } else { Seq::<char>::empty() },
        moves_text(jobs, entities),
    )
}

fn push_two(list: &mut Vec<String>, first: String, second: String)
    ensures
        texts(final(list)@) == texts(old(list)@).push(first@).push(second@),
{
    let ghost before = texts(list@);
    list.push(first);
    proof {
        assert(texts(list@) == before.push(first@));
    }
    list.push(second);
    proof {
        assert(texts(list@) == before.push(first@).push(second@));
    }
}

fn push_one(list: &mut Vec<String>, item: String)
    ensures
        texts(final(list)@) == texts(old(list)@).push(item@),
{
    let ghost before = texts(list@);
    list.push(item);
    proof {
        assert(texts(list@) == before.push(item@));
    }
}

fn text_if(condition: bool, value: &str) -> (text: String)
    ensures
        text@ == if condition { value@ } else { Seq::<char>::empty() },
{
    if condition {
        String::from_str(value)
    } else {
        String::new()
    }
}

/// The extension registry of the application.
pub fn registry(ir: &AppIr) -> (text: String)
    ensures
        text@ == registry_spec(*ir),
{
    let mut hook_fields: Vec<String> = Vec::new();
    let mut policy_fields: Vec<String> = Vec::new();
    let mut defaults: Vec<String> = Vec::new();
    let mut setter_list: Vec<String> = Vec::new();
    let mut getter_list: Vec<String> = Vec::new();
    let mut move_list: Vec<String> = Vec::new();
    let mut i: usize = 0;
    proof {
        assert(ir.entities@.subrange(0, 0) == Seq::<Entity>::empty());
        assert(texts(hook_fields@) == Seq::<Seq<char>>::empty());
        assert(texts(policy_fields@) == Seq::<Seq<char>>::empty());
        assert(texts(defaults@) == Seq::<Seq<char>>::empty());
        assert(texts(setter_list@) == Seq::<Seq<char>>::empty());
        assert(texts(getter_list@) == Seq::<Seq<char>>::empty());
        assert(texts(move_list@) == Seq::<Seq<char>>::empty());
    }
    while i < ir.entities.len()
        invariant
            i <= ir.entities.len(),
            texts(hook_fields@) == hook_fields_spec(ir.entities@.subrange(0, i as int)),
            texts(policy_fields@) == policy_fields_spec(ir.entities@.subrange(0, i as int)),
            texts(defaults@) == defaults_spec(ir.entities@.subrange(0, i as int)),
            texts(setter_list@) == setters_spec(ir.entities@.subrange(0, i as int)),
            texts(getter_list@) == getters_spec(ir.entities@.subrange(0, i as int)),
            texts(move_list@) == moves_spec(ir.entities@.subrange(0, i as int)),
        decreases ir.entities.len() - i,
    {
        proof {
            assert(ir.entities@.subrange(0, i + 1).drop_last() == ir.entities@.subrange(0, i as int));
        }
        let entity = &ir.entities[i];
        let module = module_name(entity);
        let hook = joined(module.as_str(), "_hooks");
        let policy = joined(module.as_str(), "_policy");
        let hook_ty = joined(entity.rust_name.as_str(), "Hooks");
        let policy_ty = joined(entity.rust_name.as_str(), "Policy");
        let hook_default = defaulted(entity.rust_name.as_str(), "Hooks");
        let policy_default = defaulted(entity.rust_name.as_str(), "Policy");
        push_one(&mut hook_fields, slot_field(hook.as_str(), hook_ty.as_str()));
        push_one(&mut policy_fields, slot_field(policy.as_str(), policy_ty.as_str()));
        push_two(
            &mut defaults,
            slot_default(hook.as_str(), hook_default.as_str()),
            slot_default(policy.as_str(), policy_default.as_str()),
        );
        push_two(
            &mut setter_list,
            hook_setter(hook.as_str(), hook_ty.as_str()),
            policy_setter(policy.as_str(), policy_ty.as_str()),
        );
        push_two(
            &mut getter_list,
            slot_getter(hook.as_str(), hook_ty.as_str()),
            slot_getter(policy.as_str(), policy_ty.as_str()),
        );
        push_two(&mut move_list, slot_move(hook.as_str()), slot_move(policy.as_str()));
        i = i + 1;
    }
    proof {
        assert(ir.entities@.subrange(0, ir.entities@.len() as int) == ir.entities@);
    }
    let required = ir.commands.len() > 0 || ir.queries.len() > 0;
    let jobs = ir.jobs.enabled;
    let initial_state = if required { "Missing" } else { "Present<DefaultHandlers>" };
    let initial_value = if required { "Missing" } else { "Present(Arc::new(DefaultHandlers))" };
    let default_handler = text_if(!required, "pub struct DefaultHandlers;");
    let job_field = text_if(jobs, "job_handler: Option<Arc<dyn crate::JobHandler>>,");
    let job_default = text_if(jobs, "job_handler: None,");
    let job_setter = if jobs {
        let mut text = String::from_str("pub fn job_handler<H: crate::JobHandler + 'static>(mut self, handler: H) -> Self { ");
        text.append("self.job_handler = Some(Arc::new(handler)); self }");
        text
    } else {
        String::new()
    };
    let job_handler_access = if jobs {
        let mut text = String::from_str("pub(crate) fn job_handler(&self) -> Option<Arc<dyn crate::JobHandler>> { ");
        text.append("self.job_handler.clone() }");
        text
    } else {
        String::new()
    };
    let mut moves = text_if(jobs, "job_handler: self.job_handler,");
    moves.append(" ");
    append_suffixed(&mut moves, &move_list, ", ");
    let mut getters = String::new();
    append_suffixed(&mut getters, &getter_list, " ");
    let mut setters = String::new();
    append_suffixed(&mut setters, &setter_list, " ");
    let register = if required {
        register_method(moves.as_str())
    } else {
        String::new()
    };
    registry_block(
        default_handler.as_str(),
        job_field.as_str(),
        &hook_fields,
        &policy_fields,
        initial_state,
        initial_value,
        job_default.as_str(),
        &defaults,
        job_handler_access.as_str(),
        getters.as_str(),
        job_setter.as_str(),
        setters.as_str(),
        register.as_str(),
        moves.as_str(),
    )
}

/// The extensions module: the actor, the request context, the hook operations,
/// the value objects, every entity's hooks and policy contract, the handler
/// traits and the registry.
#[verifier::opaque]
pub open spec fn extensions_text(request_context: Seq<char>, values: Seq<Seq<char>>, hooks: Seq<Seq<char>>, policies: Seq<Seq<char>>, handler_traits: Seq<char>, registry: Seq<char>) -> Seq<char> {
    "use crate::{ApiError, api, entities}; use async_trait::async_trait; use sea_orm::{ "@
        + "ConnectionTrait, DatabaseConnection, DatabaseTransaction, DbBackend, DbErr, ExecResult, QueryResult, Statement, }; "@
        + "use std::sync::Arc; #[derive(Clone, Debug, serde::Serialize)] pub struct Actor { "@
        + "pub id: uuid::Uuid, pub email: String, pub roles: Vec<String>, } impl Actor { "@
        + "pub fn has_role(&self, role: &str) -> bool { "@
        + "self.roles.iter().any(|candidate| candidate == role) } } "@
        + request_context
        + " #[derive(Clone, Copy, Debug, PartialEq, Eq)] pub enum HookOperation { "@
        + "Create, Update, Delete } "@
        + suffixed_text(values, " "@)
        + " "@
        + suffixed_text(hooks, " "@)
        + " "@
        + suffixed_text(policies, " "@)
        + " "@
        + handler_traits
        + " "@
        + registry
}

/// The structs of the value objects, in order, or the first error.
pub open spec fn value_objects_spec(values: Seq<ValueObject>) -> Result<Seq<Seq<char>>, Seq<char>>
    decreases values.len(),
{
    if values.len() == 0 {
        Ok(Seq::<Seq<char>>::empty())
    } else {
        match value_objects_spec(values.drop_last()) {
            Err(error) => Err(error),
            Ok(structs) => match value_object_spec(values.last()) {
                Err(error) => Err(error),
                Ok(one) => Ok(structs.push(one)),
            },
        }
    }
}

proof fn lemma_value_objects_error(values: Seq<ValueObject>, k: int)
    requires
        0 <= k <= values.len(),
        value_objects_spec(values.subrange(0, k)) is Err,
    ensures
        value_objects_spec(values) == value_objects_spec(values.subrange(0, k)),
    decreases values.len() - k,
{
    if k < values.len() {
        assert(values.subrange(0, k + 1).drop_last() == values.subrange(0, k));
        lemma_value_objects_error(values, k + 1);
    } else {
        assert(values.subrange(0, k) == values);
    }
}

fn value_objects(values: &Vec<ValueObject>) -> (result: Result<Vec<String>, CodegenError>)
    ensures
        match result {
            Ok(structs) => value_objects_spec(values@) == Ok::<Seq<Seq<char>>, Seq<char>>(texts(structs@)),
            Err(error) => value_objects_spec(values@) == Err::<Seq<Seq<char>>, Seq<char>>(error@),
        },
{
    let mut structs: Vec<String> = Vec::new();
    let mut i: usize = 0;
    proof {
        assert(values@.subrange(0, 0) == Seq::<ValueObject>::empty());
        assert(texts(structs@) == Seq::<Seq<char>>::empty());
    }
    while i < values.len()
        invariant
            i <= values.len(),
            value_objects_spec(values@.subrange(0, i as int)) == Ok::<Seq<Seq<char>>, Seq<char>>(texts(structs@)),
        decreases values.len() - i,
    {
        proof {
            assert(values@.subrange(0, i + 1).drop_last() == values@.subrange(0, i as int));
        }
        let one = match value_object(&values[i]) {
            Ok(one) => one,
            Err(error) => {
                proof {
                    lemma_value_objects_error(values@, i + 1);
                }
                return Err(error);
            },
        };
        push_one(&mut structs, one);
        i = i + 1;
    }
    proof {
        assert(values@.subrange(0, values@.len() as int) == values@);
    }
    Ok(structs)
}

/// The extensions module, or the first error: the value objects, the hook
/// contracts, the policy contracts, then the handler traits.
pub open spec fn extensions_spec(ir: AppIr, header: Seq<char>) -> Result<Seq<char>, Seq<char>> {
    match value_objects_spec(ir.value_objects@) {
        Err(error) => Err(error),
        Ok(values) => match hook_contracts_spec(ir.entities@) {
            Err(error) => Err(error),
            Ok(hooks) => match policy_contracts_spec(ir.entities@) {
                Err(error) => Err(error),
                Ok(policies) => match handler_traits_spec(ir) {
                    Err(error) => Err(error),
                    Ok(traits) => render_spec(
                        extensions_text(request_context_text(), values, hooks, policies, traits, registry_spec(ir)),
                        header,
                    ),
                },
            },
        },
    }
}

/// The generated extensions module; `header` opens the file.
pub fn extensions_source(ir: &AppIr, header: &str) -> (result: Result<String, CodegenError>)
    ensures
        match result {
            Ok(text) => extensions_spec(*ir, header@) == Ok::<Seq<char>, Seq<char>>(text@),
            Err(error) => extensions_spec(*ir, header@) == Err::<Seq<char>, Seq<char>>(error@),
        },
{
    proof {
        reveal(extensions_text);
    }
    let context_text = request_context();
    let values = value_objects(&ir.value_objects)?;
    let hooks = hook_contracts(&ir.entities)?;
    let policies = policy_contracts(&ir.entities)?;
    let traits_text = handler_traits(ir)?;
    let registry_text = registry(ir);
    let request_context = context_text.as_str();
    let values = &values;
    let hooks = &hooks;
    let policies = &policies;
    let handler_traits = traits_text.as_str();
    let registry = registry_text.as_str();
    let mut text = String::from_str("use crate::{ApiError, api, entities}; use async_trait::async_trait; use sea_orm::{ ");
    text.append("ConnectionTrait, DatabaseConnection, DatabaseTransaction, DbBackend, DbErr, ExecResult, QueryResult, Statement, }; ");
    text.append("use std::sync::Arc; #[derive(Clone, Debug, serde::Serialize)] pub struct Actor { ");
    text.append("pub id: uuid::Uuid, pub email: String, pub roles: Vec<String>, } impl Actor { ");
    text.append("pub fn has_role(&self, role: &str) -> bool { ");
    text.append("self.roles.iter().any(|candidate| candidate == role) } } ");
    text.append(request_context);
    text.append(" #[derive(Clone, Copy, Debug, PartialEq, Eq)] pub enum HookOperation { ");
    text.append("Create, Update, Delete } ");
    append_suffixed(&mut text, values, " ");
    text.append(" ");
    append_suffixed(&mut text, hooks, " ");
    text.append(" ");
    append_suffixed(&mut text, policies, " ");
    text.append(" ");
    text.append(handler_traits);
    text.append(" ");
    text.append(registry);
    render(text.as_str(), header)
}

} // verus!
