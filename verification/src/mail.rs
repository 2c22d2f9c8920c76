use vstd::prelude::*;
use vstd::string::StringExecFns;
use crate::artifact::{Artifact, CodegenError};
use crate::field_access::{literal_text, string_literal};
use crate::fields::texts;
use crate::ir::{AppIr, MailProvider, MailTemplate};
use crate::source::{render, render_spec, rust_file, single_file};
use crate::text::{append_suffixed, suffixed_text};

verus! {

/// The mail message, errors, provider trait and the mail state, which sends
/// rendered templates from the configured sender through the configured provider.
#[verifier::opaque]
pub open spec fn mail_contract_text(provider: Seq<char>, sender: Seq<char>) -> Seq<char> {
    "#[derive(Clone, Debug, Serialize)] pub struct MailMessage { "@
        + "pub template: String, pub sender: String, pub recipient: String, pub subject: String, pub text: String, pub html: Option<String>, pub tenant_id: Option<uuid::Uuid>, } "@
        + "#[derive(Clone, Debug, PartialEq, Eq)] pub struct MailDelivery { "@
        + "pub id: String, pub provider: String } #[derive(Debug)] pub enum MailError { "@
        + "Disabled, UnknownTemplate(String), InvalidAddress, Template(String), Configuration(String), Delivery(String), Database(DbErr), } "@
        + "impl fmt::Display for MailError { "@
        + "fn fmt(&self, formatter: &mut fmt::Formatter<'_>) -> fmt::Result { match self { "@
        + "Self::Disabled => formatter.write_str(\"mail module is disabled\"), Self::UnknownTemplate(name) => write!(formatter, \"unknown mail template `{name}`\"), Self::InvalidAddress => formatter.write_str(\"mail sender or recipient is invalid\"), Self::Template(error) => write!(formatter, \"mail template rendering failed: {error}\"), Self::Configuration(error) => write!(formatter, \"mail configuration is invalid: {error}\"), Self::Delivery(error) => write!(formatter, \"mail delivery failed: {error}\"), Self::Database(error) => write!(formatter, \"mail capture failed: {error}\"), } "@
        + "} } impl std::error::Error for MailError {} impl From<DbErr> for MailError { "@
        + "fn from(error: DbErr) -> Self { Self::Database(error) } } "@
        + "#[async_trait] pub trait MailProvider: Send + Sync { fn name(&self) -> &'static str; "@
        + "async fn deliver(&self, message: &MailMessage) -> Result<MailDelivery, MailError>; } "@
        + "#[derive(Clone)] pub struct MailState { provider: Arc<dyn MailProvider> } "@
        + "impl MailState { "@
        + "pub fn from_env(database: DatabaseConnection) -> Result<Self, MailError> { let provider = "@
        + provider
        + "; Ok(Self { provider }) } pub fn with_provider(provider: Arc<dyn MailProvider>) -> Self { "@
        + "Self { provider } } "@
        + "pub async fn send_template(&self, name: &str, recipient: &str, variables: &BTreeMap<String, String>, tenant_id: Option<uuid::Uuid>,) -> Result<MailDelivery, MailError> { "@
        + "let template = template(name).ok_or_else(|| MailError::UnknownTemplate(name.to_owned()))?; "@
        + "let sender = "@
        + sender
        + "; let _: Mailbox = sender.parse().map_err(|_| MailError::InvalidAddress)?; "@
        + "let _: Mailbox = recipient.parse().map_err(|_| MailError::InvalidAddress)?; "@
        + "let message = render_message(template, sender, recipient, variables, tenant_id)?; "@
        + "self.provider.deliver(&message).await } }"@
}

fn mail_contract(provider: &str, sender: &str) -> (text: String)
    ensures
        text@ == mail_contract_text(provider@, sender@),
{
    proof {
        reveal(mail_contract_text);
    }
    let mut text = String::from_str("#[derive(Clone, Debug, Serialize)] pub struct MailMessage { ");
    text.append("pub template: String, pub sender: String, pub recipient: String, pub subject: String, pub text: String, pub html: Option<String>, pub tenant_id: Option<uuid::Uuid>, } ");
    text.append("#[derive(Clone, Debug, PartialEq, Eq)] pub struct MailDelivery { ");
    text.append("pub id: String, pub provider: String } #[derive(Debug)] pub enum MailError { ");
    text.append("Disabled, UnknownTemplate(String), InvalidAddress, Template(String), Configuration(String), Delivery(String), Database(DbErr), } ");
    text.append("impl fmt::Display for MailError { ");
    text.append("fn fmt(&self, formatter: &mut fmt::Formatter<'_>) -> fmt::Result { match self { ");
    text.append("Self::Disabled => formatter.write_str(\"mail module is disabled\"), Self::UnknownTemplate(name) => write!(formatter, \"unknown mail template `{name}`\"), Self::InvalidAddress => formatter.write_str(\"mail sender or recipient is invalid\"), Self::Template(error) => write!(formatter, \"mail template rendering failed: {error}\"), Self::Configuration(error) => write!(formatter, \"mail configuration is invalid: {error}\"), Self::Delivery(error) => write!(formatter, \"mail delivery failed: {error}\"), Self::Database(error) => write!(formatter, \"mail capture failed: {error}\"), } ");
    text.append("} } impl std::error::Error for MailError {} impl From<DbErr> for MailError { ");
    text.append("fn from(error: DbErr) -> Self { Self::Database(error) } } ");
    text.append("#[async_trait] pub trait MailProvider: Send + Sync { fn name(&self) -> &'static str; ");
    text.append("async fn deliver(&self, message: &MailMessage) -> Result<MailDelivery, MailError>; } ");
    text.append("#[derive(Clone)] pub struct MailState { provider: Arc<dyn MailProvider> } ");
    text.append("impl MailState { ");
    text.append("pub fn from_env(database: DatabaseConnection) -> Result<Self, MailError> { let provider = ");
    text.append(provider);
    text.append("; Ok(Self { provider }) } pub fn with_provider(provider: Arc<dyn MailProvider>) -> Self { ");
    text.append("Self { provider } } ");
    text.append("pub async fn send_template(&self, name: &str, recipient: &str, variables: &BTreeMap<String, String>, tenant_id: Option<uuid::Uuid>,) -> Result<MailDelivery, MailError> { ");
    text.append("let template = template(name).ok_or_else(|| MailError::UnknownTemplate(name.to_owned()))?; ");
    text.append("let sender = ");
    text.append(sender);
    text.append("; let _: Mailbox = sender.parse().map_err(|_| MailError::InvalidAddress)?; ");
    text.append("let _: Mailbox = recipient.parse().map_err(|_| MailError::InvalidAddress)?; ");
    text.append("let message = render_message(template, sender, recipient, variables, tenant_id)?; ");
    text.append("self.provider.deliver(&message).await } }");
    text
}

/// The arm that finds one mail template by name.
#[verifier::opaque]
pub open spec fn template_arm_text(name: Seq<char>, subject: Seq<char>, text: Seq<char>, html: Seq<char>) -> Seq<char> {
    name
        + " => Some(MailTemplate { name: "@
        + name
        + ", subject: "@
        + subject
        + ", text: "@
        + text
        + ", html: "@
        + html
        + " })"@
}

fn template_arm(name: &str, subject: &str, text: &str, html: &str) -> (output: String)
    ensures
        output@ == template_arm_text(name@, subject@, text@, html@),
{
    proof {
        reveal(template_arm_text);
    }
    let mut output = String::new();
    output.append(name);
    output.append(" => Some(MailTemplate { name: ");
    output.append(name);
    output.append(", subject: ");
    output.append(subject);
    output.append(", text: ");
    output.append(text);
    output.append(", html: ");
    output.append(html);
    output.append(" })");
    output
}

/// The mail templates and their rendering, undefined variables refused.
#[verifier::opaque]
pub open spec fn templates_block_text(templates: Seq<Seq<char>>) -> Seq<char> {
    "#[derive(Clone, Copy)] struct MailTemplate { "@
        + "name: &'static str, subject: &'static str, text: &'static str, html: Option<&'static str>, } "@
        + "fn template(name: &str) -> Option<MailTemplate> { match name { "@
        + suffixed_text(templates, ", "@)
        + " _ => None } } "@
        + "fn render_message(template: MailTemplate, sender: &str, recipient: &str, variables: &BTreeMap<String, String>, tenant_id: Option<uuid::Uuid>,) -> Result<MailMessage, MailError> { "@
        + "let mut environment = minijinja::Environment::new(); "@
        + "environment.set_undefined_behavior(minijinja::UndefinedBehavior::Strict); "@
        + "environment.add_template(\"subject\", template.subject).map_err(|error| MailError::Template(error.to_string()))?; "@
        + "environment.add_template(\"text\", template.text).map_err(|error| MailError::Template(error.to_string()))?; "@
        + "if let Some(html) = template.html { "@
        + "environment.add_template(\"html\", html).map_err(|error| MailError::Template(error.to_string()))?; "@
        + "} "@
        + "let render = |name| environment.get_template(name).and_then(|value| value.render(variables)).map_err(|error| MailError::Template(error.to_string())); "@
        + "Ok(MailMessage { "@
        + "template: template.name.to_owned(), sender: sender.to_owned(), recipient: recipient.to_owned(), subject: render(\"subject\")?, text: render(\"text\")?, html: template.html.map(|_| render(\"html\")).transpose()?, tenant_id, }) }"@
}

fn templates_block(templates: &Vec<String>) -> (text: String)
    ensures
        text@ == templates_block_text(texts(templates@)),
{
    proof {
        reveal(templates_block_text);
    }
    let mut text = String::from_str("#[derive(Clone, Copy)] struct MailTemplate { ");
    text.append("name: &'static str, subject: &'static str, text: &'static str, html: Option<&'static str>, } ");
    text.append("fn template(name: &str) -> Option<MailTemplate> { match name { ");
    append_suffixed(&mut text, templates, ", ");
    text.append(" _ => None } } ");
    text.append("fn render_message(template: MailTemplate, sender: &str, recipient: &str, variables: &BTreeMap<String, String>, tenant_id: Option<uuid::Uuid>,) -> Result<MailMessage, MailError> { ");
    text.append("let mut environment = minijinja::Environment::new(); ");
    text.append("environment.set_undefined_behavior(minijinja::UndefinedBehavior::Strict); ");
    text.append("environment.add_template(\"subject\", template.subject).map_err(|error| MailError::Template(error.to_string()))?; ");
    text.append("environment.add_template(\"text\", template.text).map_err(|error| MailError::Template(error.to_string()))?; ");
    text.append("if let Some(html) = template.html { ");
    text.append("environment.add_template(\"html\", html).map_err(|error| MailError::Template(error.to_string()))?; ");
    text.append("} ");
    text.append("let render = |name| environment.get_template(name).and_then(|value| value.render(variables)).map_err(|error| MailError::Template(error.to_string())); ");
    text.append("Ok(MailMessage { ");
    text.append("template: template.name.to_owned(), sender: sender.to_owned(), recipient: recipient.to_owned(), subject: render(\"subject\")?, text: render(\"text\")?, html: template.html.map(|_| render(\"html\")).transpose()?, tenant_id, }) }");
    text
}

/// The capture provider, which stores messages in the database.
#[verifier::opaque]
pub open spec fn capture_adapter_text() -> Seq<char> {
    "use sea_orm::{ConnectionTrait, DbBackend, Statement}; struct CaptureProvider { "@
        + "database: DatabaseConnection } #[async_trait] impl MailProvider for CaptureProvider { "@
        + "fn name(&self) -> &'static str { \"capture\" } "@
        + "async fn deliver(&self, message: &MailMessage) -> Result<MailDelivery, MailError> { "@
        + "let id = uuid::Uuid::now_v7(); "@
        + "self.database.execute_raw(Statement::from_sql_and_values(DbBackend::Postgres, \"INSERT INTO \\\"_appstruct_mail_deliveries\\\" (id, provider, template, sender, recipient, subject, text_body, html_body, tenant_id, created_at) VALUES ($1, $2, $3, $4, $5, $6, $7, $8, $9, CURRENT_TIMESTAMP)\", [ id.into(), self.name().to_owned().into(), message.template.clone().into(), message.sender.clone().into(), message.recipient.clone().into(), message.subject.clone().into(), message.text.clone().into(), message.html.clone().into(), message.tenant_id.into(), ],)).await?; "@
        + "Ok(MailDelivery { id: id.to_string(), provider: self.name().to_owned() }) } }"@
}

fn capture_adapter() -> (text: String)
    ensures
        text@ == capture_adapter_text(),
{
    proof {
        reveal(capture_adapter_text);
    }
    let mut text = String::from_str("use sea_orm::{ConnectionTrait, DbBackend, Statement}; struct CaptureProvider { ");
    text.append("database: DatabaseConnection } #[async_trait] impl MailProvider for CaptureProvider { ");
    text.append("fn name(&self) -> &'static str { \"capture\" } ");
    text.append("async fn deliver(&self, message: &MailMessage) -> Result<MailDelivery, MailError> { ");
    text.append("let id = uuid::Uuid::now_v7(); ");
    text.append("self.database.execute_raw(Statement::from_sql_and_values(DbBackend::Postgres, \"INSERT INTO \\\"_appstruct_mail_deliveries\\\" (id, provider, template, sender, recipient, subject, text_body, html_body, tenant_id, created_at) VALUES ($1, $2, $3, $4, $5, $6, $7, $8, $9, CURRENT_TIMESTAMP)\", [ id.into(), self.name().to_owned().into(), message.template.clone().into(), message.sender.clone().into(), message.recipient.clone().into(), message.subject.clone().into(), message.text.clone().into(), message.html.clone().into(), message.tenant_id.into(), ],)).await?; ");
    text.append("Ok(MailDelivery { id: id.to_string(), provider: self.name().to_owned() }) } }");
    text
}

/// The SMTP provider.
#[verifier::opaque]
pub open spec fn smtp_adapter_text() -> Seq<char> {
    "use lettre::message::{MultiPart, SinglePart, header::ContentType}; "@
        + "use lettre::transport::smtp::authentication::Credentials; "@
        + "use lettre::{AsyncSmtpTransport, AsyncTransport, Message, Tokio1Executor}; "@
        + "struct SmtpProvider { transport: AsyncSmtpTransport<Tokio1Executor> } impl SmtpProvider { "@
        + "fn from_env() -> Result<Self, MailError> { let host = required(\"APPSTRUCT_SMTP_HOST\")?; "@
        + "let credentials = Credentials::new(required(\"APPSTRUCT_SMTP_USERNAME\")?, required(\"APPSTRUCT_SMTP_PASSWORD\")?,); "@
        + "let mut builder = AsyncSmtpTransport::<Tokio1Executor>::relay(&host).map_err(|error| MailError::Configuration(error.to_string()))?.credentials(credentials); "@
        + "if let Ok(port) = env::var(\"APPSTRUCT_SMTP_PORT\") { "@
        + "builder = builder.port(port.parse().map_err(|error| { "@
        + "MailError::Configuration(format!(\"invalid APPSTRUCT_SMTP_PORT: {error}\")) })?); } "@
        + "Ok(Self { transport: builder.build() }) } } "@
        + "#[async_trait] impl MailProvider for SmtpProvider { fn name(&self) -> &'static str { "@
        + "\"smtp\" } "@
        + "async fn deliver(&self, message: &MailMessage) -> Result<MailDelivery, MailError> { "@
        + "let builder = Message::builder().from(message.sender.parse().map_err(|_| MailError::InvalidAddress)?).to(message.recipient.parse().map_err(|_| MailError::InvalidAddress)?).subject(&message.subject); "@
        + "let email = if let Some(html) = &message.html { "@
        + "builder.multipart(MultiPart::alternative().singlepart(SinglePart::builder().header(ContentType::TEXT_PLAIN).body(message.text.clone())).singlepart(SinglePart::builder().header(ContentType::TEXT_HTML).body(html.clone()))) } "@
        + "else { "@
        + "builder.body(message.text.clone()) }.map_err(|error| MailError::Delivery(error.to_string()))?; "@
        + "self.transport.send(email).await.map_err(|error| MailError::Delivery(error.to_string()))?; "@
        + "Ok(MailDelivery { "@
        + "id: uuid::Uuid::now_v7().to_string(), provider: self.name().to_owned(), }) } }"@
}

fn smtp_adapter() -> (text: String)
    ensures
        text@ == smtp_adapter_text(),
{
    proof {
        reveal(smtp_adapter_text);
    }
    let mut text = String::from_str("use lettre::message::{MultiPart, SinglePart, header::ContentType}; ");
    text.append("use lettre::transport::smtp::authentication::Credentials; ");
    text.append("use lettre::{AsyncSmtpTransport, AsyncTransport, Message, Tokio1Executor}; ");
    text.append("struct SmtpProvider { transport: AsyncSmtpTransport<Tokio1Executor> } impl SmtpProvider { ");
    text.append("fn from_env() -> Result<Self, MailError> { let host = required(\"APPSTRUCT_SMTP_HOST\")?; ");
    text.append("let credentials = Credentials::new(required(\"APPSTRUCT_SMTP_USERNAME\")?, required(\"APPSTRUCT_SMTP_PASSWORD\")?,); ");
    text.append("let mut builder = AsyncSmtpTransport::<Tokio1Executor>::relay(&host).map_err(|error| MailError::Configuration(error.to_string()))?.credentials(credentials); ");
    text.append("if let Ok(port) = env::var(\"APPSTRUCT_SMTP_PORT\") { ");
    text.append("builder = builder.port(port.parse().map_err(|error| { ");
    text.append("MailError::Configuration(format!(\"invalid APPSTRUCT_SMTP_PORT: {error}\")) })?); } ");
    text.append("Ok(Self { transport: builder.build() }) } } ");
    text.append("#[async_trait] impl MailProvider for SmtpProvider { fn name(&self) -> &'static str { ");
    text.append("\"smtp\" } ");
    text.append("async fn deliver(&self, message: &MailMessage) -> Result<MailDelivery, MailError> { ");
    text.append("let builder = Message::builder().from(message.sender.parse().map_err(|_| MailError::InvalidAddress)?).to(message.recipient.parse().map_err(|_| MailError::InvalidAddress)?).subject(&message.subject); ");
    text.append("let email = if let Some(html) = &message.html { ");
    text.append("builder.multipart(MultiPart::alternative().singlepart(SinglePart::builder().header(ContentType::TEXT_PLAIN).body(message.text.clone())).singlepart(SinglePart::builder().header(ContentType::TEXT_HTML).body(html.clone()))) } ");
    text.append("else { ");
    text.append("builder.body(message.text.clone()) }.map_err(|error| MailError::Delivery(error.to_string()))?; ");
    text.append("self.transport.send(email).await.map_err(|error| MailError::Delivery(error.to_string()))?; ");
    text.append("Ok(MailDelivery { ");
    text.append("id: uuid::Uuid::now_v7().to_string(), provider: self.name().to_owned(), }) } }");
    text
}

/// The Resend provider.
#[verifier::opaque]
pub open spec fn resend_adapter_text() -> Seq<char> {
    "struct ResendProvider { client: reqwest::Client, api_key: String } impl ResendProvider { "@
        + "fn from_env() -> Result<Self, MailError> { Ok(Self { "@
        + "client: reqwest::Client::new(), api_key: required(\"APPSTRUCT_RESEND_API_KEY\")?, }) } } "@
        + "#[async_trait] impl MailProvider for ResendProvider { fn name(&self) -> &'static str { "@
        + "\"resend\" } "@
        + "async fn deliver(&self, message: &MailMessage) -> Result<MailDelivery, MailError> { "@
        + "let payload = serde_json::json!({ "@
        + "\"from\": &message.sender, \"to\": [&message.recipient], \"subject\": &message.subject, \"text\": &message.text, \"html\": &message.html, }); "@
        + "let response = self.client.post(\"https://api.resend.com/emails\").bearer_auth(&self.api_key).json(&payload).send().await.map_err(|error| MailError::Delivery(error.to_string()))?; "@
        + "if !response.status().is_success() { "@
        + "return Err(MailError::Delivery(format!(\"resend returned {}\", response.status()))); } "@
        + "let body: serde_json::Value = response.json().await.map_err(|error| MailError::Delivery(error.to_string()))?; "@
        + "let id = body.get(\"id\").and_then(serde_json::Value::as_str).ok_or_else(|| MailError::Delivery(\"resend response omitted id\".to_owned()))?; "@
        + "Ok(MailDelivery { id: id.to_owned(), provider: self.name().to_owned() }) } }"@
}

fn resend_adapter() -> (text: String)
    ensures
        text@ == resend_adapter_text(),
{
    proof {
        reveal(resend_adapter_text);
    }
    let mut text = String::from_str("struct ResendProvider { client: reqwest::Client, api_key: String } impl ResendProvider { ");
    text.append("fn from_env() -> Result<Self, MailError> { Ok(Self { ");
    text.append("client: reqwest::Client::new(), api_key: required(\"APPSTRUCT_RESEND_API_KEY\")?, }) } } ");
    text.append("#[async_trait] impl MailProvider for ResendProvider { fn name(&self) -> &'static str { ");
    text.append("\"resend\" } ");
    text.append("async fn deliver(&self, message: &MailMessage) -> Result<MailDelivery, MailError> { ");
    text.append("let payload = serde_json::json!({ ");
    text.append("\"from\": &message.sender, \"to\": [&message.recipient], \"subject\": &message.subject, \"text\": &message.text, \"html\": &message.html, }); ");
    text.append("let response = self.client.post(\"https://api.resend.com/emails\").bearer_auth(&self.api_key).json(&payload).send().await.map_err(|error| MailError::Delivery(error.to_string()))?; ");
    text.append("if !response.status().is_success() { ");
    text.append("return Err(MailError::Delivery(format!(\"resend returned {}\", response.status()))); } ");
    text.append("let body: serde_json::Value = response.json().await.map_err(|error| MailError::Delivery(error.to_string()))?; ");
    text.append("let id = body.get(\"id\").and_then(serde_json::Value::as_str).ok_or_else(|| MailError::Delivery(\"resend response omitted id\".to_owned()))?; ");
    text.append("Ok(MailDelivery { id: id.to_owned(), provider: self.name().to_owned() }) } }");
    text
}

/// The mail module of an application with mail on.
#[verifier::opaque]
pub open spec fn mail_block_text(contract: Seq<char>, templates: Seq<char>, adapter: Seq<char>, required: Seq<char>) -> Seq<char> {
    "use async_trait::async_trait; use lettre::message::Mailbox; "@
        + "use sea_orm::{DatabaseConnection, DbErr}; use serde::Serialize; "@
        + "use std::{collections::BTreeMap, env, fmt, sync::Arc}; "@
        + contract
        + " "@
        + templates
        + " "@
        + adapter
        + " "@
        + required
}

fn mail_block(contract: &str, templates: &str, adapter: &str, required: &str) -> (text: String)
    ensures
        text@ == mail_block_text(contract@, templates@, adapter@, required@),
{
    proof {
        reveal(mail_block_text);
    }
    let mut text = String::from_str("use async_trait::async_trait; use lettre::message::Mailbox; ");
    text.append("use sea_orm::{DatabaseConnection, DbErr}; use serde::Serialize; ");
    text.append("use std::{collections::BTreeMap, env, fmt, sync::Arc}; ");
    text.append(contract);
    text.append(" ");
    text.append(templates);
    text.append(" ");
    text.append(adapter);
    text.append(" ");
    text.append(required);
    text
}

/// The mail module of an application with mail off.
#[verifier::opaque]
pub open spec fn disabled_mail_text() -> Seq<char> {
    "use async_trait::async_trait; use sea_orm::DatabaseConnection; "@
        + "use std::{collections::BTreeMap, fmt, sync::Arc}; "@
        + "#[derive(Clone, Debug, serde::Serialize)] pub struct MailMessage; "@
        + "#[derive(Clone, Debug, PartialEq, Eq)] pub struct MailDelivery { "@
        + "pub id: String, pub provider: String } #[derive(Debug)] pub enum MailError { Disabled } "@
        + "impl fmt::Display for MailError { "@
        + "fn fmt(&self, formatter: &mut fmt::Formatter<'_>) -> fmt::Result { "@
        + "formatter.write_str(\"mail module is disabled\") } } "@
        + "impl std::error::Error for MailError {} "@
        + "#[async_trait] pub trait MailProvider: Send + Sync { "@
        + "async fn deliver(&self, message: &MailMessage) -> Result<MailDelivery, MailError>; } "@
        + "#[derive(Clone, Default)] pub struct MailState; impl MailState { "@
        + "pub fn from_env(_database: DatabaseConnection) -> Result<Self, MailError> { Ok(Self) } "@
        + "pub fn with_provider(_provider: Arc<dyn MailProvider>) -> Self { Self } "@
        + "pub async fn send_template(&self, _name: &str, _recipient: &str, _variables: &BTreeMap<String, String>, _tenant_id: Option<uuid::Uuid>,) -> Result<MailDelivery, MailError> { "@
        + "Err(MailError::Disabled) } }"@
}

fn disabled_mail() -> (text: String)
    ensures
        text@ == disabled_mail_text(),
{
    proof {
        reveal(disabled_mail_text);
    }
    let mut text = String::from_str("use async_trait::async_trait; use sea_orm::DatabaseConnection; ");
    text.append("use std::{collections::BTreeMap, fmt, sync::Arc}; ");
    text.append("#[derive(Clone, Debug, serde::Serialize)] pub struct MailMessage; ");
    text.append("#[derive(Clone, Debug, PartialEq, Eq)] pub struct MailDelivery { ");
    text.append("pub id: String, pub provider: String } #[derive(Debug)] pub enum MailError { Disabled } ");
    text.append("impl fmt::Display for MailError { ");
    text.append("fn fmt(&self, formatter: &mut fmt::Formatter<'_>) -> fmt::Result { ");
    text.append("formatter.write_str(\"mail module is disabled\") } } ");
    text.append("impl std::error::Error for MailError {} ");
    text.append("#[async_trait] pub trait MailProvider: Send + Sync { ");
    text.append("async fn deliver(&self, message: &MailMessage) -> Result<MailDelivery, MailError>; } ");
    text.append("#[derive(Clone, Default)] pub struct MailState; impl MailState { ");
    text.append("pub fn from_env(_database: DatabaseConnection) -> Result<Self, MailError> { Ok(Self) } ");
    text.append("pub fn with_provider(_provider: Arc<dyn MailProvider>) -> Self { Self } ");
    text.append("pub async fn send_template(&self, _name: &str, _recipient: &str, _variables: &BTreeMap<String, String>, _tenant_id: Option<uuid::Uuid>,) -> Result<MailDelivery, MailError> { ");
    text.append("Err(MailError::Disabled) } }");
    text
}

/// How the mail state starts its provider: the capture provider is refused
/// in production; SMTP and Resend read their settings from the environment.
pub open spec fn provider_init_text(provider: MailProvider) -> Seq<char> {
    match provider {
        MailProvider::Capture => "{ if env::var(\"APPSTRUCT_ENV\").as_deref() == Ok(\"production\") { return Err(MailError::Configuration(\"capture mail provider is forbidden in production\".to_owned())); } Arc::new(CaptureProvider { database }) as Arc<dyn MailProvider> }"@,
        MailProvider::Smtp => "Arc::new(SmtpProvider::from_env()?) as Arc<dyn MailProvider>"@,
        MailProvider::Resend => "Arc::new(ResendProvider::from_env()?) as Arc<dyn MailProvider>"@,
    }
}

fn provider_init(provider: MailProvider) -> (text: &'static str)
    ensures
        text@ == provider_init_text(provider),
{
    match provider {
        MailProvider::Capture => "{ if env::var(\"APPSTRUCT_ENV\").as_deref() == Ok(\"production\") { return Err(MailError::Configuration(\"capture mail provider is forbidden in production\".to_owned())); } Arc::new(CaptureProvider { database }) as Arc<dyn MailProvider> }",
        MailProvider::Smtp => "Arc::new(SmtpProvider::from_env()?) as Arc<dyn MailProvider>",
        MailProvider::Resend => "Arc::new(ResendProvider::from_env()?) as Arc<dyn MailProvider>",
    }
}

/// The adapter of the configured provider.
pub open spec fn adapter_text(provider: MailProvider) -> Seq<char> {
    match provider {
        MailProvider::Capture => capture_adapter_text(),
        MailProvider::Smtp => smtp_adapter_text(),
        MailProvider::Resend => resend_adapter_text(),
    }
}

/// The helper that reads a required setting, for providers other than capture.
pub open spec fn required_text(provider: MailProvider) -> Seq<char> {
    if provider is Capture {
        Seq::<char>::empty()
    } else {
        "fn required(name: &str) -> Result<String, MailError> { env::var(name).map_err(|_| MailError::Configuration(format!(\"{name} is required\"))) }"@
    }
}

/// The template's HTML body, if it has one.
pub open spec fn html_text(html: Option<String>) -> Seq<char> {
    match html {
        Some(body) => "Some("@ + literal_text(body@) + ")"@,
        None => "None"@,
    }
}

/// The arm of one template.
pub open spec fn template_text(template: MailTemplate) -> Seq<char> {
    template_arm_text(
        literal_text(template.name@),
        literal_text(template.subject@),
        literal_text(template.text@),
        html_text(template.html),
    )
}

/// The template arms, in order.
pub open spec fn templates_spec(templates: Seq<MailTemplate>) -> Seq<Seq<char>>
    decreases templates.len(),
{
    if templates.len() == 0 {
        Seq::<Seq<char>>::empty()
    } else {
        templates_spec(templates.drop_last()).push(template_text(templates.last()))
    }
}

fn template_arms(templates: &Vec<MailTemplate>) -> (arms: Vec<String>)
    ensures
        texts(arms@) == templates_spec(templates@),
{
    let mut arms: Vec<String> = Vec::new();
    let mut i: usize = 0;
    proof {
        assert(templates@.subrange(0, 0) == Seq::<MailTemplate>::empty());
        assert(texts(arms@) == Seq::<Seq<char>>::empty());
    }
    while i < templates.len()
        invariant
            i <= templates.len(),
            texts(arms@) == templates_spec(templates@.subrange(0, i as int)),
        decreases templates.len() - i,
    {
        proof {
            assert(templates@.subrange(0, i + 1).drop_last() == templates@.subrange(0, i as int));
        }
        let template = &templates[i];
        let name = string_literal(template.name.as_str());
        let subject = string_literal(template.subject.as_str());
        let text = string_literal(template.text.as_str());
        let html = match &template.html {
            Some(body) => {
                let mut html = String::from_str("Some(");
                let literal = string_literal(body.as_str());
                html.append(literal.as_str());
                html.append(")");
                html
            },
            None => String::from_str("None"),
        };
        let arm = template_arm(name.as_str(), subject.as_str(), text.as_str(), html.as_str());
        let ghost before = texts(arms@);
        arms.push(arm);
        proof {
            assert(texts(arms@) == before.push(arm@));
        }
        i = i + 1;
    }
    proof {
        assert(templates@.subrange(0, templates@.len() as int) == templates@);
    }
    arms
}

/// The mail module of an application: the contract with its sender and
/// provider, the templates, the provider's adapter and the settings helper.
pub open spec fn mail_text(ir: AppIr) -> Seq<char> {
    mail_block_text(
        mail_contract_text(provider_init_text(ir.mail.provider), literal_text(ir.mail.from@)),
        templates_block_text(templates_spec(ir.mail.templates@)),
        adapter_text(ir.mail.provider),
        required_text(ir.mail.provider),
    )
}

/// The path of the generated mail module.
pub open spec fn mail_path() -> Seq<char> {
    "backend/src/mail.rs"@
}

/// The mail module's source: enabled where mail is on, disabled otherwise.
pub open spec fn mail_plan_spec(ir: AppIr, header: Seq<char>) -> Result<Seq<char>, Seq<char>> {
    if ir.mail.enabled {
        render_spec(mail_text(ir), header)
    } else {
        render_spec(disabled_mail_text(), header)
    }
}

/// The mail module's file; `header` opens it.
pub fn mail_plan(ir: &AppIr, header: &str) -> (result: Result<Vec<Artifact>, CodegenError>)
    ensures
        match result {
            Ok(artifacts) => mail_plan_spec(*ir, header@) matches Ok(source) && rust_file(artifacts@, mail_path(), source),
            Err(error) => mail_plan_spec(*ir, header@) == Err::<Seq<char>, Seq<char>>(error@),
        },
{
    let source = if ir.mail.enabled {
        let sender = string_literal(ir.mail.from.as_str());
        let contract = mail_contract(provider_init(ir.mail.provider), sender.as_str());
        let arms = template_arms(&ir.mail.templates);
        let templates = templates_block(&arms);
        let adapter = match ir.mail.provider {
            MailProvider::Capture => capture_adapter(),
            MailProvider::Smtp => smtp_adapter(),
            MailProvider::Resend => resend_adapter(),
        };
        let required = match ir.mail.provider {
            MailProvider::Capture => String::new(),
            _ => String::from_str("fn required(name: &str) -> Result<String, MailError> { env::var(name).map_err(|_| MailError::Configuration(format!(\"{name} is required\"))) }"),
        };
        let text = mail_block(contract.as_str(), templates.as_str(), adapter.as_str(), required.as_str());
        render(text.as_str(), header)?
    } else {
        let text = disabled_mail();
        render(text.as_str(), header)?
    };
    Ok(single_file("backend/src/mail.rs", source))
}

} // verus!
