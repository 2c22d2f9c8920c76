use vstd::prelude::*;
use vstd::string::StringExecFns;
use crate::artifact::{Artifact, CodegenError};
use crate::billing::{decimal, join_text};
use crate::field_access::{literal_text, string_literal};
use crate::fields::texts;
use crate::ir::{AppIr, FileProvider};
use crate::jobs::suffixed_literal;
use crate::source::{render, render_spec, rust_file, single_file};
use crate::text::append_joined;

verus! {

/// The file metadata, errors and the provider trait.
#[verifier::opaque]
pub open spec fn file_contract_text() -> Seq<char> {
    "#[derive(Clone, Debug, serde::Serialize, serde::Deserialize)] pub struct FileMetadata { "@
        + "pub id: uuid::Uuid, pub object_key: String, pub original_name: String, pub content_type: String, pub size: u64, pub checksum: String, pub tenant_id: Option<uuid::Uuid>, pub created_at: chrono::DateTime<chrono::Utc>, } "@
        + "#[derive(Debug)] pub enum FileError { "@
        + "Disabled, InvalidKey, InvalidName, InvalidContentType, TooLarge { "@
        + "size: u64, max: u64 }, Configuration(String), Storage(String), Database(DbErr), } "@
        + "impl fmt::Display for FileError { "@
        + "fn fmt(&self, formatter: &mut fmt::Formatter<'_>) -> fmt::Result { match self { "@
        + "Self::Disabled => formatter.write_str(\"file module is disabled\"), Self::InvalidKey => formatter.write_str(\"file key must be a safe relative path\"), Self::InvalidName => formatter.write_str(\"file name is invalid\"), Self::InvalidContentType => formatter.write_str(\"file content does not match an allowed content type\"), Self::TooLarge { "@
        + "size, max } => write!(formatter, \"file is too large: {size} "@
        + "bytes exceeds {max}\"), Self::Configuration(error) => write!(formatter, \"file configuration is invalid: {error}\"), Self::Storage(error) => write!(formatter, \"file storage operation failed: {error}\"), Self::Database(error) => write!(formatter, \"file metadata operation failed: {error}\"), } "@
        + "} } impl std::error::Error for FileError {} impl From<DbErr> for FileError { "@
        + "fn from(error: DbErr) -> Self { Self::Database(error) } } "@
        + "#[async_trait] pub trait FileProvider: Send + Sync { fn name(&self) -> &'static str; "@
        + "async fn put(&self, object_key: &str, content: &[u8]) -> Result<(), FileError>; "@
        + "async fn get(&self, object_key: &str) -> Result<Vec<u8>, FileError>; "@
        + "async fn delete(&self, object_key: &str) -> Result<(), FileError>; }"@
}

fn file_contract() -> (text: String)
    ensures
        text@ == file_contract_text(),
{
    proof {
        reveal(file_contract_text);
    }
    let mut text = String::from_str("#[derive(Clone, Debug, serde::Serialize, serde::Deserialize)] pub struct FileMetadata { ");
    text.append("pub id: uuid::Uuid, pub object_key: String, pub original_name: String, pub content_type: String, pub size: u64, pub checksum: String, pub tenant_id: Option<uuid::Uuid>, pub created_at: chrono::DateTime<chrono::Utc>, } ");
    text.append("#[derive(Debug)] pub enum FileError { ");
    text.append("Disabled, InvalidKey, InvalidName, InvalidContentType, TooLarge { ");
    text.append("size: u64, max: u64 }, Configuration(String), Storage(String), Database(DbErr), } ");
    text.append("impl fmt::Display for FileError { ");
    text.append("fn fmt(&self, formatter: &mut fmt::Formatter<'_>) -> fmt::Result { match self { ");
    text.append("Self::Disabled => formatter.write_str(\"file module is disabled\"), Self::InvalidKey => formatter.write_str(\"file key must be a safe relative path\"), Self::InvalidName => formatter.write_str(\"file name is invalid\"), Self::InvalidContentType => formatter.write_str(\"file content does not match an allowed content type\"), Self::TooLarge { ");
    text.append("size, max } => write!(formatter, \"file is too large: {size} ");
    text.append("bytes exceeds {max}\"), Self::Configuration(error) => write!(formatter, \"file configuration is invalid: {error}\"), Self::Storage(error) => write!(formatter, \"file storage operation failed: {error}\"), Self::Database(error) => write!(formatter, \"file metadata operation failed: {error}\"), } ");
    text.append("} } impl std::error::Error for FileError {} impl From<DbErr> for FileError { ");
    text.append("fn from(error: DbErr) -> Self { Self::Database(error) } } ");
    text.append("#[async_trait] pub trait FileProvider: Send + Sync { fn name(&self) -> &'static str; ");
    text.append("async fn put(&self, object_key: &str, content: &[u8]) -> Result<(), FileError>; ");
    text.append("async fn get(&self, object_key: &str) -> Result<Vec<u8>, FileError>; ");
    text.append("async fn delete(&self, object_key: &str) -> Result<(), FileError>; }");
    text
}

/// The checks of object keys, names and content types.
#[verifier::opaque]
pub open spec fn file_validation_text() -> Seq<char> {
    "fn validate_key(value: &str) -> Result<(), FileError> { "@
        + "if value.is_empty() || value.len() > 512 || value.contains('\\\\') || value.contains('\\0') || Path::new(value).is_absolute() || value.split('/').any(|segment| segment.is_empty() || matches!(segment, \".\" | \"..\")) || Path::new(value).components().any(|part| !matches!(part, Component::Normal(_))) { "@
        + "return Err(FileError::InvalidKey); } Ok(()) } "@
        + "fn validate_name(value: &str) -> Result<(), FileError> { "@
        + "if value.is_empty() || matches!(value, \".\" | \"..\") || value.len() > 255 || value.contains('/') || value.contains('\\\\') || value.chars().any(char::is_control) { "@
        + "Err(FileError::InvalidName) } else { Ok(()) } } "@
        + "fn validate_content(content_type: &str, content: &[u8], allowed: &[String],) -> Result<(), FileError> { "@
        + "let allowed = allowed.iter().any(|candidate| { "@
        + "candidate == content_type || (candidate.ends_with(\"/*\") && content_type.starts_with(&candidate[..candidate.len() - 1])) }); "@
        + "if !allowed { return Err(FileError::InvalidContentType); } "@
        + "let valid = if content_type == \"application/octet-stream\" { true } "@
        + "else if content_type == \"application/json\" { "@
        + "serde_json::from_slice::<serde_json::Value>(content).is_ok() } "@
        + "else if content_type.starts_with(\"text/\") { "@
        + "!content.contains(&0) && std::str::from_utf8(content).is_ok() } else { "@
        + "infer::get(content).is_some_and(|kind| kind.mime_type() == content_type) }; if valid { "@
        + "Ok(()) } else { Err(FileError::InvalidContentType) } }"@
}

fn file_validation() -> (text: String)
    ensures
        text@ == file_validation_text(),
{
    proof {
        reveal(file_validation_text);
    }
    let mut text = String::from_str("fn validate_key(value: &str) -> Result<(), FileError> { ");
    text.append("if value.is_empty() || value.len() > 512 || value.contains('\\\\') || value.contains('\\0') || Path::new(value).is_absolute() || value.split('/').any(|segment| segment.is_empty() || matches!(segment, \".\" | \"..\")) || Path::new(value).components().any(|part| !matches!(part, Component::Normal(_))) { ");
    text.append("return Err(FileError::InvalidKey); } Ok(()) } ");
    text.append("fn validate_name(value: &str) -> Result<(), FileError> { ");
    text.append("if value.is_empty() || matches!(value, \".\" | \"..\") || value.len() > 255 || value.contains('/') || value.contains('\\\\') || value.chars().any(char::is_control) { ");
    text.append("Err(FileError::InvalidName) } else { Ok(()) } } ");
    text.append("fn validate_content(content_type: &str, content: &[u8], allowed: &[String],) -> Result<(), FileError> { ");
    text.append("let allowed = allowed.iter().any(|candidate| { ");
    text.append("candidate == content_type || (candidate.ends_with(\"/*\") && content_type.starts_with(&candidate[..candidate.len() - 1])) }); ");
    text.append("if !allowed { return Err(FileError::InvalidContentType); } ");
    text.append("let valid = if content_type == \"application/octet-stream\" { true } ");
    text.append("else if content_type == \"application/json\" { ");
    text.append("serde_json::from_slice::<serde_json::Value>(content).is_ok() } ");
    text.append("else if content_type.starts_with(\"text/\") { ");
    text.append("!content.contains(&0) && std::str::from_utf8(content).is_ok() } else { ");
    text.append("infer::get(content).is_some_and(|kind| kind.mime_type() == content_type) }; if valid { ");
    text.append("Ok(()) } else { Err(FileError::InvalidContentType) } }");
    text
}

/// The provider over an object store.
#[verifier::opaque]
pub open spec fn object_store_text() -> Seq<char> {
    "struct ObjectStoreProvider { provider_name: &'static str, store: Arc<dyn ObjectStore>, } "@
        + "#[async_trait] impl FileProvider for ObjectStoreProvider { "@
        + "fn name(&self) -> &'static str { self.provider_name } "@
        + "async fn put(&self, object_key: &str, content: &[u8]) -> Result<(), FileError> { "@
        + "let options = PutOptions { mode: PutMode::Create, ..PutOptions::default() }; "@
        + "self.store.put_opts(&ObjectPath::from(object_key), PutPayload::from(content.to_vec()), options,).await.map(|_| ()).map_err(|error| FileError::Storage(error.to_string())) } "@
        + "async fn get(&self, object_key: &str) -> Result<Vec<u8>, FileError> { "@
        + "self.store.get(&ObjectPath::from(object_key)).await.map_err(|error| FileError::Storage(error.to_string()))?.bytes().await.map(|bytes| bytes.to_vec()).map_err(|error| FileError::Storage(error.to_string())) } "@
        + "async fn delete(&self, object_key: &str) -> Result<(), FileError> { "@
        + "match self.store.delete(&ObjectPath::from(object_key)).await { "@
        + "Ok(()) | Err(object_store::Error::NotFound { "@
        + ".. }) => Ok(()), Err(error) => Err(FileError::Storage(error.to_string())), } } }"@
}

fn object_store() -> (text: String)
    ensures
        text@ == object_store_text(),
{
    proof {
        reveal(object_store_text);
    }
    let mut text = String::from_str("struct ObjectStoreProvider { provider_name: &'static str, store: Arc<dyn ObjectStore>, } ");
    text.append("#[async_trait] impl FileProvider for ObjectStoreProvider { ");
    text.append("fn name(&self) -> &'static str { self.provider_name } ");
    text.append("async fn put(&self, object_key: &str, content: &[u8]) -> Result<(), FileError> { ");
    text.append("let options = PutOptions { mode: PutMode::Create, ..PutOptions::default() }; ");
    text.append("self.store.put_opts(&ObjectPath::from(object_key), PutPayload::from(content.to_vec()), options,).await.map(|_| ()).map_err(|error| FileError::Storage(error.to_string())) } ");
    text.append("async fn get(&self, object_key: &str) -> Result<Vec<u8>, FileError> { ");
    text.append("self.store.get(&ObjectPath::from(object_key)).await.map_err(|error| FileError::Storage(error.to_string()))?.bytes().await.map(|bytes| bytes.to_vec()).map_err(|error| FileError::Storage(error.to_string())) } ");
    text.append("async fn delete(&self, object_key: &str) -> Result<(), FileError> { ");
    text.append("match self.store.delete(&ObjectPath::from(object_key)).await { ");
    text.append("Ok(()) | Err(object_store::Error::NotFound { ");
    text.append(".. }) => Ok(()), Err(error) => Err(FileError::Storage(error.to_string())), } } }");
    text
}

/// The local provider: objects under `APPSTRUCT_FILE_ROOT`, by default the configured root.
#[verifier::opaque]
pub open spec fn local_provider_text(root: Seq<char>) -> Seq<char> {
    "{ let root = env::var(\"APPSTRUCT_FILE_ROOT\").unwrap_or_else(|_| "@
        + root
        + ".to_owned()); "@
        + "std::fs::create_dir_all(&root).map_err(|error| FileError::Configuration(error.to_string()))?; "@
        + "let store = object_store::local::LocalFileSystem::new_with_prefix(root).map_err(|error| FileError::Configuration(error.to_string()))?; "@
        + "Arc::new(ObjectStoreProvider { "@
        + "provider_name: \"local\", store: Arc::new(store) }) as Arc<dyn FileProvider> }"@
}

fn local_provider(root: &str) -> (text: String)
    ensures
        text@ == local_provider_text(root@),
{
    proof {
        reveal(local_provider_text);
    }
    let mut text = String::from_str("{ let root = env::var(\"APPSTRUCT_FILE_ROOT\").unwrap_or_else(|_| ");
    text.append(root);
    text.append(".to_owned()); ");
    text.append("std::fs::create_dir_all(&root).map_err(|error| FileError::Configuration(error.to_string()))?; ");
    text.append("let store = object_store::local::LocalFileSystem::new_with_prefix(root).map_err(|error| FileError::Configuration(error.to_string()))?; ");
    text.append("Arc::new(ObjectStoreProvider { ");
    text.append("provider_name: \"local\", store: Arc::new(store) }) as Arc<dyn FileProvider> }");
    text
}

/// The S3 provider, configured from the environment.
#[verifier::opaque]
pub open spec fn s3_provider_text() -> Seq<char> {
    "{ "@
        + "let required = |name: &str| env::var(name).map_err(|_| FileError::Configuration(format!(\"{name} "@
        + "is required\"))); let endpoint = required(\"APPSTRUCT_S3_ENDPOINT\")?; "@
        + "let allow_http = env::var(\"APPSTRUCT_S3_ALLOW_HTTP\").as_deref() == Ok(\"true\"); "@
        + "let store = object_store::aws::AmazonS3Builder::new().with_bucket_name(required(\"APPSTRUCT_S3_BUCKET\")?).with_endpoint(endpoint).with_access_key_id(required(\"APPSTRUCT_S3_ACCESS_KEY\")?).with_secret_access_key(required(\"APPSTRUCT_S3_SECRET_KEY\")?).with_region(env::var(\"APPSTRUCT_S3_REGION\").unwrap_or_else(|_| \"us-east-1\".to_owned())).with_allow_http(allow_http).build().map_err(|error| FileError::Configuration(error.to_string()))?; "@
        + "Arc::new(ObjectStoreProvider { "@
        + "provider_name: \"s3\", store: Arc::new(store) }) as Arc<dyn FileProvider> }"@
}

fn s3_provider() -> (text: String)
    ensures
        text@ == s3_provider_text(),
{
    proof {
        reveal(s3_provider_text);
    }
    let mut text = String::from_str("{ ");
    text.append("let required = |name: &str| env::var(name).map_err(|_| FileError::Configuration(format!(\"{name} ");
    text.append("is required\"))); let endpoint = required(\"APPSTRUCT_S3_ENDPOINT\")?; ");
    text.append("let allow_http = env::var(\"APPSTRUCT_S3_ALLOW_HTTP\").as_deref() == Ok(\"true\"); ");
    text.append("let store = object_store::aws::AmazonS3Builder::new().with_bucket_name(required(\"APPSTRUCT_S3_BUCKET\")?).with_endpoint(endpoint).with_access_key_id(required(\"APPSTRUCT_S3_ACCESS_KEY\")?).with_secret_access_key(required(\"APPSTRUCT_S3_SECRET_KEY\")?).with_region(env::var(\"APPSTRUCT_S3_REGION\").unwrap_or_else(|_| \"us-east-1\".to_owned())).with_allow_http(allow_http).build().map_err(|error| FileError::Configuration(error.to_string()))?; ");
    text.append("Arc::new(ObjectStoreProvider { ");
    text.append("provider_name: \"s3\", store: Arc::new(store) }) as Arc<dyn FileProvider> }");
    text
}

/// The file state: uploads larger than the limit are refused, as are content
/// types outside the allowed list.
#[verifier::opaque]
pub open spec fn file_state_text(provider_init: Seq<char>, allowed: Seq<Seq<char>>, max_bytes: Seq<char>) -> Seq<char> {
    "#[derive(Clone)] pub struct FileState { "@
        + "database: DatabaseConnection, provider: Arc<dyn FileProvider>, allowed_content_types: Arc<Vec<String>>, } "@
        + "impl FileState { "@
        + "pub fn from_env(database: DatabaseConnection) -> Result<Self, FileError> { let provider = "@
        + provider_init
        + "; Ok(Self { database, provider, allowed_content_types: Arc::new(vec!["@
        + join_text(allowed, ", "@)
        + "]), }) } "@
        + "pub fn with_provider(database: DatabaseConnection, provider: Arc<dyn FileProvider>, allowed_content_types: Vec<String>,) -> Self { "@
        + "Self { database, provider, allowed_content_types: Arc::new(allowed_content_types) } } "@
        + "pub async fn put(&self, object_key: &str, original_name: &str, content_type: &str, content: &[u8], tenant_id: Option<uuid::Uuid>,) -> Result<FileMetadata, FileError> { "@
        + "validate_key(object_key)?; validate_name(original_name)?; "@
        + "let size = u64::try_from(content.len()).unwrap_or(u64::MAX); if size > "@
        + max_bytes
        + " { return Err(FileError::TooLarge { size, max: "@
        + max_bytes
        + " }); } validate_content(content_type, content, &self.allowed_content_types)?; "@
        + "let checksum = format!(\"{:x}\", Sha256::digest(content)); "@
        + "self.provider.put(object_key, content).await?; "@
        + "match insert_metadata(&self.database, object_key, original_name, content_type, size, &checksum, tenant_id,).await { "@
        + "Ok(metadata) => Ok(metadata), Err(error) => { "@
        + "let _ = self.provider.delete(object_key).await; Err(error) } } } "@
        + "pub async fn get(&self, object_key: &str, tenant_id: Option<uuid::Uuid>,) -> Result<(FileMetadata, Vec<u8>), FileError> { "@
        + "validate_key(object_key)?; "@
        + "let metadata = load_metadata(&self.database, object_key, tenant_id).await?; "@
        + "let content = self.provider.get(object_key).await?; "@
        + "if format!(\"{:x}\", Sha256::digest(&content)) != metadata.checksum { "@
        + "return Err(FileError::Storage(\"stored object checksum does not match metadata\".to_owned())); "@
        + "} Ok((metadata, content)) } "@
        + "pub async fn delete(&self, object_key: &str, tenant_id: Option<uuid::Uuid>,) -> Result<(), FileError> { "@
        + "validate_key(object_key)?; load_metadata(&self.database, object_key, tenant_id).await?; "@
        + "self.database.execute_raw(Statement::from_sql_and_values(DbBackend::Postgres, \"DELETE FROM \\\"_appstruct_files\\\" WHERE object_key = $1 AND tenant_id IS NOT DISTINCT FROM $2\", [object_key.to_owned().into(), tenant_id.into()],)).await?; "@
        + "self.provider.delete(object_key).await?; Ok(()) } } "@
        + "async fn insert_metadata(database: &DatabaseConnection, object_key: &str, original_name: &str, content_type: &str, size: u64, checksum: &str, tenant_id: Option<uuid::Uuid>,) -> Result<FileMetadata, FileError> { "@
        + "let id = uuid::Uuid::now_v7(); "@
        + "let row = database.query_one_raw(Statement::from_sql_and_values(DbBackend::Postgres, \"INSERT INTO \\\"_appstruct_files\\\" (id, object_key, original_name, content_type, size, checksum, tenant_id, created_at) VALUES ($1, $2, $3, $4, $5, $6, $7, CURRENT_TIMESTAMP) RETURNING id, object_key, original_name, content_type, size, checksum, tenant_id, created_at\", [id.into(), object_key.to_owned().into(), original_name.to_owned().into(), content_type.to_owned().into(), i64::try_from(size).unwrap_or(i64::MAX).into(), checksum.to_owned().into(), tenant_id.into()],)).await?.ok_or_else(|| DbErr::Custom(\"file metadata insert returned no row\".to_owned()))?; "@
        + "row_to_metadata(row).map_err(FileError::from) } "@
        + "async fn load_metadata(database: &DatabaseConnection, object_key: &str, tenant_id: Option<uuid::Uuid>,) -> Result<FileMetadata, FileError> { "@
        + "let row = database.query_one_raw(Statement::from_sql_and_values(DbBackend::Postgres, \"SELECT id, object_key, original_name, content_type, size, checksum, tenant_id, created_at FROM \\\"_appstruct_files\\\" WHERE object_key = $1 AND tenant_id IS NOT DISTINCT FROM $2\", [object_key.to_owned().into(), tenant_id.into()],)).await?.ok_or_else(|| DbErr::RecordNotFound(\"file metadata not found\".to_owned()))?; "@
        + "row_to_metadata(row).map_err(FileError::from) } "@
        + "fn row_to_metadata(row: sea_orm::QueryResult) -> Result<FileMetadata, DbErr> { "@
        + "Ok(FileMetadata { "@
        + "id: row.try_get(\"\", \"id\")?, object_key: row.try_get(\"\", \"object_key\")?, original_name: row.try_get(\"\", \"original_name\")?, content_type: row.try_get(\"\", \"content_type\")?, size: row.try_get::<i64>(\"\", \"size\")?.try_into().unwrap_or_default(), checksum: row.try_get(\"\", \"checksum\")?, tenant_id: row.try_get(\"\", \"tenant_id\")?, created_at: row.try_get(\"\", \"created_at\")?, }) }"@
}

fn file_state(provider_init: &str, allowed: &Vec<String>, max_bytes: &str) -> (text: String)
    ensures
        text@ == file_state_text(provider_init@, texts(allowed@), max_bytes@),
{
    proof {
        reveal(file_state_text);
    }
    let mut text = String::from_str("#[derive(Clone)] pub struct FileState { ");
    text.append("database: DatabaseConnection, provider: Arc<dyn FileProvider>, allowed_content_types: Arc<Vec<String>>, } ");
    text.append("impl FileState { ");
    text.append("pub fn from_env(database: DatabaseConnection) -> Result<Self, FileError> { let provider = ");
    text.append(provider_init);
    text.append("; Ok(Self { database, provider, allowed_content_types: Arc::new(vec![");
    append_joined(&mut text, allowed, ", ");
    text.append("]), }) } ");
    text.append("pub fn with_provider(database: DatabaseConnection, provider: Arc<dyn FileProvider>, allowed_content_types: Vec<String>,) -> Self { ");
    text.append("Self { database, provider, allowed_content_types: Arc::new(allowed_content_types) } } ");
    text.append("pub async fn put(&self, object_key: &str, original_name: &str, content_type: &str, content: &[u8], tenant_id: Option<uuid::Uuid>,) -> Result<FileMetadata, FileError> { ");
    text.append("validate_key(object_key)?; validate_name(original_name)?; ");
    text.append("let size = u64::try_from(content.len()).unwrap_or(u64::MAX); if size > ");
    text.append(max_bytes);
    text.append(" { return Err(FileError::TooLarge { size, max: ");
    text.append(max_bytes);
    text.append(" }); } validate_content(content_type, content, &self.allowed_content_types)?; ");
    text.append("let checksum = format!(\"{:x}\", Sha256::digest(content)); ");
    text.append("self.provider.put(object_key, content).await?; ");
    text.append("match insert_metadata(&self.database, object_key, original_name, content_type, size, &checksum, tenant_id,).await { ");
    text.append("Ok(metadata) => Ok(metadata), Err(error) => { ");
    text.append("let _ = self.provider.delete(object_key).await; Err(error) } } } ");
    text.append("pub async fn get(&self, object_key: &str, tenant_id: Option<uuid::Uuid>,) -> Result<(FileMetadata, Vec<u8>), FileError> { ");
    text.append("validate_key(object_key)?; ");
    text.append("let metadata = load_metadata(&self.database, object_key, tenant_id).await?; ");
    text.append("let content = self.provider.get(object_key).await?; ");
    text.append("if format!(\"{:x}\", Sha256::digest(&content)) != metadata.checksum { ");
    text.append("return Err(FileError::Storage(\"stored object checksum does not match metadata\".to_owned())); ");
    text.append("} Ok((metadata, content)) } ");
    text.append("pub async fn delete(&self, object_key: &str, tenant_id: Option<uuid::Uuid>,) -> Result<(), FileError> { ");
    text.append("validate_key(object_key)?; load_metadata(&self.database, object_key, tenant_id).await?; ");
    text.append("self.database.execute_raw(Statement::from_sql_and_values(DbBackend::Postgres, \"DELETE FROM \\\"_appstruct_files\\\" WHERE object_key = $1 AND tenant_id IS NOT DISTINCT FROM $2\", [object_key.to_owned().into(), tenant_id.into()],)).await?; ");
    text.append("self.provider.delete(object_key).await?; Ok(()) } } ");
    text.append("async fn insert_metadata(database: &DatabaseConnection, object_key: &str, original_name: &str, content_type: &str, size: u64, checksum: &str, tenant_id: Option<uuid::Uuid>,) -> Result<FileMetadata, FileError> { ");
    text.append("let id = uuid::Uuid::now_v7(); ");
    text.append("let row = database.query_one_raw(Statement::from_sql_and_values(DbBackend::Postgres, \"INSERT INTO \\\"_appstruct_files\\\" (id, object_key, original_name, content_type, size, checksum, tenant_id, created_at) VALUES ($1, $2, $3, $4, $5, $6, $7, CURRENT_TIMESTAMP) RETURNING id, object_key, original_name, content_type, size, checksum, tenant_id, created_at\", [id.into(), object_key.to_owned().into(), original_name.to_owned().into(), content_type.to_owned().into(), i64::try_from(size).unwrap_or(i64::MAX).into(), checksum.to_owned().into(), tenant_id.into()],)).await?.ok_or_else(|| DbErr::Custom(\"file metadata insert returned no row\".to_owned()))?; ");
    text.append("row_to_metadata(row).map_err(FileError::from) } ");
    text.append("async fn load_metadata(database: &DatabaseConnection, object_key: &str, tenant_id: Option<uuid::Uuid>,) -> Result<FileMetadata, FileError> { ");
    text.append("let row = database.query_one_raw(Statement::from_sql_and_values(DbBackend::Postgres, \"SELECT id, object_key, original_name, content_type, size, checksum, tenant_id, created_at FROM \\\"_appstruct_files\\\" WHERE object_key = $1 AND tenant_id IS NOT DISTINCT FROM $2\", [object_key.to_owned().into(), tenant_id.into()],)).await?.ok_or_else(|| DbErr::RecordNotFound(\"file metadata not found\".to_owned()))?; ");
    text.append("row_to_metadata(row).map_err(FileError::from) } ");
    text.append("fn row_to_metadata(row: sea_orm::QueryResult) -> Result<FileMetadata, DbErr> { ");
    text.append("Ok(FileMetadata { ");
    text.append("id: row.try_get(\"\", \"id\")?, object_key: row.try_get(\"\", \"object_key\")?, original_name: row.try_get(\"\", \"original_name\")?, content_type: row.try_get(\"\", \"content_type\")?, size: row.try_get::<i64>(\"\", \"size\")?.try_into().unwrap_or_default(), checksum: row.try_get(\"\", \"checksum\")?, tenant_id: row.try_get(\"\", \"tenant_id\")?, created_at: row.try_get(\"\", \"created_at\")?, }) }");
    text
}

/// The file module of an application with file storage on.
#[verifier::opaque]
pub open spec fn file_block_text(contract: Seq<char>, state: Seq<char>, validation: Seq<char>, provider_source: Seq<char>) -> Seq<char> {
    "use async_trait::async_trait; use object_store::{ "@
        + "ObjectStore, ObjectStoreExt, PutMode, PutOptions, PutPayload, path::Path as ObjectPath, }; "@
        + "use sea_orm::{ConnectionTrait, DatabaseConnection, DbBackend, DbErr, Statement}; "@
        + "use sha2::{Digest, Sha256}; use std::{env, fmt, path::{Component, Path}, sync::Arc}; "@
        + contract
        + " "@
        + state
        + " "@
        + validation
        + " "@
        + provider_source
}

fn file_block(contract: &str, state: &str, validation: &str, provider_source: &str) -> (text: String)
    ensures
        text@ == file_block_text(contract@, state@, validation@, provider_source@),
{
    proof {
        reveal(file_block_text);
    }
    let mut text = String::from_str("use async_trait::async_trait; use object_store::{ ");
    text.append("ObjectStore, ObjectStoreExt, PutMode, PutOptions, PutPayload, path::Path as ObjectPath, }; ");
    text.append("use sea_orm::{ConnectionTrait, DatabaseConnection, DbBackend, DbErr, Statement}; ");
    text.append("use sha2::{Digest, Sha256}; use std::{env, fmt, path::{Component, Path}, sync::Arc}; ");
    text.append(contract);
    text.append(" ");
    text.append(state);
    text.append(" ");
    text.append(validation);
    text.append(" ");
    text.append(provider_source);
    text
}

/// The file module of an application with file storage off.
#[verifier::opaque]
pub open spec fn disabled_file_text() -> Seq<char> {
    "use sea_orm::DatabaseConnection; use std::{fmt, sync::Arc}; "@
        + "#[derive(Clone, Debug, serde::Serialize, serde::Deserialize)] pub struct FileMetadata; "@
        + "#[derive(Debug)] pub enum FileError { Disabled } impl fmt::Display for FileError { "@
        + "fn fmt(&self, formatter: &mut fmt::Formatter<'_>) -> fmt::Result { "@
        + "formatter.write_str(\"file module is disabled\") } } "@
        + "impl std::error::Error for FileError {} "@
        + "#[async_trait::async_trait] pub trait FileProvider: Send + Sync {} "@
        + "#[derive(Clone, Default)] pub struct FileState; impl FileState { "@
        + "pub fn from_env(_database: DatabaseConnection) -> Result<Self, FileError> { Ok(Self) } "@
        + "pub fn with_provider(_database: DatabaseConnection, _provider: Arc<dyn FileProvider>, _allowed_content_types: Vec<String>) -> Self { "@
        + "Self } "@
        + "pub async fn put(&self, _key: &str, _name: &str, _content_type: &str, _content: &[u8], _tenant_id: Option<uuid::Uuid>) -> Result<FileMetadata, FileError> { "@
        + "Err(FileError::Disabled) } "@
        + "pub async fn get(&self, _key: &str, _tenant_id: Option<uuid::Uuid>) -> Result<(FileMetadata, Vec<u8>), FileError> { "@
        + "Err(FileError::Disabled) } "@
        + "pub async fn delete(&self, _key: &str, _tenant_id: Option<uuid::Uuid>) -> Result<(), FileError> { "@
        + "Err(FileError::Disabled) } }"@
}

fn disabled_file() -> (text: String)
    ensures
        text@ == disabled_file_text(),
{
    proof {
        reveal(disabled_file_text);
    }
    let mut text = String::from_str("use sea_orm::DatabaseConnection; use std::{fmt, sync::Arc}; ");
    text.append("#[derive(Clone, Debug, serde::Serialize, serde::Deserialize)] pub struct FileMetadata; ");
    text.append("#[derive(Debug)] pub enum FileError { Disabled } impl fmt::Display for FileError { ");
    text.append("fn fmt(&self, formatter: &mut fmt::Formatter<'_>) -> fmt::Result { ");
    text.append("formatter.write_str(\"file module is disabled\") } } ");
    text.append("impl std::error::Error for FileError {} ");
    text.append("#[async_trait::async_trait] pub trait FileProvider: Send + Sync {} ");
    text.append("#[derive(Clone, Default)] pub struct FileState; impl FileState { ");
    text.append("pub fn from_env(_database: DatabaseConnection) -> Result<Self, FileError> { Ok(Self) } ");
    text.append("pub fn with_provider(_database: DatabaseConnection, _provider: Arc<dyn FileProvider>, _allowed_content_types: Vec<String>) -> Self { ");
    text.append("Self } ");
    text.append("pub async fn put(&self, _key: &str, _name: &str, _content_type: &str, _content: &[u8], _tenant_id: Option<uuid::Uuid>) -> Result<FileMetadata, FileError> { ");
    text.append("Err(FileError::Disabled) } ");
    text.append("pub async fn get(&self, _key: &str, _tenant_id: Option<uuid::Uuid>) -> Result<(FileMetadata, Vec<u8>), FileError> { ");
    text.append("Err(FileError::Disabled) } ");
    text.append("pub async fn delete(&self, _key: &str, _tenant_id: Option<uuid::Uuid>) -> Result<(), FileError> { ");
    text.append("Err(FileError::Disabled) } }");
    text
}

/// The provider that the file state starts with.
pub open spec fn provider_init_text(ir: AppIr) -> Seq<char> {
    match ir.file.provider {
        FileProvider::Local => local_provider_text(literal_text(ir.file.local_root@)),
        FileProvider::S3 => s3_provider_text(),
    }
}

/// The allowed content types, each as an owned string.
pub open spec fn allowed_types_spec(types: Seq<String>) -> Seq<Seq<char>>
    decreases types.len(),
{
    if types.len() == 0 {
        Seq::<Seq<char>>::empty()
    } else {
        allowed_types_spec(types.drop_last()).push(literal_text(types.last()@) + ".to_owned()"@)
    }
}

fn allowed_types(types: &Vec<String>) -> (values: Vec<String>)
    ensures
        texts(values@) == allowed_types_spec(types@),
{
    let mut values: Vec<String> = Vec::new();
    let mut i: usize = 0;
    proof {
        assert(types@.subrange(0, 0) == Seq::<String>::empty());
        assert(texts(values@) == Seq::<Seq<char>>::empty());
    }
    while i < types.len()
        invariant
            i <= types.len(),
            texts(values@) == allowed_types_spec(types@.subrange(0, i as int)),
        decreases types.len() - i,
    {
        proof {
            assert(types@.subrange(0, i + 1).drop_last() == types@.subrange(0, i as int));
        }
        let mut value = string_literal(types[i].as_str());
        value.append(".to_owned()");
        let ghost before = texts(values@);
        values.push(value);
        proof {
            assert(texts(values@) == before.push(value@));
        }
        i = i + 1;
    }
    proof {
        assert(types@.subrange(0, types@.len() as int) == types@);
    }
    values
}

/// The file module of an application: the contract, the state with its
/// provider, allowed types and size limit, the validation and the object-store provider.
pub open spec fn file_text(ir: AppIr) -> Seq<char> {
    file_block_text(
        file_contract_text(),
        file_state_text(
            provider_init_text(ir),
            allowed_types_spec(ir.file.allowed_content_types@),
            suffixed_literal(ir.file.max_bytes as int, "u64"@),
        ),
        file_validation_text(),
        object_store_text(),
    )
}

/// The path of the generated file module.
pub open spec fn file_path() -> Seq<char> {
    "backend/src/file.rs"@
}

/// The file module's source: enabled where file storage is on, disabled otherwise.
pub open spec fn file_plan_spec(ir: AppIr, header: Seq<char>) -> Result<Seq<char>, Seq<char>> {
    if ir.file.enabled {
        render_spec(file_text(ir), header)
    } else {
        render_spec(disabled_file_text(), header)
    }
}

/// The file module's file; `header` opens it.
pub fn file_plan(ir: &AppIr, header: &str) -> (result: Result<Vec<Artifact>, CodegenError>)
    ensures
        match result {
            Ok(artifacts) => file_plan_spec(*ir, header@) matches Ok(source) && rust_file(artifacts@, file_path(), source),
            Err(error) => file_plan_spec(*ir, header@) == Err::<Seq<char>, Seq<char>>(error@),
        },
{
    let source = if ir.file.enabled {
        let provider = match ir.file.provider {
            FileProvider::Local => {
                let root = string_literal(ir.file.local_root.as_str());
                local_provider(root.as_str())
            },
            FileProvider::S3 => s3_provider(),
        };
        let allowed = allowed_types(&ir.file.allowed_content_types);
        let mut max_bytes = decimal(ir.file.max_bytes);
        max_bytes.append("u64");
        let contract = file_contract();
        let state = file_state(provider.as_str(), &allowed, max_bytes.as_str());
        let validation = file_validation();
        let store = object_store();
        let text = file_block(contract.as_str(), state.as_str(), validation.as_str(), store.as_str());
        render(text.as_str(), header)?
    } else {
        let text = disabled_file();
        render(text.as_str(), header)?
    };
    Ok(single_file("backend/src/file.rs", source))
}

} // verus!
