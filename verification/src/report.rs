use vstd::prelude::*;
use vstd::string::StringExecFns;
use crate::activity::{any_role, any_role_text};
use crate::artifact::{Artifact, CodegenError};
use crate::billing::{decimal, decimal_text, join_text};
use crate::field_access::{literal_text, string_literal};
use crate::fields::texts;
use crate::ir::{AppIr, ReportTemplate};
use crate::source::{render, render_spec, rust_file, single_file};
use crate::text::append_joined;

verus! {

/// One report template as the generated module lists it.
#[verifier::opaque]
pub open spec fn template_config_text(name: Seq<char>, version: Seq<char>, body: Seq<char>, artifact_digest: Seq<char>, input_schema: Seq<char>, data_schema_version: Seq<char>) -> Seq<char> {
    "ReportTemplateConfig { name: "@
        + name
        + ", version: "@
        + version
        + ", body: "@
        + body
        + ", artifact_digest: "@
        + artifact_digest
        + ", input_schema: "@
        + input_schema
        + ", data_schema_version: "@
        + data_schema_version
        + ", }"@
}

fn template_config(name: &str, version: &str, body: &str, artifact_digest: &str, input_schema: &str, data_schema_version: &str) -> (text: String)
    ensures
        text@ == template_config_text(name@, version@, body@, artifact_digest@, input_schema@, data_schema_version@),
{
    proof {
        reveal(template_config_text);
    }
    let mut text = String::from_str("ReportTemplateConfig { name: ");
    text.append(name);
    text.append(", version: ");
    text.append(version);
    text.append(", body: ");
    text.append(body);
    text.append(", artifact_digest: ");
    text.append(artifact_digest);
    text.append(", input_schema: ");
    text.append(input_schema);
    text.append(", data_schema_version: ");
    text.append(data_schema_version);
    text.append(", }");
    text
}

/// The report settings and template types.
#[verifier::opaque]
pub open spec fn report_constants_text(queue: Seq<char>, max_input_bytes: Seq<char>, retention_days: Seq<char>, templates: Seq<Seq<char>>) -> Seq<char> {
    "const REPORT_QUEUE: &str = "@
        + queue
        + "; const REPORT_MAX_INPUT_BYTES: u64 = "@
        + max_input_bytes
        + "; const REPORT_RETENTION_DAYS: u32 = "@
        + retention_days
        + "; const REPORT_RENDERER_VERSION: &str = \"capture-v1\"; "@
        + "#[derive(Clone, Copy)] struct ReportTemplateConfig { "@
        + "name: &'static str, version: u32, body: &'static str, artifact_digest: &'static str, input_schema: &'static str, data_schema_version: u32, } "@
        + "const REPORT_TEMPLATES: &[ReportTemplateConfig] = &["@
        + join_text(templates, ", "@)
        + "]; #[derive(Clone, Debug, Serialize)] pub struct ReportTemplate { "@
        + "pub name: String, pub version: u32, pub document_type: String, pub artifact_digest: String, pub input_schema: serde_json::Value, pub data_schema_version: u32, pub renderer_version: String, } "@
}

fn report_constants(queue: &str, max_input_bytes: &str, retention_days: &str, templates: &Vec<String>) -> (text: String)
    ensures
        text@ == report_constants_text(queue@, max_input_bytes@, retention_days@, texts(templates@)),
{
    proof {
        reveal(report_constants_text);
    }
    let mut text = String::from_str("const REPORT_QUEUE: &str = ");
    text.append(queue);
    text.append("; const REPORT_MAX_INPUT_BYTES: u64 = ");
    text.append(max_input_bytes);
    text.append("; const REPORT_RETENTION_DAYS: u32 = ");
    text.append(retention_days);
    text.append("; const REPORT_RENDERER_VERSION: &str = \"capture-v1\"; ");
    text.append("#[derive(Clone, Copy)] struct ReportTemplateConfig { ");
    text.append("name: &'static str, version: u32, body: &'static str, artifact_digest: &'static str, input_schema: &'static str, data_schema_version: u32, } ");
    text.append("const REPORT_TEMPLATES: &[ReportTemplateConfig] = &[");
    append_joined(&mut text, templates, ", ");
    text.append("]; #[derive(Clone, Debug, Serialize)] pub struct ReportTemplate { ");
    text.append("pub name: String, pub version: u32, pub document_type: String, pub artifact_digest: String, pub input_schema: serde_json::Value, pub data_schema_version: u32, pub renderer_version: String, } ");
    text
}

/// The report run types and the access helpers.
#[verifier::opaque]
pub open spec fn report_types_text(reader_roles: Seq<char>) -> Seq<char> {
    "#[derive(Clone, Debug, Serialize)] pub struct ReportRun { "@
        + "pub id: uuid::Uuid, pub execution_job_id: Option<uuid::Uuid>, pub template: String, pub template_version: u32, pub tenant_id: Option<uuid::Uuid>, pub actor_id: Option<uuid::Uuid>, pub stage: String, pub progress: u32, pub locale: String, pub timezone: String, pub paper: String, pub orientation: String, pub result_file_id: Option<uuid::Uuid>, pub error_code: Option<String>, pub created_at: chrono::DateTime<chrono::Utc>, pub completed_at: Option<chrono::DateTime<chrono::Utc>>, pub expires_at: chrono::DateTime<chrono::Utc>, } "@
        + "#[derive(Debug, Deserialize)] struct CreateReportRun { "@
        + "data: serde_json::Value, locale: Option<String>, timezone: Option<String>, paper: Option<String>, orientation: Option<String>, } "@
        + "#[derive(Debug, Serialize, Deserialize)] pub struct ReportJobPayload { "@
        + "pub run_id: uuid::Uuid } #[derive(Debug, Default, Deserialize)] struct ReportRunQuery { "@
        + "page: Option<u64>, page_size: Option<u64> } "@
        + "#[derive(Debug, Serialize)] struct ReportRunList { "@
        + "data: Vec<ReportRun>, meta: ReportRunListMeta } "@
        + "#[derive(Debug, Serialize)] struct ReportRunListMeta { "@
        + "page: u64, page_size: u64, total: u64 } "@
        + "fn template_config(name: &str) -> Option<ReportTemplateConfig> { "@
        + "REPORT_TEMPLATES.iter().copied().find(|template| template.name == name) } "@
        + "fn can_read_all_reports(context: &RequestContext<'_>) -> bool { "@
        + "context.actor().is_some_and(|actor| "@
        + reader_roles
        + ") }"@
}

fn report_types(reader_roles: &str) -> (text: String)
    ensures
        text@ == report_types_text(reader_roles@),
{
    proof {
        reveal(report_types_text);
    }
    let mut text = String::from_str("#[derive(Clone, Debug, Serialize)] pub struct ReportRun { ");
    text.append("pub id: uuid::Uuid, pub execution_job_id: Option<uuid::Uuid>, pub template: String, pub template_version: u32, pub tenant_id: Option<uuid::Uuid>, pub actor_id: Option<uuid::Uuid>, pub stage: String, pub progress: u32, pub locale: String, pub timezone: String, pub paper: String, pub orientation: String, pub result_file_id: Option<uuid::Uuid>, pub error_code: Option<String>, pub created_at: chrono::DateTime<chrono::Utc>, pub completed_at: Option<chrono::DateTime<chrono::Utc>>, pub expires_at: chrono::DateTime<chrono::Utc>, } ");
    text.append("#[derive(Debug, Deserialize)] struct CreateReportRun { ");
    text.append("data: serde_json::Value, locale: Option<String>, timezone: Option<String>, paper: Option<String>, orientation: Option<String>, } ");
    text.append("#[derive(Debug, Serialize, Deserialize)] pub struct ReportJobPayload { ");
    text.append("pub run_id: uuid::Uuid } #[derive(Debug, Default, Deserialize)] struct ReportRunQuery { ");
    text.append("page: Option<u64>, page_size: Option<u64> } ");
    text.append("#[derive(Debug, Serialize)] struct ReportRunList { ");
    text.append("data: Vec<ReportRun>, meta: ReportRunListMeta } ");
    text.append("#[derive(Debug, Serialize)] struct ReportRunListMeta { ");
    text.append("page: u64, page_size: u64, total: u64 } ");
    text.append("fn template_config(name: &str) -> Option<ReportTemplateConfig> { ");
    text.append("REPORT_TEMPLATES.iter().copied().find(|template| template.name == name) } ");
    text.append("fn can_read_all_reports(context: &RequestContext<'_>) -> bool { ");
    text.append("context.actor().is_some_and(|actor| ");
    text.append(reader_roles);
    text.append(") }");
    text
}

/// Digests and the encryption of input snapshots.
#[verifier::opaque]
pub open spec fn report_crypto_text() -> Seq<char> {
    "fn sha256_hex(bytes: &[u8]) -> String { format!(\"sha256:{:x}\", Sha256::digest(bytes)) } "@
        + "fn snapshot_key() -> Result<aead::LessSafeKey, ApiError> { "@
        + "let encoded = std::env::var(\"APPSTRUCT_REPORT_SNAPSHOT_KEY\").map_err(|_| ApiError::ReportConfiguration)?; "@
        + "let bytes = base64::engine::general_purpose::STANDARD.decode(encoded.trim()).map_err(|_| ApiError::ReportConfiguration)?; "@
        + "let key = aead::UnboundKey::new(&aead::AES_256_GCM, &bytes).map_err(|_| ApiError::ReportConfiguration)?; "@
        + "Ok(aead::LessSafeKey::new(key)) } "@
        + "fn encrypt_snapshot(run_id: uuid::Uuid, plaintext: &[u8]) -> Result<String, ApiError> { "@
        + "let key = snapshot_key()?; let mut nonce_bytes = [0_u8; 12]; "@
        + "SystemRandom::new().fill(&mut nonce_bytes).map_err(|_| ApiError::ReportConfiguration)?; "@
        + "let nonce = aead::Nonce::assume_unique_for_key(nonce_bytes); "@
        + "let mut sealed = plaintext.to_vec(); "@
        + "key.seal_in_place_append_tag(nonce, aead::Aad::from(run_id.as_bytes().as_slice()), &mut sealed,).map_err(|_| ApiError::ReportConfiguration)?; "@
        + "let mut envelope = nonce_bytes.to_vec(); envelope.extend_from_slice(&sealed); "@
        + "Ok(base64::engine::general_purpose::STANDARD.encode(envelope)) } "@
        + "fn decrypt_snapshot(run_id: uuid::Uuid, encoded: &str) -> Result<Vec<u8>, String> { "@
        + "let key = snapshot_key().map_err(|_| \"REPORT_CONFIGURATION\".to_owned())?; "@
        + "let envelope = base64::engine::general_purpose::STANDARD.decode(encoded).map_err(|_| \"REPORT_SNAPSHOT_INVALID\".to_owned())?; "@
        + "if envelope.len() < 28 { return Err(\"REPORT_SNAPSHOT_INVALID\".to_owned()); } "@
        + "let nonce_bytes: [u8; "@
        + "12] = envelope[..12].try_into().map_err(|_| \"REPORT_SNAPSHOT_INVALID\".to_owned())?; "@
        + "let mut sealed = envelope[12..].to_vec(); "@
        + "let plaintext = key.open_in_place(aead::Nonce::assume_unique_for_key(nonce_bytes), aead::Aad::from(run_id.as_bytes().as_slice()), &mut sealed,).map_err(|_| \"REPORT_SNAPSHOT_INVALID\".to_owned())?; "@
        + "Ok(plaintext.to_vec()) }"@
}

fn report_crypto() -> (text: String)
    ensures
        text@ == report_crypto_text(),
{
    proof {
        reveal(report_crypto_text);
    }
    let mut text = String::from_str("fn sha256_hex(bytes: &[u8]) -> String { format!(\"sha256:{:x}\", Sha256::digest(bytes)) } ");
    text.append("fn snapshot_key() -> Result<aead::LessSafeKey, ApiError> { ");
    text.append("let encoded = std::env::var(\"APPSTRUCT_REPORT_SNAPSHOT_KEY\").map_err(|_| ApiError::ReportConfiguration)?; ");
    text.append("let bytes = base64::engine::general_purpose::STANDARD.decode(encoded.trim()).map_err(|_| ApiError::ReportConfiguration)?; ");
    text.append("let key = aead::UnboundKey::new(&aead::AES_256_GCM, &bytes).map_err(|_| ApiError::ReportConfiguration)?; ");
    text.append("Ok(aead::LessSafeKey::new(key)) } ");
    text.append("fn encrypt_snapshot(run_id: uuid::Uuid, plaintext: &[u8]) -> Result<String, ApiError> { ");
    text.append("let key = snapshot_key()?; let mut nonce_bytes = [0_u8; 12]; ");
    text.append("SystemRandom::new().fill(&mut nonce_bytes).map_err(|_| ApiError::ReportConfiguration)?; ");
    text.append("let nonce = aead::Nonce::assume_unique_for_key(nonce_bytes); ");
    text.append("let mut sealed = plaintext.to_vec(); ");
    text.append("key.seal_in_place_append_tag(nonce, aead::Aad::from(run_id.as_bytes().as_slice()), &mut sealed,).map_err(|_| ApiError::ReportConfiguration)?; ");
    text.append("let mut envelope = nonce_bytes.to_vec(); envelope.extend_from_slice(&sealed); ");
    text.append("Ok(base64::engine::general_purpose::STANDARD.encode(envelope)) } ");
    text.append("fn decrypt_snapshot(run_id: uuid::Uuid, encoded: &str) -> Result<Vec<u8>, String> { ");
    text.append("let key = snapshot_key().map_err(|_| \"REPORT_CONFIGURATION\".to_owned())?; ");
    text.append("let envelope = base64::engine::general_purpose::STANDARD.decode(encoded).map_err(|_| \"REPORT_SNAPSHOT_INVALID\".to_owned())?; ");
    text.append("if envelope.len() < 28 { return Err(\"REPORT_SNAPSHOT_INVALID\".to_owned()); } ");
    text.append("let nonce_bytes: [u8; ");
    text.append("12] = envelope[..12].try_into().map_err(|_| \"REPORT_SNAPSHOT_INVALID\".to_owned())?; ");
    text.append("let mut sealed = envelope[12..].to_vec(); ");
    text.append("let plaintext = key.open_in_place(aead::Nonce::assume_unique_for_key(nonce_bytes), aead::Aad::from(run_id.as_bytes().as_slice()), &mut sealed,).map_err(|_| \"REPORT_SNAPSHOT_INVALID\".to_owned())?; ");
    text.append("Ok(plaintext.to_vec()) }");
    text
}

/// The capture renderer and its failure hooks.
#[verifier::opaque]
pub open spec fn report_renderer_text() -> Seq<char> {
    "fn render_capture_pdf(run_id: uuid::Uuid, template: &str, input: &serde_json::Value, locale: &str, timezone: &str, paper: &str, orientation: &str,) -> Result<Vec<u8>, String> { "@
        + "test_report_failure(run_id, input)?; let environment = minijinja::Environment::new(); "@
        + "let rendered = environment.render_str(template, minijinja::context! { "@
        + "input => input, locale => locale, timezone => timezone, paper => paper, orientation => orientation, },).map_err(|_| \"REPORT_TEMPLATE_RENDER_FAILED\".to_owned())?; "@
        + "Ok(minimal_pdf(&rendered)) } "@
        + "#[cfg(feature = \"test-support\")] fn test_report_failure(run_id: uuid::Uuid, input: &serde_json::Value,) -> Result<(), String> { "@
        + "let Some(marker) = std::env::var_os(\"APPSTRUCT_TEST_REPORT_FAIL_ONCE\") else { "@
        + "return Ok(()); }; let marker = marker.to_string_lossy(); "@
        + "if !test_value_contains(input, &marker) { return Ok(()); } "@
        + "static FAILED: std::sync::OnceLock<std::sync::Mutex<std::collections::HashSet<uuid::Uuid>>> = std::sync::OnceLock::new(); "@
        + "let mut failed = FAILED.get_or_init(Default::default).lock().map_err(|_| \"REPORT_TEST_SUPPORT_FAILED\".to_owned())?; "@
        + "if failed.insert(run_id) { return Err(\"REPORT_TEST_INJECTED_FAILURE\".to_owned()); } "@
        + "Ok(()) } "@
        + "#[cfg(feature = \"test-support\")] fn test_value_contains(value: &serde_json::Value, marker: &str) -> bool { "@
        + "match value { "@
        + "serde_json::Value::String(value) => value == marker, serde_json::Value::Array(values) => values.iter().any(|value| test_value_contains(value, marker)), serde_json::Value::Object(values) => values.values().any(|value| test_value_contains(value, marker)), _ => false, } "@
        + "} "@
        + "#[cfg(not(feature = \"test-support\"))] fn test_report_failure(_run_id: uuid::Uuid, _input: &serde_json::Value,) -> Result<(), String> { "@
        + "Ok(()) } fn minimal_pdf(rendered: &str) -> Vec<u8> { "@
        + "let text = rendered.chars().take(20_000).map(|character| match character { "@
        + "'\\\\' => \"\\\\\\\\\".to_owned(), '(' => \"\\\\(\".to_owned(), ')' => \"\\\\)\".to_owned(), '\\n' | '\\r' | '\\t' => \" \".to_owned(), value if value.is_ascii() && !value.is_control() => value.to_string(), _ => \"?\".to_owned(), }).collect::<String>(); "@
        + "let stream = format!(\"BT /F1 10 Tf 50 790 Td ({text}) Tj ET\"); "@
        + "let objects = vec![ \"<< /Type /Catalog /Pages 2 0 R >>\".to_owned(), \"<< /Type /Pages /Kids [3 0 R] /Count 1 >>\".to_owned(), \"<< /Type /Page /Parent 2 0 R /MediaBox [0 0 595 842] /Resources << /Font << /F1 4 0 R >> >> /Contents 5 0 R >>\".to_owned(), \"<< /Type /Font /Subtype /Type1 /BaseFont /Helvetica >>\".to_owned(), format!(\"<< /Length {} "@
        + ">>\\nstream\\n{stream}\\nendstream\", stream.len()), ]; "@
        + "let mut output = b\"%PDF-1.4\\n\".to_vec(); "@
        + "let mut offsets = Vec::with_capacity(objects.len()); "@
        + "for (index, object) in objects.iter().enumerate() { offsets.push(output.len()); "@
        + "output.extend_from_slice(format!(\"{} 0 obj\\n{object}\\nendobj\\n\", index + 1).as_bytes()); "@
        + "} let xref = output.len(); "@
        + "output.extend_from_slice(format!(\"xref\\n0 {}\\n0000000000 65535 f \\n\", objects.len() + 1).as_bytes()); "@
        + "for offset in offsets { output.extend_from_slice(format!(\"{offset:010} "@
        + "00000 n \\n\").as_bytes()); } output.extend_from_slice(format!(\"trailer\\n<< /Size {} "@
        + "/Root 1 0 R >>\\nstartxref\\n{xref}\\n%%EOF\\n\", objects.len() + 1,).as_bytes()); output }"@
}

fn report_renderer() -> (text: String)
    ensures
        text@ == report_renderer_text(),
{
    proof {
        reveal(report_renderer_text);
    }
    let mut text = String::from_str("fn render_capture_pdf(run_id: uuid::Uuid, template: &str, input: &serde_json::Value, locale: &str, timezone: &str, paper: &str, orientation: &str,) -> Result<Vec<u8>, String> { ");
    text.append("test_report_failure(run_id, input)?; let environment = minijinja::Environment::new(); ");
    text.append("let rendered = environment.render_str(template, minijinja::context! { ");
    text.append("input => input, locale => locale, timezone => timezone, paper => paper, orientation => orientation, },).map_err(|_| \"REPORT_TEMPLATE_RENDER_FAILED\".to_owned())?; ");
    text.append("Ok(minimal_pdf(&rendered)) } ");
    text.append("#[cfg(feature = \"test-support\")] fn test_report_failure(run_id: uuid::Uuid, input: &serde_json::Value,) -> Result<(), String> { ");
    text.append("let Some(marker) = std::env::var_os(\"APPSTRUCT_TEST_REPORT_FAIL_ONCE\") else { ");
    text.append("return Ok(()); }; let marker = marker.to_string_lossy(); ");
    text.append("if !test_value_contains(input, &marker) { return Ok(()); } ");
    text.append("static FAILED: std::sync::OnceLock<std::sync::Mutex<std::collections::HashSet<uuid::Uuid>>> = std::sync::OnceLock::new(); ");
    text.append("let mut failed = FAILED.get_or_init(Default::default).lock().map_err(|_| \"REPORT_TEST_SUPPORT_FAILED\".to_owned())?; ");
    text.append("if failed.insert(run_id) { return Err(\"REPORT_TEST_INJECTED_FAILURE\".to_owned()); } ");
    text.append("Ok(()) } ");
    text.append("#[cfg(feature = \"test-support\")] fn test_value_contains(value: &serde_json::Value, marker: &str) -> bool { ");
    text.append("match value { ");
    text.append("serde_json::Value::String(value) => value == marker, serde_json::Value::Array(values) => values.iter().any(|value| test_value_contains(value, marker)), serde_json::Value::Object(values) => values.values().any(|value| test_value_contains(value, marker)), _ => false, } ");
    text.append("} ");
    text.append("#[cfg(not(feature = \"test-support\"))] fn test_report_failure(_run_id: uuid::Uuid, _input: &serde_json::Value,) -> Result<(), String> { ");
    text.append("Ok(()) } fn minimal_pdf(rendered: &str) -> Vec<u8> { ");
    text.append("let text = rendered.chars().take(20_000).map(|character| match character { ");
    text.append("'\\\\' => \"\\\\\\\\\".to_owned(), '(' => \"\\\\(\".to_owned(), ')' => \"\\\\)\".to_owned(), '\\n' | '\\r' | '\\t' => \" \".to_owned(), value if value.is_ascii() && !value.is_control() => value.to_string(), _ => \"?\".to_owned(), }).collect::<String>(); ");
    text.append("let stream = format!(\"BT /F1 10 Tf 50 790 Td ({text}) Tj ET\"); ");
    text.append("let objects = vec![ \"<< /Type /Catalog /Pages 2 0 R >>\".to_owned(), \"<< /Type /Pages /Kids [3 0 R] /Count 1 >>\".to_owned(), \"<< /Type /Page /Parent 2 0 R /MediaBox [0 0 595 842] /Resources << /Font << /F1 4 0 R >> >> /Contents 5 0 R >>\".to_owned(), \"<< /Type /Font /Subtype /Type1 /BaseFont /Helvetica >>\".to_owned(), format!(\"<< /Length {} ");
    text.append(">>\\nstream\\n{stream}\\nendstream\", stream.len()), ]; ");
    text.append("let mut output = b\"%PDF-1.4\\n\".to_vec(); ");
    text.append("let mut offsets = Vec::with_capacity(objects.len()); ");
    text.append("for (index, object) in objects.iter().enumerate() { offsets.push(output.len()); ");
    text.append("output.extend_from_slice(format!(\"{} 0 obj\\n{object}\\nendobj\\n\", index + 1).as_bytes()); ");
    text.append("} let xref = output.len(); ");
    text.append("output.extend_from_slice(format!(\"xref\\n0 {}\\n0000000000 65535 f \\n\", objects.len() + 1).as_bytes()); ");
    text.append("for offset in offsets { output.extend_from_slice(format!(\"{offset:010} ");
    text.append("00000 n \\n\").as_bytes()); } output.extend_from_slice(format!(\"trailer\\n<< /Size {} ");
    text.append("/Root 1 0 R >>\\nstartxref\\n{xref}\\n%%EOF\\n\", objects.len() + 1,).as_bytes()); output }");
    text
}

/// The job handler that renders a report run.
#[verifier::opaque]
pub open spec fn report_worker_text() -> Seq<char> {
    "#[derive(Clone)] pub(crate) struct ReportJobHandler { "@
        + "database: sea_orm::DatabaseConnection, file: crate::FileState, } impl ReportJobHandler { "@
        + "pub(crate) fn new(database: sea_orm::DatabaseConnection, file: crate::FileState,) -> Self { "@
        + "Self { database, file } } "@
        + "async fn render(&self, job: &crate::Job) -> Result<(), String> { "@
        + "let payload: ReportJobPayload = serde_json::from_value(job.payload.clone()).map_err(|_| \"REPORT_JOB_PAYLOAD_INVALID\".to_owned())?; "@
        + "let work = load_report_work(&self.database, job, payload.run_id).await?; "@
        + "if matches!(work.stage.as_str(), \"succeeded\" | \"cancelled\") { return Ok(()); } "@
        + "update_report_stage(&self.database, work.id, \"rendering\", 10, None).await?; "@
        + "let snapshot = decrypt_snapshot(work.id, &work.snapshot_ciphertext)?; "@
        + "if sha256_hex(&snapshot) != work.snapshot_digest { "@
        + "return Err(\"REPORT_SNAPSHOT_INVALID\".to_owned()); } "@
        + "let input: serde_json::Value = serde_json::from_slice(&snapshot).map_err(|_| \"REPORT_SNAPSHOT_INVALID\".to_owned())?; "@
        + "let content = render_capture_pdf(&work.body, &input, &work.locale, &work.timezone, &work.paper, &work.orientation,)?; "@
        + "update_report_stage(&self.database, work.id, \"publishing\", 80, None).await?; "@
        + "let tenant = work.tenant_id.map_or_else(|| \"global\".to_owned(), |id| id.to_string()); "@
        + "let object_key = format!(\"reports/{tenant}/{}.pdf\", work.id); "@
        + "let original_name = format!(\"{}-{}.pdf\", work.template, work.id); "@
        + "let metadata = match self.file.put(&object_key, &original_name, \"application/pdf\", &content, work.tenant_id,).await { "@
        + "Ok(metadata) => metadata, Err(_) => self.file.get(&object_key, work.tenant_id).await.map(|(metadata, _)| metadata).map_err(|_| \"REPORT_PUBLISH_FAILED\".to_owned())?, }; "@
        + "self.database.execute_raw(Statement::from_sql_and_values(DbBackend::Postgres, \"UPDATE \\\"_appstruct_report_runs\\\" SET stage = 'succeeded', progress = 100, result_file_id = $2, result_object_key = $3, error_code = NULL, completed_at = CURRENT_TIMESTAMP WHERE id = $1 AND stage <> 'cancelled'\", [work.id.into(), metadata.id.into(), object_key.into()],)).await.map_err(|_| \"REPORT_STATE_UPDATE_FAILED\".to_owned())?; "@
        + "Ok(()) } } #[async_trait::async_trait] impl crate::JobHandler for ReportJobHandler { "@
        + "async fn handle(&self, job: &crate::Job) -> Result<(), crate::JobHandlerError> { "@
        + "if job.kind == \"report.cleanup\" { "@
        + "return cleanup_expired_reports(&self.database, &self.file).await.map_err(crate::JobHandlerError); "@
        + "} let result = self.render(job).await; if let Err(code) = &result { "@
        + "if let Ok(payload) = serde_json::from_value::<ReportJobPayload>(job.payload.clone()) { "@
        + "let stage = if job.attempts >= job.max_attempts { \"failed\" } else { \"queued\" }; "@
        + "let _ = update_report_stage(&self.database, payload.run_id, stage, 0, Some(code)).await; "@
        + "} } result.map_err(crate::JobHandlerError) } } "@
}

fn report_worker() -> (text: String)
    ensures
        text@ == report_worker_text(),
{
    proof {
        reveal(report_worker_text);
    }
    let mut text = String::from_str("#[derive(Clone)] pub(crate) struct ReportJobHandler { ");
    text.append("database: sea_orm::DatabaseConnection, file: crate::FileState, } impl ReportJobHandler { ");
    text.append("pub(crate) fn new(database: sea_orm::DatabaseConnection, file: crate::FileState,) -> Self { ");
    text.append("Self { database, file } } ");
    text.append("async fn render(&self, job: &crate::Job) -> Result<(), String> { ");
    text.append("let payload: ReportJobPayload = serde_json::from_value(job.payload.clone()).map_err(|_| \"REPORT_JOB_PAYLOAD_INVALID\".to_owned())?; ");
    text.append("let work = load_report_work(&self.database, job, payload.run_id).await?; ");
    text.append("if matches!(work.stage.as_str(), \"succeeded\" | \"cancelled\") { return Ok(()); } ");
    text.append("update_report_stage(&self.database, work.id, \"rendering\", 10, None).await?; ");
    text.append("let snapshot = decrypt_snapshot(work.id, &work.snapshot_ciphertext)?; ");
    text.append("if sha256_hex(&snapshot) != work.snapshot_digest { ");
    text.append("return Err(\"REPORT_SNAPSHOT_INVALID\".to_owned()); } ");
    text.append("let input: serde_json::Value = serde_json::from_slice(&snapshot).map_err(|_| \"REPORT_SNAPSHOT_INVALID\".to_owned())?; ");
    text.append("let content = render_capture_pdf(&work.body, &input, &work.locale, &work.timezone, &work.paper, &work.orientation,)?; ");
    text.append("update_report_stage(&self.database, work.id, \"publishing\", 80, None).await?; ");
    text.append("let tenant = work.tenant_id.map_or_else(|| \"global\".to_owned(), |id| id.to_string()); ");
    text.append("let object_key = format!(\"reports/{tenant}/{}.pdf\", work.id); ");
    text.append("let original_name = format!(\"{}-{}.pdf\", work.template, work.id); ");
    text.append("let metadata = match self.file.put(&object_key, &original_name, \"application/pdf\", &content, work.tenant_id,).await { ");
    text.append("Ok(metadata) => metadata, Err(_) => self.file.get(&object_key, work.tenant_id).await.map(|(metadata, _)| metadata).map_err(|_| \"REPORT_PUBLISH_FAILED\".to_owned())?, }; ");
    text.append("self.database.execute_raw(Statement::from_sql_and_values(DbBackend::Postgres, \"UPDATE \\\"_appstruct_report_runs\\\" SET stage = 'succeeded', progress = 100, result_file_id = $2, result_object_key = $3, error_code = NULL, completed_at = CURRENT_TIMESTAMP WHERE id = $1 AND stage <> 'cancelled'\", [work.id.into(), metadata.id.into(), object_key.into()],)).await.map_err(|_| \"REPORT_STATE_UPDATE_FAILED\".to_owned())?; ");
    text.append("Ok(()) } } #[async_trait::async_trait] impl crate::JobHandler for ReportJobHandler { ");
    text.append("async fn handle(&self, job: &crate::Job) -> Result<(), crate::JobHandlerError> { ");
    text.append("if job.kind == \"report.cleanup\" { ");
    text.append("return cleanup_expired_reports(&self.database, &self.file).await.map_err(crate::JobHandlerError); ");
    text.append("} let result = self.render(job).await; if let Err(code) = &result { ");
    text.append("if let Ok(payload) = serde_json::from_value::<ReportJobPayload>(job.payload.clone()) { ");
    text.append("let stage = if job.attempts >= job.max_attempts { \"failed\" } else { \"queued\" }; ");
    text.append("let _ = update_report_stage(&self.database, payload.run_id, stage, 0, Some(code)).await; ");
    text.append("} } result.map_err(crate::JobHandlerError) } } ");
    text
}

/// The cleanup of expired runs and the loading and staging of work.
#[verifier::opaque]
pub open spec fn report_storage_text() -> Seq<char> {
    "async fn cleanup_expired_reports(database: &sea_orm::DatabaseConnection, file: &crate::FileState,) -> Result<(), String> { "@
        + "let rows = database.query_all_raw(Statement::from_string(DbBackend::Postgres, \"SELECT id, tenant_id, result_object_key FROM \\\"_appstruct_report_runs\\\" WHERE expires_at <= CURRENT_TIMESTAMP AND stage IN ('succeeded', 'failed', 'cancelled') ORDER BY expires_at, id LIMIT 100\".to_owned(),)).await.map_err(|_| \"REPORT_CLEANUP_LOAD_FAILED\".to_owned())?; "@
        + "for row in rows { "@
        + "let id: uuid::Uuid = row.try_get(\"\", \"id\").map_err(|_| \"REPORT_CLEANUP_ROW_INVALID\".to_owned())?; "@
        + "let tenant_id: Option<uuid::Uuid> = row.try_get(\"\", \"tenant_id\").map_err(|_| \"REPORT_CLEANUP_ROW_INVALID\".to_owned())?; "@
        + "let object_key: Option<String> = row.try_get(\"\", \"result_object_key\").map_err(|_| \"REPORT_CLEANUP_ROW_INVALID\".to_owned())?; "@
        + "if let Some(object_key) = object_key { "@
        + "file.delete(&object_key, tenant_id).await.map_err(|_| \"REPORT_CLEANUP_FILE_FAILED\".to_owned())?; "@
        + "} "@
        + "database.execute_raw(Statement::from_sql_and_values(DbBackend::Postgres, \"DELETE FROM \\\"_appstruct_report_runs\\\" WHERE id = $1 AND expires_at <= CURRENT_TIMESTAMP AND stage IN ('succeeded', 'failed', 'cancelled')\", [id.into()],)).await.map_err(|_| \"REPORT_CLEANUP_DELETE_FAILED\".to_owned())?; "@
        + "} Ok(()) } struct ReportWork { "@
        + "id: uuid::Uuid, tenant_id: Option<uuid::Uuid>, template: String, body: String, snapshot_ciphertext: String, snapshot_digest: String, locale: String, timezone: String, paper: String, orientation: String, stage: String, } "@
        + "async fn load_report_work<C: ConnectionTrait>(database: &C, job: &crate::Job, run_id: uuid::Uuid,) -> Result<ReportWork, String> { "@
        + "let row = database.query_one_raw(Statement::from_sql_and_values(DbBackend::Postgres, concat!(\"SELECT r.id, r.tenant_id, t.name AS template, t.body, r.snapshot_ciphertext, r.snapshot_digest, r.locale, r.timezone, r.paper::text AS paper, r.orientation::text AS orientation, r.stage::text AS stage \", \"FROM \\\"_appstruct_report_runs\\\" r JOIN \\\"_appstruct_report_templates\\\" t ON t.id = r.template_id WHERE r.id = $1 AND r.execution_job_id = $2 AND r.tenant_id IS NOT DISTINCT FROM $3\"), [run_id.into(), job.id.into(), job.tenant_id.into()],)).await.map_err(|_| \"REPORT_RUN_LOAD_FAILED\".to_owned())?.ok_or_else(|| \"REPORT_RUN_NOT_FOUND\".to_owned())?; "@
        + "Ok(ReportWork { "@
        + "id: row.try_get(\"\", \"id\").map_err(|_| \"REPORT_RUN_INVALID\".to_owned())?, tenant_id: row.try_get(\"\", \"tenant_id\").map_err(|_| \"REPORT_RUN_INVALID\".to_owned())?, template: row.try_get(\"\", \"template\").map_err(|_| \"REPORT_RUN_INVALID\".to_owned())?, body: row.try_get(\"\", \"body\").map_err(|_| \"REPORT_RUN_INVALID\".to_owned())?, snapshot_ciphertext: row.try_get(\"\", \"snapshot_ciphertext\").map_err(|_| \"REPORT_RUN_INVALID\".to_owned())?, snapshot_digest: row.try_get(\"\", \"snapshot_digest\").map_err(|_| \"REPORT_RUN_INVALID\".to_owned())?, locale: row.try_get(\"\", \"locale\").map_err(|_| \"REPORT_RUN_INVALID\".to_owned())?, timezone: row.try_get(\"\", \"timezone\").map_err(|_| \"REPORT_RUN_INVALID\".to_owned())?, paper: row.try_get(\"\", \"paper\").map_err(|_| \"REPORT_RUN_INVALID\".to_owned())?, orientation: row.try_get(\"\", \"orientation\").map_err(|_| \"REPORT_RUN_INVALID\".to_owned())?, stage: row.try_get(\"\", \"stage\").map_err(|_| \"REPORT_RUN_INVALID\".to_owned())?, }) } "@
        + "async fn update_report_stage<C: ConnectionTrait>(database: &C, id: uuid::Uuid, stage: &str, progress: i32, error_code: Option<&str>,) -> Result<(), String> { "@
        + "database.execute_raw(Statement::from_sql_and_values(DbBackend::Postgres, \"UPDATE \\\"_appstruct_report_runs\\\" SET stage = $2, progress = $3, error_code = $4, completed_at = CASE WHEN $2 IN ('failed', 'cancelled') THEN CURRENT_TIMESTAMP ELSE completed_at END WHERE id = $1 AND stage <> 'cancelled'\", [id.into(), stage.to_owned().into(), progress.into(), error_code.map(str::to_owned).into()],)).await.map_err(|_| \"REPORT_STATE_UPDATE_FAILED\".to_owned())?; "@
        + "Ok(()) }"@
}

fn report_storage() -> (text: String)
    ensures
        text@ == report_storage_text(),
{
    proof {
        reveal(report_storage_text);
    }
    let mut text = String::from_str("async fn cleanup_expired_reports(database: &sea_orm::DatabaseConnection, file: &crate::FileState,) -> Result<(), String> { ");
    text.append("let rows = database.query_all_raw(Statement::from_string(DbBackend::Postgres, \"SELECT id, tenant_id, result_object_key FROM \\\"_appstruct_report_runs\\\" WHERE expires_at <= CURRENT_TIMESTAMP AND stage IN ('succeeded', 'failed', 'cancelled') ORDER BY expires_at, id LIMIT 100\".to_owned(),)).await.map_err(|_| \"REPORT_CLEANUP_LOAD_FAILED\".to_owned())?; ");
    text.append("for row in rows { ");
    text.append("let id: uuid::Uuid = row.try_get(\"\", \"id\").map_err(|_| \"REPORT_CLEANUP_ROW_INVALID\".to_owned())?; ");
    text.append("let tenant_id: Option<uuid::Uuid> = row.try_get(\"\", \"tenant_id\").map_err(|_| \"REPORT_CLEANUP_ROW_INVALID\".to_owned())?; ");
    text.append("let object_key: Option<String> = row.try_get(\"\", \"result_object_key\").map_err(|_| \"REPORT_CLEANUP_ROW_INVALID\".to_owned())?; ");
    text.append("if let Some(object_key) = object_key { ");
    text.append("file.delete(&object_key, tenant_id).await.map_err(|_| \"REPORT_CLEANUP_FILE_FAILED\".to_owned())?; ");
    text.append("} ");
    text.append("database.execute_raw(Statement::from_sql_and_values(DbBackend::Postgres, \"DELETE FROM \\\"_appstruct_report_runs\\\" WHERE id = $1 AND expires_at <= CURRENT_TIMESTAMP AND stage IN ('succeeded', 'failed', 'cancelled')\", [id.into()],)).await.map_err(|_| \"REPORT_CLEANUP_DELETE_FAILED\".to_owned())?; ");
    text.append("} Ok(()) } struct ReportWork { ");
    text.append("id: uuid::Uuid, tenant_id: Option<uuid::Uuid>, template: String, body: String, snapshot_ciphertext: String, snapshot_digest: String, locale: String, timezone: String, paper: String, orientation: String, stage: String, } ");
    text.append("async fn load_report_work<C: ConnectionTrait>(database: &C, job: &crate::Job, run_id: uuid::Uuid,) -> Result<ReportWork, String> { ");
    text.append("let row = database.query_one_raw(Statement::from_sql_and_values(DbBackend::Postgres, concat!(\"SELECT r.id, r.tenant_id, t.name AS template, t.body, r.snapshot_ciphertext, r.snapshot_digest, r.locale, r.timezone, r.paper::text AS paper, r.orientation::text AS orientation, r.stage::text AS stage \", \"FROM \\\"_appstruct_report_runs\\\" r JOIN \\\"_appstruct_report_templates\\\" t ON t.id = r.template_id WHERE r.id = $1 AND r.execution_job_id = $2 AND r.tenant_id IS NOT DISTINCT FROM $3\"), [run_id.into(), job.id.into(), job.tenant_id.into()],)).await.map_err(|_| \"REPORT_RUN_LOAD_FAILED\".to_owned())?.ok_or_else(|| \"REPORT_RUN_NOT_FOUND\".to_owned())?; ");
    text.append("Ok(ReportWork { ");
    text.append("id: row.try_get(\"\", \"id\").map_err(|_| \"REPORT_RUN_INVALID\".to_owned())?, tenant_id: row.try_get(\"\", \"tenant_id\").map_err(|_| \"REPORT_RUN_INVALID\".to_owned())?, template: row.try_get(\"\", \"template\").map_err(|_| \"REPORT_RUN_INVALID\".to_owned())?, body: row.try_get(\"\", \"body\").map_err(|_| \"REPORT_RUN_INVALID\".to_owned())?, snapshot_ciphertext: row.try_get(\"\", \"snapshot_ciphertext\").map_err(|_| \"REPORT_RUN_INVALID\".to_owned())?, snapshot_digest: row.try_get(\"\", \"snapshot_digest\").map_err(|_| \"REPORT_RUN_INVALID\".to_owned())?, locale: row.try_get(\"\", \"locale\").map_err(|_| \"REPORT_RUN_INVALID\".to_owned())?, timezone: row.try_get(\"\", \"timezone\").map_err(|_| \"REPORT_RUN_INVALID\".to_owned())?, paper: row.try_get(\"\", \"paper\").map_err(|_| \"REPORT_RUN_INVALID\".to_owned())?, orientation: row.try_get(\"\", \"orientation\").map_err(|_| \"REPORT_RUN_INVALID\".to_owned())?, stage: row.try_get(\"\", \"stage\").map_err(|_| \"REPORT_RUN_INVALID\".to_owned())?, }) } ");
    text.append("async fn update_report_stage<C: ConnectionTrait>(database: &C, id: uuid::Uuid, stage: &str, progress: i32, error_code: Option<&str>,) -> Result<(), String> { ");
    text.append("database.execute_raw(Statement::from_sql_and_values(DbBackend::Postgres, \"UPDATE \\\"_appstruct_report_runs\\\" SET stage = $2, progress = $3, error_code = $4, completed_at = CASE WHEN $2 IN ('failed', 'cancelled') THEN CURRENT_TIMESTAMP ELSE completed_at END WHERE id = $1 AND stage <> 'cancelled'\", [id.into(), stage.to_owned().into(), progress.into(), error_code.map(str::to_owned).into()],)).await.map_err(|_| \"REPORT_STATE_UPDATE_FAILED\".to_owned())?; ");
    text.append("Ok(()) }");
    text
}

/// The report routes and the template listing.
#[verifier::opaque]
pub open spec fn report_router_text() -> Seq<char> {
    "pub fn router() -> Router<AppState> { "@
        + "Router::new().route(\"/api/reports/templates\", get(list_templates)).route(\"/api/reports/templates/{name}/runs\", post(create_run)).route(\"/api/reports/runs\", get(list_runs)).route(\"/api/reports/runs/{id}\", get(get_run)).route(\"/api/reports/runs/{id}/cancel\", post(cancel_run)).route(\"/api/reports/runs/{id}/download\", get(download_run)) } "@
        + "async fn list_templates(State(state): State<AppState>, headers: HeaderMap,) -> Result<Json<Vec<ReportTemplate>>, ApiError> { "@
        + "let context = state.context(&headers).await?; "@
        + "context.actor().ok_or(ApiError::Unauthorized)?; "@
        + "let templates = REPORT_TEMPLATES.iter().map(|template| ReportTemplate { "@
        + "name: template.name.to_owned(), version: template.version, document_type: \"pdf\".to_owned(), artifact_digest: template.artifact_digest.to_owned(), input_schema: serde_json::from_str(template.input_schema).expect(\"compiler validated report JSON schema\"), data_schema_version: template.data_schema_version, renderer_version: REPORT_RENDERER_VERSION.to_owned(), }).collect(); "@
        + "Ok(Json(templates)) } "@
}

fn report_router() -> (text: String)
    ensures
        text@ == report_router_text(),
{
    proof {
        reveal(report_router_text);
    }
    let mut text = String::from_str("pub fn router() -> Router<AppState> { ");
    text.append("Router::new().route(\"/api/reports/templates\", get(list_templates)).route(\"/api/reports/templates/{name}/runs\", post(create_run)).route(\"/api/reports/runs\", get(list_runs)).route(\"/api/reports/runs/{id}\", get(get_run)).route(\"/api/reports/runs/{id}/cancel\", post(cancel_run)).route(\"/api/reports/runs/{id}/download\", get(download_run)) } ");
    text.append("async fn list_templates(State(state): State<AppState>, headers: HeaderMap,) -> Result<Json<Vec<ReportTemplate>>, ApiError> { ");
    text.append("let context = state.context(&headers).await?; ");
    text.append("context.actor().ok_or(ApiError::Unauthorized)?; ");
    text.append("let templates = REPORT_TEMPLATES.iter().map(|template| ReportTemplate { ");
    text.append("name: template.name.to_owned(), version: template.version, document_type: \"pdf\".to_owned(), artifact_digest: template.artifact_digest.to_owned(), input_schema: serde_json::from_str(template.input_schema).expect(\"compiler validated report JSON schema\"), data_schema_version: template.data_schema_version, renderer_version: REPORT_RENDERER_VERSION.to_owned(), }).collect(); ");
    text.append("Ok(Json(templates)) } ");
    text
}

/// The run options and the validation of report input.
#[verifier::opaque]
pub open spec fn report_validation_text() -> Seq<char> {
    "fn report_options(input: &CreateReportRun) -> Result<(String, String, String, String), ApiError> { "@
        + "let locale = input.locale.as_deref().unwrap_or(\"en-US\"); "@
        + "let timezone = input.timezone.as_deref().unwrap_or(\"UTC\"); "@
        + "let paper = input.paper.as_deref().unwrap_or(\"a4\"); "@
        + "let orientation = input.orientation.as_deref().unwrap_or(\"portrait\"); "@
        + "if !matches!(locale, \"en-US\" | \"zh-CN\") { "@
        + "return Err(ApiError::InvalidReportInput(\"locale must be en-US or zh-CN\".to_owned())); } "@
        + "if !matches!(timezone, \"UTC\" | \"Asia/Shanghai\") { "@
        + "return Err(ApiError::InvalidReportInput(\"timezone must be UTC or Asia/Shanghai\".to_owned(),)); "@
        + "} if !matches!(paper, \"a4\" | \"letter\") { "@
        + "return Err(ApiError::InvalidReportInput(\"paper must be a4 or letter\".to_owned())); } "@
        + "if !matches!(orientation, \"portrait\" | \"landscape\") { "@
        + "return Err(ApiError::InvalidReportInput(\"orientation must be portrait or landscape\".to_owned(),)); "@
        + "} "@
        + "Ok((locale.to_owned(), timezone.to_owned(), paper.to_owned(), orientation.to_owned())) } "@
        + "fn validate_report_input(template: ReportTemplateConfig, input: &serde_json::Value,) -> Result<Vec<u8>, ApiError> { "@
        + "let bytes = serde_json::to_vec(input).map_err(|_| ApiError::InvalidReportInput(\"report data is not valid JSON\".to_owned(),))?; "@
        + "if u64::try_from(bytes.len()).unwrap_or(u64::MAX) > REPORT_MAX_INPUT_BYTES { "@
        + "return Err(ApiError::InvalidReportInput(format!(\"report data exceeds the {REPORT_MAX_INPUT_BYTES} "@
        + "byte limit\"))); } "@
        + "let schema = serde_json::from_str(template.input_schema).map_err(|_| ApiError::ReportConfiguration)?; "@
        + "let validator = jsonschema::validator_for(&schema).map_err(|_| ApiError::ReportConfiguration)?; "@
        + "if let Err(error) = validator.validate(input) { "@
        + "return Err(ApiError::InvalidReportInput(error.to_string().chars().take(500).collect(),)); "@
        + "} Ok(bytes) } "@
}

fn report_validation() -> (text: String)
    ensures
        text@ == report_validation_text(),
{
    proof {
        reveal(report_validation_text);
    }
    let mut text = String::from_str("fn report_options(input: &CreateReportRun) -> Result<(String, String, String, String), ApiError> { ");
    text.append("let locale = input.locale.as_deref().unwrap_or(\"en-US\"); ");
    text.append("let timezone = input.timezone.as_deref().unwrap_or(\"UTC\"); ");
    text.append("let paper = input.paper.as_deref().unwrap_or(\"a4\"); ");
    text.append("let orientation = input.orientation.as_deref().unwrap_or(\"portrait\"); ");
    text.append("if !matches!(locale, \"en-US\" | \"zh-CN\") { ");
    text.append("return Err(ApiError::InvalidReportInput(\"locale must be en-US or zh-CN\".to_owned())); } ");
    text.append("if !matches!(timezone, \"UTC\" | \"Asia/Shanghai\") { ");
    text.append("return Err(ApiError::InvalidReportInput(\"timezone must be UTC or Asia/Shanghai\".to_owned(),)); ");
    text.append("} if !matches!(paper, \"a4\" | \"letter\") { ");
    text.append("return Err(ApiError::InvalidReportInput(\"paper must be a4 or letter\".to_owned())); } ");
    text.append("if !matches!(orientation, \"portrait\" | \"landscape\") { ");
    text.append("return Err(ApiError::InvalidReportInput(\"orientation must be portrait or landscape\".to_owned(),)); ");
    text.append("} ");
    text.append("Ok((locale.to_owned(), timezone.to_owned(), paper.to_owned(), orientation.to_owned())) } ");
    text.append("fn validate_report_input(template: ReportTemplateConfig, input: &serde_json::Value,) -> Result<Vec<u8>, ApiError> { ");
    text.append("let bytes = serde_json::to_vec(input).map_err(|_| ApiError::InvalidReportInput(\"report data is not valid JSON\".to_owned(),))?; ");
    text.append("if u64::try_from(bytes.len()).unwrap_or(u64::MAX) > REPORT_MAX_INPUT_BYTES { ");
    text.append("return Err(ApiError::InvalidReportInput(format!(\"report data exceeds the {REPORT_MAX_INPUT_BYTES} ");
    text.append("byte limit\"))); } ");
    text.append("let schema = serde_json::from_str(template.input_schema).map_err(|_| ApiError::ReportConfiguration)?; ");
    text.append("let validator = jsonschema::validator_for(&schema).map_err(|_| ApiError::ReportConfiguration)?; ");
    text.append("if let Err(error) = validator.validate(input) { ");
    text.append("return Err(ApiError::InvalidReportInput(error.to_string().chars().take(500).collect(),)); ");
    text.append("} Ok(bytes) } ");
    text
}

/// Idempotency keys, run access and run rows, then the create and read endpoints.
#[verifier::opaque]
pub open spec fn report_run_helpers_text(create: Seq<char>, read: Seq<char>) -> Seq<char> {
    "fn idempotency_key(headers: &HeaderMap) -> Result<&str, ApiError> { "@
        + "let key = headers.get(\"Idempotency-Key\").ok_or(ApiError::ReportIdempotencyRequired)?.to_str().map_err(|_| ApiError::ReportIdempotencyRequired)?; "@
        + "if key.is_empty() || key.len() > 200 || key.chars().any(char::is_control) { "@
        + "return Err(ApiError::ReportIdempotencyRequired); } Ok(key) } "@
        + "fn ensure_run_access(context: &RequestContext<'_>, run: &ReportRun) -> Result<(), ApiError> { "@
        + "let actor = context.actor().ok_or(ApiError::Unauthorized)?; "@
        + "if run.actor_id == Some(actor.id) || can_read_all_reports(context) { Ok(()) } else { "@
        + "Err(ApiError::Forbidden) } } "@
        + create
        + " "@
        + read
        + " fn run_from_row(row: sea_orm::QueryResult) -> Result<ReportRun, sea_orm::DbErr> { "@
        + "Ok(ReportRun { "@
        + "id: row.try_get(\"\", \"id\")?, execution_job_id: row.try_get(\"\", \"execution_job_id\")?, template: row.try_get(\"\", \"template\")?, template_version: u32::try_from(row.try_get::<i32>(\"\", \"template_version\")?).unwrap_or_default(), tenant_id: row.try_get(\"\", \"tenant_id\")?, actor_id: row.try_get(\"\", \"actor_id\")?, stage: row.try_get(\"\", \"stage\")?, progress: u32::try_from(row.try_get::<i32>(\"\", \"progress\")?).unwrap_or_default(), locale: row.try_get(\"\", \"locale\")?, timezone: row.try_get(\"\", \"timezone\")?, paper: row.try_get(\"\", \"paper\")?, orientation: row.try_get(\"\", \"orientation\")?, result_file_id: row.try_get(\"\", \"result_file_id\")?, error_code: row.try_get(\"\", \"error_code\")?, created_at: row.try_get(\"\", \"created_at\")?, completed_at: row.try_get(\"\", \"completed_at\")?, expires_at: row.try_get(\"\", \"expires_at\")?, }) }"@
}

fn report_run_helpers(create: &str, read: &str) -> (text: String)
    ensures
        text@ == report_run_helpers_text(create@, read@),
{
    proof {
        reveal(report_run_helpers_text);
    }
    let mut text = String::from_str("fn idempotency_key(headers: &HeaderMap) -> Result<&str, ApiError> { ");
    text.append("let key = headers.get(\"Idempotency-Key\").ok_or(ApiError::ReportIdempotencyRequired)?.to_str().map_err(|_| ApiError::ReportIdempotencyRequired)?; ");
    text.append("if key.is_empty() || key.len() > 200 || key.chars().any(char::is_control) { ");
    text.append("return Err(ApiError::ReportIdempotencyRequired); } Ok(key) } ");
    text.append("fn ensure_run_access(context: &RequestContext<'_>, run: &ReportRun) -> Result<(), ApiError> { ");
    text.append("let actor = context.actor().ok_or(ApiError::Unauthorized)?; ");
    text.append("if run.actor_id == Some(actor.id) || can_read_all_reports(context) { Ok(()) } else { ");
    text.append("Err(ApiError::Forbidden) } } ");
    text.append(create);
    text.append(" ");
    text.append(read);
    text.append(" fn run_from_row(row: sea_orm::QueryResult) -> Result<ReportRun, sea_orm::DbErr> { ");
    text.append("Ok(ReportRun { ");
    text.append("id: row.try_get(\"\", \"id\")?, execution_job_id: row.try_get(\"\", \"execution_job_id\")?, template: row.try_get(\"\", \"template\")?, template_version: u32::try_from(row.try_get::<i32>(\"\", \"template_version\")?).unwrap_or_default(), tenant_id: row.try_get(\"\", \"tenant_id\")?, actor_id: row.try_get(\"\", \"actor_id\")?, stage: row.try_get(\"\", \"stage\")?, progress: u32::try_from(row.try_get::<i32>(\"\", \"progress\")?).unwrap_or_default(), locale: row.try_get(\"\", \"locale\")?, timezone: row.try_get(\"\", \"timezone\")?, paper: row.try_get(\"\", \"paper\")?, orientation: row.try_get(\"\", \"orientation\")?, result_file_id: row.try_get(\"\", \"result_file_id\")?, error_code: row.try_get(\"\", \"error_code\")?, created_at: row.try_get(\"\", \"created_at\")?, completed_at: row.try_get(\"\", \"completed_at\")?, expires_at: row.try_get(\"\", \"expires_at\")?, }) }");
    text
}

/// The audit record of a created run.
#[verifier::opaque]
pub open spec fn create_audit_text() -> Seq<char> {
    "crate::audit::record(&transaction, &context, \"appstruct::report::run\", run.id.to_string(), \"report.create\", None, Some(&run),).await?;"@
}

fn create_audit() -> (text: String)
    ensures
        text@ == create_audit_text(),
{
    proof {
        reveal(create_audit_text);
    }
    let mut text = String::from_str("crate::audit::record(&transaction, &context, \"appstruct::report::run\", run.id.to_string(), \"report.create\", None, Some(&run),).await?;");
    text
}

/// The endpoint that creates a run, and the template check.
#[verifier::opaque]
pub open spec fn report_create_text(audit: Seq<char>) -> Seq<char> {
    "async fn create_run(State(state): State<AppState>, headers: HeaderMap, Path(name): Path<String>, Json(input): Json<CreateReportRun>,) -> Result<(StatusCode, Json<ReportRun>), ApiError> { "@
        + "let context = state.mutation_context(&headers).await?; "@
        + "let actor_id = context.actor().ok_or(ApiError::Unauthorized)?.id; "@
        + "let template = template_config(&name).ok_or(ApiError::UnknownReportTemplate)?; "@
        + "let key = idempotency_key(&headers)?; "@
        + "let (locale, timezone, paper, orientation) = report_options(&input)?; "@
        + "let snapshot = validate_report_input(template, &input.data)?; "@
        + "let request_material = serde_json::to_vec(&serde_json::json!({ "@
        + "\"template\": template.name, \"version\": template.version, \"artifact_digest\": template.artifact_digest, \"data\": input.data, \"locale\": locale, \"timezone\": timezone, \"paper\": paper, \"orientation\": orientation, })).map_err(|_| ApiError::Internal)?; "@
        + "let request_digest = sha256_hex(&request_material); let tenant_id = context.tenant(); "@
        + "let scope = sha256_hex(format!(\"{}:{actor_id}:{}:{}:{key}\", tenant_id.map_or_else(|| \"global\".to_owned(), |tenant| tenant.to_string()), template.name, template.version,).as_bytes()); "@
        + "let run_id = uuid::Uuid::now_v7(); "@
        + "let snapshot_ciphertext = encrypt_snapshot(run_id, &snapshot)?; "@
        + "let snapshot_digest = sha256_hex(&snapshot); "@
        + "let transaction = state.database.begin().await?; "@
        + "let template_id = ensure_template(&transaction, template).await?; "@
        + "let inserted = transaction.query_one_raw(Statement::from_sql_and_values(DbBackend::Postgres, \"INSERT INTO \\\"_appstruct_report_runs\\\" (id, template_id, template_version, tenant_id, actor_id, idempotency_scope, idempotency_key, request_digest, snapshot_ciphertext, snapshot_digest, snapshot_size, locale, timezone, paper, orientation, stage, progress, created_at, expires_at) VALUES ($1, $2, $3, $4, $5, $6, $7, $8, $9, $10, $11, $12, $13, $14, $15, 'queued', 0, CURRENT_TIMESTAMP, CURRENT_TIMESTAMP + ($16 * INTERVAL '1 day')) ON CONFLICT (idempotency_scope) DO NOTHING RETURNING id\", [ run_id.into(), template_id.into(), i32::try_from(template.version).unwrap_or(i32::MAX).into(), tenant_id.into(), actor_id.into(), scope.clone().into(), key.to_owned().into(), request_digest.clone().into(), snapshot_ciphertext.into(), snapshot_digest.into(), i64::try_from(snapshot.len()).unwrap_or(i64::MAX).into(), locale.clone().into(), timezone.clone().into(), paper.clone().into(), orientation.clone().into(), i64::from(REPORT_RETENTION_DAYS).into(), ],)).await?; "@
        + "if inserted.is_none() { let existing = load_run_by_scope(&transaction, &scope).await?; "@
        + "let digest = transaction.query_one_raw(Statement::from_sql_and_values(DbBackend::Postgres, \"SELECT request_digest FROM \\\"_appstruct_report_runs\\\" WHERE idempotency_scope = $1\", [scope.into()],)).await?.ok_or(ApiError::Internal)?.try_get::<String>(\"\", \"request_digest\")?; "@
        + "if digest != request_digest { return Err(ApiError::ReportIdempotencyConflict); } "@
        + "transaction.commit().await?; return Ok((StatusCode::OK, Json(existing))); } "@
        + "let receipt = crate::jobs::enqueue(&transaction, REPORT_QUEUE, \"report.render\", &ReportJobPayload { "@
        + "run_id }, Some(&format!(\"report:{scope}\")), None, tenant_id,).await.map_err(|_| ApiError::Internal)?; "@
        + "transaction.execute_raw(Statement::from_sql_and_values(DbBackend::Postgres, \"UPDATE \\\"_appstruct_report_runs\\\" SET execution_job_id = $2 WHERE id = $1\", [run_id.into(), receipt.id.into()],)).await?; "@
        + "let run = load_run(&transaction, run_id, tenant_id).await?; "@
        + audit
        + " transaction.commit().await?; Ok((StatusCode::ACCEPTED, Json(run))) } "@
        + "async fn ensure_template<C: ConnectionTrait>(database: &C, template: ReportTemplateConfig,) -> Result<uuid::Uuid, ApiError> { "@
        + "let id = uuid::Uuid::now_v7(); "@
        + "let schema: serde_json::Value = serde_json::from_str(template.input_schema).map_err(|_| ApiError::ReportConfiguration)?; "@
        + "let row = database.query_one_raw(Statement::from_sql_and_values(DbBackend::Postgres, \"INSERT INTO \\\"_appstruct_report_templates\\\" (id, name, version, document_type, body, artifact_digest, input_schema, data_schema_version, renderer_version, created_at) VALUES ($1, $2, $3, 'pdf', $4, $5, $6, $7, $8, CURRENT_TIMESTAMP) ON CONFLICT (name, version) DO UPDATE SET name = EXCLUDED.name WHERE \\\"_appstruct_report_templates\\\".artifact_digest = EXCLUDED.artifact_digest AND \\\"_appstruct_report_templates\\\".input_schema = EXCLUDED.input_schema AND \\\"_appstruct_report_templates\\\".data_schema_version = EXCLUDED.data_schema_version AND \\\"_appstruct_report_templates\\\".renderer_version = EXCLUDED.renderer_version RETURNING id\", [ id.into(), template.name.to_owned().into(), i32::try_from(template.version).unwrap_or(i32::MAX).into(), template.body.to_owned().into(), template.artifact_digest.to_owned().into(), schema.into(), i32::try_from(template.data_schema_version).unwrap_or(i32::MAX).into(), REPORT_RENDERER_VERSION.to_owned().into(), ],)).await?.ok_or(ApiError::ReportTemplateMismatch)?; "@
        + "Ok(row.try_get(\"\", \"id\")?) }"@
}

fn report_create(audit: &str) -> (text: String)
    ensures
        text@ == report_create_text(audit@),
{
    proof {
        reveal(report_create_text);
    }
    let mut text = String::from_str("async fn create_run(State(state): State<AppState>, headers: HeaderMap, Path(name): Path<String>, Json(input): Json<CreateReportRun>,) -> Result<(StatusCode, Json<ReportRun>), ApiError> { ");
    text.append("let context = state.mutation_context(&headers).await?; ");
    text.append("let actor_id = context.actor().ok_or(ApiError::Unauthorized)?.id; ");
    text.append("let template = template_config(&name).ok_or(ApiError::UnknownReportTemplate)?; ");
    text.append("let key = idempotency_key(&headers)?; ");
    text.append("let (locale, timezone, paper, orientation) = report_options(&input)?; ");
    text.append("let snapshot = validate_report_input(template, &input.data)?; ");
    text.append("let request_material = serde_json::to_vec(&serde_json::json!({ ");
    text.append("\"template\": template.name, \"version\": template.version, \"artifact_digest\": template.artifact_digest, \"data\": input.data, \"locale\": locale, \"timezone\": timezone, \"paper\": paper, \"orientation\": orientation, })).map_err(|_| ApiError::Internal)?; ");
    text.append("let request_digest = sha256_hex(&request_material); let tenant_id = context.tenant(); ");
    text.append("let scope = sha256_hex(format!(\"{}:{actor_id}:{}:{}:{key}\", tenant_id.map_or_else(|| \"global\".to_owned(), |tenant| tenant.to_string()), template.name, template.version,).as_bytes()); ");
    text.append("let run_id = uuid::Uuid::now_v7(); ");
    text.append("let snapshot_ciphertext = encrypt_snapshot(run_id, &snapshot)?; ");
    text.append("let snapshot_digest = sha256_hex(&snapshot); ");
    text.append("let transaction = state.database.begin().await?; ");
    text.append("let template_id = ensure_template(&transaction, template).await?; ");
    text.append("let inserted = transaction.query_one_raw(Statement::from_sql_and_values(DbBackend::Postgres, \"INSERT INTO \\\"_appstruct_report_runs\\\" (id, template_id, template_version, tenant_id, actor_id, idempotency_scope, idempotency_key, request_digest, snapshot_ciphertext, snapshot_digest, snapshot_size, locale, timezone, paper, orientation, stage, progress, created_at, expires_at) VALUES ($1, $2, $3, $4, $5, $6, $7, $8, $9, $10, $11, $12, $13, $14, $15, 'queued', 0, CURRENT_TIMESTAMP, CURRENT_TIMESTAMP + ($16 * INTERVAL '1 day')) ON CONFLICT (idempotency_scope) DO NOTHING RETURNING id\", [ run_id.into(), template_id.into(), i32::try_from(template.version).unwrap_or(i32::MAX).into(), tenant_id.into(), actor_id.into(), scope.clone().into(), key.to_owned().into(), request_digest.clone().into(), snapshot_ciphertext.into(), snapshot_digest.into(), i64::try_from(snapshot.len()).unwrap_or(i64::MAX).into(), locale.clone().into(), timezone.clone().into(), paper.clone().into(), orientation.clone().into(), i64::from(REPORT_RETENTION_DAYS).into(), ],)).await?; ");
    text.append("if inserted.is_none() { let existing = load_run_by_scope(&transaction, &scope).await?; ");
    text.append("let digest = transaction.query_one_raw(Statement::from_sql_and_values(DbBackend::Postgres, \"SELECT request_digest FROM \\\"_appstruct_report_runs\\\" WHERE idempotency_scope = $1\", [scope.into()],)).await?.ok_or(ApiError::Internal)?.try_get::<String>(\"\", \"request_digest\")?; ");
    text.append("if digest != request_digest { return Err(ApiError::ReportIdempotencyConflict); } ");
    text.append("transaction.commit().await?; return Ok((StatusCode::OK, Json(existing))); } ");
    text.append("let receipt = crate::jobs::enqueue(&transaction, REPORT_QUEUE, \"report.render\", &ReportJobPayload { ");
    text.append("run_id }, Some(&format!(\"report:{scope}\")), None, tenant_id,).await.map_err(|_| ApiError::Internal)?; ");
    text.append("transaction.execute_raw(Statement::from_sql_and_values(DbBackend::Postgres, \"UPDATE \\\"_appstruct_report_runs\\\" SET execution_job_id = $2 WHERE id = $1\", [run_id.into(), receipt.id.into()],)).await?; ");
    text.append("let run = load_run(&transaction, run_id, tenant_id).await?; ");
    text.append(audit);
    text.append(" transaction.commit().await?; Ok((StatusCode::ACCEPTED, Json(run))) } ");
    text.append("async fn ensure_template<C: ConnectionTrait>(database: &C, template: ReportTemplateConfig,) -> Result<uuid::Uuid, ApiError> { ");
    text.append("let id = uuid::Uuid::now_v7(); ");
    text.append("let schema: serde_json::Value = serde_json::from_str(template.input_schema).map_err(|_| ApiError::ReportConfiguration)?; ");
    text.append("let row = database.query_one_raw(Statement::from_sql_and_values(DbBackend::Postgres, \"INSERT INTO \\\"_appstruct_report_templates\\\" (id, name, version, document_type, body, artifact_digest, input_schema, data_schema_version, renderer_version, created_at) VALUES ($1, $2, $3, 'pdf', $4, $5, $6, $7, $8, CURRENT_TIMESTAMP) ON CONFLICT (name, version) DO UPDATE SET name = EXCLUDED.name WHERE \\\"_appstruct_report_templates\\\".artifact_digest = EXCLUDED.artifact_digest AND \\\"_appstruct_report_templates\\\".input_schema = EXCLUDED.input_schema AND \\\"_appstruct_report_templates\\\".data_schema_version = EXCLUDED.data_schema_version AND \\\"_appstruct_report_templates\\\".renderer_version = EXCLUDED.renderer_version RETURNING id\", [ id.into(), template.name.to_owned().into(), i32::try_from(template.version).unwrap_or(i32::MAX).into(), template.body.to_owned().into(), template.artifact_digest.to_owned().into(), schema.into(), i32::try_from(template.data_schema_version).unwrap_or(i32::MAX).into(), REPORT_RENDERER_VERSION.to_owned().into(), ],)).await?.ok_or(ApiError::ReportTemplateMismatch)?; ");
    text.append("Ok(row.try_get(\"\", \"id\")?) }");
    text
}

/// The audit record of a cancelled run.
#[verifier::opaque]
pub open spec fn cancel_audit_text() -> Seq<char> {
    "crate::audit::record(&transaction, &context, \"appstruct::report::run\", after.id.to_string(), \"report.cancel\", Some(&before), Some(&after),).await?;"@
}

fn cancel_audit() -> (text: String)
    ensures
        text@ == cancel_audit_text(),
{
    proof {
        reveal(cancel_audit_text);
    }
    let mut text = String::from_str("crate::audit::record(&transaction, &context, \"appstruct::report::run\", after.id.to_string(), \"report.cancel\", Some(&before), Some(&after),).await?;");
    text
}

/// The audit record of a downloaded run.
#[verifier::opaque]
pub open spec fn download_audit_text() -> Seq<char> {
    "crate::audit::record(&state.database, &context, \"appstruct::report::run\", run.id.to_string(), \"report.download\", Some(&run), Some(&run),).await?;"@
}

fn download_audit() -> (text: String)
    ensures
        text@ == download_audit_text(),
{
    proof {
        reveal(download_audit_text);
    }
    let mut text = String::from_str("crate::audit::record(&state.database, &context, \"appstruct::report::run\", run.id.to_string(), \"report.download\", Some(&run), Some(&run),).await?;");
    text
}

/// The endpoints that list runs and read one.
#[verifier::opaque]
pub open spec fn report_listing_text() -> Seq<char> {
    "async fn list_runs(State(state): State<AppState>, headers: HeaderMap, Query(query): Query<ReportRunQuery>,) -> Result<Json<ReportRunList>, ApiError> { "@
        + "let context = state.context(&headers).await?; "@
        + "let actor_id = context.actor().ok_or(ApiError::Unauthorized)?.id; "@
        + "let page = query.page.unwrap_or(1); let page_size = query.page_size.unwrap_or(25); "@
        + "if !(1..=10_000).contains(&page) || !(1..=100).contains(&page_size) { "@
        + "return Err(ApiError::InvalidQuery(\"invalid report pagination\".to_owned())); } "@
        + "let all = can_read_all_reports(&context); let tenant_id = context.tenant(); "@
        + "let count = state.database.query_one_raw(Statement::from_sql_and_values(DbBackend::Postgres, \"SELECT COUNT(*) AS total FROM \\\"_appstruct_report_runs\\\" WHERE tenant_id IS NOT DISTINCT FROM $1 AND ($2 OR actor_id = $3)\", [tenant_id.into(), all.into(), actor_id.into()],)).await?.ok_or(ApiError::Internal)?.try_get::<i64>(\"\", \"total\")?; "@
        + "let offset = (page - 1).checked_mul(page_size).ok_or_else(|| ApiError::InvalidQuery(\"report pagination is too large\".to_owned()))?; "@
        + "let rows = state.database.query_all_raw(Statement::from_sql_and_values(DbBackend::Postgres, concat!(\"SELECT r.id, r.execution_job_id, t.name AS template, r.template_version, r.tenant_id, r.actor_id, r.stage::text AS stage, r.progress, r.locale, r.timezone, r.paper::text AS paper, r.orientation::text AS orientation, r.result_file_id, r.error_code, r.created_at, r.completed_at, r.expires_at \", \"FROM \\\"_appstruct_report_runs\\\" r JOIN \\\"_appstruct_report_templates\\\" t ON t.id = r.template_id WHERE r.tenant_id IS NOT DISTINCT FROM $1 AND ($2 OR r.actor_id = $3) ORDER BY r.created_at DESC, r.id DESC LIMIT $4 OFFSET $5\"), [tenant_id.into(), all.into(), actor_id.into(), i64::try_from(page_size).unwrap_or(100).into(), i64::try_from(offset).unwrap_or(i64::MAX).into()],)).await?; "@
        + "let data = rows.into_iter().map(run_from_row).collect::<Result<Vec<_>, _>>()?; "@
        + "Ok(Json(ReportRunList { data, meta: ReportRunListMeta { "@
        + "page, page_size, total: u64::try_from(count).unwrap_or_default(), }})) } "@
        + "async fn get_run(State(state): State<AppState>, headers: HeaderMap, Path(id): Path<String>,) -> Result<Json<ReportRun>, ApiError> { "@
        + "let context = state.context(&headers).await?; "@
        + "let id = uuid::Uuid::parse_str(&id).map_err(|_| ApiError::InvalidId)?; "@
        + "let run = load_run(&state.database, id, context.tenant()).await?; "@
        + "ensure_run_access(&context, &run)?; Ok(Json(run)) } "@
}

fn report_listing() -> (text: String)
    ensures
        text@ == report_listing_text(),
{
    proof {
        reveal(report_listing_text);
    }
    let mut text = String::from_str("async fn list_runs(State(state): State<AppState>, headers: HeaderMap, Query(query): Query<ReportRunQuery>,) -> Result<Json<ReportRunList>, ApiError> { ");
    text.append("let context = state.context(&headers).await?; ");
    text.append("let actor_id = context.actor().ok_or(ApiError::Unauthorized)?.id; ");
    text.append("let page = query.page.unwrap_or(1); let page_size = query.page_size.unwrap_or(25); ");
    text.append("if !(1..=10_000).contains(&page) || !(1..=100).contains(&page_size) { ");
    text.append("return Err(ApiError::InvalidQuery(\"invalid report pagination\".to_owned())); } ");
    text.append("let all = can_read_all_reports(&context); let tenant_id = context.tenant(); ");
    text.append("let count = state.database.query_one_raw(Statement::from_sql_and_values(DbBackend::Postgres, \"SELECT COUNT(*) AS total FROM \\\"_appstruct_report_runs\\\" WHERE tenant_id IS NOT DISTINCT FROM $1 AND ($2 OR actor_id = $3)\", [tenant_id.into(), all.into(), actor_id.into()],)).await?.ok_or(ApiError::Internal)?.try_get::<i64>(\"\", \"total\")?; ");
    text.append("let offset = (page - 1).checked_mul(page_size).ok_or_else(|| ApiError::InvalidQuery(\"report pagination is too large\".to_owned()))?; ");
    text.append("let rows = state.database.query_all_raw(Statement::from_sql_and_values(DbBackend::Postgres, concat!(\"SELECT r.id, r.execution_job_id, t.name AS template, r.template_version, r.tenant_id, r.actor_id, r.stage::text AS stage, r.progress, r.locale, r.timezone, r.paper::text AS paper, r.orientation::text AS orientation, r.result_file_id, r.error_code, r.created_at, r.completed_at, r.expires_at \", \"FROM \\\"_appstruct_report_runs\\\" r JOIN \\\"_appstruct_report_templates\\\" t ON t.id = r.template_id WHERE r.tenant_id IS NOT DISTINCT FROM $1 AND ($2 OR r.actor_id = $3) ORDER BY r.created_at DESC, r.id DESC LIMIT $4 OFFSET $5\"), [tenant_id.into(), all.into(), actor_id.into(), i64::try_from(page_size).unwrap_or(100).into(), i64::try_from(offset).unwrap_or(i64::MAX).into()],)).await?; ");
    text.append("let data = rows.into_iter().map(run_from_row).collect::<Result<Vec<_>, _>>()?; ");
    text.append("Ok(Json(ReportRunList { data, meta: ReportRunListMeta { ");
    text.append("page, page_size, total: u64::try_from(count).unwrap_or_default(), }})) } ");
    text.append("async fn get_run(State(state): State<AppState>, headers: HeaderMap, Path(id): Path<String>,) -> Result<Json<ReportRun>, ApiError> { ");
    text.append("let context = state.context(&headers).await?; ");
    text.append("let id = uuid::Uuid::parse_str(&id).map_err(|_| ApiError::InvalidId)?; ");
    text.append("let run = load_run(&state.database, id, context.tenant()).await?; ");
    text.append("ensure_run_access(&context, &run)?; Ok(Json(run)) } ");
    text
}

/// The endpoints that cancel and download a run.
#[verifier::opaque]
pub open spec fn report_cancel_text(cancel_audit: Seq<char>, download_audit: Seq<char>) -> Seq<char> {
    "async fn cancel_run(State(state): State<AppState>, headers: HeaderMap, Path(id): Path<String>,) -> Result<Json<ReportRun>, ApiError> { "@
        + "let context = state.mutation_context(&headers).await?; "@
        + "let id = uuid::Uuid::parse_str(&id).map_err(|_| ApiError::InvalidId)?; "@
        + "let transaction = state.database.begin().await?; "@
        + "let before = load_run_locked(&transaction, id, context.tenant()).await?; "@
        + "ensure_run_access(&context, &before)?; "@
        + "if !matches!(before.stage.as_str(), \"queued\" | \"rendering\") { "@
        + "return Err(ApiError::ReportCancellationConflict); } "@
        + "let job_id = before.execution_job_id.ok_or(ApiError::ReportCancellationConflict)?; "@
        + "let result = transaction.execute_raw(Statement::from_sql_and_values(DbBackend::Postgres, \"UPDATE \\\"_appstruct_jobs\\\" SET status = 'cancelled', completed_at = CURRENT_TIMESTAMP, locked_by = NULL, locked_until = NULL WHERE id = $1 AND status IN ('queued', 'running')\", [job_id.into()],)).await?; "@
        + "if result.rows_affected() != 1 { return Err(ApiError::ReportCancellationConflict); } "@
        + "transaction.execute_raw(Statement::from_sql_and_values(DbBackend::Postgres, \"UPDATE \\\"_appstruct_report_runs\\\" SET stage = 'cancelled', completed_at = CURRENT_TIMESTAMP, progress = 0 WHERE id = $1\", [id.into()],)).await?; "@
        + "let after = load_run(&transaction, id, context.tenant()).await?; "@
        + cancel_audit
        + " transaction.commit().await?; Ok(Json(after)) } "@
        + "async fn download_run(State(state): State<AppState>, headers: HeaderMap, Path(id): Path<String>,) -> Result<Response, ApiError> { "@
        + "let context = state.context(&headers).await?; "@
        + "let id = uuid::Uuid::parse_str(&id).map_err(|_| ApiError::InvalidId)?; "@
        + "let run = load_run(&state.database, id, context.tenant()).await?; "@
        + "ensure_run_access(&context, &run)?; "@
        + "if run.stage != \"succeeded\" || run.expires_at <= chrono::Utc::now() { "@
        + "return Err(ApiError::ReportNotReady); } "@
        + "let object_key = state.database.query_one_raw(Statement::from_sql_and_values(DbBackend::Postgres, \"SELECT result_object_key FROM \\\"_appstruct_report_runs\\\" WHERE id = $1 AND tenant_id IS NOT DISTINCT FROM $2\", [id.into(), context.tenant().into()],)).await?.ok_or(ApiError::NotFound)?.try_get::<Option<String>>(\"\", \"result_object_key\")?.ok_or(ApiError::ReportNotReady)?; "@
        + "let (_, content) = state.file.get(&object_key, context.tenant()).await.map_err(|_| ApiError::ReportNotReady)?; "@
        + download_audit
        + " let filename = format!(\"{}-{}.pdf\", run.template, run.id); "@
        + "let mut response = Response::new(Body::from(content)); "@
        + "response.headers_mut().insert(header::CONTENT_TYPE, HeaderValue::from_static(\"application/pdf\")); "@
        + "response.headers_mut().insert(header::CONTENT_DISPOSITION, HeaderValue::from_str(&format!(\"attachment; "@
        + "filename=\\\"{filename}\\\"\")).map_err(|_| ApiError::Internal)?,); Ok(response) } "@
}

fn report_cancel(cancel_audit: &str, download_audit: &str) -> (text: String)
    ensures
        text@ == report_cancel_text(cancel_audit@, download_audit@),
{
    proof {
        reveal(report_cancel_text);
    }
    let mut text = String::from_str("async fn cancel_run(State(state): State<AppState>, headers: HeaderMap, Path(id): Path<String>,) -> Result<Json<ReportRun>, ApiError> { ");
    text.append("let context = state.mutation_context(&headers).await?; ");
    text.append("let id = uuid::Uuid::parse_str(&id).map_err(|_| ApiError::InvalidId)?; ");
    text.append("let transaction = state.database.begin().await?; ");
    text.append("let before = load_run_locked(&transaction, id, context.tenant()).await?; ");
    text.append("ensure_run_access(&context, &before)?; ");
    text.append("if !matches!(before.stage.as_str(), \"queued\" | \"rendering\") { ");
    text.append("return Err(ApiError::ReportCancellationConflict); } ");
    text.append("let job_id = before.execution_job_id.ok_or(ApiError::ReportCancellationConflict)?; ");
    text.append("let result = transaction.execute_raw(Statement::from_sql_and_values(DbBackend::Postgres, \"UPDATE \\\"_appstruct_jobs\\\" SET status = 'cancelled', completed_at = CURRENT_TIMESTAMP, locked_by = NULL, locked_until = NULL WHERE id = $1 AND status IN ('queued', 'running')\", [job_id.into()],)).await?; ");
    text.append("if result.rows_affected() != 1 { return Err(ApiError::ReportCancellationConflict); } ");
    text.append("transaction.execute_raw(Statement::from_sql_and_values(DbBackend::Postgres, \"UPDATE \\\"_appstruct_report_runs\\\" SET stage = 'cancelled', completed_at = CURRENT_TIMESTAMP, progress = 0 WHERE id = $1\", [id.into()],)).await?; ");
    text.append("let after = load_run(&transaction, id, context.tenant()).await?; ");
    text.append(cancel_audit);
    text.append(" transaction.commit().await?; Ok(Json(after)) } ");
    text.append("async fn download_run(State(state): State<AppState>, headers: HeaderMap, Path(id): Path<String>,) -> Result<Response, ApiError> { ");
    text.append("let context = state.context(&headers).await?; ");
    text.append("let id = uuid::Uuid::parse_str(&id).map_err(|_| ApiError::InvalidId)?; ");
    text.append("let run = load_run(&state.database, id, context.tenant()).await?; ");
    text.append("ensure_run_access(&context, &run)?; ");
    text.append("if run.stage != \"succeeded\" || run.expires_at <= chrono::Utc::now() { ");
    text.append("return Err(ApiError::ReportNotReady); } ");
    text.append("let object_key = state.database.query_one_raw(Statement::from_sql_and_values(DbBackend::Postgres, \"SELECT result_object_key FROM \\\"_appstruct_report_runs\\\" WHERE id = $1 AND tenant_id IS NOT DISTINCT FROM $2\", [id.into(), context.tenant().into()],)).await?.ok_or(ApiError::NotFound)?.try_get::<Option<String>>(\"\", \"result_object_key\")?.ok_or(ApiError::ReportNotReady)?; ");
    text.append("let (_, content) = state.file.get(&object_key, context.tenant()).await.map_err(|_| ApiError::ReportNotReady)?; ");
    text.append(download_audit);
    text.append(" let filename = format!(\"{}-{}.pdf\", run.template, run.id); ");
    text.append("let mut response = Response::new(Body::from(content)); ");
    text.append("response.headers_mut().insert(header::CONTENT_TYPE, HeaderValue::from_static(\"application/pdf\")); ");
    text.append("response.headers_mut().insert(header::CONTENT_DISPOSITION, HeaderValue::from_str(&format!(\"attachment; ");
    text.append("filename=\\\"{filename}\\\"\")).map_err(|_| ApiError::Internal)?,); Ok(response) } ");
    text
}

/// The loading of runs.
#[verifier::opaque]
pub open spec fn report_loading_text() -> Seq<char> {
    "async fn load_run<C: ConnectionTrait>(database: &C, id: uuid::Uuid, tenant_id: Option<uuid::Uuid>,) -> Result<ReportRun, ApiError> { "@
        + "load_run_query(database, \"\", [id.into(), tenant_id.into()]).await } "@
        + "async fn load_run_locked<C: ConnectionTrait>(database: &C, id: uuid::Uuid, tenant_id: Option<uuid::Uuid>,) -> Result<ReportRun, ApiError> { "@
        + "load_run_query(database, \" FOR UPDATE\", [id.into(), tenant_id.into()]).await } "@
        + "async fn load_run_query<C: ConnectionTrait>(database: &C, suffix: &str, values: [sea_orm::Value; "@
        + "2],) -> Result<ReportRun, ApiError> { "@
        + "let sql = format!(\"{}{}\", concat!(\"SELECT r.id, r.execution_job_id, t.name AS template, r.template_version, r.tenant_id, r.actor_id, r.stage::text AS stage, r.progress, r.locale, r.timezone, r.paper::text AS paper, r.orientation::text AS orientation, r.result_file_id, r.error_code, r.created_at, r.completed_at, r.expires_at \", \"FROM \\\"_appstruct_report_runs\\\" r JOIN \\\"_appstruct_report_templates\\\" t ON t.id = r.template_id WHERE r.id = $1 AND r.tenant_id IS NOT DISTINCT FROM $2\"), suffix,); "@
        + "let row = database.query_one_raw(Statement::from_sql_and_values(DbBackend::Postgres, sql, values,)).await?.ok_or(ApiError::NotFound)?; "@
        + "Ok(run_from_row(row)?) } "@
        + "async fn load_run_by_scope<C: ConnectionTrait>(database: &C, scope: &str,) -> Result<ReportRun, ApiError> { "@
        + "let row = database.query_one_raw(Statement::from_sql_and_values(DbBackend::Postgres, concat!(\"SELECT r.id, r.execution_job_id, t.name AS template, r.template_version, r.tenant_id, r.actor_id, r.stage::text AS stage, r.progress, r.locale, r.timezone, r.paper::text AS paper, r.orientation::text AS orientation, r.result_file_id, r.error_code, r.created_at, r.completed_at, r.expires_at \", \"FROM \\\"_appstruct_report_runs\\\" r JOIN \\\"_appstruct_report_templates\\\" t ON t.id = r.template_id WHERE r.idempotency_scope = $1\"), [scope.to_owned().into()],)).await?.ok_or(ApiError::Internal)?; "@
        + "Ok(run_from_row(row)?) }"@
}

fn report_loading() -> (text: String)
    ensures
        text@ == report_loading_text(),
{
    proof {
        reveal(report_loading_text);
    }
    let mut text = String::from_str("async fn load_run<C: ConnectionTrait>(database: &C, id: uuid::Uuid, tenant_id: Option<uuid::Uuid>,) -> Result<ReportRun, ApiError> { ");
    text.append("load_run_query(database, \"\", [id.into(), tenant_id.into()]).await } ");
    text.append("async fn load_run_locked<C: ConnectionTrait>(database: &C, id: uuid::Uuid, tenant_id: Option<uuid::Uuid>,) -> Result<ReportRun, ApiError> { ");
    text.append("load_run_query(database, \" FOR UPDATE\", [id.into(), tenant_id.into()]).await } ");
    text.append("async fn load_run_query<C: ConnectionTrait>(database: &C, suffix: &str, values: [sea_orm::Value; ");
    text.append("2],) -> Result<ReportRun, ApiError> { ");
    text.append("let sql = format!(\"{}{}\", concat!(\"SELECT r.id, r.execution_job_id, t.name AS template, r.template_version, r.tenant_id, r.actor_id, r.stage::text AS stage, r.progress, r.locale, r.timezone, r.paper::text AS paper, r.orientation::text AS orientation, r.result_file_id, r.error_code, r.created_at, r.completed_at, r.expires_at \", \"FROM \\\"_appstruct_report_runs\\\" r JOIN \\\"_appstruct_report_templates\\\" t ON t.id = r.template_id WHERE r.id = $1 AND r.tenant_id IS NOT DISTINCT FROM $2\"), suffix,); ");
    text.append("let row = database.query_one_raw(Statement::from_sql_and_values(DbBackend::Postgres, sql, values,)).await?.ok_or(ApiError::NotFound)?; ");
    text.append("Ok(run_from_row(row)?) } ");
    text.append("async fn load_run_by_scope<C: ConnectionTrait>(database: &C, scope: &str,) -> Result<ReportRun, ApiError> { ");
    text.append("let row = database.query_one_raw(Statement::from_sql_and_values(DbBackend::Postgres, concat!(\"SELECT r.id, r.execution_job_id, t.name AS template, r.template_version, r.tenant_id, r.actor_id, r.stage::text AS stage, r.progress, r.locale, r.timezone, r.paper::text AS paper, r.orientation::text AS orientation, r.result_file_id, r.error_code, r.created_at, r.completed_at, r.expires_at \", \"FROM \\\"_appstruct_report_runs\\\" r JOIN \\\"_appstruct_report_templates\\\" t ON t.id = r.template_id WHERE r.idempotency_scope = $1\"), [scope.to_owned().into()],)).await?.ok_or(ApiError::Internal)?; ");
    text.append("Ok(run_from_row(row)?) }");
    text
}

/// The report module: its imports and parts.
#[verifier::opaque]
pub open spec fn report_module_text(contract: Seq<char>, crypto: Seq<char>, renderer: Seq<char>, routes: Seq<char>, worker: Seq<char>) -> Seq<char> {
    "use crate::{ApiError, AppState, RequestContext}; use axum::{ "@
        + "Json, Router, body::Body, extract::{Path, Query, State}, http::{HeaderMap, HeaderValue, StatusCode, header}, response::Response, routing::{get, post}, }; "@
        + "use base64::Engine as _; use ring::{aead, rand::{SecureRandom, SystemRandom}}; "@
        + "use sea_orm::{ConnectionTrait, DbBackend, Statement, TransactionTrait}; "@
        + "use serde::{Deserialize, Serialize}; use sha2::{Digest, Sha256}; "@
        + contract
        + " "@
        + crypto
        + " "@
        + renderer
        + " "@
        + routes
        + " "@
        + worker
}

fn report_module(contract: &str, crypto: &str, renderer: &str, routes: &str, worker: &str) -> (text: String)
    ensures
        text@ == report_module_text(contract@, crypto@, renderer@, routes@, worker@),
{
    proof {
        reveal(report_module_text);
    }
    let mut text = String::from_str("use crate::{ApiError, AppState, RequestContext}; use axum::{ ");
    text.append("Json, Router, body::Body, extract::{Path, Query, State}, http::{HeaderMap, HeaderValue, StatusCode, header}, response::Response, routing::{get, post}, }; ");
    text.append("use base64::Engine as _; use ring::{aead, rand::{SecureRandom, SystemRandom}}; ");
    text.append("use sea_orm::{ConnectionTrait, DbBackend, Statement, TransactionTrait}; ");
    text.append("use serde::{Deserialize, Serialize}; use sha2::{Digest, Sha256}; ");
    text.append(contract);
    text.append(" ");
    text.append(crypto);
    text.append(" ");
    text.append(renderer);
    text.append(" ");
    text.append(routes);
    text.append(" ");
    text.append(worker);
    text
}

/// The report module where reports are off: a router without routes.
#[verifier::opaque]
pub open spec fn disabled_report_text() -> Seq<char> {
    "use crate::AppState; use axum::Router; pub fn router() -> Router<AppState> { "@
        + "Router::new() }"@
}

fn disabled_report() -> (text: String)
    ensures
        text@ == disabled_report_text(),
{
    proof {
        reveal(disabled_report_text);
    }
    let mut text = String::from_str("use crate::AppState; use axum::Router; pub fn router() -> Router<AppState> { ");
    text.append("Router::new() }");
    text
}

/// The retry classification, the render checks and the publishing of finished reports.
#[verifier::opaque]
pub open spec fn report_lifecycle_text() -> Seq<char> {
    "pub(crate) fn retryable_job_error(kind: &str, code: &str) -> bool { "@
        + "kind != \"report.render\" || !matches!(code, \"REPORT_INVALID_TEMPLATE_ARTIFACT\" | \"REPORT_BLOCKED_RESOURCE\" | \"REPORT_RESOURCE_LIMIT\" | \"REPORT_INVALID_OUTPUT\" | \"REPORT_TEMPLATE_RENDER_FAILED\" | \"REPORT_SNAPSHOT_INVALID\" | \"REPORT_CANCELLED\") } "@
        + "async fn ensure_render_active<C: ConnectionTrait>(database: &C, job: &crate::Job, run_id: uuid::Uuid) -> Result<(), String> { "@
        + "let row = database.query_one_raw(Statement::from_sql_and_values(DbBackend::Postgres, \"SELECT r.stage::text AS stage, (j.status = 'running' AND j.attempts = $3 AND j.locked_until > clock_timestamp()) AS owned FROM \\\"_appstruct_report_runs\\\" r JOIN \\\"_appstruct_jobs\\\" j ON j.id = r.execution_job_id WHERE r.id = $1 AND j.id = $2 AND r.tenant_id IS NOT DISTINCT FROM $4\", [run_id.into(), job.id.into(), job.attempts.into(), job.tenant_id.into()],)).await.map_err(|_| \"REPORT_RUN_LOAD_FAILED\")?.ok_or(\"REPORT_LEASE_LOST\")?; "@
        + "if row.try_get::<String>(\"\", \"stage\").map_err(|_| \"REPORT_RUN_INVALID\")? == \"cancelled\" { "@
        + "return Err(\"REPORT_CANCELLED\".into()); } "@
        + "if !row.try_get::<bool>(\"\", \"owned\").map_err(|_| \"REPORT_RUN_INVALID\")? { "@
        + "return Err(\"REPORT_LEASE_LOST\".into()); } Ok(()) } "@
        + "async fn wait_for_render_stop(database: &sea_orm::DatabaseConnection, job: &crate::Job, run_id: uuid::Uuid) -> String { "@
        + "loop { tokio::time::sleep(std::time::Duration::from_millis(200)).await; "@
        + "if let Err(error) = ensure_render_active(database, job, run_id).await { return error; } } "@
        + "} "@
        + "async fn update_report_failure<C: ConnectionTrait>(database: &C, job: &crate::Job, run_id: uuid::Uuid, stage: &str, code: &str) -> Result<(), String> { "@
        + "database.execute_raw(Statement::from_sql_and_values(DbBackend::Postgres, \"UPDATE \\\"_appstruct_report_runs\\\" r SET stage = $3, progress = 0, error_code = $4, completed_at = CASE WHEN $3 = 'failed' THEN CURRENT_TIMESTAMP ELSE r.completed_at END FROM \\\"_appstruct_jobs\\\" j WHERE r.id = $1 AND r.execution_job_id = j.id AND j.id = $2 AND j.attempts = $5 AND j.status = 'running' AND j.locked_until > clock_timestamp() AND r.stage NOT IN ('cancelled', 'succeeded')\", [run_id.into(), job.id.into(), stage.to_owned().into(), code.to_owned().into(), job.attempts.into()],)).await.map_err(|_| \"REPORT_STATE_UPDATE_FAILED\")?; "@
        + "Ok(()) } "@
        + "async fn publish_report(database: &sea_orm::DatabaseConnection, file: &crate::FileState, job: &crate::Job, work: &ReportWork, content: &[u8]) -> Result<(), String> { "@
        + "let transaction = database.begin().await.map_err(|_| \"REPORT_PUBLISH_FAILED\")?; "@
        + "let lock = transaction.query_one_raw(Statement::from_sql_and_values(DbBackend::Postgres, \"SELECT r.id FROM \\\"_appstruct_report_runs\\\" r JOIN \\\"_appstruct_jobs\\\" j ON j.id = r.execution_job_id WHERE r.id = $1 AND j.id = $2 FOR UPDATE OF r, j\", [work.id.into(), job.id.into()],)).await.map_err(|_| \"REPORT_PUBLISH_FAILED\")?; "@
        + "if lock.is_none() { return Err(\"REPORT_LEASE_LOST\".into()); } "@
        + "ensure_render_active(&transaction, job, work.id).await?; "@
        + "update_report_stage(&transaction, work.id, \"publishing\", 80, None).await?; "@
        + "let tenant = work.tenant_id.map_or_else(|| \"global\".to_owned(), |id| id.to_string()); "@
        + "let object_key = format!(\"reports/{tenant}/{}.pdf\", work.id); "@
        + "let original_name = format!(\"{}-{}.pdf\", work.template, work.id); "@
        + "file.discard_unpublished(&transaction, &object_key).await.map_err(|_| \"REPORT_PUBLISH_FAILED\")?; "@
        + "let metadata = match file.get_with_connection(&transaction, &object_key, work.tenant_id).await { "@
        + "Ok((metadata, bytes)) if metadata.content_type == \"application/pdf\" && bytes.starts_with(b\"%PDF-\") => metadata, _ => file.put_with_connection(&transaction, &object_key, &original_name, \"application/pdf\", content, work.tenant_id).await.map_err(|_| \"REPORT_PUBLISH_FAILED\")?, }; "@
        + "transaction.execute_raw(Statement::from_sql_and_values(DbBackend::Postgres, \"UPDATE \\\"_appstruct_report_runs\\\" SET stage = 'succeeded', progress = 100, result_file_id = $2, result_object_key = $3, error_code = NULL, completed_at = CURRENT_TIMESTAMP WHERE id = $1\", [work.id.into(), metadata.id.into(), object_key.into()],)).await.map_err(|_| \"REPORT_STATE_UPDATE_FAILED\")?; "@
        + "transaction.commit().await.map_err(|_| \"REPORT_PUBLISH_FAILED\")?; Ok(()) }"@
}

/// The lifecycle helpers of report runs.
pub fn report_lifecycle() -> (text: String)
    ensures
        text@ == report_lifecycle_text(),
{
    proof {
        reveal(report_lifecycle_text);
    }
    let mut text = String::from_str("pub(crate) fn retryable_job_error(kind: &str, code: &str) -> bool { ");
    text.append("kind != \"report.render\" || !matches!(code, \"REPORT_INVALID_TEMPLATE_ARTIFACT\" | \"REPORT_BLOCKED_RESOURCE\" | \"REPORT_RESOURCE_LIMIT\" | \"REPORT_INVALID_OUTPUT\" | \"REPORT_TEMPLATE_RENDER_FAILED\" | \"REPORT_SNAPSHOT_INVALID\" | \"REPORT_CANCELLED\") } ");
    text.append("async fn ensure_render_active<C: ConnectionTrait>(database: &C, job: &crate::Job, run_id: uuid::Uuid) -> Result<(), String> { ");
    text.append("let row = database.query_one_raw(Statement::from_sql_and_values(DbBackend::Postgres, \"SELECT r.stage::text AS stage, (j.status = 'running' AND j.attempts = $3 AND j.locked_until > clock_timestamp()) AS owned FROM \\\"_appstruct_report_runs\\\" r JOIN \\\"_appstruct_jobs\\\" j ON j.id = r.execution_job_id WHERE r.id = $1 AND j.id = $2 AND r.tenant_id IS NOT DISTINCT FROM $4\", [run_id.into(), job.id.into(), job.attempts.into(), job.tenant_id.into()],)).await.map_err(|_| \"REPORT_RUN_LOAD_FAILED\")?.ok_or(\"REPORT_LEASE_LOST\")?; ");
    text.append("if row.try_get::<String>(\"\", \"stage\").map_err(|_| \"REPORT_RUN_INVALID\")? == \"cancelled\" { ");
    text.append("return Err(\"REPORT_CANCELLED\".into()); } ");
    text.append("if !row.try_get::<bool>(\"\", \"owned\").map_err(|_| \"REPORT_RUN_INVALID\")? { ");
    text.append("return Err(\"REPORT_LEASE_LOST\".into()); } Ok(()) } ");
    text.append("async fn wait_for_render_stop(database: &sea_orm::DatabaseConnection, job: &crate::Job, run_id: uuid::Uuid) -> String { ");
    text.append("loop { tokio::time::sleep(std::time::Duration::from_millis(200)).await; ");
    text.append("if let Err(error) = ensure_render_active(database, job, run_id).await { return error; } } ");
    text.append("} ");
    text.append("async fn update_report_failure<C: ConnectionTrait>(database: &C, job: &crate::Job, run_id: uuid::Uuid, stage: &str, code: &str) -> Result<(), String> { ");
    text.append("database.execute_raw(Statement::from_sql_and_values(DbBackend::Postgres, \"UPDATE \\\"_appstruct_report_runs\\\" r SET stage = $3, progress = 0, error_code = $4, completed_at = CASE WHEN $3 = 'failed' THEN CURRENT_TIMESTAMP ELSE r.completed_at END FROM \\\"_appstruct_jobs\\\" j WHERE r.id = $1 AND r.execution_job_id = j.id AND j.id = $2 AND j.attempts = $5 AND j.status = 'running' AND j.locked_until > clock_timestamp() AND r.stage NOT IN ('cancelled', 'succeeded')\", [run_id.into(), job.id.into(), stage.to_owned().into(), code.to_owned().into(), job.attempts.into()],)).await.map_err(|_| \"REPORT_STATE_UPDATE_FAILED\")?; ");
    text.append("Ok(()) } ");
    text.append("async fn publish_report(database: &sea_orm::DatabaseConnection, file: &crate::FileState, job: &crate::Job, work: &ReportWork, content: &[u8]) -> Result<(), String> { ");
    text.append("let transaction = database.begin().await.map_err(|_| \"REPORT_PUBLISH_FAILED\")?; ");
    text.append("let lock = transaction.query_one_raw(Statement::from_sql_and_values(DbBackend::Postgres, \"SELECT r.id FROM \\\"_appstruct_report_runs\\\" r JOIN \\\"_appstruct_jobs\\\" j ON j.id = r.execution_job_id WHERE r.id = $1 AND j.id = $2 FOR UPDATE OF r, j\", [work.id.into(), job.id.into()],)).await.map_err(|_| \"REPORT_PUBLISH_FAILED\")?; ");
    text.append("if lock.is_none() { return Err(\"REPORT_LEASE_LOST\".into()); } ");
    text.append("ensure_render_active(&transaction, job, work.id).await?; ");
    text.append("update_report_stage(&transaction, work.id, \"publishing\", 80, None).await?; ");
    text.append("let tenant = work.tenant_id.map_or_else(|| \"global\".to_owned(), |id| id.to_string()); ");
    text.append("let object_key = format!(\"reports/{tenant}/{}.pdf\", work.id); ");
    text.append("let original_name = format!(\"{}-{}.pdf\", work.template, work.id); ");
    text.append("file.discard_unpublished(&transaction, &object_key).await.map_err(|_| \"REPORT_PUBLISH_FAILED\")?; ");
    text.append("let metadata = match file.get_with_connection(&transaction, &object_key, work.tenant_id).await { ");
    text.append("Ok((metadata, bytes)) if metadata.content_type == \"application/pdf\" && bytes.starts_with(b\"%PDF-\") => metadata, _ => file.put_with_connection(&transaction, &object_key, &original_name, \"application/pdf\", content, work.tenant_id).await.map_err(|_| \"REPORT_PUBLISH_FAILED\")?, }; ");
    text.append("transaction.execute_raw(Statement::from_sql_and_values(DbBackend::Postgres, \"UPDATE \\\"_appstruct_report_runs\\\" SET stage = 'succeeded', progress = 100, result_file_id = $2, result_object_key = $3, error_code = NULL, completed_at = CURRENT_TIMESTAMP WHERE id = $1\", [work.id.into(), metadata.id.into(), object_key.into()],)).await.map_err(|_| \"REPORT_STATE_UPDATE_FAILED\")?; ");
    text.append("transaction.commit().await.map_err(|_| \"REPORT_PUBLISH_FAILED\")?; Ok(()) }");
    text
}

fn suffixed_number(value: u64, suffix: &str) -> (text: String)
    ensures
        text@ == decimal_text(value as nat) + suffix@,
{
    let mut text = decimal(value);
    text.append(suffix);
    text
}

/// One template's entry in the generated template table: string literals,
/// and `u32` literals for its versions.
pub open spec fn template_entry_text(template: ReportTemplate) -> Seq<char> {
    template_config_text(
        literal_text(template.name@),
        decimal_text(template.version as nat) + "u32"@,
        literal_text(template.body@),
        literal_text(template.artifact_digest@),
        literal_text(template.input_schema@),
        decimal_text(template.data_schema_version as nat) + "u32"@,
    )
}

fn template_entry(template: &ReportTemplate) -> (text: String)
    ensures
        text@ == template_entry_text(*template),
{
    let name = string_literal(template.name.as_str());
    let version = suffixed_number(template.version as u64, "u32");
    let body = string_literal(template.body.as_str());
    let digest = string_literal(template.artifact_digest.as_str());
    let schema = string_literal(template.input_schema.as_str());
    let data_version = suffixed_number(template.data_schema_version as u64, "u32");
    template_config(name.as_str(), version.as_str(), body.as_str(), digest.as_str(), schema.as_str(), data_version.as_str())
}

fn template_entries(templates: &Vec<ReportTemplate>) -> (entries: Vec<String>)
    ensures
        texts(entries@) == templates@.map_values(|template: ReportTemplate| template_entry_text(template)),
{
    let mut entries: Vec<String> = Vec::new();
    let mut i: usize = 0;
    while i < templates.len()
        invariant
            i <= templates.len(),
            texts(entries@) == templates@.subrange(0, i as int).map_values(|template: ReportTemplate| template_entry_text(template)),
        decreases templates.len() - i,
    {
        let entry = template_entry(&templates[i]);
        let ghost before = texts(entries@);
        entries.push(entry);
        proof {
            assert(texts(entries@) == before.push(entry@));
            assert(templates@.subrange(0, i + 1) == templates@.subrange(0, i as int).push(templates@[i as int]));
        }
        i = i + 1;
    }
    proof {
        assert(templates@.subrange(0, templates@.len() as int) == templates@);
    }
    entries
}

/// The report settings, template table, types and access helpers.
pub open spec fn report_contract_text(ir: AppIr) -> Seq<char> {
    report_constants_text(
        literal_text(ir.report.queue@),
        decimal_text(ir.report.max_input_bytes as nat) + "u64"@,
        decimal_text(ir.report.retention_days as nat) + "u32"@,
        ir.report.templates@.map_values(|template: ReportTemplate| template_entry_text(template)),
    ) + report_types_text(any_role_text(ir.report.reader_roles@))
}

/// The report settings, template table, types and access helpers.
pub fn report_contract(ir: &AppIr) -> (text: String)
    ensures
        text@ == report_contract_text(*ir),
{
    let queue = string_literal(ir.report.queue.as_str());
    let max_input = suffixed_number(ir.report.max_input_bytes, "u64");
    let retention = suffixed_number(ir.report.retention_days as u64, "u32");
    let entries = template_entries(&ir.report.templates);
    let mut text = report_constants(queue.as_str(), max_input.as_str(), retention.as_str(), &entries);
    let roles = any_role(&ir.report.reader_roles);
    text.append(report_types(roles.as_str()).as_str());
    text
}

/// The run creation endpoint, audited where auditing is on.
pub open spec fn create_routes_text(audit: bool) -> Seq<char> {
    report_create_text(if audit { create_audit_text() } else { Seq::<char>::empty() })
}

/// The run creation endpoint, audited where auditing is on.
pub fn create_routes(audit: bool) -> (text: String)
    ensures
        text@ == create_routes_text(audit),
{
    let record = if audit {
        create_audit()
    } else {
        String::new()
    };
    report_create(record.as_str())
}

/// The run listing, reading, cancelling and downloading endpoints; cancels
/// and downloads are audited where auditing is on.
pub open spec fn read_routes_text(audit: bool) -> Seq<char> {
    report_listing_text() + report_cancel_text(
        if audit { cancel_audit_text() } else { Seq::<char>::empty() },
        if audit { download_audit_text() } else { Seq::<char>::empty() },
    ) + report_loading_text()
}

/// The run listing, reading, cancelling and downloading endpoints.
pub fn read_routes(audit: bool) -> (text: String)
    ensures
        text@ == read_routes_text(audit),
{
    let (cancel, download) = if audit {
        (cancel_audit(), download_audit())
    } else {
        (String::new(), String::new())
    };
    let mut text = report_listing();
    text.append(report_cancel(cancel.as_str(), download.as_str()).as_str());
    text.append(report_loading().as_str());
    text
}

/// The report routes and endpoints.
pub open spec fn report_routes_text(ir: AppIr) -> Seq<char> {
    report_router_text() + report_validation_text() + report_run_helpers_text(
        create_routes_text(ir.audit.enabled),
        read_routes_text(ir.audit.enabled),
    )
}

/// The report routes and endpoints.
pub fn report_routes(ir: &AppIr) -> (text: String)
    ensures
        text@ == report_routes_text(*ir),
{
    let create = create_routes(ir.audit.enabled);
    let read = read_routes(ir.audit.enabled);
    let mut text = report_router();
    text.append(report_validation().as_str());
    text.append(report_run_helpers(create.as_str(), read.as_str()).as_str());
    text
}

/// The report module where reports are on.
pub open spec fn enabled_report_text(ir: AppIr) -> Seq<char> {
    report_module_text(
        report_contract_text(ir),
        report_crypto_text(),
        report_renderer_text(),
        report_routes_text(ir),
        report_worker_text() + report_storage_text(),
    )
}

pub open spec fn report_path() -> Seq<char> {
    "backend/src/report.rs"@
}

/// The report module's source: enabled where reports are on, disabled otherwise.
pub open spec fn report_plan_spec(ir: AppIr, header: Seq<char>) -> Result<Seq<char>, Seq<char>> {
    if ir.report.enabled {
        render_spec(enabled_report_text(ir), header)
    } else {
        render_spec(disabled_report_text(), header)
    }
}

/// The report module's file; `header` opens it.
pub fn report_plan(ir: &AppIr, header: &str) -> (result: Result<Vec<Artifact>, CodegenError>)
    ensures
        match result {
            Ok(artifacts) => report_plan_spec(*ir, header@) matches Ok(source) && rust_file(artifacts@, report_path(), source),
            Err(error) => report_plan_spec(*ir, header@) == Err::<Seq<char>, Seq<char>>(error@),
        },
{
    let text = if ir.report.enabled {
        let contract = report_contract(ir);
        let crypto = report_crypto();
        let renderer = report_renderer();
        let routes = report_routes(ir);
        let mut worker = report_worker();
        worker.append(report_storage().as_str());
        report_module(contract.as_str(), crypto.as_str(), renderer.as_str(), routes.as_str(), worker.as_str())
    } else {
        disabled_report()
    };
    let source = render(text.as_str(), header)?;
    proof {
        reveal_strlit("backend/src/report.rs");
    }
    Ok(single_file("backend/src/report.rs", source))
}

} // verus!
