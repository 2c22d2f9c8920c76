use appstruct_codegen::{Artifact, ArtifactKind, CodegenError};

#[test]
fn artifact_kind_names() {
    assert_eq!(ArtifactKind::CanonicalIr.as_str(), "canonical_ir");
    assert_eq!(ArtifactKind::DatabaseSchema.as_str(), "database_schema");
    assert_eq!(ArtifactKind::Migration.as_str(), "migration");
    assert_eq!(ArtifactKind::RustManifest.as_str(), "rust_manifest");
    assert_eq!(ArtifactKind::RustSource.as_str(), "rust_source");
    assert_eq!(ArtifactKind::OpenApi.as_str(), "openapi");
    assert_eq!(ArtifactKind::TypeScript.as_str(), "typescript");
    assert_eq!(ArtifactKind::Web.as_str(), "web");
}

#[test]
fn text_artifact_holds_utf8_bytes() {
    let artifact = Artifact::text("backend/src/lib.rs", "fn main() {} // é".to_owned(), ArtifactKind::RustSource);
    assert_eq!(artifact.relative_path, "backend/src/lib.rs");
    assert_eq!(artifact.content, "fn main() {} // é".as_bytes().to_vec());
    assert!(!artifact.executable);
    assert_eq!(artifact.kind, ArtifactKind::RustSource);
}

#[test]
fn codegen_error_keeps_its_message() {
    let error = CodegenError::new("missing entity `task`".to_owned());
    assert_eq!(error.to_string(), "missing entity `task`");
}

#[test]
fn json_errors_are_prefixed() {
    let failure = serde_json::from_str::<serde_json::Value>("{").unwrap_err();
    let expected = format!("JSON generation failed: {failure}");
    let error = CodegenError::from(failure);
    assert_eq!(error.to_string(), expected);
}
