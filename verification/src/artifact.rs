use vstd::prelude::*;
use vstd::string::{StrSliceExecFns, StringExecFns};
use vstd::utf8::encode_utf8;

verus! {

/// A generated file planned in memory before any filesystem write.
#[derive(Clone, Debug, PartialEq, Eq)]
pub struct Artifact {
    pub relative_path: String,
    pub content: Vec<u8>,
    pub executable: bool,
    pub kind: ArtifactKind,
}

/// The category of a generated file.
#[derive(Clone, Copy, Debug, PartialEq, Eq, Structural)]
pub enum ArtifactKind {
    CanonicalIr,
    DatabaseSchema,
    Migration,
    RustManifest,
    RustSource,
    OpenApi,
    TypeScript,
    Web,
}

/// The stable name of each artifact kind.
pub open spec fn kind_name(kind: ArtifactKind) -> Seq<char> {
    match kind {
        ArtifactKind::CanonicalIr => "canonical_ir"@,
        ArtifactKind::DatabaseSchema => "database_schema"@,
        ArtifactKind::Migration => "migration"@,
        ArtifactKind::RustManifest => "rust_manifest"@,
        ArtifactKind::RustSource => "rust_source"@,
        ArtifactKind::OpenApi => "openapi"@,
        ArtifactKind::TypeScript => "typescript"@,
        ArtifactKind::Web => "web"@,
    }
}

impl ArtifactKind {
    pub fn as_str(self) -> (name: &'static str)
        ensures
            name@ == kind_name(self),
    {
        match self {
            ArtifactKind::CanonicalIr => "canonical_ir",
            ArtifactKind::DatabaseSchema => "database_schema",
            ArtifactKind::Migration => "migration",
            ArtifactKind::RustManifest => "rust_manifest",
            ArtifactKind::RustSource => "rust_source",
            ArtifactKind::OpenApi => "openapi",
            ArtifactKind::TypeScript => "typescript",
            ArtifactKind::Web => "web",
        }
    }
}

impl Artifact {
    /// A non-executable artifact whose content is the UTF-8 encoding of `content`.
    pub fn text(relative_path: &str, content: String, kind: ArtifactKind) -> (artifact: Artifact)
        ensures
            artifact.relative_path@ == relative_path@,
            artifact.content@ == encode_utf8(content@),
            !artifact.executable,
            artifact.kind == kind,
    {
        let bytes = content.as_str().as_bytes_vec();
        Artifact {
            relative_path: relative_path.to_owned(),
            content: bytes,
            executable: false,
            kind,
        }
    }
}

/// An error raised while planning generated files.
#[derive(Clone, Debug, PartialEq, Eq)]
pub struct CodegenError {
    message: String,
}

impl View for CodegenError {
    type V = Seq<char>;

    closed spec fn view(&self) -> Seq<char> {
        self.message@
    }
}

impl CodegenError {
    pub fn new(message: String) -> (error: CodegenError)
        ensures
            error@ == message@,
    {
        CodegenError { message }
    }

    /// The error's message, as its `Display` form shows it.
    pub fn to_string(&self) -> (text: String)
        ensures
            text@ == self@,
    {
        self.message.clone()
    }
}


#[verifier::external_type_specification]
#[verifier::external_body]
pub struct ExJsonError(serde_json::Error);

/// The display form of a `serde_json::Error` (its `Display` impl). What the
/// text says depends on the error's hidden kind and position, which this
/// declaration does not expose, so nothing is stated of it.
#[verifier::external_body]
fn json_error_text(error: &serde_json::Error) -> String {
    error.to_string()
}

pub open spec fn json_error_prefix() -> Seq<char> {
    "JSON generation failed: "@
}

impl From<serde_json::Error> for CodegenError {
    /// A JSON failure, reported with the serializer's own message after a fixed prefix.
    fn from(error: serde_json::Error) -> (result: CodegenError)
        ensures
            result@.len() >= json_error_prefix().len(),
            result@.subrange(0, json_error_prefix().len() as int) == json_error_prefix(),
    {
        let mut message = String::from_str("JSON generation failed: ");
        let text = json_error_text(&error);
        message.append(text.as_str());
        proof {
            assert(message@.subrange(0, json_error_prefix().len() as int) =~= json_error_prefix());
        }
        CodegenError::new(message)
    }
}

impl vstd::std_specs::convert::FromSpecImpl<serde_json::Error> for CodegenError {
    /// Which message the conversion produces is fixed only up to the
    /// serializer's text, so no single value is claimed.
    open spec fn obeys_from_spec() -> bool {
        false
    }

    open spec fn from_spec(error: serde_json::Error) -> CodegenError {
        vstd::pervasive::arbitrary()
    }
}

} // verus!
