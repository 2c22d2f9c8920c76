use vstd::prelude::*;
use vstd::string::StringExecFns;
use crate::ir::{AppIr, AuthConfig, FileConfig, FileProvider, MailConfig, MailProvider};

verus! {

/// The dependency lines every generated backend manifest starts with.
pub open spec fn backend_base_text() -> Seq<char> {
    "[package]\nname = \"appstruct-generated-backend\"\nversion = \"0.0.0\"\nedition = \"2024\"\nrust-version = \"1.98\"\n\n[dependencies]\nappstruct-runtime = { path = \"runtime\" }\nasync-trait = \"=0.1.89\"\naxum = \"=0.8.9\"\nbase64 = \"=0.22.1\"\nchrono = { version = \"=0.4.45\", features = [\"serde\"] }\nrust_decimal = { version = \"=1.42.1\", features = [\"serde-with-str\"] }\nsea-orm = { version = \"=2.0.2\", default-features = false, features = [\"macros\", \"runtime-tokio-rustls\", \"sqlx-postgres\", \"with-chrono\", \"with-json\", \"with-rust_decimal\", \"with-uuid\"] }\nserde = { version = \"=1.0.229\", features = [\"derive\"] }\nserde_json = \"=1.0.151\"\ntokio = { version = \"=1.53.1\", features = [\"macros\", \"net\", \"rt-multi-thread\", \"signal\", \"sync\", \"time\"] }\ntower-http = { version = \"=0.7.0\", features = [\"cors\", \"request-id\", \"trace\"] }\ntracing = \"=0.1.44\"\ntracing-subscriber = { version = \"=0.3.22\", features = [\"env-filter\", \"fmt\"] }\nuuid = { version = \"=1.25.0\", features = [\"serde\", \"v7\"] }\n"@
}

/// The backend manifest: the base, then the dependencies that the enabled
/// features need, in a fixed order.
pub open spec fn cargo_text(auth: AuthConfig, mail: MailConfig, file: FileConfig) -> Seq<char> {
    backend_base_text()
        + (if auth.enabled || mail.enabled { "lettre = { version = \"=0.11.19\", default-features = false, features = [\"builder\", \"smtp-transport\", \"tokio1-rustls-tls\"] }\n"@ } else { Seq::<char>::empty() })
        + (if auth.enabled { "argon2 = \"=0.5.3\"\nrand = \"=0.9.2\"\n"@ } else { Seq::<char>::empty() })
        + (if auth.oauth_enabled { "reqwest = { version = \"=0.13.4\", default-features = false, features = [\"json\", \"form\", \"rustls\"] }\n"@ } else { Seq::<char>::empty() })
        + (if auth.enabled || file.enabled { "sha2 = \"=0.10.9\"\n"@ } else { Seq::<char>::empty() })
        + (if file.enabled {
            "infer = \"=0.19.0\"\n"@ + match file.provider {
                FileProvider::Local => "object_store = \"=0.14.1\"\n"@,
                FileProvider::S3 => "object_store = { version = \"=0.14.1\", features = [\"aws\"] }\n"@,
            }
        } else {
            Seq::<char>::empty()
        })
        + (if mail.enabled { "minijinja = \"=2.12.0\"\n"@ } else { Seq::<char>::empty() })
        + (if mail.enabled && mail.provider == MailProvider::Resend && !auth.oauth_enabled {
            "reqwest = { version = \"=0.13.4\", default-features = false, features = [\"json\", \"rustls\"] }\n"@
        } else {
            Seq::<char>::empty()
        })
}

/// The generated backend's `Cargo.toml`.
pub fn cargo(ir: &AppIr) -> (manifest: String)
    ensures
        manifest@ == cargo_text(ir.auth, ir.mail, ir.file),
{
    let mut manifest = String::from_str("[package]\nname = \"appstruct-generated-backend\"\nversion = \"0.0.0\"\nedition = \"2024\"\nrust-version = \"1.98\"\n\n[dependencies]\nappstruct-runtime = { path = \"runtime\" }\nasync-trait = \"=0.1.89\"\naxum = \"=0.8.9\"\nbase64 = \"=0.22.1\"\nchrono = { version = \"=0.4.45\", features = [\"serde\"] }\nrust_decimal = { version = \"=1.42.1\", features = [\"serde-with-str\"] }\nsea-orm = { version = \"=2.0.2\", default-features = false, features = [\"macros\", \"runtime-tokio-rustls\", \"sqlx-postgres\", \"with-chrono\", \"with-json\", \"with-rust_decimal\", \"with-uuid\"] }\nserde = { version = \"=1.0.229\", features = [\"derive\"] }\nserde_json = \"=1.0.151\"\ntokio = { version = \"=1.53.1\", features = [\"macros\", \"net\", \"rt-multi-thread\", \"signal\", \"sync\", \"time\"] }\ntower-http = { version = \"=0.7.0\", features = [\"cors\", \"request-id\", \"trace\"] }\ntracing = \"=0.1.44\"\ntracing-subscriber = { version = \"=0.3.22\", features = [\"env-filter\", \"fmt\"] }\nuuid = { version = \"=1.25.0\", features = [\"serde\", \"v7\"] }\n");
    if ir.auth.enabled || ir.mail.enabled {
        manifest.append("lettre = { version = \"=0.11.19\", default-features = false, features = [\"builder\", \"smtp-transport\", \"tokio1-rustls-tls\"] }\n");
    }
    if ir.auth.enabled {
        manifest.append("argon2 = \"=0.5.3\"\nrand = \"=0.9.2\"\n");
    }
    if ir.auth.oauth_enabled {
        manifest.append("reqwest = { version = \"=0.13.4\", default-features = false, features = [\"json\", \"form\", \"rustls\"] }\n");
    }
    if ir.auth.enabled || ir.file.enabled {
        manifest.append("sha2 = \"=0.10.9\"\n");
    }
    if ir.file.enabled {
        manifest.append("infer = \"=0.19.0\"\n");
        match ir.file.provider {
            FileProvider::Local => manifest.append("object_store = \"=0.14.1\"\n"),
            FileProvider::S3 => manifest.append("object_store = { version = \"=0.14.1\", features = [\"aws\"] }\n"),
        }
    }
    if ir.mail.enabled {
        manifest.append("minijinja = \"=2.12.0\"\n");
    }
    if ir.mail.enabled && ir.mail.provider == MailProvider::Resend && !ir.auth.oauth_enabled {
        manifest.append("reqwest = { version = \"=0.13.4\", default-features = false, features = [\"json\", \"rustls\"] }\n");
    }
    manifest
}

pub open spec fn runtime_cargo_text() -> Seq<char> {
    "[package]\nname = \"appstruct-runtime\"\nversion = \"0.1.0\"\nedition = \"2024\"\nrust-version = \"1.98\"\n\n[dependencies]\nappstruct-contracts = { path = \"../contracts\" }\nasync-trait = \"=0.1.89\"\nserde = { version = \"=1.0.229\", features = [\"derive\"] }\ntokio = { version = \"=1.53.1\", features = [\"rt\", \"time\"] }\nuuid = { version = \"=1.25.0\", features = [\"serde\", \"v7\"] }\n"@
}

/// The manifest of the embedded runtime crate.
pub fn runtime_cargo() -> (manifest: &'static str)
    ensures
        manifest@ == runtime_cargo_text(),
{
    "[package]\nname = \"appstruct-runtime\"\nversion = \"0.1.0\"\nedition = \"2024\"\nrust-version = \"1.98\"\n\n[dependencies]\nappstruct-contracts = { path = \"../contracts\" }\nasync-trait = \"=0.1.89\"\nserde = { version = \"=1.0.229\", features = [\"derive\"] }\ntokio = { version = \"=1.53.1\", features = [\"rt\", \"time\"] }\nuuid = { version = \"=1.25.0\", features = [\"serde\", \"v7\"] }\n"
}

pub open spec fn contracts_cargo_text() -> Seq<char> {
    "[package]\nname = \"appstruct-contracts\"\nversion = \"0.1.0\"\nedition = \"2024\"\nrust-version = \"1.98\"\n"@
}

/// The manifest of the embedded contracts crate.
pub fn contracts_cargo() -> (manifest: &'static str)
    ensures
        manifest@ == contracts_cargo_text(),
{
    "[package]\nname = \"appstruct-contracts\"\nversion = \"0.1.0\"\nedition = \"2024\"\nrust-version = \"1.98\"\n"
}

pub open spec fn server_cargo_text() -> Seq<char> {
    "[package]\nname = \"appstruct-generated-server\"\nversion = \"0.0.0\"\nedition = \"2024\"\nrust-version = \"1.98\"\n\n[dependencies]\nappstruct-app-backend = { path = \"../../app/backend\" }\nappstruct-generated-backend = { path = \"../backend\" }\nsea-orm = { version = \"=2.0.2\", default-features = false, features = [\"runtime-tokio-rustls\", \"sqlx-postgres\"] }\ntokio = { version = \"=1.53.1\", features = [\"macros\", \"net\", \"rt-multi-thread\"] }\ntracing = \"=0.1.44\"\ntracing-subscriber = { version = \"=0.3.22\", features = [\"env-filter\", \"fmt\"] }\n"@
}

/// The manifest of the generated server crate.
pub fn server_cargo() -> (manifest: &'static str)
    ensures
        manifest@ == server_cargo_text(),
{
    "[package]\nname = \"appstruct-generated-server\"\nversion = \"0.0.0\"\nedition = \"2024\"\nrust-version = \"1.98\"\n\n[dependencies]\nappstruct-app-backend = { path = \"../../app/backend\" }\nappstruct-generated-backend = { path = \"../backend\" }\nsea-orm = { version = \"=2.0.2\", default-features = false, features = [\"runtime-tokio-rustls\", \"sqlx-postgres\"] }\ntokio = { version = \"=1.53.1\", features = [\"macros\", \"net\", \"rt-multi-thread\"] }\ntracing = \"=0.1.44\"\ntracing-subscriber = { version = \"=0.3.22\", features = [\"env-filter\", \"fmt\"] }\n"
}

/// The text has a line, starting at `at`, that begins with `line`.
pub open spec fn line_at(text: Seq<char>, at: int, line: Seq<char>) -> bool {
    &&& 0 <= at
    &&& at + line.len() <= text.len()
    &&& (at == 0 || text[at - 1] == '\n')
    &&& text.subrange(at, at + line.len()) == line
}

/// Some line of the text begins with `line`.
pub open spec fn has_line(text: Seq<char>, line: Seq<char>) -> bool {
    exists|at: int| line_at(text, at, line)
}

/// The manifest pins the dependency to the version, in either of Cargo's two
/// forms: `name = "version"` or `name = { version = "version", .. }`.
pub open spec fn pins(manifest: Seq<char>, name: Seq<char>, version: Seq<char>) -> bool {
    ||| has_line(manifest, name + " = \""@ + version + "\""@)
    ||| has_line(manifest, name + " = { version = \""@ + version + "\""@)
}

proof fn lemma_line_in_prefix(prefix: Seq<char>, rest: Seq<char>, at: int, line: Seq<char>)
    requires
        line_at(prefix, at, line),
    ensures
        line_at(prefix + rest, at, line),
{
    assert((prefix + rest).subrange(at, at + line.len()) =~= prefix.subrange(at, at + line.len()));
}

proof fn lemma_base_prefix(auth: AuthConfig, mail: MailConfig, file: FileConfig)
    ensures
        exists|rest: Seq<char>| cargo_text(auth, mail, file) == backend_base_text() + rest,
{
    let text = cargo_text(auth, mail, file);
    let base = backend_base_text();
    let rest = text.subrange(base.len() as int, text.len() as int);
    assert(text =~= base + rest);
}

proof fn lemma_backend_lines(auth: AuthConfig, mail: MailConfig, file: FileConfig)
    ensures
        line_at(cargo_text(auth, mail, file), 10, "name = \"appstruct-generated-backend\""@),
        line_at(cargo_text(auth, mail, file), 65, "edition = \"2024\""@),
        line_at(cargo_text(auth, mail, file), 82, "rust-version = \"1.98\""@),
        line_at(cargo_text(auth, mail, file), 120, "appstruct-runtime = { path = \"runtime\" }"@),
        line_at(cargo_text(auth, mail, file), 161, "async-trait"@ + " = \""@ + "=0.1.89"@ + "\""@),
        line_at(cargo_text(auth, mail, file), 345, "sea-orm"@ + " = { version = \""@ + "=2.0.2"@ + "\""@),
        line_at(cargo_text(auth, mail, file), 530, "serde"@ + " = { version = \""@ + "=1.0.229"@ + "\""@),
        line_at(cargo_text(auth, mail, file), 610, "tokio"@ + " = { version = \""@ + "=1.53.1"@ + "\""@),
        line_at(cargo_text(auth, mail, file), 797, "tracing"@ + " = \""@ + "=0.1.44"@ + "\""@),
        line_at(cargo_text(auth, mail, file), 817, "tracing-subscriber"@ + " = { version = \""@ + "=0.3.22"@ + "\""@),
        line_at(cargo_text(auth, mail, file), 896, "uuid"@ + " = { version = \""@ + "=1.25.0"@ + "\""@),
{
    let base = backend_base_text();
    reveal_strlit("[package]\nname = \"appstruct-generated-backend\"\nversion = \"0.0.0\"\nedition = \"2024\"\nrust-version = \"1.98\"\n\n[dependencies]\nappstruct-runtime = { path = \"runtime\" }\nasync-trait = \"=0.1.89\"\naxum = \"=0.8.9\"\nbase64 = \"=0.22.1\"\nchrono = { version = \"=0.4.45\", features = [\"serde\"] }\nrust_decimal = { version = \"=1.42.1\", features = [\"serde-with-str\"] }\nsea-orm = { version = \"=2.0.2\", default-features = false, features = [\"macros\", \"runtime-tokio-rustls\", \"sqlx-postgres\", \"with-chrono\", \"with-json\", \"with-rust_decimal\", \"with-uuid\"] }\nserde = { version = \"=1.0.229\", features = [\"derive\"] }\nserde_json = \"=1.0.151\"\ntokio = { version = \"=1.53.1\", features = [\"macros\", \"net\", \"rt-multi-thread\", \"signal\", \"sync\", \"time\"] }\ntower-http = { version = \"=0.7.0\", features = [\"cors\", \"request-id\", \"trace\"] }\ntracing = \"=0.1.44\"\ntracing-subscriber = { version = \"=0.3.22\", features = [\"env-filter\", \"fmt\"] }\nuuid = { version = \"=1.25.0\", features = [\"serde\", \"v7\"] }\n");
    reveal_strlit("name = \"appstruct-generated-backend\"");
    reveal_strlit("edition = \"2024\"");
    reveal_strlit("rust-version = \"1.98\"");
    reveal_strlit(" = \"");
    reveal_strlit(" = { version = \"");
    reveal_strlit("\"");
    reveal_strlit("async-trait");
    reveal_strlit("sea-orm");
    reveal_strlit("serde");
    reveal_strlit("tokio");
    reveal_strlit("tracing");
    reveal_strlit("tracing-subscriber");
    reveal_strlit("uuid");
    reveal_strlit("=0.1.89");
    reveal_strlit("=2.0.2");
    reveal_strlit("=1.0.229");
    reveal_strlit("=1.53.1");
    reveal_strlit("=0.1.44");
    reveal_strlit("=0.3.22");
    reveal_strlit("=1.25.0");
    assert(base.subrange(10, 10 + ("name = \"appstruct-generated-backend\""@).len() as int) =~= "name = \"appstruct-generated-backend\""@);
    assert(line_at(base, 10, "name = \"appstruct-generated-backend\""@));
    assert(base.subrange(65, 65 + ("edition = \"2024\""@).len() as int) =~= "edition = \"2024\""@);
    assert(line_at(base, 65, "edition = \"2024\""@));
    assert(base.subrange(82, 82 + ("rust-version = \"1.98\""@).len() as int) =~= "rust-version = \"1.98\""@);
    assert(line_at(base, 82, "rust-version = \"1.98\""@));
    reveal_strlit("appstruct-runtime = { path = \"runtime\" }");
    assert(base.subrange(120, 120 + ("appstruct-runtime = { path = \"runtime\" }"@).len() as int) =~= "appstruct-runtime = { path = \"runtime\" }"@);
    assert(line_at(base, 120, "appstruct-runtime = { path = \"runtime\" }"@));
    assert(base.subrange(161, 161 + ("async-trait"@ + " = \""@ + "=0.1.89"@ + "\""@).len() as int) =~= "async-trait"@ + " = \""@ + "=0.1.89"@ + "\""@);
    assert(line_at(base, 161, "async-trait"@ + " = \""@ + "=0.1.89"@ + "\""@));
    assert(base.subrange(345, 345 + ("sea-orm"@ + " = { version = \""@ + "=2.0.2"@ + "\""@).len() as int) =~= "sea-orm"@ + " = { version = \""@ + "=2.0.2"@ + "\""@);
    assert(line_at(base, 345, "sea-orm"@ + " = { version = \""@ + "=2.0.2"@ + "\""@));
    assert(base.subrange(530, 530 + ("serde"@ + " = { version = \""@ + "=1.0.229"@ + "\""@).len() as int) =~= "serde"@ + " = { version = \""@ + "=1.0.229"@ + "\""@);
    assert(line_at(base, 530, "serde"@ + " = { version = \""@ + "=1.0.229"@ + "\""@));
    assert(base.subrange(610, 610 + ("tokio"@ + " = { version = \""@ + "=1.53.1"@ + "\""@).len() as int) =~= "tokio"@ + " = { version = \""@ + "=1.53.1"@ + "\""@);
    assert(line_at(base, 610, "tokio"@ + " = { version = \""@ + "=1.53.1"@ + "\""@));
    assert(base.subrange(797, 797 + ("tracing"@ + " = \""@ + "=0.1.44"@ + "\""@).len() as int) =~= "tracing"@ + " = \""@ + "=0.1.44"@ + "\""@);
    assert(line_at(base, 797, "tracing"@ + " = \""@ + "=0.1.44"@ + "\""@));
    assert(base.subrange(817, 817 + ("tracing-subscriber"@ + " = { version = \""@ + "=0.3.22"@ + "\""@).len() as int) =~= "tracing-subscriber"@ + " = { version = \""@ + "=0.3.22"@ + "\""@);
    assert(line_at(base, 817, "tracing-subscriber"@ + " = { version = \""@ + "=0.3.22"@ + "\""@));
    assert(base.subrange(896, 896 + ("uuid"@ + " = { version = \""@ + "=1.25.0"@ + "\""@).len() as int) =~= "uuid"@ + " = { version = \""@ + "=1.25.0"@ + "\""@);
    assert(line_at(base, 896, "uuid"@ + " = { version = \""@ + "=1.25.0"@ + "\""@));
    lemma_base_prefix(auth, mail, file);
    let rest = choose|rest: Seq<char>| cargo_text(auth, mail, file) == base + rest;
    lemma_line_in_prefix(base, rest, 10, "name = \"appstruct-generated-backend\""@);
    lemma_line_in_prefix(base, rest, 65, "edition = \"2024\""@);
    lemma_line_in_prefix(base, rest, 82, "rust-version = \"1.98\""@);
    lemma_line_in_prefix(base, rest, 120, "appstruct-runtime = { path = \"runtime\" }"@);
    lemma_line_in_prefix(base, rest, 161, "async-trait"@ + " = \""@ + "=0.1.89"@ + "\""@);
    lemma_line_in_prefix(base, rest, 345, "sea-orm"@ + " = { version = \""@ + "=2.0.2"@ + "\""@);
    lemma_line_in_prefix(base, rest, 530, "serde"@ + " = { version = \""@ + "=1.0.229"@ + "\""@);
    lemma_line_in_prefix(base, rest, 610, "tokio"@ + " = { version = \""@ + "=1.53.1"@ + "\""@);
    lemma_line_in_prefix(base, rest, 797, "tracing"@ + " = \""@ + "=0.1.44"@ + "\""@);
    lemma_line_in_prefix(base, rest, 817, "tracing-subscriber"@ + " = { version = \""@ + "=0.3.22"@ + "\""@);
    lemma_line_in_prefix(base, rest, 896, "uuid"@ + " = { version = \""@ + "=1.25.0"@ + "\""@);
}

proof fn lemma_runtime_lines()
    ensures
        line_at(runtime_cargo_text(), 55, "edition = \"2024\""@),
        line_at(runtime_cargo_text(), 72, "rust-version = \"1.98\""@),
        line_at(runtime_cargo_text(), 10, "name = \"appstruct-runtime\""@),
        line_at(runtime_cargo_text(), 110, "appstruct-contracts = { path = \"../contracts\" }"@),
        line_at(runtime_cargo_text(), 158, "async-trait"@ + " = \""@ + "=0.1.89"@ + "\""@),
        line_at(runtime_cargo_text(), 182, "serde"@ + " = { version = \""@ + "=1.0.229"@ + "\""@),
        line_at(runtime_cargo_text(), 238, "tokio"@ + " = { version = \""@ + "=1.53.1"@ + "\""@),
        line_at(runtime_cargo_text(), 297, "uuid"@ + " = { version = \""@ + "=1.25.0"@ + "\""@),
{
    let text = runtime_cargo_text();
    reveal_strlit("[package]\nname = \"appstruct-runtime\"\nversion = \"0.1.0\"\nedition = \"2024\"\nrust-version = \"1.98\"\n\n[dependencies]\nappstruct-contracts = { path = \"../contracts\" }\nasync-trait = \"=0.1.89\"\nserde = { version = \"=1.0.229\", features = [\"derive\"] }\ntokio = { version = \"=1.53.1\", features = [\"rt\", \"time\"] }\nuuid = { version = \"=1.25.0\", features = [\"serde\", \"v7\"] }\n");
    reveal_strlit(" = \"");
    reveal_strlit(" = { version = \"");
    reveal_strlit("=0.1.89");
    reveal_strlit("=1.0.229");
    reveal_strlit("=1.25.0");
    reveal_strlit("=1.53.1");
    reveal_strlit("\"");
    reveal_strlit("appstruct-contracts = { path = \"../contracts\" }");
    reveal_strlit("async-trait");
    reveal_strlit("edition = \"2024\"");
    reveal_strlit("name = \"appstruct-runtime\"");
    reveal_strlit("rust-version = \"1.98\"");
    reveal_strlit("serde");
    reveal_strlit("tokio");
    reveal_strlit("uuid");
    assert(text.subrange(55, 55 + ("edition = \"2024\""@).len() as int) =~= "edition = \"2024\""@);
    assert(text.subrange(72, 72 + ("rust-version = \"1.98\""@).len() as int) =~= "rust-version = \"1.98\""@);
    assert(text.subrange(10, 10 + ("name = \"appstruct-runtime\""@).len() as int) =~= "name = \"appstruct-runtime\""@);
    assert(text.subrange(110, 110 + ("appstruct-contracts = { path = \"../contracts\" }"@).len() as int) =~= "appstruct-contracts = { path = \"../contracts\" }"@);
    assert(text.subrange(158, 158 + ("async-trait"@ + " = \""@ + "=0.1.89"@ + "\""@).len() as int) =~= "async-trait"@ + " = \""@ + "=0.1.89"@ + "\""@);
    assert(text.subrange(182, 182 + ("serde"@ + " = { version = \""@ + "=1.0.229"@ + "\""@).len() as int) =~= "serde"@ + " = { version = \""@ + "=1.0.229"@ + "\""@);
    assert(text.subrange(238, 238 + ("tokio"@ + " = { version = \""@ + "=1.53.1"@ + "\""@).len() as int) =~= "tokio"@ + " = { version = \""@ + "=1.53.1"@ + "\""@);
    assert(text.subrange(297, 297 + ("uuid"@ + " = { version = \""@ + "=1.25.0"@ + "\""@).len() as int) =~= "uuid"@ + " = { version = \""@ + "=1.25.0"@ + "\""@);
}

proof fn lemma_contracts_lines()
    ensures
        line_at(contracts_cargo_text(), 57, "edition = \"2024\""@),
        line_at(contracts_cargo_text(), 74, "rust-version = \"1.98\""@),
        line_at(contracts_cargo_text(), 10, "name = \"appstruct-contracts\""@),
{
    let text = contracts_cargo_text();
    reveal_strlit("[package]\nname = \"appstruct-contracts\"\nversion = \"0.1.0\"\nedition = \"2024\"\nrust-version = \"1.98\"\n");
    reveal_strlit("edition = \"2024\"");
    reveal_strlit("name = \"appstruct-contracts\"");
    reveal_strlit("rust-version = \"1.98\"");
    assert(text.subrange(57, 57 + ("edition = \"2024\""@).len() as int) =~= "edition = \"2024\""@);
    assert(text.subrange(74, 74 + ("rust-version = \"1.98\""@).len() as int) =~= "rust-version = \"1.98\""@);
    assert(text.subrange(10, 10 + ("name = \"appstruct-contracts\""@).len() as int) =~= "name = \"appstruct-contracts\""@);
}

proof fn lemma_server_lines()
    ensures
        line_at(server_cargo_text(), 64, "edition = \"2024\""@),
        line_at(server_cargo_text(), 81, "rust-version = \"1.98\""@),
        line_at(server_cargo_text(), 174, "appstruct-generated-backend = { path = \"../backend\" }"@),
        line_at(server_cargo_text(), 228, "sea-orm"@ + " = { version = \""@ + "=2.0.2"@ + "\""@),
        line_at(server_cargo_text(), 341, "tokio"@ + " = { version = \""@ + "=1.53.1"@ + "\""@),
        line_at(server_cargo_text(), 422, "tracing"@ + " = \""@ + "=0.1.44"@ + "\""@),
        line_at(server_cargo_text(), 442, "tracing-subscriber"@ + " = { version = \""@ + "=0.3.22"@ + "\""@),
{
    let text = server_cargo_text();
    reveal_strlit("[package]\nname = \"appstruct-generated-server\"\nversion = \"0.0.0\"\nedition = \"2024\"\nrust-version = \"1.98\"\n\n[dependencies]\nappstruct-app-backend = { path = \"../../app/backend\" }\nappstruct-generated-backend = { path = \"../backend\" }\nsea-orm = { version = \"=2.0.2\", default-features = false, features = [\"runtime-tokio-rustls\", \"sqlx-postgres\"] }\ntokio = { version = \"=1.53.1\", features = [\"macros\", \"net\", \"rt-multi-thread\"] }\ntracing = \"=0.1.44\"\ntracing-subscriber = { version = \"=0.3.22\", features = [\"env-filter\", \"fmt\"] }\n");
    reveal_strlit(" = \"");
    reveal_strlit(" = { version = \"");
    reveal_strlit("=0.1.44");
    reveal_strlit("=0.3.22");
    reveal_strlit("=1.53.1");
    reveal_strlit("=2.0.2");
    reveal_strlit("\"");
    reveal_strlit("appstruct-generated-backend = { path = \"../backend\" }");
    reveal_strlit("edition = \"2024\"");
    reveal_strlit("rust-version = \"1.98\"");
    reveal_strlit("sea-orm");
    reveal_strlit("tokio");
    reveal_strlit("tracing");
    reveal_strlit("tracing-subscriber");
    assert(text.subrange(64, 64 + ("edition = \"2024\""@).len() as int) =~= "edition = \"2024\""@);
    assert(text.subrange(81, 81 + ("rust-version = \"1.98\""@).len() as int) =~= "rust-version = \"1.98\""@);
    assert(text.subrange(174, 174 + ("appstruct-generated-backend = { path = \"../backend\" }"@).len() as int) =~= "appstruct-generated-backend = { path = \"../backend\" }"@);
    assert(text.subrange(228, 228 + ("sea-orm"@ + " = { version = \""@ + "=2.0.2"@ + "\""@).len() as int) =~= "sea-orm"@ + " = { version = \""@ + "=2.0.2"@ + "\""@);
    assert(text.subrange(341, 341 + ("tokio"@ + " = { version = \""@ + "=1.53.1"@ + "\""@).len() as int) =~= "tokio"@ + " = { version = \""@ + "=1.53.1"@ + "\""@);
    assert(text.subrange(422, 422 + ("tracing"@ + " = \""@ + "=0.1.44"@ + "\""@).len() as int) =~= "tracing"@ + " = \""@ + "=0.1.44"@ + "\""@);
    assert(text.subrange(442, 442 + ("tracing-subscriber"@ + " = { version = \""@ + "=0.3.22"@ + "\""@).len() as int) =~= "tracing-subscriber"@ + " = { version = \""@ + "=0.3.22"@ + "\""@);
}

/// Law: the generated manifests agree on what they share. Whatever features
/// are on, the backend manifest pins each dependency it shares with the
/// runtime or the server manifest to the version that manifest pins it to;
/// each crate depends on the crate it builds on by the package name that
/// crate's manifest declares; and every manifest is on edition 2024 and Rust 1.98.
pub proof fn law_manifests_agree(auth: AuthConfig, mail: MailConfig, file: FileConfig)
    ensures
        pins(cargo_text(auth, mail, file), "async-trait"@, "=0.1.89"@) && pins(runtime_cargo_text(), "async-trait"@, "=0.1.89"@),
        pins(cargo_text(auth, mail, file), "serde"@, "=1.0.229"@) && pins(runtime_cargo_text(), "serde"@, "=1.0.229"@),
        pins(cargo_text(auth, mail, file), "tokio"@, "=1.53.1"@) && pins(runtime_cargo_text(), "tokio"@, "=1.53.1"@)
            && pins(server_cargo_text(), "tokio"@, "=1.53.1"@),
        pins(cargo_text(auth, mail, file), "uuid"@, "=1.25.0"@) && pins(runtime_cargo_text(), "uuid"@, "=1.25.0"@),
        pins(cargo_text(auth, mail, file), "sea-orm"@, "=2.0.2"@) && pins(server_cargo_text(), "sea-orm"@, "=2.0.2"@),
        pins(cargo_text(auth, mail, file), "tracing"@, "=0.1.44"@) && pins(server_cargo_text(), "tracing"@, "=0.1.44"@),
        pins(cargo_text(auth, mail, file), "tracing-subscriber"@, "=0.3.22"@)
            && pins(server_cargo_text(), "tracing-subscriber"@, "=0.3.22"@),
        has_line(server_cargo_text(), "appstruct-generated-backend = { path = \"../backend\" }"@)
            && has_line(cargo_text(auth, mail, file), "name = \"appstruct-generated-backend\""@),
        has_line(cargo_text(auth, mail, file), "appstruct-runtime = { path = \"runtime\" }"@)
            && has_line(runtime_cargo_text(), "name = \"appstruct-runtime\""@),
        has_line(runtime_cargo_text(), "appstruct-contracts = { path = \"../contracts\" }"@)
            && has_line(contracts_cargo_text(), "name = \"appstruct-contracts\""@),
        has_line(cargo_text(auth, mail, file), "edition = \"2024\""@) && has_line(runtime_cargo_text(), "edition = \"2024\""@)
            && has_line(contracts_cargo_text(), "edition = \"2024\""@) && has_line(server_cargo_text(), "edition = \"2024\""@),
        has_line(cargo_text(auth, mail, file), "rust-version = \"1.98\""@) && has_line(runtime_cargo_text(), "rust-version = \"1.98\""@)
            && has_line(contracts_cargo_text(), "rust-version = \"1.98\""@) && has_line(server_cargo_text(), "rust-version = \"1.98\""@),
{
    lemma_backend_lines(auth, mail, file);
    lemma_runtime_lines();
    lemma_contracts_lines();
    lemma_server_lines();
}

} // verus!
