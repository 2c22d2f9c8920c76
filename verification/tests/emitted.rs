use appstruct_codegen::billing::{billing_source, decimal, plan_literal, plans_source, replace};
use appstruct_codegen::manifest::{cargo, contracts_cargo, runtime_cargo, server_cargo};
use appstruct_codegen::source::{embedded_crate_source, generated};
use appstruct_codegen::timing::worker_values;
use appstruct_codegen::{
    ActivityConfig, ReportConfig, AppIr, ArtifactKind, AuthConfig, BillingConfig, BillingPlan, FileConfig, FileProvider, JobsConfig, MailConfig,
    MailProvider, WebhooksConfig, AuditConfig, RealtimeConfig, TenantConfig,
};

fn features(auth: bool, oauth: bool, mail: Option<MailProvider>, file: Option<FileProvider>) -> AppIr {
    AppIr {
        entities: vec![],
        value_objects: vec![],
        auth: AuthConfig { enabled: auth, oauth_enabled: oauth, registration_enabled: true, password_reset_enabled: true, user_entity: None, default_role: None },
        mail: MailConfig { enabled: mail.is_some(), provider: mail.unwrap_or(MailProvider::Capture), from: "noreply@example.test".to_owned(), templates: vec![] },
        file: FileConfig { enabled: file.is_some(), provider: file.unwrap_or(FileProvider::Local), max_bytes: 1024, local_root: "uploads".to_owned(), allowed_content_types: vec![] },
        jobs: JobsConfig { enabled: false, poll_interval_ms: 250, lease_seconds: 30, queues: vec![], schedules: vec![] },
        billing: BillingConfig { enabled: false, plans: vec![], trials: false, customer_portal: false },
        webhooks: WebhooksConfig { enabled: false },
        audit: AuditConfig { enabled: false, reader_roles: vec![] },
        tenant: TenantConfig { enabled: false },
        realtime: RealtimeConfig { enabled: false, heartbeat_seconds: 15, presence_ttl_seconds: 45 },
        activity: ActivityConfig { enabled: false, max_comment_bytes: 1000, admin_roles: vec![], resources: vec![], attachments: false },
        report: ReportConfig { enabled: false, max_input_bytes: 0, retention_days: 0, queue: "reports".to_owned(), reader_roles: vec![], templates: vec![] },
        relations: vec![],
        commands: vec![],
        queries: vec![],
    }
}

#[test]
fn backend_manifest_without_features() {
    let manifest = cargo(&features(false, false, None, None));
    assert!(manifest.starts_with("[package]\nname = \"appstruct-generated-backend\"\n"));
    assert!(manifest.ends_with("uuid = { version = \"=1.25.0\", features = [\"serde\", \"v7\"] }\n"));
    assert!(!manifest.contains("lettre"));
    assert!(!manifest.contains("sha2"));
}

#[test]
fn backend_manifest_with_features() {
    let manifest = cargo(&features(true, false, Some(MailProvider::Resend), Some(FileProvider::S3)));
    let tail = manifest.split("uuid = { version = \"=1.25.0\", features = [\"serde\", \"v7\"] }\n").nth(1).unwrap();
    assert_eq!(
        tail,
        [
            "lettre = { version = \"=0.11.19\", default-features = false, features = [\"builder\", \"smtp-transport\", \"tokio1-rustls-tls\"] }\n",
            "argon2 = \"=0.5.3\"\n",
            "rand = \"=0.9.2\"\n",
            "sha2 = \"=0.10.9\"\n",
            "infer = \"=0.19.0\"\n",
            "object_store = { version = \"=0.14.1\", features = [\"aws\"] }\n",
            "minijinja = \"=2.12.0\"\n",
            "reqwest = { version = \"=0.13.4\", default-features = false, features = [\"json\", \"rustls\"] }\n",
        ]
        .join("")
    );
    let oauth = cargo(&features(true, true, Some(MailProvider::Resend), None));
    assert_eq!(oauth.matches("reqwest").count(), 1);
    assert!(oauth.contains("\"form\""));
}

#[test]
fn support_crate_manifests() {
    assert!(runtime_cargo().starts_with("[package]\nname = \"appstruct-runtime\"\n"));
    assert_eq!(
        contracts_cargo(),
        "[package]\nname = \"appstruct-contracts\"\nversion = \"0.1.0\"\nedition = \"2024\"\nrust-version = \"1.98\"\n"
    );
    assert!(server_cargo().contains("appstruct-app-backend = { path = \"../../app/backend\" }\n"));
}

#[test]
fn worker_timing_values() {
    assert_eq!(worker_values(250, 30), (30, 5000));
    assert_eq!(worker_values(100, 45), (45, 3200));
    assert_eq!(worker_values(u64::MAX, u64::MAX), (30, 5000));
    assert_eq!(worker_values(0, i64::MAX as u64), (i64::MAX, 0));
}

#[test]
fn decimal_digits() {
    assert_eq!(decimal(0), "0");
    assert_eq!(decimal(14), "14");
    assert_eq!(decimal(u64::MAX), "18446744073709551615");
}

fn plan(id: &str, trial: Option<u32>, entitlements: &[&str]) -> BillingPlan {
    BillingPlan {
        id: id.to_owned(),
        price_env: format!("PRICE_{}", id.to_uppercase()),
        trial_days: trial,
        entitlements: entitlements.iter().map(|value| (*value).to_owned()).collect(),
    }
}

#[test]
fn billing_plan_literals() {
    assert_eq!(
        plan_literal(&plan("pro", Some(14), &["reports", "seats"])),
        "Plan { id: \"pro\", price_env: \"PRICE_PRO\", trial_days: Some(14), entitlements: &[\"reports\", \"seats\"] }"
    );
    assert_eq!(
        plan_literal(&plan("a\"b", None, &[])),
        "Plan { id: \"a\\\"b\", price_env: \"PRICE_A\"B\", trial_days: None, entitlements: &[] }"
            .replace("PRICE_A\"B", "PRICE_A\\\"B")
    );
    assert_eq!(
        plans_source(&vec![plan("free", None, &[]), plan("pro", Some(7), &["x"])]),
        "Plan { id: \"free\", price_env: \"PRICE_FREE\", trial_days: None, entitlements: &[] },\n    Plan { id: \"pro\", price_env: \"PRICE_PRO\", trial_days: Some(7), entitlements: &[\"x\"] }"
    );
}

#[test]
fn replace_matches_std() {
    for (text, pattern, replacement) in [
        ("a__X__b__X__", "__X__", "yes"),
        ("aaa", "aa", "b"),
        ("none here", "zz", "q"),
        ("", "x", "y"),
        ("ééé", "é", "e"),
    ] {
        assert_eq!(replace(text, pattern, replacement), text.replace(pattern, replacement));
    }
}

#[test]
fn billing_template_filled() {
    let mut ir = features(false, false, None, None);
    ir.billing = BillingConfig { enabled: true, plans: vec![plan("pro", Some(3), &[])], trials: true, customer_portal: false };
    assert_eq!(
        billing_source(&ir, "const PLANS: &[Plan] = &[__PLANS__]; const T: bool = __TRIALS__; const P: bool = __CUSTOMER_PORTAL__;", "off"),
        "const PLANS: &[Plan] = &[Plan { id: \"pro\", price_env: \"PRICE_PRO\", trial_days: Some(3), entitlements: &[] }]; const T: bool = true; const P: bool = false;"
    );
    ir.billing.enabled = false;
    assert_eq!(billing_source(&ir, "on", "off"), "off");
}

#[test]
fn embedded_sources_demote_inner_docs() {
    assert_eq!(
        embedded_crate_source("//! Runtime support.\r\n//! More.\npub fn f() {}\n", "// @generated\n"),
        "// @generated\n// Runtime support.\n// More.\npub fn f() {}\n"
    );
    assert_eq!(embedded_crate_source("", "// h\n"), "// h\n\n");
    assert_eq!(embedded_crate_source("a\n\nb", ""), "a\n\nb\n");
    assert_eq!(embedded_crate_source("//!", ""), "//\n");
}

#[test]
fn generated_artifacts_are_rust_sources() {
    let artifact = generated("backend/src/auth/mod.rs", "mod x;".to_owned());
    assert_eq!(artifact.relative_path, "backend/src/auth/mod.rs");
    assert_eq!(artifact.content, b"mod x;".to_vec());
    assert_eq!(artifact.kind, ArtifactKind::RustSource);
    assert!(!artifact.executable);
}

fn pinned<'a>(manifest: &'a str, name: &str) -> &'a str {
    let line = manifest
        .lines()
        .find(|line| line.starts_with(&format!("{name} = ")))
        .unwrap();
    let start = line.find("\"=").unwrap() + 1;
    let rest = &line[start..];
    &rest[..rest.find('"').unwrap()]
}

#[test]
fn manifests_pin_shared_dependencies_alike() {
    for ir in [features(false, false, None, None), features(true, true, Some(MailProvider::Resend), Some(FileProvider::S3))] {
        let backend = cargo(&ir);
        for name in ["async-trait", "serde", "tokio", "uuid"] {
            assert_eq!(pinned(&backend, name), pinned(runtime_cargo(), name));
        }
        for name in ["sea-orm", "tokio", "tracing", "tracing-subscriber"] {
            assert_eq!(pinned(&backend, name), pinned(server_cargo(), name));
        }
        assert_eq!(pinned(&backend, "tokio"), "=1.53.1");
        assert!(backend.contains("\nname = \"appstruct-generated-backend\"\n"));
        for manifest in [backend.as_str(), runtime_cargo(), contracts_cargo(), server_cargo()] {
            assert!(manifest.contains("\nedition = \"2024\"\nrust-version = \"1.98\"\n"));
        }
    }
    assert!(server_cargo().contains("\nappstruct-generated-backend = { path = \"../backend\" }\n"));
}
