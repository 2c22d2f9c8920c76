use appstruct_codegen::ident::parse_ident;
use appstruct_codegen::naming::{escape, kebab_name, pascal_case, snake_name};

#[test]
fn snake_name_splits_camel_case() {
    assert_eq!(snake_name("CreateProject"), "create_project");
    assert_eq!(snake_name("Project"), "project");
    assert_eq!(snake_name("already_snake"), "already_snake");
    assert_eq!(snake_name("HTTPServer"), "h_t_t_p_server");
    assert_eq!(snake_name(""), "");
}

#[test]
fn kebab_name_uses_dashes() {
    assert_eq!(kebab_name("CreateProject"), "create-project");
    assert_eq!(kebab_name("ArchiveAll_Now"), "archive-all--now");
}

#[test]
fn pascal_case_capitalizes_parts() {
    assert_eq!(pascal_case("created_at"), "CreatedAt");
    assert_eq!(pascal_case("owner_id"), "OwnerId");
    assert_eq!(pascal_case("_leading__double_"), "LeadingDouble");
    assert_eq!(pascal_case("ßtraße"), "SStraße");
}

#[test]
fn escape_quotes_and_backslashes() {
    assert_eq!(escape("say \"hi\" \\ bye"), "say \\\"hi\\\" \\\\ bye");
    assert_eq!(escape("plain"), "plain");
}

#[test]
fn parse_ident_accepts_identifiers() {
    assert_eq!(parse_ident("owner_id").unwrap(), "owner_id");
    assert_eq!(parse_ident("CreatedAt").unwrap(), "CreatedAt");
}

#[test]
fn parse_ident_rejects_keywords_and_garbage() {
    let keyword = parse_ident("fn").unwrap_err().to_string();
    assert!(keyword.starts_with("invalid Rust identifier `fn`: "));
    assert!(keyword.contains("keyword"));
    let garbage = parse_ident("two words").unwrap_err().to_string();
    assert!(garbage.starts_with("invalid Rust identifier `two words`: "));
}

#[test]
fn snake_case_is_stable_and_counts_capitals() {
    let value = "HttpServerURL";
    let snake = snake_name(value);
    assert_eq!(snake, "http_server_u_r_l");
    assert!(!snake.chars().any(|c| c.is_ascii_uppercase()));
    assert_eq!(snake_name(&snake), snake);
    assert_eq!(snake.chars().count(), value.chars().count() + 4);
    assert_eq!(snake.replace('_', ""), value.to_ascii_lowercase().replace('_', ""));
    assert_eq!(snake_name("A_b"), "a_b");
}

fn unescape(text: &str) -> String {
    let mut output = String::new();
    let mut characters = text.chars();
    while let Some(c) = characters.next() {
        if c == '\\' {
            output.push(characters.next().unwrap());
        } else {
            output.push(c);
        }
    }
    output
}

#[test]
fn escaped_values_read_back() {
    let value = "say \"hi\" \\ bye \\\"";
    let escaped = escape(value);
    assert_eq!(unescape(&escaped), value);
    assert_eq!(escaped.chars().count(), value.chars().count() + 5);
    let literal = format!("\"{escaped}\"");
    let parsed: proc_macro2::TokenStream = literal.parse().unwrap();
    assert_eq!(parsed.into_iter().count(), 1);
}
