use radix_engine_core::resim::{NewTokenMutable, Run};
use radix_engine_core::types::ResourceAddress;

fn env(pairs: &[(&str, &str)]) -> Vec<(String, String)> {
    pairs.iter().map(|(k, v)| (k.to_string(), v.to_string())).collect()
}

#[test]
fn test_pre_process_manifest() {
    let vars = env(&[
        ("faucet", "system_sim1qsqqqqqqqqqqqqqqqqqqqqqqqqqqqqqqqqqqqqqqqqpql4sktx"),
        ("xrd", "resource_sim1qqqqqqqqqqqqqqqqqqqqqqqqqqqqqqqqqqqqqqqqqqzqu57yag"),
    ]);
    let manifest = r#"CALL_METHOD ComponentAddress("${  faucet  }") "free_xrd";\nTAKE_FROM_WORKTOP ResourceAddress("${xrd}") Bucket("bucket1");\n"#;
    let after = r#"CALL_METHOD ComponentAddress("system_sim1qsqqqqqqqqqqqqqqqqqqqqqqqqqqqqqqqqqqqqqqqqpql4sktx") "free_xrd";\nTAKE_FROM_WORKTOP ResourceAddress("resource_sim1qqqqqqqqqqqqqqqqqqqqqqqqqqqqqqqqqqqqqqqqqqzqu57yag") Bucket("bucket1");\n"#;
    assert_eq!(Run::pre_process_manifest(manifest, &vars), after);
}

#[test]
fn pre_process_unknown_variable_is_empty() {
    let vars = env(&[("a", "1")]);
    assert_eq!(Run::pre_process_manifest("x${b}y", &vars), "xy");
    assert_eq!(Run::pre_process_manifest("${a}${a}", &vars), "11");
}

#[test]
fn pre_process_leaves_text_without_placeholders() {
    let vars = env(&[("a", "1")]);
    assert_eq!(Run::pre_process_manifest("plain text $ { } {a}", &vars), "plain text $ { } {a}");
    assert_eq!(Run::pre_process_manifest("", &vars), "");
}

#[test]
fn pre_process_edge_cases_of_the_placeholder_syntax() {
    let vars = env(&[("a", "1"), ("}", "close"), ("", "empty")]);
    // An empty name is no placeholder.
    assert_eq!(Run::pre_process_manifest("${}", &vars), "${}");
    // The first character of the name may be a closing brace.
    assert_eq!(Run::pre_process_manifest("${}}", &vars), "close");
    // A line break ends the attempt.
    assert_eq!(Run::pre_process_manifest("${a\n}", &vars), "${a\n}");
    // The name ends at the first closing brace.
    assert_eq!(Run::pre_process_manifest("${a}}", &vars), "1}");
    // A name of white space only trims to the empty name.
    assert_eq!(Run::pre_process_manifest("${ \t }", &vars), "empty");
    // The first entry of a name wins.
    let dup = env(&[("a", "first"), ("a", "second")]);
    assert_eq!(Run::pre_process_manifest("${a}", &dup), "first");
    // Unicode around placeholders is kept.
    assert_eq!(Run::pre_process_manifest("é${a}ü", &vars), "é1ü");
    // Unterminated placeholder.
    assert_eq!(Run::pre_process_manifest("${a", &vars), "${a");
    assert_eq!(Run::pre_process_manifest("$${a}", &vars), "$1");
}

#[test]
fn new_token_mutable_metadata() {
    let cmd = NewTokenMutable {
        minter_resource_address: ResourceAddress([0u8; 27]),
        symbol: Some("TT".to_string()),
        name: None,
        description: Some("A token".to_string()),
        url: None,
        icon_url: Some("https://icon".to_string()),
        manifest: None,
        signing_keys: None,
        trace: false,
    };
    let m = cmd.metadata();
    assert_eq!(
        m,
        vec![
            ("symbol".to_string(), "TT".to_string()),
            ("description".to_string(), "A token".to_string()),
            ("icon_url".to_string(), "https://icon".to_string()),
        ]
    );
    let empty = NewTokenMutable { symbol: None, description: None, icon_url: None, ..cmd };
    assert!(empty.metadata().is_empty());
}
