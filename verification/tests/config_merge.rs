use std::str::FromStr;

use toml_const_cli::config::{generated_value, update_config_toml, updated_config_text};
use toml_const_cli::errors::InitError;
use toml_const_cli::value::{TomlEntry, TomlTable, TomlValue};

fn read_generated(text: &str, key: &str) -> Option<String> {
    generated_value(text, &String::from(key))
}

#[test]
fn fresh_document_gets_exactly_the_five_generated_keys() {
    let text = updated_config_text(
        "",
        "foo.template.toml",
        "foo.debug.toml",
        "foo.deploy.toml",
        ".config/",
        "generated.rs",
        "",
    )
    .unwrap();

    assert_eq!(
        read_generated(&text, "TOML_CONST_TEMPLATE"),
        Some(String::from("foo.template.toml"))
    );
    assert_eq!(
        read_generated(&text, "TOML_CONST_DEBUG"),
        Some(String::from("foo.debug.toml"))
    );
    assert_eq!(
        read_generated(&text, "TOML_CONST_DEPLOY"),
        Some(String::from("foo.deploy.toml"))
    );
    assert_eq!(
        read_generated(&text, "TOML_CONST_CONFIG_PATH"),
        Some(String::from(".config/"))
    );
    assert_eq!(
        read_generated(&text, "TOML_CONST_GENERATED_PATH"),
        Some(String::from("generated.rs"))
    );

    let parsed = toml::Table::from_str(&text).unwrap();
    let env = parsed["env"].as_table().unwrap();
    assert_eq!(env.len(), 5);
}

#[test]
fn config_path_gets_the_relative_prefix_and_generated_path_does_not() {
    let text = updated_config_text(
        "",
        "bar.template.toml",
        "bar.debug.toml",
        "bar.deploy.toml",
        ".config/",
        "generated.rs",
        "../../",
    )
    .unwrap();

    assert_eq!(
        read_generated(&text, "TOML_CONST_CONFIG_PATH"),
        Some(String::from("../../.config/"))
    );
    assert_eq!(
        read_generated(&text, "TOML_CONST_GENERATED_PATH"),
        Some(String::from("generated.rs"))
    );
}

#[test]
fn merge_preserves_unrelated_keys_and_is_idempotent() {
    let existing = "jobs = 4\n\n[build]\ntarget = \"x\"\n\n[env]\nMY_VAR = \"keep\"\n";
    let once = updated_config_text(
        existing,
        "foo.template.toml",
        "foo.debug.toml",
        "foo.deploy.toml",
        ".config/",
        "generated.rs",
        "",
    )
    .unwrap();
    let twice = updated_config_text(
        &once,
        "foo.template.toml",
        "foo.debug.toml",
        "foo.deploy.toml",
        ".config/",
        "generated.rs",
        "",
    )
    .unwrap();

    assert_eq!(once, twice);

    let parsed = toml::Table::from_str(&once).unwrap();
    assert_eq!(parsed["jobs"].as_integer(), Some(4));
    assert_eq!(parsed["build"]["target"].as_str(), Some("x"));
    assert_eq!(parsed["env"]["MY_VAR"].as_str(), Some("keep"));
    assert_eq!(
        parsed["env"]["TOML_CONST_TEMPLATE"].as_str(),
        Some("foo.template.toml")
    );
    let env = parsed["env"].as_table().unwrap();
    assert_eq!(env.len(), 6);
}

#[test]
fn env_key_of_the_wrong_shape_is_a_conflict() {
    let r = updated_config_text(
        "env = 3\n",
        "t",
        "d",
        "p",
        ".config/",
        "generated.rs",
        "",
    );
    assert!(matches!(r, Err(InitError::EnvNotTable)));
}

#[test]
fn text_that_is_not_toml_is_a_parse_error() {
    let r = updated_config_text(
        "not toml [",
        "t",
        "d",
        "p",
        ".config/",
        "generated.rs",
        "",
    );
    assert!(matches!(r, Err(InitError::ParseFailed(_))));
}

#[test]
fn merge_on_a_plain_table_rewrites_only_the_env_entry() {
    let mut doc = TomlTable {
        entries: vec![
            TomlEntry {
                key: String::from("keep"),
                value: TomlValue::Text(String::from("v")),
            },
            TomlEntry {
                key: String::from("env"),
                value: TomlValue::Table(TomlTable {
                    entries: vec![TomlEntry {
                        key: String::from("OTHER"),
                        value: TomlValue::Text(String::from("o")),
                    }],
                }),
            },
        ],
    };
    update_config_toml(&mut doc, "t.toml", "d.toml", "p.toml", ".config/", "gen.rs", "")
        .unwrap();

    match doc.get(&String::from("keep")) {
        Some(TomlValue::Text(s)) => assert_eq!(s, "v"),
        _ => panic!("unrelated key was disturbed"),
    }
    match doc.get(&String::from("env")) {
        Some(TomlValue::Table(env)) => {
            match env.get(&String::from("OTHER")) {
                Some(TomlValue::Text(s)) => assert_eq!(s, "o"),
                _ => panic!("unrelated env key was disturbed"),
            }
            match env.get(&String::from("TOML_CONST_DEBUG")) {
                Some(TomlValue::Text(s)) => assert_eq!(s, "d.toml"),
                _ => panic!("generated key missing"),
            }
            assert_eq!(env.entries.len(), 6);
        }
        _ => panic!("env is not a table"),
    }
}

#[test]
fn generated_values_are_read_from_handwritten_toml() {
    let text = "[env]\nTOML_CONST_TEMPLATE = \"x.template.toml\"\nOTHER = 3\n";
    assert_eq!(
        read_generated(text, "TOML_CONST_TEMPLATE"),
        Some(String::from("x.template.toml"))
    );
    assert_eq!(read_generated(text, "OTHER"), None);
    assert_eq!(read_generated(text, "MISSING"), None);
    assert_eq!(read_generated("no env section = 1\n", "TOML_CONST_TEMPLATE"), None);
}
