use toml_const_cli::artifacts::{
    boilerplate_payload, check_config_files, config_file_names, config_gitignore_content,
    gitignore_append_block,
};
use toml_const_cli::errors::InitError;
use toml_const_cli::paths::{manifest_relative_prefix, relative_prefix};

#[test]
fn file_names_derive_from_the_package_name() {
    let (template, debug, deploy) = config_file_names("foo");
    assert_eq!(template, "foo.template.toml");
    assert_eq!(debug, "foo.debug.toml");
    assert_eq!(deploy, "foo.deploy.toml");
}

#[test]
fn prefix_is_one_parent_step_per_level() {
    assert_eq!(relative_prefix(0), "");
    assert_eq!(relative_prefix(1), "../");
    assert_eq!(relative_prefix(2), "../../");
    assert_eq!(relative_prefix(4).len(), 12);
}

#[test]
fn manifest_directly_in_the_root_gets_an_empty_prefix() {
    assert_eq!(manifest_relative_prefix(0), "");
    assert_eq!(manifest_relative_prefix(1), "");
}

#[test]
fn manifest_two_levels_below_the_root_gets_two_parent_steps() {
    assert_eq!(manifest_relative_prefix(3), "../../");
}

#[test]
fn boilerplate_payload_is_the_fixed_text() {
    assert_eq!(
        boilerplate_payload(),
        "# this key MUST be present in all configuration files\nuse = false\n\n# add your config key-value pairs below:\n"
    );
}

#[test]
fn fresh_files_pass_and_a_rerun_fails() {
    let fresh = vec![String::new(), String::new(), String::new()];
    assert!(check_config_files(&fresh).is_ok());

    let after_first_run = vec![
        boilerplate_payload(),
        boilerplate_payload(),
        boilerplate_payload(),
    ];
    assert!(matches!(
        check_config_files(&after_first_run),
        Err(InitError::ConfigFilesExist)
    ));

    let partially_edited = vec![String::new(), String::from("x"), String::new()];
    assert!(matches!(
        check_config_files(&partially_edited),
        Err(InitError::ConfigFilesExist)
    ));
}

#[test]
fn ignore_blocks_follow_the_fixed_templates() {
    assert_eq!(
        gitignore_append_block("generated.rs"),
        "\n\n# added by toml_const_cli\ngenerated.rs\n"
    );
    assert_eq!(
        config_gitignore_content("foo.template.toml"),
        "# added by toml_const_cli\n*.toml\n!foo.template.toml"
    );
}
