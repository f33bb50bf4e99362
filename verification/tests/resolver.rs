use cr8s_quickstart::api::app_base;
use cr8s_quickstart::config::{
    extract_version_from_cargo_toml, get_cr8s_version, get_env_no_default, get_env_with_default,
    resolve, Config, ConfigError, ExternalEnv, ScratchPaths,
};

fn config_fields(c: &Config) -> Vec<String> {
    vec![
        c.version.clone(),
        c.rust_dev_image.clone(),
        c.fe_base_image.clone(),
        c.be_cli_image.clone(),
        c.fe_server_image.clone(),
        c.be_server_image.clone(),
        c.scratch_dir.clone(),
    ]
}

fn export(c: &Config) -> ExternalEnv {
    ExternalEnv {
        rust_dev_image: Some(c.rust_dev_image.clone()),
        cr8s_version: Some(c.version.clone()),
        fe_base_image: Some(c.fe_base_image.clone()),
        be_cli_image: Some(c.be_cli_image.clone()),
        fe_server_image: Some(c.fe_server_image.clone()),
        be_server_image: Some(c.be_server_image.clone()),
        scratch_dir: Some(c.scratch_dir.clone()),
    }
}

#[test]
fn defaults_in_production_mode() {
    let c = resolve(false, &ExternalEnv::unset(), &None);
    assert!(!c.dev_mode);
    assert_eq!(c.version.as_str(), "0.5.1");
    assert_eq!(
        c.rust_dev_image.as_str(),
        "ghcr.io/johnbasrai/cr8s/rust-dev:1.83.0-rev5"
    );
    assert_eq!(
        c.fe_base_image.as_str(),
        "ghcr.io/johnbasrai/cr8s/rust-dev:1.83.0-rev5"
    );
    assert_eq!(c.be_cli_image.as_str(), "ghcr.io/johnbasrai/cr8s/cr8s-cli:0.5.1");
    assert_eq!(c.fe_server_image.as_str(), "cr8s-fe-server");
    assert_eq!(
        c.be_server_image.as_str(),
        "ghcr.io/johnbasrai/cr8s/cr8s-server:0.5.1"
    );
    assert_eq!(c.scratch_dir.as_str(), "/var/tmp");
}

#[test]
fn defaults_in_dev_mode() {
    let c = resolve(true, &ExternalEnv::unset(), &None);
    assert!(c.dev_mode);
    assert_eq!(c.be_cli_image.as_str(), "cr8s-cli-dev");
    assert_eq!(c.be_server_image.as_str(), "cr8s-server-dev");
    assert_eq!(c.fe_server_image.as_str(), "cr8s-fe-server");
}

#[test]
fn resolving_twice_with_nothing_set_is_identical() {
    let a = resolve(false, &ExternalEnv::unset(), &None);
    let b = resolve(false, &ExternalEnv::unset(), &None);
    assert_eq!(config_fields(&a), config_fields(&b));
}

#[test]
fn resolving_again_over_published_values_changes_nothing() {
    let first = resolve(false, &ExternalEnv::unset(), &None);
    let second = resolve(false, &export(&first), &None);
    assert_eq!(config_fields(&first), config_fields(&second));

    let manifest = Some(String::from("version = \"3.1.4\"\n"));
    let third = resolve(false, &export(&first), &manifest);
    assert_eq!(config_fields(&first), config_fields(&third));
}

#[test]
fn external_override_wins_verbatim_on_both_calls() {
    let mut env = ExternalEnv::unset();
    env.cr8s_version = Some(String::from("9.9.9"));
    env.scratch_dir = Some(String::from("/mnt/cache"));
    let a = resolve(false, &env, &None);
    assert_eq!(a.version.as_str(), "9.9.9");
    assert_eq!(a.scratch_dir.as_str(), "/mnt/cache");
    assert_eq!(a.be_cli_image.as_str(), "ghcr.io/johnbasrai/cr8s/cr8s-cli:9.9.9");
    let b = resolve(false, &env, &None);
    assert_eq!(a.version, b.version);
    assert_eq!(a.scratch_dir, b.scratch_dir);
}

#[test]
fn version_precedence_external_beats_manifest() {
    let external = Some(String::from("2.0.0"));
    let manifest = Some(String::from("version = \"1.2.3\"\n"));
    assert_eq!(get_cr8s_version(&external, &manifest).as_str(), "2.0.0");
}

#[test]
fn version_precedence_manifest_beats_fallback() {
    let manifest = Some(String::from("[package]\nname = \"demo\"\nversion = \"1.2.3\"\n"));
    assert_eq!(get_cr8s_version(&None, &manifest).as_str(), "1.2.3");
}

#[test]
fn version_precedence_fallback() {
    assert_eq!(get_cr8s_version(&None, &None).as_str(), "0.5.1");
    let manifest = Some(String::from("[package]\nname = \"demo\"\n"));
    assert_eq!(get_cr8s_version(&None, &manifest).as_str(), "0.5.1");
}

#[test]
fn manifest_version_found() {
    let content = "[package]\nname = \"demo\"\nversion = \"1.2.3\"\nedition = \"2021\"\n";
    assert_eq!(
        extract_version_from_cargo_toml(content),
        Some(String::from("1.2.3"))
    );
}

#[test]
fn manifest_version_missing() {
    assert_eq!(extract_version_from_cargo_toml("[package]\nname = \"demo\"\n"), None);
}

#[test]
fn manifest_version_unclosed_quote_runs_to_end_of_line() {
    assert_eq!(
        extract_version_from_cargo_toml("version = \"1.2.3"),
        Some(String::from("1.2.3"))
    );
}

#[test]
fn manifest_version_skips_lines_without_quotes() {
    let content = "versionless\nversion\nversion = \"2.0.0\"\n";
    assert_eq!(
        extract_version_from_cargo_toml(content),
        Some(String::from("2.0.0"))
    );
}

#[test]
fn env_with_default() {
    assert_eq!(
        get_env_with_default(&Some(String::from("set")), "fallback").as_str(),
        "set"
    );
    assert_eq!(get_env_with_default(&None, "fallback").as_str(), "fallback");
}

#[test]
fn env_no_default_is_an_error_when_unset() {
    match get_env_no_default(&Some(String::from("present")), "KEY") {
        Ok(v) => assert_eq!(v.as_str(), "present"),
        Err(_) => panic!("expected the set value"),
    }
    match get_env_no_default(&None, "FE_BASE_IMAGE") {
        Ok(_) => panic!("expected a configuration error"),
        Err(ConfigError::MissingValue { key }) => assert_eq!(key.as_str(), "FE_BASE_IMAGE"),
        Err(ConfigError::ConflictingFlags) => panic!("wrong error variant"),
    }
}

#[test]
fn scratch_paths_derive_from_root() {
    let p = ScratchPaths::derive_from("/var/tmp");
    assert_eq!(p.build_cache.as_str(), "/var/tmp/dev-target");
    assert_eq!(p.package_cache.as_str(), "/var/tmp/dev-cargo");
}

#[test]
fn app_base_defaults() {
    assert_eq!(app_base(&None, &None).as_str(), "http://127.0.0.1:8000/cr8s");
}

#[test]
fn app_base_overrides() {
    let host = Some(String::from("cr8s.example"));
    let port = Some(String::from("9000"));
    assert_eq!(app_base(&host, &port).as_str(), "http://cr8s.example:9000/cr8s");
}
