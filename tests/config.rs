use git_overlay::config::{validate_config, Config, ConfigError};
use git_overlay::launch::launch_plan;

fn sample() -> Config {
    Config { rootpath: "/nonexistent/root".to_string(), repos: vec!["repoA".to_string()] }
}

#[test]
fn missing_root_path_is_rejected() {
    assert_eq!(validate_config(sample(), false).err(), Some(ConfigError::RootPathInvalid));
}

#[test]
fn existing_root_path_is_accepted() {
    let c = validate_config(sample(), true).ok().unwrap();
    assert_eq!(c.rootpath, "/nonexistent/root");
    assert_eq!(c.repos, vec!["repoA".to_string()]);
}

#[test]
fn config_error_messages() {
    assert_eq!(ConfigError::Missing.message(), "Config file missing");
    assert_eq!(ConfigError::Malformed.message(), "Config file could not be parsed");
    assert_eq!(ConfigError::RootPathInvalid.message(), "Root path in config doesn't exist");
}

#[test]
fn launch_plan_per_platform() {
    let w = launch_plan(true);
    assert_eq!(w.program, "cmd");
    assert_eq!(w.args, vec!["/C".to_string(), "start".to_string(), "lazygit".to_string()]);
    let u = launch_plan(false);
    assert_eq!(u.program, "lazygit");
    assert!(u.args.is_empty());
}
