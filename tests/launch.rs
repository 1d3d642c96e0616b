use basedpyright::config::ConfigValue;
use basedpyright::error::LaunchError;
use basedpyright::launch::{
    has_override, resolve_command, resolve_init_options, resolve_workspace_config, BinarySettings,
    LaunchCommand, ServerSettings, ALT_SETTINGS_ID, SERVER_BINARY,
};

fn env() -> Vec<(String, String)> {
    vec![("PATH".to_string(), "/usr/bin".to_string())]
}

fn with_binary(path: Option<&str>, arguments: Option<Vec<&str>>) -> Option<ServerSettings> {
    Some(ServerSettings {
        binary: Some(BinarySettings {
            path: path.map(|p| p.to_string()),
            arguments: arguments.map(|a| a.into_iter().map(|s| s.to_string()).collect()),
        }),
        initialization_options: None,
        settings: None,
    })
}

fn unwrap_command(r: Result<LaunchCommand, LaunchError>) -> LaunchCommand {
    match r {
        Ok(c) => c,
        Err(e) => panic!("expected a command, got {:?}", e),
    }
}

#[test]
fn identifiers_are_fixed() {
    assert_eq!(ALT_SETTINGS_ID, "basedpyright-alt");
    assert_eq!(SERVER_BINARY, "basedpyright-langserver");
}

#[test]
fn override_path_and_arguments_are_used_unmodified() {
    let alt = with_binary(Some("/opt/bp/server"), Some(vec!["--stdio", "--verbose"]));
    let c = unwrap_command(resolve_command(
        alt,
        Some("/usr/bin/basedpyright-langserver".to_string()),
        env(),
    ));
    assert_eq!(c.command, "/opt/bp/server");
    assert_eq!(c.args, vec!["--stdio".to_string(), "--verbose".to_string()]);
    assert_eq!(c.env, env());
}

#[test]
fn override_with_empty_arguments_keeps_them_empty() {
    let alt = with_binary(Some("/opt/bp/server"), Some(vec![]));
    let c = unwrap_command(resolve_command(alt, None, env()));
    assert_eq!(c.command, "/opt/bp/server");
    assert!(c.args.is_empty());
}

#[test]
fn override_path_without_arguments_uses_stdio() {
    let alt = with_binary(Some("/opt/bp/server"), None);
    let c = unwrap_command(resolve_command(alt, None, env()));
    assert_eq!(c.command, "/opt/bp/server");
    assert_eq!(c.args, vec!["--stdio".to_string()]);
    assert_eq!(c.env, env());
}

#[test]
fn path_search_gives_stdio_and_empty_argument() {
    let c = unwrap_command(resolve_command(
        None,
        Some("/usr/bin/basedpyright-langserver".to_string()),
        env(),
    ));
    assert_eq!(c.command, "/usr/bin/basedpyright-langserver");
    assert_eq!(c.args, vec!["--stdio".to_string(), String::new()]);
    assert_eq!(c.env, env());
}

#[test]
fn override_without_path_falls_back_to_search() {
    let alt = with_binary(None, Some(vec!["--ignored"]));
    let c = unwrap_command(resolve_command(alt, Some("/bin/bp".to_string()), env()));
    assert_eq!(c.command, "/bin/bp");
    assert_eq!(c.args, vec!["--stdio".to_string(), String::new()]);
}

#[test]
fn missing_binary_is_an_error() {
    let r = resolve_command(None, None, env());
    assert!(matches!(r, Err(LaunchError::ExecutableNotFound)));
    let r = resolve_command(with_binary(None, None), None, env());
    assert!(matches!(r, Err(LaunchError::ExecutableNotFound)));
}

#[test]
fn init_options_default_to_null_without_settings() {
    let r = resolve_init_options(None);
    assert!(matches!(r, Some(ConfigValue::Null)));
    let r = resolve_init_options(with_binary(Some("/x"), None));
    assert!(matches!(r, Some(ConfigValue::Null)));
}

#[test]
fn init_options_are_passed_through() {
    let s = ServerSettings {
        binary: None,
        initialization_options: Some(ConfigValue::Bool(true)),
        settings: Some(ConfigValue::Bool(false)),
    };
    assert!(matches!(resolve_init_options(Some(s)), Some(ConfigValue::Bool(true))));
}

#[test]
fn workspace_config_without_settings_is_null() {
    let r = resolve_workspace_config(None, "/proj".to_string());
    assert!(matches!(r, Ok(Some(ConfigValue::Null))));
}

#[test]
fn workspace_config_joins_python_path() {
    let settings = ConfigValue::Object(vec![(
        "python".to_string(),
        ConfigValue::Object(vec![(
            "pythonPath".to_string(),
            ConfigValue::String(".venv/bin/python".to_string()),
        )]),
    )]);
    let s = ServerSettings { binary: None, initialization_options: None, settings: Some(settings) };
    let r = resolve_workspace_config(Some(s), "/proj".to_string());
    match r {
        Ok(Some(v)) => assert_eq!(
            format!("{:?}", v),
            r#"Object([("python", Object([("pythonPath", String("/proj/.venv/bin/python"))]))])"#
        ),
        other => panic!("unexpected {:?}", other),
    }
}

#[test]
fn workspace_config_rejects_non_string_python_path() {
    let settings = ConfigValue::Object(vec![(
        "python".to_string(),
        ConfigValue::Object(vec![(
            "pythonPath".to_string(),
            ConfigValue::Number(zed_extension_api::serde_json::Number::from(42)),
        )]),
    )]);
    let s = ServerSettings { binary: None, initialization_options: None, settings: Some(settings) };
    let r = resolve_workspace_config(Some(s), "/proj".to_string());
    assert!(matches!(r, Err(LaunchError::MalformedPythonPath)));
}

#[test]
fn override_is_there_only_with_a_path() {
    assert!(has_override(&with_binary(Some("/opt/bp/server"), None)));
    assert!(!has_override(&with_binary(None, Some(vec!["--stdio"]))));
    assert!(!has_override(&None));
    let no_binary = Some(ServerSettings { binary: None, initialization_options: None, settings: None });
    assert!(!has_override(&no_binary));
}
