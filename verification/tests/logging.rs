use std::path::PathBuf;

use net_manthan::config::{default_address, default_address_for, Config, NativeRpcSettings, Vayuget};
use net_manthan::logger::{
    build_filter, component_directive_text, get_engine_silent_deps, get_ui_config,
    get_ui_silent_deps, log_file_name, no_layers_message, plan_layers, silence_directive_text,
    Component, LogConfig, LogError, LogLevel,
};

#[test]
fn component_names() {
    assert_eq!(Component::Ui.as_str(), "ui");
    assert_eq!(Component::Vayuget.as_str(), "vayuget");
    assert_eq!(log_file_name(Component::Vayuget), "vayuget.log");
}

#[test]
fn levels_by_name() {
    assert_eq!(LogLevel::Warn.as_str(), "WARN");
    assert_eq!(LogLevel::from_name("debug"), Some(LogLevel::Debug));
    assert_eq!(LogLevel::from_name("error"), Some(LogLevel::Error));
    assert_eq!(LogLevel::from_name("loud"), None);
}

#[test]
fn builders_change_one_setting() {
    let c = LogConfig::console_only(Component::Vayuget);
    assert_eq!(c.component, Component::Vayuget);
    assert!(c.log_dir.is_none());
    assert_eq!(c.max_level, LogLevel::Trace);
    assert!(c.log_to_console);
    let c = LogConfig::with_file_logging(Component::Ui, "/var/log/nm")
        .no_console()
        .with_level(LogLevel::Info)
        .with_env_filter("ui=debug")
        .silence_deps(vec!["naga".to_string()]);
    assert_eq!(c.log_dir.as_deref(), Some("/var/log/nm"));
    assert!(!c.log_to_console);
    assert_eq!(c.max_level, LogLevel::Info);
    assert_eq!(c.env_filter.as_deref(), Some("ui=debug"));
    assert_eq!(c.silent_deps, vec!["naga".to_string()]);
    let more = c.silence_deps(vec!["zbus".to_string(), "sctk".to_string()]);
    assert_eq!(
        more.silent_deps,
        vec!["naga".to_string(), "zbus".to_string(), "sctk".to_string()]
    );
    assert_eq!(more.max_level, LogLevel::Info);
    let d = LogConfig::default();
    assert_eq!(d.log_dir.as_deref(), Some("logs"));
    assert_eq!(d.component, Component::Ui);
}

#[test]
fn silenced_dependencies() {
    let ui = get_ui_silent_deps();
    assert_eq!(ui.len(), 12);
    assert_eq!(ui[0], "async_io");
    assert_eq!(ui[11], "wgpu_hal");
    assert_eq!(get_engine_silent_deps(), vec!["hyper_util".to_string(), "reqwest".to_string()]);
    let c = get_ui_config();
    assert!(c.log_dir.is_none());
    assert_eq!(c.silent_deps, ui);
}

#[test]
fn directives() {
    assert_eq!(component_directive_text(Component::Ui, LogLevel::Info), "ui=INFO");
    assert_eq!(silence_directive_text("zbus"), "zbus=error");
}

#[test]
fn filters_build_or_fail() {
    let ui = build_filter(&get_ui_config()).unwrap();
    let texts = ui.directive_texts();
    assert_eq!(texts.len(), 14);
    assert_eq!(texts[0], "TRACE");
    assert_eq!(texts[1], "ui=TRACE");
    assert_eq!(texts[2], "async_io=error");
    assert_eq!(texts[13], "wgpu_hal=error");
    let own = LogConfig::console_only(Component::Ui)
        .with_env_filter("info,ui=trace")
        .silence_deps(vec!["naga".to_string()]);
    let f = build_filter(&own).unwrap();
    assert_eq!(f.directive_texts(), &vec!["info,ui=trace".to_string(), "naga=error".to_string()]);
    let _installable = f.into_filter();
    let bad = LogConfig::console_only(Component::Ui).with_env_filter("ui=notalevel");
    assert!(matches!(build_filter(&bad), Err(LogError::InvalidFilter(_))));
    let bad_dep = LogConfig::console_only(Component::Ui).silence_deps(vec!["a=b=c".to_string()]);
    assert!(matches!(build_filter(&bad_dep), Err(LogError::InvalidFilter(_))));
}

#[test]
fn layers() {
    let none = LogConfig::console_only(Component::Ui).no_console();
    assert!(matches!(plan_layers(&none), Err(LogError::NoLayers)));
    assert_eq!(
        no_layers_message(),
        "No logging layers configured. Enable either console or file logging."
    );
    let files = LogConfig::with_file_logging(Component::Vayuget, "/tmp/logs").no_console();
    match plan_layers(&files) {
        Ok(plan) => {
            assert!(!plan.console);
            assert_eq!(plan.file, Some(("/tmp/logs".to_string(), "vayuget.log".to_string())));
        }
        Err(_) => panic!("refused"),
    }
    let console = LogConfig::console_only(Component::Ui);
    assert!(matches!(plan_layers(&console), Ok(p) if p.console && p.file.is_none()));
}

#[test]
fn daemon_settings() {
    assert_eq!(default_address_for(true), "vayu-pipe");
    assert_eq!(default_address_for(false), "/tmp/vayu.sock");
    let expected = if std::path::MAIN_SEPARATOR == '\\' { "vayu-pipe" } else { "/tmp/vayu.sock" };
    assert_eq!(default_address(), expected);
    let s = NativeRpcSettings::default_settings();
    assert!(s.allow_all_users);
    assert_eq!(s.address, expected);
    assert!(s.rpc_secret.is_none());
    let c = Config::with_paths(
        PathBuf::from("/db/vayuget.db"),
        PathBuf::from("/dl"),
        PathBuf::from("/log/vayuget.log"),
    );
    assert_eq!(c.vayuget.log_level, "info");
    assert_eq!(c.vayuget.db_path, PathBuf::from("/db/vayuget.db"));
    assert!(!c.vayuget.pretty_print_for(true));
    assert!(c.vayuget.pretty_print_for(false));
    let mut v = Vayuget::with_paths(PathBuf::new(), PathBuf::new(), PathBuf::new());
    v.pretty_print = Some(true);
    assert!(v.pretty_print_for(true));
}
