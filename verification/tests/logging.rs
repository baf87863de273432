use oysterpack::events;
use oysterpack::logging::{
    format_record, init_complete, init_request, InitAction, InitState, LogConfig,
    LogConfigBuilder, LogLevel, LogRecord, Target,
};

#[test]
fn root_log_level_configured() {
    let config = LogConfigBuilder::new(LogLevel::Info).build();
    assert_eq!(config.root_level(), LogLevel::Info);
}

#[test]
fn default_log_config() {
    let config: LogConfig = Default::default();
    assert_eq!(config.root_level(), LogLevel::Warn);
    assert!(config.crate_level().is_none());
    assert!(config.target_levels().is_none());
}

#[test]
fn target_append() {
    let foo = Target("foo".to_string());
    let foo_bar = foo.append(Target("bar".to_string()));
    assert_eq!(foo_bar.0, "foo::bar");
}

#[test]
fn target_levels_keep_the_last_level_of_each_target() {
    let config = LogConfigBuilder::new(LogLevel::Warn)
        .crate_level(LogLevel::Debug)
        .target_level(Target::new("a".to_string()), LogLevel::Info)
        .target_level(Target::new("b".to_string()), LogLevel::Trace)
        .target_level(Target::new("a".to_string()), LogLevel::Error)
        .build();
    assert_eq!(config.crate_level(), Some(LogLevel::Debug));
    let levels = config.target_levels().unwrap();
    assert_eq!(levels.len(), 2);
    assert_eq!(levels[0].0 .0, "a");
    assert_eq!(levels[0].1, LogLevel::Error);
    assert_eq!(levels[1].0 .0, "b");
    assert_eq!(levels[1].1, LogLevel::Trace);

    let directives = config.level_directives("my_crate");
    assert_eq!(
        directives,
        vec![
            ("my_crate".to_string(), LogLevel::Debug),
            ("a".to_string(), LogLevel::Error),
            ("b".to_string(), LogLevel::Trace)
        ]
    );
    let plain = LogConfigBuilder::new(LogLevel::Info).build();
    assert!(plain.level_directives("x").is_empty());
}

#[test]
fn formats_records() {
    let text = format_record(LogLevel::Error, "T", "myApp", Some("server"), Some(144), "BOOM!!!");
    assert_eq!(text, "[T][ERROR][myApp][server:144] BOOM!!!");
    let text = format_record(LogLevel::Info, "T", "myApp", Some("server"), None, "hi");
    assert_eq!(text, "[T][INFO][myApp] hi");
    let text = format_record(LogLevel::Warn, "T", "myApp", None, Some(3), "hi");
    assert_eq!(text, "[T][WARN][myApp] hi");
}

#[test]
fn log_message_from_log_record() {
    let log_record = LogRecord::new("myApp", LogLevel::Error, "BOOM!!!".to_string(), Some("server"), Some(144));
    assert_eq!(log_record.target().0, "myApp");
    assert_eq!(log_record.level(), LogLevel::Error);
    assert_eq!(log_record.message().0, "BOOM!!!");
    let m = log_record.module_source().unwrap();
    assert_eq!(m.mod_path(), "server");
    assert_eq!(m.line(), 144);
    assert_eq!(log_record.line_text("NOW"), "[ERROR][NOW][myApp][server:144] BOOM!!!");

    let no_line = LogRecord::new("myApp", LogLevel::Debug, "x".to_string(), Some("server"), None);
    assert!(no_line.module_source().is_none());
    assert_eq!(no_line.line_text("NOW"), "[DEBUG][NOW][myApp] x");
}

#[test]
fn logging_is_initialized_once() {
    let (state, action) = init_request(InitState::NotInitialized);
    assert_eq!(action, InitAction::Initialize);
    assert_eq!(state, InitState::Initializing);
    let (state2, action2) = init_request(state);
    assert_eq!(action2, InitAction::WaitForInitialization);
    let done = init_complete(state2);
    assert_eq!(done, InitState::Initialized);
    let (state3, action3) = init_request(done);
    assert_eq!(action3, InitAction::AlreadyInitialized);
    assert_eq!(state3, InitState::Initialized);
}

#[test]
fn event_levels_log_at_matching_levels() {
    assert_eq!(events::Level::Debug.log_level(), LogLevel::Debug);
    assert_eq!(events::Level::Info.log_level(), LogLevel::Info);
    assert_eq!(events::Level::Notice.log_level(), LogLevel::Warn);
    assert_eq!(events::Level::Warning.log_level(), LogLevel::Warn);
    assert_eq!(events::Level::Error.log_level(), LogLevel::Error);
    assert_eq!(events::Level::Emergency.log_level(), LogLevel::Error);
    assert_eq!(LogLevel::Trace.as_str(), "TRACE");
}

#[test]
fn a_builder_run_without_target_levels_has_none() {
    let config = LogConfigBuilder::new(LogLevel::Info).crate_level(LogLevel::Debug).crate_level(LogLevel::Trace).build();
    assert!(config.target_levels().is_none());
    assert_eq!(config.crate_level(), Some(LogLevel::Trace));

    let config = LogConfigBuilder::new(LogLevel::Info)
        .target_level(Target::new("x".to_string()), LogLevel::Info)
        .crate_level(LogLevel::Debug)
        .target_level(Target::new("x".to_string()), LogLevel::Warn)
        .build();
    let levels = config.target_levels().unwrap();
    assert_eq!(levels.len(), 1);
    assert_eq!(levels[0].0 .0, "x");
    assert_eq!(levels[0].1, LogLevel::Warn);
}
