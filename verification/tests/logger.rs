use qrt_rust_utils::logger::{
    default_level, FluentdLayer, FluentdLayerConfig, FluentdLogLevel, LogLevel, LoggerConfig,
    TestVisitor,
};

#[test]
fn default_level_is_info() {
    assert_eq!(default_level(), "info");
    assert_eq!(LoggerConfig::default().level, "info");
}

#[test]
fn layer_keeps_its_configuration() {
    let config = FluentdLayerConfig {
        server_url: "127.0.0.1:24224".to_string(),
        tag: "app".to_string(),
        instance_name: "node-1".to_string(),
    };
    let layer = FluentdLayer::generate(&config);
    assert_eq!(layer.server_url(), "127.0.0.1:24224");
    assert_eq!(layer.tag(), "app");
}

#[test]
fn levels_map_to_collector_levels() {
    assert_eq!(FluentdLogLevel::from(LogLevel::Trace), FluentdLogLevel::Trace);
    assert_eq!(FluentdLogLevel::from(LogLevel::Debug), FluentdLogLevel::Debug);
    assert_eq!(FluentdLogLevel::from(LogLevel::Info), FluentdLogLevel::Info);
    assert_eq!(FluentdLogLevel::from(LogLevel::Warn), FluentdLogLevel::Warn);
    assert_eq!(FluentdLogLevel::from(LogLevel::Error), FluentdLogLevel::ERROR);
}

#[test]
fn record_of_an_event() {
    let entry = FluentdLayer::log_of_event(Some("hello".to_string()), LogLevel::Warn, Some(12), Some("main.rs".to_string()));
    assert_eq!(entry.instance_name, "test");
    assert_eq!(entry.logger_name, "default");
    assert_eq!(entry.log_level, FluentdLogLevel::Warn);
    assert!(entry.tags.is_empty());
    assert_eq!(entry.content.raw_value, "hello");
    assert_eq!(entry.location.line_number, Some(12));
    assert_eq!(entry.location.filename, Some("main.rs".to_string()));
    let empty = FluentdLayer::log_of_event(None, LogLevel::Info, None, None);
    assert_eq!(empty.content.raw_value, "");
    assert_eq!(empty.location.line_number, None);
    assert_eq!(empty.location.filename, None);
}

#[test]
fn visitor_keeps_the_message_field() {
    let mut visitor = TestVisitor::new();
    visitor.record_str("other", "x");
    visitor.record_str("message", "first");
    visitor.record_str("count", "3");
    assert_eq!(visitor.into_message(), Some("first".to_string()));
    let mut visitor = TestVisitor::new();
    visitor.record_str("message", "a");
    visitor.record_str("message", "b");
    assert_eq!(visitor.into_message(), Some("b".to_string()));
    assert_eq!(TestVisitor::new().into_message(), None);
}
