//! Logging configuration and the records sent to a fluentd collector.
use vstd::prelude::*;
use vstd::std_specs::convert::FromSpecImpl;
use crate::text::text_equals;

verus! {

/// The logging configuration: the level filter to use.
#[derive(Debug)]
pub struct LoggerConfig {
    pub level: String,
}

/// The level filter used when none is configured.
pub fn default_level() -> (r: String)
    ensures
        r@ == "info"@,
{
    "info".to_owned()
}

impl Default for LoggerConfig {
    fn default() -> (r: Self)
        ensures
            r.level@ == "info"@,
    {
        LoggerConfig { level: default_level() }
    }
}

/// Where in the source a log event was emitted.
#[derive(Clone, Debug)]
pub struct FluentdLogLocation {
    pub line_number: Option<u32>,
    pub filename: Option<String>,
}

/// The severity of a log event, as the collector names it.
#[derive(Clone, Debug, PartialEq, Eq, Structural)]
pub enum FluentdLogLevel {
    Silly,
    Trace,
    Debug,
    Info,
    Warn,
    ERROR,
    Fatal,
}

/// The severity of a log event, as the tracing framework has it.
#[derive(Clone, Copy, Debug, PartialEq, Eq, Structural)]
pub enum LogLevel {
    Trace,
    Debug,
    Info,
    Warn,
    Error,
}

/// The collector's level for a tracing level.
pub open spec fn fluentd_level_of(level: LogLevel) -> FluentdLogLevel {
    match level {
        LogLevel::Trace => FluentdLogLevel::Trace,
        LogLevel::Debug => FluentdLogLevel::Debug,
        LogLevel::Error => FluentdLogLevel::ERROR,
        LogLevel::Info => FluentdLogLevel::Info,
        LogLevel::Warn => FluentdLogLevel::Warn,
    }
}

impl From<LogLevel> for FluentdLogLevel {
    fn from(value: LogLevel) -> (r: Self) {
        match value {
            LogLevel::Trace => FluentdLogLevel::Trace,
            LogLevel::Debug => FluentdLogLevel::Debug,
            LogLevel::Error => FluentdLogLevel::ERROR,
            LogLevel::Info => FluentdLogLevel::Info,
            LogLevel::Warn => FluentdLogLevel::Warn,
        }
    }
}

impl FromSpecImpl<LogLevel> for FluentdLogLevel {
    open spec fn obeys_from_spec() -> bool {
        true
    }

    open spec fn from_spec(value: LogLevel) -> FluentdLogLevel {
        fluentd_level_of(value)
    }
}

/// The text of a log event.
#[derive(Clone, Debug)]
pub struct FluentdLogContent {
    pub raw_value: String,
}

/// The record written to the collector for one log event, but for its time
/// stamp (the caller adds the current time when it sends the record).
#[derive(Clone, Debug)]
pub struct FluentdLogEntry {
    pub instance_name: String,
    pub logger_name: String,
    pub log_level: FluentdLogLevel,
    pub content: FluentdLogContent,
    pub tags: Vec<String>,
    pub location: FluentdLogLocation,
}

/// Where the collector is and how records are tagged.
#[derive(Debug, Default, Clone)]
pub struct FluentdLayerConfig {
    pub server_url: String,
    pub tag: String,
    pub instance_name: String,
}

/// A logging layer that forwards every event to a fluentd collector.
pub struct FluentdLayer {
    config: FluentdLayerConfig,
}

/// Collects the `message` field of a log event.
#[derive(Debug)]
pub struct TestVisitor {
    message: Option<String>,
}

impl TestVisitor {
    /// A visitor that has seen no message.
    pub fn new() -> (r: Self)
        ensures
            r.message() is None,
    {
        TestVisitor { message: None }
    }

    /// The message seen last.
    pub closed spec fn message(&self) -> Option<Seq<char>> {
        match self.message {
            Some(m) => Some(m@),
            None => None,
        }
    }

    /// Records one field of an event (already rendered as text): the field
    /// named `message` becomes the message; other fields are ignored.
    pub fn record_str(&mut self, field_name: &str, value: &str)
        ensures
            field_name@ == "message"@ ==> final(self).message() == Some(value@),
            field_name@ != "message"@ ==> final(self).message() == old(self).message(),
    {
        if text_equals(field_name, "message") {
            self.message = Some(value.to_owned());
        }
    }

    /// The message seen, if any, taking the visitor.
    pub fn into_message(self) -> (r: Option<String>)
        ensures
            match r {
                Some(m) => self.message() == Some(m@),
                None => self.message() is None,
            },
    {
        self.message
    }
}

impl FluentdLayer {
    /// The collector settings of this layer.
    pub closed spec fn settings(&self) -> (Seq<char>, Seq<char>, Seq<char>) {
        (self.config.server_url@, self.config.tag@, self.config.instance_name@)
    }

    /// The collector's address.
    pub fn server_url(&self) -> (r: &str)
        ensures
            r@ == self.settings().0,
    {
        self.config.server_url.as_str()
    }

    /// The tag the records are sent with.
    pub fn tag(&self) -> (r: &str)
        ensures
            r@ == self.settings().1,
    {
        self.config.tag.as_str()
    }

    /// A layer with a copy of `config`.
    pub fn generate(config: &FluentdLayerConfig) -> (r: FluentdLayer)
        ensures
            r.settings() == (config.server_url@, config.tag@, config.instance_name@),
    {
        FluentdLayer {
            config: FluentdLayerConfig {
                server_url: config.server_url.clone(),
                tag: config.tag.clone(),
                instance_name: config.instance_name.clone(),
            },
        }
    }

    /// The record for a log event: from instance `test` and
    /// logger `default`, with the event's message (empty when it has none),
    /// level and source location, and no tags.
    pub fn log_of_event(
        message: Option<String>,
        level: LogLevel,
        line: Option<u32>,
        file: Option<String>,
    ) -> (r: FluentdLogEntry)
        ensures
            r.instance_name@ == "test"@,
            r.logger_name@ == "default"@,
            r.log_level == fluentd_level_of(level),
            r.content.raw_value@ == match message {
                Some(m) => m@,
                None => Seq::<char>::empty(),
            },
            r.tags@.len() == 0,
            r.location.line_number == line,
            r.location.filename == file,
    {
        let raw_value = match message {
            Some(m) => m,
            None => String::new(),
        };
        FluentdLogEntry {
            instance_name: "test".to_owned(),
            logger_name: "default".to_owned(),
            log_level: FluentdLogLevel::from(level),
            content: FluentdLogContent { raw_value },
            tags: Vec::new(),
            location: FluentdLogLocation { line_number: line, filename: file },
        }
    }
}

} // verus!
