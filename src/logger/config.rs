use vstd::prelude::*;

verus! {

/// The least severe level of event that is recorded.
#[derive(Debug, Clone, Copy, PartialEq, Eq, Structural)]
pub enum LogLevel {
    Trace,
    Debug,
    Info,
    Warn,
    Error,
}

/// How often the log file is rolled over.
#[derive(Debug, Clone, Copy, PartialEq, Eq, Structural)]
pub enum LogRotation {
    Minutely,
    Hourly,
    Daily,
    Never,
}

/// Settings of the logger: level, file location, what each line shows, and
/// where lines go.
#[derive(Debug, Clone)]
pub struct LoggerConfig {
    pub default_level: LogLevel,
    pub log_dir: String,
    pub log_filename: String,
    pub show_file_line: bool,
    pub show_thread: bool,
    pub show_target: bool,
    pub use_ansi: bool,
    pub enable_console: bool,
    pub enable_file: bool,
    pub rotation: LogRotation,
    pub show_spans: bool,
}

impl LoggerConfig {
    /// The settings a builder starts from.
    pub open spec fn is_default(&self) -> bool {
        &&& self.default_level == LogLevel::Info
        &&& self.log_dir@ == "logs"@
        &&& self.log_filename@ == "application.log"@
        &&& !self.show_file_line
        &&& !self.show_thread
        &&& !self.show_target
        &&& self.use_ansi
        &&& self.enable_console
        &&& self.enable_file
        &&& self.rotation == LogRotation::Daily
        &&& !self.show_spans
    }

    /// A builder that starts from the default settings.
    pub fn builder() -> (r: LoggerConfigBuilder)
        ensures
            r.config.is_default(),
    {
        LoggerConfigBuilder::new()
    }

    pub fn default_level(&self) -> (r: LogLevel)
        ensures
            r == self.default_level,
    {
        self.default_level
    }

    pub fn log_dir(&self) -> (r: &str)
        ensures
            r@ == self.log_dir@,
    {
        self.log_dir.as_str()
    }

    pub fn log_filename(&self) -> (r: &str)
        ensures
            r@ == self.log_filename@,
    {
        self.log_filename.as_str()
    }

    pub fn show_file_line(&self) -> (r: bool)
        ensures
            r == self.show_file_line,
    {
        self.show_file_line
    }

    pub fn show_thread(&self) -> (r: bool)
        ensures
            r == self.show_thread,
    {
        self.show_thread
    }

    pub fn show_target(&self) -> (r: bool)
        ensures
            r == self.show_target,
    {
        self.show_target
    }

    pub fn use_ansi(&self) -> (r: bool)
        ensures
            r == self.use_ansi,
    {
        self.use_ansi
    }

    pub fn enable_console(&self) -> (r: bool)
        ensures
            r == self.enable_console,
    {
        self.enable_console
    }

    pub fn enable_file(&self) -> (r: bool)
        ensures
            r == self.enable_file,
    {
        self.enable_file
    }

    pub fn rotation(&self) -> (r: LogRotation)
        ensures
            r == self.rotation,
    {
        self.rotation
    }

    pub fn show_spans(&self) -> (r: bool)
        ensures
            r == self.show_spans,
    {
        self.show_spans
    }
}

impl Default for LoggerConfig {
    /// Info level, `logs/application.log` rolled daily, console and file both on,
    /// colours on, and no file/line, thread, target or span detail.
    fn default() -> (r: Self)
        ensures
            r.is_default(),
    {
        LoggerConfig {
            default_level: LogLevel::Info,
            log_dir: "logs".to_owned(),
            log_filename: "application.log".to_owned(),
            show_file_line: false,
            show_thread: false,
            show_target: false,
            use_ansi: true,
            enable_console: true,
            enable_file: true,
            rotation: LogRotation::Daily,
            show_spans: false,
        }
    }
}

/// Builds a `LoggerConfig` one setting at a time.
#[derive(Debug)]
pub struct LoggerConfigBuilder {
    pub config: LoggerConfig,
}

impl LoggerConfigBuilder {
    pub fn new() -> (r: Self)
        ensures
            r.config.is_default(),
    {
        LoggerConfigBuilder { config: LoggerConfig::default() }
    }

    pub fn default_level(self, level: LogLevel) -> (r: Self)
        ensures
            r.config == (LoggerConfig { default_level: level, ..self.config }),
    {
        LoggerConfigBuilder { config: LoggerConfig { default_level: level, ..self.config } }
    }

    pub fn log_dir(self, dir: &str) -> (r: Self)
        ensures
            r.config.log_dir@ == dir@,
            r.config == (LoggerConfig { log_dir: r.config.log_dir, ..self.config }),
    {
        LoggerConfigBuilder { config: LoggerConfig { log_dir: dir.to_owned(), ..self.config } }
    }

    pub fn log_filename(self, filename: &str) -> (r: Self)
        ensures
            r.config.log_filename@ == filename@,
            r.config == (LoggerConfig { log_filename: r.config.log_filename, ..self.config }),
    {
        LoggerConfigBuilder { config: LoggerConfig { log_filename: filename.to_owned(), ..self.config } }
    }

    pub fn show_file_line(self, show: bool) -> (r: Self)
        ensures
            r.config == (LoggerConfig { show_file_line: show, ..self.config }),
    {
        LoggerConfigBuilder { config: LoggerConfig { show_file_line: show, ..self.config } }
    }

    pub fn show_thread(self, show: bool) -> (r: Self)
        ensures
            r.config == (LoggerConfig { show_thread: show, ..self.config }),
    {
        LoggerConfigBuilder { config: LoggerConfig { show_thread: show, ..self.config } }
    }

    pub fn show_target(self, show: bool) -> (r: Self)
        ensures
            r.config == (LoggerConfig { show_target: show, ..self.config }),
    {
        LoggerConfigBuilder { config: LoggerConfig { show_target: show, ..self.config } }
    }

    pub fn use_ansi(self, use_ansi: bool) -> (r: Self)
        ensures
            r.config == (LoggerConfig { use_ansi, ..self.config }),
    {
        LoggerConfigBuilder { config: LoggerConfig { use_ansi, ..self.config } }
    }

    pub fn enable_console(self, enable: bool) -> (r: Self)
        ensures
            r.config == (LoggerConfig { enable_console: enable, ..self.config }),
    {
        LoggerConfigBuilder { config: LoggerConfig { enable_console: enable, ..self.config } }
    }

    pub fn enable_file(self, enable: bool) -> (r: Self)
        ensures
            r.config == (LoggerConfig { enable_file: enable, ..self.config }),
    {
        LoggerConfigBuilder { config: LoggerConfig { enable_file: enable, ..self.config } }
    }

    pub fn rotation(self, rotation: LogRotation) -> (r: Self)
        ensures
            r.config == (LoggerConfig { rotation, ..self.config }),
    {
        LoggerConfigBuilder { config: LoggerConfig { rotation, ..self.config } }
    }

    pub fn show_spans(self, show: bool) -> (r: Self)
        ensures
            r.config == (LoggerConfig { show_spans: show, ..self.config }),
    {
        LoggerConfigBuilder { config: LoggerConfig { show_spans: show, ..self.config } }
    }

    pub fn build(self) -> (r: LoggerConfig)
        ensures
            r == self.config,
    {
        self.config
    }
}

impl Default for LoggerConfigBuilder {
    fn default() -> (r: Self)
        ensures
            r.config.is_default(),
    {
        LoggerConfigBuilder::new()
    }
}

} // verus!
