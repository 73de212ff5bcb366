//! Application settings: the database section and the connection URL it
//! yields, the logging settings and the logging set-up they call for, and
//! the choice between the loaded settings and the defaults.

use crate::text::{decimal, owned, push_decimal, push_str, str_eq, to_uppercase, uppercase};
use vstd::prelude::*;
use vstd::utf8::encode_utf8;

verus! {

/// Licences an application can be published under.
#[derive(Debug, Clone, Copy, PartialEq, Eq, Structural)]
pub enum LICENCE {
    MIT,
    Apache,
    MulanPSL2,
}

/// The database section of the settings; every field may be left out.
#[derive(Debug, Clone)]
pub struct DatabaseConfig {
    pub db_type: Option<String>,
    pub host: Option<String>,
    pub port: Option<u16>,
    pub user: Option<String>,
    pub password: Option<String>,
    pub database: Option<String>,
    pub schema: Option<String>,
}

/// The text of an optional setting, or `default` when it is left out.
pub open spec fn text_or(s: Option<String>, default: Seq<char>) -> Seq<char> {
    match s {
        Some(v) => v@,
        None => default,
    }
}

impl Default for DatabaseConfig {
    fn default() -> (r: DatabaseConfig)
        ensures
            r.db_type is None,
            r.host is None,
            r.port is None,
            r.user is None,
            r.password is None,
            r.database is None,
            r.schema is None,
    {
        DatabaseConfig {
            db_type: None,
            host: None,
            port: None,
            user: None,
            password: None,
            database: None,
            schema: None,
        }
    }
}

impl DatabaseConfig {
    /// The database kind; `sqlite` unless set.
    pub fn db_type(&self) -> (r: &str)
        ensures
            r@ == text_or(self.db_type, "sqlite"@),
    {
        match &self.db_type {
            Some(v) => v.as_str(),
            None => "sqlite",
        }
    }

    /// The database host; `localhost` unless set.
    pub fn host(&self) -> (r: &str)
        ensures
            r@ == text_or(self.host, "localhost"@),
    {
        match &self.host {
            Some(v) => v.as_str(),
            None => "localhost",
        }
    }

    /// The database port; 5432 unless set.
    pub fn port(&self) -> (r: u16)
        ensures
            r == (match self.port {
                Some(p) => p,
                None => 5432,
            }),
    {
        match self.port {
            Some(p) => p,
            None => 5432,
        }
    }

    /// The schema; `public` unless set.
    pub fn schema(&self) -> (r: &str)
        ensures
            r@ == text_or(self.schema, "public"@),
    {
        match &self.schema {
            Some(v) => v.as_str(),
            None => "public",
        }
    }

    /// The user name; `postgres` unless set.
    pub fn user(&self) -> (r: &str)
        ensures
            r@ == text_or(self.user, "postgres"@),
    {
        match &self.user {
            Some(v) => v.as_str(),
            None => "postgres",
        }
    }

    /// The password; `postgres` unless set.
    pub fn password(&self) -> (r: &str)
        ensures
            r@ == text_or(self.password, "postgres"@),
    {
        match &self.password {
            Some(v) => v.as_str(),
            None => "postgres",
        }
    }
}

/// An ASCII letter or digit.
pub open spec fn is_ascii_alphanumeric(b: u8) -> bool {
    (48 <= b <= 57) || (65 <= b <= 90) || (97 <= b <= 122)
}

/// An upper-case hexadecimal digit.
pub open spec fn hex_upper(d: nat) -> char {
    if d < 10 {
        crate::text::digit_char(d)
    } else if d == 10 {
        'A'
    } else if d == 11 {
        'B'
    } else if d == 12 {
        'C'
    } else if d == 13 {
        'D'
    } else if d == 14 {
        'E'
    } else {
        'F'
    }
}

/// The percent-encoding of bytes in which only ASCII letters and digits
/// stand for themselves; every other byte is written `%XX` in upper-case hex.
pub open spec fn percent_encoded(bytes: Seq<u8>) -> Seq<char>
    decreases bytes.len(),
{
    if bytes.len() == 0 {
        Seq::empty()
    } else {
        let b = bytes[0];
        let head = if is_ascii_alphanumeric(b) {
            seq![b as char]
        } else {
            seq!['%', hex_upper((b / 16) as nat), hex_upper((b % 16) as nat)]
        };
        head + percent_encoded(bytes.drop_first())
    }
}

/// Calls `percent_encoding::utf8_percent_encode` with `NON_ALPHANUMERIC` and
/// writes the result out: the UTF-8 bytes of `s`, ASCII letters and digits
/// as they are, every other byte as `%` and two upper-case hex digits.
#[verifier::external_body]
fn percent_encode_text(s: &str) -> (r: String)
    ensures
        r@ == percent_encoded(encode_utf8(s@)),
{
    percent_encoding::utf8_percent_encode(s, percent_encoding::NON_ALPHANUMERIC).to_string()
}

/// The URL of a PostgreSQL database:
/// `postgres://<user>:<encoded password>@<host>:<port>/<schema>`.
pub open spec fn postgres_url(c: DatabaseConfig) -> Seq<char> {
    "postgres://"@ + text_or(c.user, "postgres"@) + ":"@ + percent_encoded(
        encode_utf8(text_or(c.password, "postgres"@)),
    ) + "@"@ + text_or(c.host, "localhost"@) + ":"@ + decimal(
        (match c.port {
            Some(p) => p,
            None => 5432u16,
        }) as nat,
    ) + "/"@ + text_or(c.schema, "public"@)
}

/// The URL of the SQLite database file at `path`, created when missing.
pub open spec fn sqlite_url(path: Seq<char>) -> Seq<char> {
    "sqlite://"@ + path + "?mode=rwc"@
}

impl DatabaseConfig {
    /// The URL to connect with: a PostgreSQL URL when the kind is
    /// `postgres`, else the SQLite database file at `sqlite_path` (where
    /// the application keeps its data).
    pub fn connection_url(&self, sqlite_path: &str) -> (r: String)
        ensures
            text_or(self.db_type, "sqlite"@) == "postgres"@ ==> r@ == postgres_url(*self),
            text_or(self.db_type, "sqlite"@) != "postgres"@ ==> r@ == sqlite_url(sqlite_path@),
    {
        if str_eq(self.db_type(), "postgres") {
            let encoded = percent_encode_text(self.password());
            let mut s = owned("postgres://");
            push_str(&mut s, self.user());
            push_str(&mut s, ":");
            push_str(&mut s, encoded.as_str());
            push_str(&mut s, "@");
            push_str(&mut s, self.host());
            push_str(&mut s, ":");
            push_decimal(&mut s, self.port() as u64);
            push_str(&mut s, "/");
            push_str(&mut s, self.schema());
            s
        } else {
            let mut s = owned("sqlite://");
            push_str(&mut s, sqlite_path);
            push_str(&mut s, "?mode=rwc");
            s
        }
    }
}

/// The server section of the settings; this library reads nothing from it.
#[derive(Debug, Clone, Default)]
pub struct ServerConfig {}

/// The application settings.
#[derive(Debug, Clone)]
pub struct AppConfig {
    pub server: ServerConfig,
    pub database: DatabaseConfig,
}

impl Default for AppConfig {
    fn default() -> (r: AppConfig)
        ensures
            r.database.db_type is None,
            r.database.host is None,
            r.database.port is None,
            r.database.user is None,
            r.database.password is None,
            r.database.database is None,
            r.database.schema is None,
    {
        AppConfig { server: ServerConfig {}, database: DatabaseConfig::default() }
    }
}

/// How reading the settings file went.
#[derive(Debug, Clone)]
pub enum ConfigSource {
    /// The file could not be read; the reason.
    Unreadable(String),
    /// The file was read and does not describe the settings; the reason.
    Malformed(String),
    /// The settings the file describes.
    Parsed(AppConfig),
}

/// The message of the error for a settings file that could not be read.
pub open spec fn load_failed_message(reason: Seq<char>) -> Seq<char> {
    "Failed to load config: "@ + reason
}

/// The message of the error for a settings file that does not describe
/// the settings.
pub open spec fn deserialize_failed_message(reason: Seq<char>) -> Seq<char> {
    "Failed to deserialize config: "@ + reason
}

impl AppConfig {
    /// The settings read from the `application` file, or the error that
    /// stopped it, with the stage that failed in front of the reason.
    pub fn load(source: ConfigSource) -> (r: Result<AppConfig, String>)
        ensures
            match source {
                ConfigSource::Parsed(c) => r == Ok::<AppConfig, String>(c),
                ConfigSource::Unreadable(e) => r matches Err(m) && m@ == load_failed_message(e@),
                ConfigSource::Malformed(e) => r matches Err(m) && m@ == deserialize_failed_message(e@),
            },
    {
        match source {
            ConfigSource::Parsed(c) => Ok(c),
            ConfigSource::Unreadable(e) => {
                let mut m = owned("Failed to load config: ");
                push_str(&mut m, e.as_str());
                Err(m)
            },
            ConfigSource::Malformed(e) => {
                let mut m = owned("Failed to deserialize config: ");
                push_str(&mut m, e.as_str());
                Err(m)
            },
        }
    }
}

/// The settings the application runs with: those loaded, or the defaults
/// when loading failed.
pub fn get(loaded: Result<AppConfig, String>) -> (r: AppConfig)
    ensures
        loaded matches Ok(c) ==> r == c,
        loaded is Err ==> r.database.db_type is None && r.database.host is None
            && r.database.port is None && r.database.user is None && r.database.password is None
            && r.database.database is None && r.database.schema is None,
{
    match loaded {
        Ok(c) => c,
        Err(_) => AppConfig::default(),
    }
}

/// Where log output goes.
#[derive(Debug, Clone)]
pub enum LogOutput {
    Console,
    File { path: String, max_size_mb: Option<u64>, max_files: Option<u32> },
    Both { file_path: String, max_size_mb: Option<u64>, max_files: Option<u32> },
}

/// How log lines are written.
#[derive(Debug, Clone, Copy, PartialEq, Eq, Structural)]
pub enum LogFormat {
    Text,
    Json,
    Compact,
}

/// Severity threshold of the log.
#[derive(Debug, Clone, Copy, PartialEq, Eq, Structural)]
pub enum LogLevel {
    Trace,
    Debug,
    Info,
    Warn,
    Error,
}

/// The level a name stands for once upper-cased; unknown names give `Info`.
pub open spec fn level_from_upper(s: Seq<char>) -> LogLevel {
    if s == "TRACE"@ {
        LogLevel::Trace
    } else if s == "DEBUG"@ {
        LogLevel::Debug
    } else if s == "INFO"@ {
        LogLevel::Info
    } else if s == "WARN"@ {
        LogLevel::Warn
    } else if s == "ERROR"@ {
        LogLevel::Error
    } else {
        LogLevel::Info
    }
}

impl LogLevel {
    /// The level that the upper-case name `s` stands for; unknown names give `Info`.
    pub fn from_upper(s: &str) -> (r: LogLevel)
        ensures
            r == level_from_upper(s@),
    {
        level_of_upper(s)
    }
}

fn level_of_upper(s: &str) -> (r: LogLevel)
    ensures
        r == level_from_upper(s@),
{
    if str_eq(s, "TRACE") {
        LogLevel::Trace
    } else if str_eq(s, "DEBUG") {
        LogLevel::Debug
    } else if str_eq(s, "INFO") {
        LogLevel::Info
    } else if str_eq(s, "WARN") {
        LogLevel::Warn
    } else if str_eq(s, "ERROR") {
        LogLevel::Error
    } else {
        LogLevel::Info
    }
}

impl<'a> From<&'a str> for LogLevel {
    /// The level named by `s` in any letter case; unknown names give `Info`.
    fn from(s: &'a str) -> (r: LogLevel) {
        let upper = to_uppercase(s);
        level_of_upper(upper.as_str())
    }
}

impl<'a> vstd::std_specs::convert::FromSpecImpl<&'a str> for LogLevel {
    open spec fn obeys_from_spec() -> bool {
        true
    }

    open spec fn from_spec(s: &'a str) -> LogLevel {
        level_from_upper(uppercase(s@))
    }
}

/// The logging settings.
#[derive(Debug, Clone)]
pub struct LoggingConfig {
    pub level: LogLevel,
    pub output: LogOutput,
    pub format: LogFormat,
    pub enable_colors: bool,
    pub module_filter: Option<Vec<String>>,
}

impl Default for LoggingConfig {
    fn default() -> (r: LoggingConfig)
        ensures
            r.level == LogLevel::Info,
            r.output is Console,
            r.format == LogFormat::Text,
            r.enable_colors,
            r.module_filter is None,
    {
        LoggingConfig {
            level: LogLevel::Info,
            output: LogOutput::Console,
            format: LogFormat::Text,
            enable_colors: true,
            module_filter: None,
        }
    }
}

/// The log sinks to install.
#[derive(Debug, Clone)]
pub enum LogSinks {
    /// The console, coloured or not.
    Console { ansi: bool },
    /// A file (created with its directories when missing), never coloured.
    File { path: String },
    /// The console, coloured or not, and a file that is never coloured.
    Both { file_path: String, console_ansi: bool },
}

/// The logging set-up that the settings call for.
#[derive(Debug, Clone)]
pub struct LoggingPlan {
    pub max_level: LogLevel,
    pub sinks: LogSinks,
}

/// Works out the logging set-up the settings call for: their level as the
/// threshold, and the sinks of their output, with colours on the console
/// only where the settings enable them.
pub fn init_advanced_logging(config: &LoggingConfig) -> (r: LoggingPlan)
    ensures
        r.max_level == config.level,
        match config.output {
            LogOutput::Console => r.sinks matches LogSinks::Console { ansi } && ansi
                == config.enable_colors,
            LogOutput::File { path, .. } => r.sinks matches LogSinks::File { path: p } && p@ == path@,
            LogOutput::Both { file_path, .. } => r.sinks matches LogSinks::Both {
                file_path: p,
                console_ansi,
            } && p@ == file_path@ && console_ansi == config.enable_colors,
        },
{
    let sinks = match &config.output {
        LogOutput::Console => LogSinks::Console { ansi: config.enable_colors },
        LogOutput::File { path, .. } => LogSinks::File { path: path.clone() },
        LogOutput::Both { file_path, .. } => LogSinks::Both {
            file_path: file_path.clone(),
            console_ansi: config.enable_colors,
        },
    };
    LoggingPlan { max_level: config.level, sinks }
}

/// The threshold of the simple logging set-up: the level spelt exactly
/// (upper case) in the settings, else `Info`.
pub fn simple_log_level(level: Option<&str>) -> (r: LogLevel)
    ensures
        r == (match level {
            Some(s) => level_from_upper(s@),
            None => LogLevel::Info,
        }),
{
    match level {
        Some(s) => level_of_upper(s),
        None => LogLevel::Info,
    }
}

} // verus!
