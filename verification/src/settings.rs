//! Configuration choices: where the REST service reads its settings,
//! how the database pool is sized, which log level a name selects, and
//! what the command-line tool reports for each subcommand.

use vstd::prelude::*;

verus! {

/// Settings of the REST service.
#[derive(Clone, Debug)]
pub struct RestConfig {
    /// Connection string of the database.
    pub database_url: String,
    /// Schema that holds the service's tables.
    pub database_schema: String,
    /// Address the service listens on.
    pub server_host: String,
    /// Port the service listens on.
    pub server_port: u16,
}

/// Prefix of the environment variables that override the REST settings
/// (`AGPT_REST_SERVER_PORT=5001` sets `server_port`).
pub const REST_ENV_PREFIX: &'static str = "AGPT_REST";

/// Connections the database pool holds at most.
pub const POOL_MAX_CONNECTIONS: u32 = 5;

/// Seconds a caller waits for a pooled connection.
pub const POOL_ACQUIRE_TIMEOUT_SECS: u64 = 3;

/// The run mode in effect: the one asked for, else `development`.
pub open spec fn effective_run_mode(run_mode: Option<Seq<char>>) -> Seq<char> {
    match run_mode {
        Some(m) => m,
        None => "development"@,
    }
}

/// The settings files of the REST service, in the order they are merged
/// (later ones win): the defaults, then the file of the run mode. Either
/// may be missing.
pub open spec fn spec_rest_config_files(run_mode: Option<Seq<char>>) -> Seq<Seq<char>> {
    seq![
        "../../config/rest_config.toml"@,
        "../../config/rest_config."@ + effective_run_mode(run_mode) + ".toml"@,
    ]
}

/// The characters of an optional text.
pub open spec fn opt_text_view(t: Option<&str>) -> Option<Seq<char>> {
    match t {
        Some(s) => Some(s@),
        None => None,
    }
}

/// The characters of a list of texts.
pub open spec fn texts_view(texts: Seq<String>) -> Seq<Seq<char>> {
    texts.map_values(|t: String| t@)
}

/// Lists the settings files of the REST service for `run_mode` (the
/// `RUN_MODE` environment variable, when it is set).
pub fn rest_config_files(run_mode: Option<&str>) -> (files: Vec<String>)
    ensures
        texts_view(files@) == spec_rest_config_files(opt_text_view(run_mode)),
{
    let mode = match run_mode {
        Some(m) => m,
        None => "development",
    };
    let mut files = Vec::new();
    files.push(String::from_str("../../config/rest_config.toml"));
    files.push(String::from_str("../../config/rest_config.").concat(mode).concat(".toml"));
    assert(texts_view(files@) =~= spec_rest_config_files(opt_text_view(run_mode)));
    files
}

/// Whatever the run mode, the defaults file comes first and is always
/// `../../config/rest_config.toml`; only the second file names the run
/// mode, `development` when none is set.
pub proof fn lemma_rest_config_files(run_mode: Option<Seq<char>>)
    ensures
        spec_rest_config_files(run_mode).len() == 2,
        spec_rest_config_files(run_mode)[0] == "../../config/rest_config.toml"@,
        run_mode matches Some(m) ==> spec_rest_config_files(run_mode)[1]
            == "../../config/rest_config."@ + m + ".toml"@,
        run_mode is None ==> spec_rest_config_files(run_mode)[1]
            == "../../config/rest_config.development.toml"@,
        spec_rest_config_files(run_mode)[0] == spec_rest_config_files(None)[0],
{
    reveal_strlit("../../config/rest_config.");
    reveal_strlit("development");
    reveal_strlit(".toml");
    reveal_strlit("../../config/rest_config.development.toml");
    assert("../../config/rest_config."@ + "development"@ + ".toml"@
        =~= "../../config/rest_config.development.toml"@);
}

/// The verbosity of the log.
#[derive(Clone, Copy, Debug, PartialEq, Eq, Structural)]
pub enum LogLevel {
    Trace,
    Debug,
    Info,
    Warn,
    Error,
}

/// The level a configured name selects; unknown names select `Info`.
pub open spec fn spec_log_level(name: Seq<char>) -> LogLevel {
    if name == "trace"@ {
        LogLevel::Trace
    } else if name == "debug"@ {
        LogLevel::Debug
    } else if name == "info"@ {
        LogLevel::Info
    } else if name == "warn"@ {
        LogLevel::Warn
    } else if name == "error"@ {
        LogLevel::Error
    } else {
        LogLevel::Info
    }
}

/// Reads the configured log level.
pub fn log_level(name: &str) -> (level: LogLevel)
    ensures
        level == spec_log_level(name@),
{
    if crate::text::same_text(name, "trace") {
        LogLevel::Trace
    } else if crate::text::same_text(name, "debug") {
        LogLevel::Debug
    } else if crate::text::same_text(name, "info") {
        LogLevel::Info
    } else if crate::text::same_text(name, "warn") {
        LogLevel::Warn
    } else if crate::text::same_text(name, "error") {
        LogLevel::Error
    } else {
        LogLevel::Info
    }
}

/// Settings of the command-line tool.
#[derive(Clone, Debug)]
pub struct AppConfig {
    pub log_level: String,
    pub modules_directory: String,
}

/// The configuration file the tool reads when none is named.
pub const DEFAULT_CONFIG_PATH: &'static str = "config.yaml";

/// Subcommands of the tool.
#[derive(Clone, Copy, Debug, PartialEq, Eq, Structural)]
pub enum Command {
    Run,
    Check,
}

/// The characters of a list of log records.
pub open spec fn records_view(records: Seq<(LogLevel, String)>) -> Seq<(LogLevel, Seq<char>)> {
    records.map_values(|r: (LogLevel, String)| (r.0, r.1@))
}

/// What the tool logs once its configuration is loaded: where modules
/// live and the log level, then what the subcommand reports.
pub open spec fn spec_session_log(
    modules_directory: Seq<char>,
    level: Seq<char>,
    command: Option<Command>,
) -> Seq<(LogLevel, Seq<char>)> {
    seq![
        (LogLevel::Info, "Modules directory: "@ + modules_directory),
        (LogLevel::Info, "Log level: "@ + level),
    ] + match command {
        Some(Command::Run) => seq![(LogLevel::Info, "Running application logic"@)],
        Some(Command::Check) => seq![
            (LogLevel::Info, "Checking configuration"@),
            (LogLevel::Trace, "Trace message"@),
            (LogLevel::Debug, "Debug message"@),
            (LogLevel::Info, "Info message"@),
            (LogLevel::Warn, "Warn message"@),
            (LogLevel::Error, "Error message"@),
        ],
        None => seq![(LogLevel::Warn, "No subcommand provided"@)],
    }
}

/// The lines of the session log, without their levels.
pub open spec fn log_lines(records: Seq<(LogLevel, Seq<char>)>) -> Seq<Seq<char>> {
    records.map_values(|r: (LogLevel, Seq<char>)| r.1)
}

/// A session always opens with where modules live and the log level. With
/// no subcommand it then only warns that none was given, three records in
/// all; `Run` adds just "Running application logic", and that line appears
/// in no other session; `Check` logs one line at each level.
pub proof fn lemma_session_log(
    modules_directory: Seq<char>,
    level: Seq<char>,
    command: Option<Command>,
)
    ensures
        spec_session_log(modules_directory, level, command)[0] == (
            LogLevel::Info,
            "Modules directory: "@ + modules_directory,
        ),
        spec_session_log(modules_directory, level, command)[1] == (
            LogLevel::Info,
            "Log level: "@ + level,
        ),
        command is None ==> spec_session_log(modules_directory, level, command) == seq![
            (LogLevel::Info, "Modules directory: "@ + modules_directory),
            (LogLevel::Info, "Log level: "@ + level),
            (LogLevel::Warn, "No subcommand provided"@),
        ],
        command == Some(Command::Run) ==> spec_session_log(modules_directory, level, command).len()
            == 3,
        command == Some(Command::Check) ==> spec_session_log(modules_directory, level, command).len()
            == 8,
        log_lines(spec_session_log(modules_directory, level, command)).contains(
            "Running application logic"@,
        ) <==> command == Some(Command::Run),
{
    let log = spec_session_log(modules_directory, level, command);
    let lines = log_lines(log);
    let running = "Running application logic"@;
    reveal_strlit("Running application logic");
    reveal_strlit("Modules directory: ");
    reveal_strlit("Log level: ");
    reveal_strlit("No subcommand provided");
    reveal_strlit("Checking configuration");
    reveal_strlit("Trace message");
    reveal_strlit("Debug message");
    reveal_strlit("Info message");
    reveal_strlit("Warn message");
    reveal_strlit("Error message");
    assert(("Modules directory: "@ + modules_directory)[0] != running[0]);
    assert(("Log level: "@ + level)[0] != running[0]);
    assert("No subcommand provided"@[0] != running[0]);
    assert("Checking configuration"@[0] != running[0]);
    assert("Trace message"@[0] != running[0]);
    assert("Debug message"@[0] != running[0]);
    assert("Info message"@[0] != running[0]);
    assert("Warn message"@[0] != running[0]);
    assert("Error message"@[0] != running[0]);
    if command == Some(Command::Run) {
        assert(lines[2] == running);
    } else {
        assert forall|i: int| 0 <= i < lines.len() implies lines[i] != running by {
            assert(lines[i][0] != running[0]);
        }
    }
}

fn record(level: LogLevel, text: &str) -> (r: (LogLevel, String))
    ensures
        r.0 == level,
        r.1@ == text@,
{
    (level, String::from_str(text))
}

/// The log records of a session of the tool.
pub fn session_log(config: &AppConfig, command: Option<Command>) -> (records: Vec<
    (LogLevel, String),
>)
    ensures
        records_view(records@) == spec_session_log(
            config.modules_directory@,
            config.log_level@,
            command,
        ),
{
    let mut records = Vec::new();
    records.push(
        (LogLevel::Info, String::from_str("Modules directory: ").concat(config.modules_directory.as_str())),
    );
    records.push((LogLevel::Info, String::from_str("Log level: ").concat(config.log_level.as_str())));
    match command {
        Some(Command::Run) => {
            records.push(record(LogLevel::Info, "Running application logic"));
        },
        Some(Command::Check) => {
            records.push(record(LogLevel::Info, "Checking configuration"));
            records.push(record(LogLevel::Trace, "Trace message"));
            records.push(record(LogLevel::Debug, "Debug message"));
            records.push(record(LogLevel::Info, "Info message"));
            records.push(record(LogLevel::Warn, "Warn message"));
            records.push(record(LogLevel::Error, "Error message"));
        },
        None => {
            records.push(record(LogLevel::Warn, "No subcommand provided"));
        },
    }
    assert(records_view(records@) =~= spec_session_log(
        config.modules_directory@,
        config.log_level@,
        command,
    ));
    records
}

} // verus!
