use clai::cli::{Cli, ColorChoice};
use clai::color::{color_mode_from_config, detect_color_auto, ColorMode};
use clai::config::Config;
use clai::error::ClaiError;
use clai::loader::ConfigLoadError;
use clai::locale::{get_language_code, is_c_locale};
use clai::logging::{days_to_ymd, format_log, iso8601_timestamp, level_str, LogLevel, Logger};
use clai::output::{format_config_debug, format_output};
use clai::signals::{is_interactive, is_piped, ExitCode};

fn plain_config(instruction: &str) -> Config {
    Config::from_cli(Cli {
        instruction: instruction.to_string(),
        model: None,
        provider: None,
        quiet: false,
        verbose: 0,
        no_color: false,
        color: ColorChoice::Auto,
        interactive: false,
        force: false,
        dry_run: false,
        context: None,
        offline: false,
        num_options: 3,
        debug: false,
        debug_file: None,
    })
}

#[test]
fn test_log_level_from_verbose_count() {
    assert_eq!(LogLevel::from_verbose_count(0), LogLevel::Warning);
    assert_eq!(LogLevel::from_verbose_count(1), LogLevel::Info);
    assert_eq!(LogLevel::from_verbose_count(2), LogLevel::Debug);
    assert_eq!(LogLevel::from_verbose_count(3), LogLevel::Trace);
}

#[test]
fn test_log_level_ordering() {
    assert!(LogLevel::Error < LogLevel::Warning);
    assert!(LogLevel::Warning < LogLevel::Info);
    assert!(LogLevel::Info < LogLevel::Debug);
    assert!(LogLevel::Debug < LogLevel::Trace);
}

#[test]
fn test_format_log_pure() {
    let message = "test message";
    let formatted1 = format_log(LogLevel::Error, message, ColorMode::Never, false);
    let formatted2 = format_log(LogLevel::Error, message, ColorMode::Never, false);

    assert_eq!(formatted1, formatted2);
    assert!(formatted1.contains("ERROR"));
    assert!(formatted1.contains(message));
}

#[test]
fn test_logger_should_log() {
    let logger = Logger {
        level: LogLevel::Info,
        color_mode: ColorMode::Never,
        auto_color: false,
    };

    assert!(logger.should_log(LogLevel::Error));
    assert!(logger.should_log(LogLevel::Warning));
    assert!(logger.should_log(LogLevel::Info));
    assert!(!logger.should_log(LogLevel::Debug));
    assert!(!logger.should_log(LogLevel::Trace));
}

#[test]
fn test_logger_lines() {
    let logger = Logger {
        level: LogLevel::Warning,
        color_mode: ColorMode::Never,
        auto_color: false,
    };
    assert_eq!(logger.warn("careful"), Some("WARN: careful".to_string()));
    assert_eq!(logger.error("bad"), Some("ERROR: bad".to_string()));
    assert_eq!(logger.info("detail"), None);
    assert_eq!(logger.debug("more"), None);
    assert_eq!(logger.trace("most"), None);
    assert_eq!(
        logger.log(LogLevel::Warning, "x"),
        logger.warn("x")
    );
    assert_eq!(
        logger.format_message(LogLevel::Error, "boom"),
        "ERROR: boom"
    );
}

#[test]
fn test_logger_from_config() {
    let mut config = plain_config("x");
    config.quiet = true;
    let logger = Logger::from_config(&config, false);
    assert_eq!(logger.level, LogLevel::Error);
}

#[test]
fn test_color_mode_always() {
    assert_eq!(ColorMode::Always.should_use_color(false), true);
}

#[test]
fn test_color_mode_never() {
    assert_eq!(ColorMode::Never.should_use_color(true), false);
}

#[test]
fn test_color_mode_from_config() {
    let mut config_no_color = plain_config("test");
    config_no_color.no_color = true;

    let config_with_color = plain_config("test");

    let mut config_always = plain_config("test");
    config_always.color = ColorChoice::Always;

    assert_eq!(color_mode_from_config(&config_no_color), ColorMode::Never);
    assert_eq!(color_mode_from_config(&config_with_color), ColorMode::Auto);
    assert_eq!(color_mode_from_config(&config_always), ColorMode::Always);
}

#[test]
fn test_detect_color_auto_clicolor() {
    assert_eq!(detect_color_auto(Some("0"), false, None, true), false);
    assert_eq!(detect_color_auto(Some("1"), true, Some("dumb"), false), true);
    assert_eq!(detect_color_auto(None, true, None, true), false);
    assert_eq!(detect_color_auto(None, false, Some("dumb"), true), false);
    assert_eq!(detect_color_auto(None, false, Some("xterm"), true), true);
    assert_eq!(detect_color_auto(None, false, None, false), false);
}

#[test]
fn test_iso8601_timestamp_format() {
    let ts = iso8601_timestamp(1_700_000_000, 123);
    assert!(ts.ends_with('Z'));
    assert!(ts.contains('T'));
    assert_eq!(ts.len(), 24);
}

#[test]
fn test_iso8601_timestamp_exact() {
    assert_eq!(iso8601_timestamp(0, 0), "1970-01-01T00:00:00.000Z");
    assert_eq!(iso8601_timestamp(1_700_000_000, 123), "2023-11-14T22:13:20.123Z");
}

#[test]
fn test_days_to_ymd() {
    assert_eq!(days_to_ymd(0), (1970, 1, 1));
    assert_eq!(days_to_ymd(365), (1971, 1, 1));
    // 2024-02-29: 19782 days after the epoch.
    assert_eq!(days_to_ymd(19782), (2024, 2, 29));
    // 2000-03-01, the day after the leap day of a century leap year.
    assert_eq!(days_to_ymd(11017), (2000, 3, 1));
}

#[test]
fn test_level_str() {
    assert_eq!(level_str(LogLevel::Error), "ERROR");
    assert_eq!(level_str(LogLevel::Warning), "WARN");
    assert_eq!(level_str(LogLevel::Info), "INFO");
    assert_eq!(level_str(LogLevel::Debug), "DEBUG");
    assert_eq!(level_str(LogLevel::Trace), "TRACE");
}

#[test]
fn test_format_output_pure() {
    let config = plain_config("test instruction");

    let output = format_output(&config);
    assert_eq!(output, "Command would be generated for: test instruction");

    let output2 = format_output(&config);
    assert_eq!(output, output2);
}

#[test]
fn test_format_config_debug_pure() {
    let mut config = plain_config("debug test");
    config.model = Some("model".to_string());
    config.quiet = true;
    config.verbose = 1;
    config.no_color = true;

    let debug = format_config_debug(&config);
    assert!(debug.contains("debug test"));
    assert!(debug.contains("model"));

    let debug2 = format_config_debug(&config);
    assert_eq!(debug, debug2);
}

#[test]
fn test_exit_codes() {
    assert_eq!(ClaiError::General("test".to_string()).exit_code(), 1);
    assert_eq!(ClaiError::Usage("test".to_string()).exit_code(), 2);
    assert_eq!(
        ClaiError::Config(ConfigLoadError::ReadError("test".to_string())).exit_code(),
        3
    );
    assert_eq!(
        ClaiError::API { message: "test".to_string(), status_code: None }.exit_code(),
        4
    );
    assert_eq!(ClaiError::Safety("test".to_string()).exit_code(), 5);
}

#[test]
fn test_error_display() {
    let err = ClaiError::Usage("Missing required argument".to_string());
    let display = err.message();
    assert!(display.contains("Usage error"));
    assert!(display.contains("Missing required argument"));
}

#[test]
fn test_config_error_conversion() {
    let config_err = ConfigLoadError::NotFound("/nonexistent".to_string());
    let clai_err: ClaiError = config_err.into();
    assert_eq!(clai_err.exit_code(), 3);
}

#[test]
fn test_config_load_error_messages() {
    assert!(ConfigLoadError::NotFound("/x".to_string()).message().contains("not found"));
    assert!(ConfigLoadError::InsecurePermissions("/x".to_string())
        .message()
        .contains("insecure permissions"));
    assert!(ConfigLoadError::ReadError("/x".to_string()).message().contains("read"));
    assert!(ConfigLoadError::ParseError("bad".to_string()).message().contains("TOML"));
    assert!(ConfigLoadError::PermissionCheckError("/x".to_string())
        .message()
        .contains("permissions"));
}

#[test]
fn test_exit_code_values() {
    assert_eq!(ExitCode::Success.as_i32(), 0);
    assert_eq!(ExitCode::InvalidArgs.as_i32(), 2);
    assert_eq!(ExitCode::Interrupted.as_i32(), 130);
    assert_eq!(ExitCode::GeneralError.as_i32(), 1);
    assert_eq!(ExitCode::Aborted.as_i32(), 5);
}

#[test]
fn test_is_interactive_pure() {
    assert_eq!(is_interactive(true, true), is_interactive(true, true));
    assert!(is_interactive(true, true));
    assert!(!is_interactive(false, true));
}

#[test]
fn test_is_piped_pure() {
    assert_eq!(is_piped(false), is_piped(false));
    assert!(is_piped(false));
    assert!(!is_piped(true));
}

#[test]
fn test_get_language_code() {
    assert_eq!(get_language_code("en_US.UTF-8"), "en");
    assert_eq!(get_language_code("fr_FR"), "fr");
    assert_eq!(get_language_code("C"), "C");
}

#[test]
fn test_is_c_locale() {
    assert_eq!(is_c_locale("C"), true);
    assert_eq!(is_c_locale("POSIX"), true);
    assert_eq!(is_c_locale("en_US.UTF-8"), false);
}
