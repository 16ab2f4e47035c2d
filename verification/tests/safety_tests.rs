use clai::config_file::FileConfig;
use clai::safety::confirmation::{decide_confirmation, format_decision, ConfirmationError, Decision};
use clai::safety::detector::{
    get_matching_pattern, is_dangerous_command, is_dangerous_command_with_regexes,
};
use clai::safety::interactive::{resolve_selection, CommandAction, InteractiveError, Key};
use clai::safety::patterns::{compile_dangerous_regexes, PatternSet};
use clai::safety::prompt::{is_interactive_mode, is_piped_output, should_prompt};
use clai::cli::{Cli, ColorChoice};

fn plain_cli(force: bool) -> Cli {
    Cli {
        instruction: "test instruction".to_string(),
        model: None,
        provider: None,
        quiet: false,
        verbose: 0,
        no_color: false,
        color: ColorChoice::Auto,
        interactive: false,
        force,
        dry_run: false,
        context: None,
        offline: false,
        num_options: 3,
        debug: false,
        debug_file: None,
    }
}

fn is_dangerous_fresh(command: &str, config: &FileConfig) -> bool {
    let regexes = compile_dangerous_regexes(config).unwrap();
    is_dangerous_command_with_regexes(command, &regexes)
}

#[test]
fn test_safe_commands_return_false() {
    let config = FileConfig::default();

    assert!(!is_dangerous_fresh("ls -la", &config));
    assert!(!is_dangerous_fresh("cd /tmp", &config));
    assert!(!is_dangerous_fresh("echo hello", &config));
    assert!(!is_dangerous_fresh("git status", &config));
    assert!(!is_dangerous_fresh("cargo build", &config));
}

#[test]
fn test_dangerous_commands_return_true() {
    let config = FileConfig::default();

    assert!(is_dangerous_fresh("rm -rf /", &config));
    assert!(is_dangerous_fresh("sudo rm -rf /", &config));
    assert!(is_dangerous_fresh("dd if=/dev/zero of=/dev/sda", &config));
}

#[test]
fn test_empty_command_returns_false() {
    let config = FileConfig::default();

    assert!(!is_dangerous_fresh("", &config));
    assert!(!is_dangerous_fresh("   ", &config));
}

#[test]
fn test_is_dangerous_command_with_regexes() {
    let regexes = PatternSet {
        patterns: vec![r"rm\s+-rf".to_string(), r"dd\s+if=".to_string()],
    };

    assert!(is_dangerous_command_with_regexes("rm -rf /", &regexes));
    assert!(is_dangerous_command_with_regexes("dd if=/dev/zero", &regexes));
    assert!(!is_dangerous_command_with_regexes("ls -la", &regexes));
}

#[test]
fn test_get_matching_pattern() {
    let config = FileConfig::default();

    let result = get_matching_pattern("rm -rf /", &config);
    assert!(result.is_some());
    let (index, _pattern) = result.unwrap();
    assert!(index < config.safety.dangerous_patterns.len());

    let result = get_matching_pattern("dd if=/dev/zero of=/dev/sda", &config);
    assert!(result.is_some());

    let result = get_matching_pattern("ls -la", &config);
    assert!(result.is_none());
}

#[test]
fn test_default_patterns_compile() {
    let config = FileConfig::default();
    let regexes = compile_dangerous_regexes(&config).unwrap();
    assert!(!regexes.patterns.is_empty());
}

#[test]
fn test_custom_patterns() {
    let mut config = FileConfig::default();
    config.safety.dangerous_patterns = vec![
        r"dangerous\s+command".to_string(),
        r"test\s+pattern".to_string(),
    ];

    let regexes = compile_dangerous_regexes(&config).unwrap();
    assert_eq!(regexes.patterns.len(), 2);
    assert!(is_dangerous_command_with_regexes("dangerous command", &regexes));
    assert!(is_dangerous_command_with_regexes("test pattern", &regexes));
}

#[test]
fn test_invalid_regex_returns_error() {
    let mut config = FileConfig::default();
    config.safety.dangerous_patterns = vec![
        r"valid\s+pattern".to_string(),
        r"[invalid regex".to_string(),
    ];

    let result = compile_dangerous_regexes(&config);
    assert!(result.is_err());
    let err = result.unwrap_err();
    assert_eq!(err.index, 1);
    assert_eq!(err.pattern, "[invalid regex");
}

#[test]
fn test_invalid_pattern_is_fail_safe() {
    // An invalid user pattern makes the detector classify any command as
    // dangerous rather than passing it through unchecked.
    let mut config = FileConfig::default();
    config.safety.dangerous_patterns = vec!["[broken".to_string()];

    assert!(is_dangerous_command("ls -la", &config));
    assert!(is_dangerous_command("echo hello", &config));
    assert!(is_dangerous_command("", &config));
}

#[test]
fn test_empty_patterns_uses_defaults() {
    let mut config = FileConfig::default();
    config.safety.dangerous_patterns = vec![];

    let regexes = compile_dangerous_regexes(&config).unwrap();
    assert!(!regexes.patterns.is_empty());
    assert_eq!(regexes.patterns.len(), 8);
}

#[test]
fn test_safe_commands_dont_match() {
    let config = FileConfig::default();

    assert!(!is_dangerous_command("ls -la", &config));
    assert!(!is_dangerous_command("cd /tmp", &config));
    assert!(!is_dangerous_command("echo hello", &config));
    assert!(!is_dangerous_command("git status", &config));
}

#[test]
fn test_format_decision() {
    assert_eq!(format_decision(Decision::Execute), "Execute");
    assert_eq!(format_decision(Decision::Copy), "Copy");
    assert_eq!(format_decision(Decision::Abort), "Abort");
}

#[test]
fn test_confirmation_error_display() {
    let eof = ConfirmationError::Eof;
    assert!(eof.message().contains("EOF"));

    let invalid = ConfirmationError::InvalidInput("X".to_string());
    assert!(invalid.message().contains("Invalid input"));
    assert!(invalid.message().contains("X"));

    let io_err = ConfirmationError::IoError("test error".to_string());
    assert!(io_err.message().contains("I/O error"));
    assert!(io_err.message().contains("test error"));
}

#[test]
fn test_decide_confirmation() {
    assert_eq!(decide_confirmation(None), Ok(Decision::Abort));
    assert_eq!(decide_confirmation(Some("")), Ok(Decision::Abort));
    assert_eq!(decide_confirmation(Some("  \n")), Ok(Decision::Abort));
    assert_eq!(decide_confirmation(Some("e")), Ok(Decision::Execute));
    assert_eq!(decide_confirmation(Some("E xecute")), Ok(Decision::Execute));
    assert_eq!(decide_confirmation(Some("c\n")), Ok(Decision::Copy));
    assert_eq!(decide_confirmation(Some("A")), Ok(Decision::Abort));
    assert_eq!(
        decide_confirmation(Some(" x ")),
        Err(ConfirmationError::InvalidInput("x".to_string()))
    );
}

#[test]
fn test_should_prompt_requires_tty() {
    let cli = plain_cli(false);
    let mut config = FileConfig::default();
    config.safety.confirm_dangerous = true;

    assert!(should_prompt(&cli, &config, true, true));
    assert!(!should_prompt(&cli, &config, false, true));
    assert!(!should_prompt(&cli, &config, true, false));
}

#[test]
fn test_should_prompt_respects_force_flag() {
    let cli_forced = plain_cli(true);
    let cli_not_forced = plain_cli(false);
    let mut config = FileConfig::default();
    config.safety.confirm_dangerous = true;

    assert!(!should_prompt(&cli_forced, &config, true, true));
    assert!(should_prompt(&cli_not_forced, &config, true, true));
}

#[test]
fn test_should_prompt_respects_config() {
    let cli = plain_cli(false);
    let mut config_enabled = FileConfig::default();
    config_enabled.safety.confirm_dangerous = true;

    let mut config_disabled = FileConfig::default();
    config_disabled.safety.confirm_dangerous = false;

    assert!(!should_prompt(&cli, &config_disabled, true, true));
    assert!(should_prompt(&cli, &config_enabled, true, true));
}

#[test]
fn test_is_interactive_mode() {
    assert!(is_interactive_mode(true, true));
    assert!(!is_interactive_mode(true, false));
    assert!(!is_interactive_mode(false, true));
}

#[test]
fn test_is_piped_output() {
    assert!(is_piped_output(false));
    assert!(!is_piped_output(true));
}

#[test]
fn test_empty_commands_returns_error() {
    let commands: Vec<String> = vec![];
    let result = resolve_selection(&commands, true, &vec![]);

    assert!(result.is_err());
    match result {
        Err(InteractiveError::NoCommands) => (),
        _ => panic!("Expected NoCommands error"),
    }
}

#[test]
fn test_selection_no_tty_outputs_first() {
    // Without a terminal on stderr the selection prompt degrades to
    // outputting the first candidate, never to execution.
    let commands = vec!["ls -la".to_string(), "ls -lah".to_string()];
    let result = resolve_selection(&commands, false, &vec![Key::Enter]);
    assert_eq!(result, Ok((CommandAction::Output, "ls -la".to_string())));
}

#[test]
fn test_selection_tab_cycles() {
    let commands = vec!["a".to_string(), "b".to_string(), "c".to_string()];
    let result = resolve_selection(&commands, true, &vec![Key::Tab, Key::Enter]);
    assert_eq!(result, Ok((CommandAction::Execute, "b".to_string())));

    let wrapped = resolve_selection(
        &commands,
        true,
        &vec![Key::Tab, Key::Tab, Key::Tab, Key::Enter],
    );
    assert_eq!(wrapped, Ok((CommandAction::Execute, "a".to_string())));
}

#[test]
fn test_selection_escape_aborts() {
    let commands = vec!["a".to_string()];
    let result = resolve_selection(&commands, true, &vec![Key::Other, Key::Esc]);
    assert_eq!(result, Ok((CommandAction::Abort, String::new())));

    let ctrl_c = resolve_selection(&commands, true, &vec![Key::CtrlC]);
    assert_eq!(ctrl_c, Ok((CommandAction::Abort, String::new())));
}

#[test]
fn test_default_patterns_match_rm_rf() {
    let config = FileConfig::default();
    let regexes = compile_dangerous_regexes(&config).unwrap();

    assert!(is_dangerous_command_with_regexes("rm -rf /", &regexes));
    assert!(is_dangerous_command_with_regexes("sudo rm -rf /", &regexes));
    assert!(is_dangerous_command_with_regexes("dd if=/dev/zero of=/dev/sda", &regexes));
}

#[test]
fn test_compile_dangerous_regexes_no_match() {
    let config = FileConfig::default();
    let regexes = compile_dangerous_regexes(&config).unwrap();

    assert!(!is_dangerous_command_with_regexes("ls -la", &regexes));
}

#[test]
fn test_whitespace_handling() {
    let regexes = PatternSet { patterns: vec![r"rm\s+-rf\s+/".to_string()] };

    assert!(is_dangerous_command_with_regexes("rm -rf /", &regexes));
    assert!(is_dangerous_command_with_regexes("rm   -rf   /", &regexes));

    let trimmed = "  rm -rf /  ".trim();
    assert!(is_dangerous_command_with_regexes(trimmed, &regexes));
}

#[test]
fn test_regex_matching_indices() {
    let regexes = vec![
        regex::Regex::new(r"rm\s+-rf").unwrap(),
        regex::Regex::new(r"dd\s+if=").unwrap(),
    ];

    let matched = regexes
        .iter()
        .enumerate()
        .find(|(_, r)| r.is_match("rm -rf /"));
    assert!(matched.is_some());
    assert_eq!(matched.unwrap().0, 0);

    let matched = regexes
        .iter()
        .enumerate()
        .find(|(_, r)| r.is_match("dd if=/dev/zero"));
    assert!(matched.is_some());
    assert_eq!(matched.unwrap().0, 1);
}

#[test]
fn test_decide_confirmation_unicode_whitespace() {
    // The reply is trimmed with the Unicode whitespace set: a leading
    // non-breaking space does not hide the answer.
    assert_eq!(decide_confirmation(Some("\u{00A0}e")), Ok(Decision::Execute));
    assert_eq!(decide_confirmation(Some("\u{2003}\u{00A0}")), Ok(Decision::Abort));
}
