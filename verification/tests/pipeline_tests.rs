//! End-to-end runs of the pipeline's verified pieces composed as the
//! surrounding program composes them.

use clai::cli::{Cli, ColorChoice};
use clai::config::Config;
use clai::config_file::FileConfig;
use clai::context::{
    format_dir_context, format_system_context, format_system_info, truncate_path, SystemInfo,
};
use clai::error::ClaiError;
use clai::handler::{
    execution_result, pipeline_route, plan_after_danger_prompt, plan_after_selection, CommandPlan,
    PipelineRoute,
};
use clai::output::format_command_output;
use clai::prompt::extract_command;
use clai::safety::confirmation::decide_confirmation;
use clai::safety::detector::is_dangerous_command;
use clai::safety::interactive::{CommandAction, InteractiveError};
use clai::safety::patterns::{get_dangerous_regexes, reset_regex_cache, RegexCache};

fn plain_config(instruction: &str) -> Config {
    Config::from_cli(Cli {
        instruction: instruction.to_string(),
        model: None,
        provider: None,
        quiet: false,
        verbose: 0,
        no_color: false,
        color: ColorChoice::Auto,
        interactive: false,
        force: false,
        dry_run: false,
        context: None,
        offline: false,
        num_options: 1,
        debug: false,
        debug_file: None,
    })
}

#[test]
fn test_end_to_end_safe_command() {
    // Instruction "list files": the model replies with a fenced command;
    // the pipeline emits `ls -la` and succeeds.
    let config = plain_config("list files");
    let file_config = FileConfig::default();

    let reply = "```bash\nls -la\n```";
    let command = extract_command(reply);
    assert_eq!(command, "ls -la");

    let dangerous = is_dangerous_command(&command, &file_config);
    assert!(!dangerous);

    let route = pipeline_route(&config, &file_config, dangerous, false, false);
    assert_eq!(route, PipelineRoute::DirectEmit);

    // Piped output: the command, trimmed, with no trailing newline.
    assert_eq!(format_command_output(&command, false), "ls -la");
    assert_eq!(format_command_output(&command, true), "ls -la\n");
}

#[test]
fn test_end_to_end_dangerous_command_aborted() {
    // The model replies with a dangerous command; confirmation is on and
    // a terminal is attached; the user enters A: the pipeline reports a
    // safety error with its dedicated exit code, and nothing is executed.
    let config = plain_config("list files");
    let file_config = FileConfig::default();

    let command = extract_command("rm -rf /");
    assert_eq!(command, "rm -rf /");

    let dangerous = is_dangerous_command(&command, &file_config);
    assert!(dangerous);

    let route = pipeline_route(&config, &file_config, dangerous, true, true);
    assert_eq!(route, PipelineRoute::DangerPrompt);

    let decision = decide_confirmation(Some("A\n"));
    let plan = plan_after_danger_prompt(&command, decision);
    match plan {
        CommandPlan::Fail(e) => {
            assert_eq!(e.exit_code(), 5);
            assert!(e.message().contains("Safety error"));
        }
        other => panic!("expected a safety failure, got {:?}", other),
    }
}

#[test]
fn test_dangerous_command_piped_is_emitted() {
    // Piped output (no terminal): the safety gate defers to the pipe and
    // the dangerous command is emitted rather than prompted.
    let config = plain_config("x");
    let file_config = FileConfig::default();
    let route = pipeline_route(&config, &file_config, true, false, false);
    assert_eq!(route, PipelineRoute::DirectEmit);
}

#[test]
fn test_force_skips_danger_prompt() {
    let mut config = plain_config("x");
    config.force = true;
    let file_config = FileConfig::default();
    let route = pipeline_route(&config, &file_config, true, true, true);
    assert_eq!(route, PipelineRoute::DirectEmit);
}

#[test]
fn test_dry_run_route() {
    let mut config = plain_config("x");
    config.dry_run = true;
    let file_config = FileConfig::default();
    let route = pipeline_route(&config, &file_config, true, true, true);
    assert_eq!(route, PipelineRoute::DryRun);
}

#[test]
fn test_interactive_route() {
    let mut config = plain_config("x");
    config.interactive = true;
    let file_config = FileConfig::default();
    assert_eq!(
        pipeline_route(&config, &file_config, false, true, true),
        PipelineRoute::SelectionPrompt
    );
    assert_eq!(
        pipeline_route(&config, &file_config, false, false, true),
        PipelineRoute::DirectEmit
    );
}

#[test]
fn test_danger_prompt_execute_prints() {
    let plan = plan_after_danger_prompt("rm -rf /", decide_confirmation(Some("e")));
    assert_eq!(plan, CommandPlan::Print("rm -rf /".to_string()));
    let plan = plan_after_danger_prompt("rm -rf /", decide_confirmation(Some("C")));
    assert_eq!(plan, CommandPlan::Print("rm -rf /".to_string()));
}

#[test]
fn test_danger_prompt_eof_rejects() {
    // End of input during a danger prompt resolves to abort: the command
    // is rejected as a safety error.
    let plan = plan_after_danger_prompt("rm -rf /", decide_confirmation(None));
    match plan {
        CommandPlan::Fail(ClaiError::Safety(m)) => {
            assert_eq!(m, "Command rejected by user");
        }
        other => panic!("expected safety rejection, got {:?}", other),
    }
}

#[test]
fn test_selection_outcomes_resolve() {
    let run = plan_after_selection("first", Ok((CommandAction::Execute, "picked".to_string())));
    assert_eq!(run, CommandPlan::Run("picked".to_string()));

    let print = plan_after_selection("first", Ok((CommandAction::Output, "picked".to_string())));
    assert_eq!(print, CommandPlan::Print("picked".to_string()));

    let abort = plan_after_selection("first", Ok((CommandAction::Abort, String::new())));
    match abort {
        CommandPlan::Fail(ClaiError::Safety(_)) => {}
        other => panic!("expected safety rejection, got {:?}", other),
    }

    let degraded = plan_after_selection("first", Err(InteractiveError::NotTty));
    match degraded {
        CommandPlan::PrintWithWarning(warning, cmd) => {
            assert_eq!(cmd, "first");
            assert!(warning.contains("Not a TTY"));
        }
        other => panic!("expected degraded output, got {:?}", other),
    }
}

#[test]
fn test_execution_result_codes() {
    assert!(execution_result(0).is_ok());
    match execution_result(7) {
        Err(ClaiError::General(m)) => assert_eq!(m, "Command exited with code 7"),
        other => panic!("expected general error, got {:?}", other),
    }
}

#[test]
fn test_regex_cache_compiles_once() {
    let mut cache = RegexCache::new();
    let config = FileConfig::default();
    get_dangerous_regexes(&mut cache, &config);
    assert!(cache.compiled.is_some());
    let first = format!("{:?}", cache.compiled);
    get_dangerous_regexes(&mut cache, &config);
    assert_eq!(format!("{:?}", cache.compiled), first);
    reset_regex_cache(&mut cache);
    assert!(cache.compiled.is_none());
}

#[test]
fn test_format_system_info() {
    let info = SystemInfo {
        os_name: "Linux".to_string(),
        os_version: "5.15.0".to_string(),
        architecture: "x86_64".to_string(),
        shell: "bash".to_string(),
        user: "testuser".to_string(),
        total_memory: 8 * 1024 * 1024 * 1024,
    };

    let formatted = format_system_info(&info);
    let get = |key: &str| {
        formatted
            .iter()
            .find(|(k, _)| k == key)
            .map(|(_, v)| v.clone())
    };

    assert_eq!(get("os_name"), Some("Linux".to_string()));
    assert_eq!(get("os_version"), Some("5.15.0".to_string()));
    assert_eq!(get("architecture"), Some("x86_64".to_string()));
    assert_eq!(get("shell"), Some("bash".to_string()));
    assert_eq!(get("user"), Some("testuser".to_string()));
    assert_eq!(get("total_memory_mb"), Some("8192".to_string()));
}

#[test]
fn test_format_system_info_pure() {
    let info = SystemInfo {
        os_name: "Test".to_string(),
        os_version: "1.0".to_string(),
        architecture: "test".to_string(),
        shell: "test".to_string(),
        user: "test".to_string(),
        total_memory: 1024,
    };

    let formatted1 = format_system_info(&info);
    let formatted2 = format_system_info(&info);

    assert_eq!(formatted1, formatted2);
}

#[test]
fn test_truncate_path_short() {
    let path = "short/path";
    assert_eq!(truncate_path(path, 80), "short/path");
}

#[test]
fn test_truncate_path_long() {
    let long_path =
        "/very/long/path/that/exceeds/eighty/characters/and/should/be/truncated/to/basename";
    let truncated = truncate_path(long_path, 80);
    assert!(truncated.len() <= 80);
    assert_eq!(truncated, "basename");
}

#[test]
fn test_redact_path_home_prefix() {
    let redacted = clai::context::redact_path("/home/u/test/file", Some("/home/u"), Some("u"));
    assert_eq!(redacted, "[REDACTED]/test/file");
}

#[test]
fn test_redact_path_tilde() {
    let redacted = clai::context::redact_path("~/test/file", None, None);
    assert_eq!(redacted, "[REDACTED]/test/file");
    assert_eq!(clai::context::redact_path("~", None, None), "[REDACTED]");
}

#[test]
fn test_redact_path_user_component() {
    // Every occurrence of the user's home component is replaced, wherever
    // it stands in the path.
    let redacted = clai::context::redact_path(
        "/var/backup/home/u/file:/home/u/other",
        None,
        Some("u"),
    );
    assert_eq!(redacted, "/var/backup[REDACTED]/file:[REDACTED]/other");
}

#[test]
fn test_redact_path_pure() {
    let path = "~/test/file";
    let r1 = clai::context::redact_path(path, Some("/home/u"), Some("u"));
    let r2 = clai::context::redact_path(path, Some("/home/u"), Some("u"));
    assert_eq!(r1, r2);
}

#[test]
fn test_format_dir_context() {
    assert_eq!(format_dir_context("/tmp/work", 4), "Current directory: /tmp/work\nFiles: 4");
}

#[test]
fn test_format_system_context() {
    let pairs = vec![
        ("os_name".to_string(), "Linux".to_string()),
        ("shell".to_string(), "bash".to_string()),
    ];
    assert_eq!(format_system_context(&pairs), "os_name: Linux, shell: bash");
    assert_eq!(format_system_context(&Vec::new()), "");
}
