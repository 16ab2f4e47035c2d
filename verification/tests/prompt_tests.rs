use clai::prompt::{
    append_stdin_section, build_chat_request, build_multi_chat_request, build_prompt,
    extract_command, extract_commands,
};
use clai::chat::Role;

#[test]
fn test_extract_command_with_bash_fence() {
    let response = "```bash\nls -la\n```";
    let command = extract_command(response);
    assert_eq!(command, "ls -la");
}

#[test]
fn test_extract_command_with_sh_fence() {
    let response = "```sh\ncd /tmp\n```";
    let command = extract_command(response);
    assert_eq!(command, "cd /tmp");
}

#[test]
fn test_extract_command_with_shell_fence() {
    let response = "```shell\ngrep -r \"test\" .\n```";
    let command = extract_command(response);
    assert_eq!(command.trim(), "grep -r \"test\" .");
}

#[test]
fn test_extract_command_with_no_lang_fence() {
    let response = "```\nfind . -name '*.rs'\n```";
    let command = extract_command(response);
    assert_eq!(command, "find . -name '*.rs'");
}

#[test]
fn test_extract_command_multi_line() {
    let response = "```bash\nfor i in {1..10}; do\n  echo $i\ndone\n```";
    let command = extract_command(response);
    assert_eq!(command, "for i in {1..10}; do\n  echo $i\ndone");
}

#[test]
fn test_extract_command_no_fence() {
    let response = "ls -la";
    let command = extract_command(response);
    assert_eq!(command, "ls -la");
}

#[test]
fn test_extract_command_with_explanation() {
    let response = "Here's the command:\n```bash\nls -la\n```\nThis will list all files.";
    let command = extract_command(response);
    assert_eq!(command, "ls -la");
}

#[test]
fn test_extract_command_empty() {
    let response = "";
    let command = extract_command(response);
    assert_eq!(command, "");
}

#[test]
fn test_extract_command_whitespace() {
    let response = "```bash\n  ls -la  \n```";
    let command = extract_command(response);
    assert_eq!(command, "ls -la");
}

#[test]
fn test_build_prompt() {
    let system = r#"{"os_name": "Linux"}"#;
    let dir = r#"{"files": ["file1.txt"]}"#;
    let history = vec!["ls -la".to_string(), "cd /tmp".to_string()];
    let instruction = "list python files";

    let prompt = build_prompt(system, dir, &history, instruction);

    assert!(prompt.contains("System Context:"));
    assert!(prompt.contains("Directory Context:"));
    assert!(prompt.contains("Recent Shell History:"));
    assert!(prompt.contains("list python files"));
    assert!(prompt.contains("Respond ONLY with the executable command"));
}

#[test]
fn test_build_prompt_no_history() {
    let system = r#"{"os_name": "Linux"}"#;
    let dir = r#"{"files": []}"#;
    let history = vec![];
    let instruction = "test";

    let prompt = build_prompt(system, dir, &history, instruction);

    assert!(!prompt.contains("Recent Shell History:"));
}

#[test]
fn test_build_prompt_numbers_history() {
    let history = vec!["first".to_string(), "second".to_string()];
    let prompt = build_prompt("sys", "dir", &history, "go");
    assert!(prompt.contains("  1. first\n"));
    assert!(prompt.contains("  2. second\n"));
}

#[test]
fn test_build_chat_request() {
    let prompt = "test prompt".to_string();
    let request = build_chat_request(prompt.clone(), Some("gpt-4".to_string()));

    assert_eq!(request.messages.len(), 2);
    assert_eq!(request.messages[0].role, Role::System);
    assert_eq!(request.messages[1].role, Role::User);
    assert_eq!(request.messages[1].content, prompt);
    assert_eq!(request.model, Some("gpt-4".to_string()));
}

#[test]
fn test_build_chat_request_no_model() {
    let prompt = "test".to_string();
    let request = build_chat_request(prompt, None);

    assert_eq!(request.model, None);
}

#[test]
fn test_build_multi_chat_request() {
    let prompt = "list files".to_string();
    let request = build_multi_chat_request(prompt.clone(), 3, Some("gpt-4".to_string()));

    assert_eq!(request.messages.len(), 2);
    assert_eq!(request.messages[0].role, Role::System);
    assert!(request.messages[0].content.contains("3 different command options"));
    assert!(request.messages[0].content.contains("JSON"));
    assert_eq!(request.messages[1].content, prompt);
}

#[test]
fn test_extract_commands_valid_json() {
    let response = r#"{"commands": ["ls -la", "ls -lah", "ls -l --color"]}"#;
    let result = extract_commands(response);
    assert!(result.is_ok());
    let commands = result.unwrap();
    assert_eq!(commands.len(), 3);
    assert_eq!(commands[0], "ls -la");
    assert_eq!(commands[1], "ls -lah");
    assert_eq!(commands[2], "ls -l --color");
}

#[test]
fn test_extract_commands_with_markdown() {
    let response = "```json\n{\"commands\": [\"ls -la\", \"ls -lah\"]}\n```";
    let result = extract_commands(response);
    assert!(result.is_ok());
    let commands = result.unwrap();
    assert_eq!(commands.len(), 2);
}

#[test]
fn test_extract_commands_array_only() {
    let response = r#"["ls -la", "ls -lah"]"#;
    let result = extract_commands(response);
    assert!(result.is_ok());
    let commands = result.unwrap();
    assert_eq!(commands.len(), 2);
}

#[test]
fn test_extract_commands_fallback_single() {
    let response = "ls -la";
    let result = extract_commands(response);
    assert!(result.is_ok());
    let commands = result.unwrap();
    assert_eq!(commands.len(), 1);
    assert_eq!(commands[0], "ls -la");
}

#[test]
fn test_extract_commands_empty_array() {
    let response = r#"{"commands": []}"#;
    let result = extract_commands(response);
    assert!(result.is_err());
}

#[test]
fn test_extract_commands_json_in_text() {
    let response = r#"Here's the response: {"commands": ["ls -la", "dir"]} Hope this helps!"#;
    let result = extract_commands(response);
    assert!(result.is_ok());
    let commands = result.unwrap();
    assert_eq!(commands.len(), 2);
}

#[test]
fn test_extract_commands_trims_whitespace() {
    let response = r#"{"commands": ["  ls -la  ", "  ls -lah  "]}"#;
    let result = extract_commands(response);
    assert!(result.is_ok());
    let commands = result.unwrap();
    assert_eq!(commands[0], "ls -la");
    assert_eq!(commands[1], "ls -lah");
}

#[test]
fn test_extract_commands_all_blank_is_error() {
    let response = r#"{"commands": ["   ", ""]}"#;
    let result = extract_commands(response);
    assert!(result.is_err());
    assert_eq!(result.unwrap_err(), "All commands in AI response were empty");
}

#[test]
fn test_extract_commands_garbage_error_names_reply() {
    // Whitespace-only input: every strategy fails and the error carries
    // the raw (trimmed) reply.
    let result = extract_commands("   ");
    assert!(result.is_err());
    let e = result.unwrap_err();
    assert!(e.contains("Failed to parse AI response as JSON"));
}

#[test]
fn test_parser_idempotent() {
    let single = "```bash\nls -la\n```";
    assert_eq!(extract_command(single), extract_command(single));
    let multi = r#"{"commands": ["a", "b"]}"#;
    assert_eq!(extract_commands(multi), extract_commands(multi));
}

#[test]
fn test_extract_command_unicode_whitespace() {
    // Trimming and the fence header follow the Unicode whitespace set, as
    // `str::trim` and the regex class `\s` do.
    let fenced = "```bash\u{00A0}\nls -la\n```";
    assert_eq!(extract_command(fenced), "ls -la");
    assert_eq!(extract_command("\u{00A0}ls -la\u{2003}"), "ls -la");
}

#[test]
fn test_append_stdin_section() {
    assert_eq!(
        append_stdin_section("prompt".to_string(), Some("piped")),
        "prompt\n\nStdin input: piped"
    );
    assert_eq!(append_stdin_section("prompt".to_string(), Some("")), "prompt");
    assert_eq!(append_stdin_section("prompt".to_string(), None), "prompt");
}
