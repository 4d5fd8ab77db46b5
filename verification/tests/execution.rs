use j3devhelper::command_line::{
    argument_token_execution_value, command_line_from_executable_and_arguments,
    external_terminal_parameters_for_command, quote_cmd_command_argument,
    quote_windows_command_argument, requires_cmd_escape, requires_windows_command_quote,
    ArgumentToken, ExecutionType,
};
use j3devhelper::execution::{
    command_processor_path_from, command_workspace_error, prepare_shell_execute_open,
    redacted_shell_execute_failure_value, reject_shell_execute_interior_nul,
    shell_execute_error_message_for_language, shell_execute_failure_value_display,
    shell_execute_open_failure, shell_execute_succeeded, ArgumentResolutionError,
    CommandExecutionError, SHELL_EXECUTE_FIELD_EMPTY, SHELL_EXECUTE_FIELD_NOT_PROVIDED,
    SHELL_EXECUTE_FIELD_REDACTED,
};
use j3devhelper::language::UiLanguage;
use j3devhelper::model::{CommandButton, DomainValidationError, Workspace};

#[test]
fn shell_execute_failed_display_redacts_command_values() {
    let error = CommandExecutionError::ShellExecuteFailed {
        result_code: 2,
        last_error_code: 5,
        executable_path: r"C:\secret\tool.exe".to_owned(),
        arguments: "--token super-secret".to_owned(),
        directory: Some(r"C:\secret\workspace".to_owned()),
    };

    let message = error.display_text();

    assert!(message.contains("executable_path=<redacted>"));
    assert!(message.contains("arguments=<redacted>"));
    assert!(message.contains("directory=<redacted>"));
    assert!(!message.contains("super-secret"));
    assert!(!message.contains("secret\\"));
}

#[test]
fn command_execution_user_message_keeps_korean_default_and_uses_requested_language() {
    let error = CommandExecutionError::MissingWorkspaceForExternalTerminal;

    assert_eq!(error.user_message(), "워크스페이스를 선택하세요.");
    assert_eq!(
        error.user_message_for_language(UiLanguage::English),
        "Select a workspace."
    );
}

#[test]
fn shell_execute_error_message_uses_requested_language() {
    assert_eq!(
        shell_execute_error_message_for_language(UiLanguage::Korean, 31),
        "이 파일 형식에 연결된 실행 프로그램이 없습니다."
    );
    assert_eq!(
        shell_execute_error_message_for_language(UiLanguage::English, 31),
        "There is no app associated with this file type."
    );
    assert_eq!(
        shell_execute_error_message_for_language(UiLanguage::Korean, 123),
        "ShellExecuteW 오류 코드 123"
    );
    assert_eq!(
        shell_execute_error_message_for_language(UiLanguage::English, 123),
        "ShellExecuteW error code 123"
    );
}

#[test]
fn shell_execute_failure_value_display_keeps_only_safe_state() {
    assert_eq!(
        shell_execute_failure_value_display(Some("non-empty value")),
        SHELL_EXECUTE_FIELD_REDACTED
    );
    assert_eq!(shell_execute_failure_value_display(Some("")), SHELL_EXECUTE_FIELD_EMPTY);
    assert_eq!(
        shell_execute_failure_value_display(None),
        SHELL_EXECUTE_FIELD_NOT_PROVIDED
    );
}

#[test]
fn external_terminal_command_line_escapes_percent_in_executable_path() {
    let command_line =
        command_line_from_executable_and_arguments(r"C:\tools\%TEMP%\runner.exe", "--flag");

    assert_eq!(command_line, r"C:\tools\^%TEMP^%\runner.exe --flag");
}

#[test]
fn external_terminal_command_line_quotes_and_escapes_percent_executable_path() {
    let command_line =
        command_line_from_executable_and_arguments(r"C:\Program Files\%TEMP%\runner.exe", "--flag");
    let parameters = external_terminal_parameters_for_command(&command_line);

    assert_eq!(command_line, r#""C:\Program Files\^%TEMP^%\runner.exe" --flag"#);
    assert_eq!(
        parameters,
        r#"/D /V:OFF /S /K ""C:\Program Files\^%TEMP^%\runner.exe" --flag""#
    );
}

#[test]
fn external_terminal_command_line_keeps_simple_command_name_unquoted() {
    assert_eq!(command_line_from_executable_and_arguments("git", "status"), "git status");
    assert_eq!(command_line_from_executable_and_arguments("git", ""), "git");
}

#[test]
fn command_workspace_error_blocks_missing_context_and_inaccessible_paths() {
    let shell_without_tokens =
        CommandButton::new("Version", "tool.exe", "--version", ExecutionType::ShellApi)
            .expect("button should be valid");
    assert!(command_workspace_error(&shell_without_tokens, None, false).is_none());

    let shell_with_workspace_token =
        CommandButton::new("Name", "tool.exe", "{name}", ExecutionType::ShellApi)
            .expect("button should be valid");
    let shell_workspace_error = command_workspace_error(&shell_with_workspace_token, None, false)
        .expect("workspace token should require workspace");
    assert!(matches!(
        shell_workspace_error,
        CommandExecutionError::ArgumentResolution {
            source: ArgumentResolutionError::WorkspaceRequired
        }
    ));
    assert_eq!(shell_workspace_error.user_message(), "워크스페이스를 선택하세요.");

    let external_terminal =
        CommandButton::new("Check", "cargo", "check", ExecutionType::ExternalTerminal)
            .expect("button should be valid");
    let external_terminal_error = command_workspace_error(&external_terminal, None, false)
        .expect("external_terminal should require workspace");
    assert!(matches!(
        external_terminal_error,
        CommandExecutionError::MissingWorkspaceForExternalTerminal
    ));
    assert_eq!(external_terminal_error.user_message(), "워크스페이스를 선택하세요.");

    let missing_path = "Z:\\missing-workspace\\missing";
    let missing_workspace =
        Workspace::new(missing_path, "missing", "Rust").expect("workspace should be valid");
    let error = command_workspace_error(&shell_with_workspace_token, Some(&missing_workspace), false)
        .expect("missing workspace path should block execution");
    assert!(matches!(
        &error,
        CommandExecutionError::InaccessibleWorkspacePath { path }
            if path == &missing_workspace.path
    ));
    let message = error.user_message();

    assert!(message.contains("워크스페이스 폴더를 열 수 없습니다"));
    assert!(message.contains(&missing_workspace.path));
    assert!(
        command_workspace_error(&shell_with_workspace_token, Some(&missing_workspace), true)
            .is_none()
    );
}

#[test]
fn shell_api_argument_token_execution_values_are_quoted_as_single_windows_arguments() {
    assert_eq!(
        argument_token_execution_value(
            ExecutionType::ShellApi,
            ArgumentToken::InputText,
            "two words".to_owned(),
        ),
        "\"two words\""
    );
    assert_eq!(
        argument_token_execution_value(
            ExecutionType::ShellApi,
            ArgumentToken::Name,
            "Project".to_owned(),
        ),
        "Project"
    );
}

#[test]
fn external_terminal_argument_token_execution_values_are_cmd_escaped() {
    assert_eq!(
        argument_token_execution_value(
            ExecutionType::ExternalTerminal,
            ArgumentToken::InputText,
            "two words".to_owned(),
        ),
        r#"^"two words^""#
    );
    assert_eq!(
        argument_token_execution_value(
            ExecutionType::ExternalTerminal,
            ArgumentToken::InputText,
            r#"say "hello" & %PATH% | !PATH!"#.to_owned(),
        ),
        r#"^"say \^"hello\^" ^& ^%PATH^% ^| ^!PATH^!^""#
    );
    assert_eq!(
        argument_token_execution_value(
            ExecutionType::ExternalTerminal,
            ArgumentToken::Name,
            "Project".to_owned(),
        ),
        "Project"
    );
}

#[test]
fn quote_windows_command_argument_uses_windows_backslash_rules() {
    assert_eq!(quote_windows_command_argument("plain"), "plain");
    assert_eq!(quote_windows_command_argument(r"C:\Work Dir\"), r#""C:\Work Dir\\""#);
    assert_eq!(quote_windows_command_argument(r#"say "hello""#), r#""say \"hello\"""#);
}

#[test]
fn external_terminal_parameters_use_cmd_s_wrapping_for_quoted_commands() {
    let command_line = command_line_from_executable_and_arguments(
        r"C:\Program Files\Tool\tool.exe",
        r#"--path "C:\Work Dir" --name "My App""#,
    );

    assert_eq!(
        command_line,
        r#""C:\Program Files\Tool\tool.exe" --path "C:\Work Dir" --name "My App""#
    );
    assert_eq!(
        external_terminal_parameters_for_command(&command_line),
        r#"/D /V:OFF /S /K ""C:\Program Files\Tool\tool.exe" --path "C:\Work Dir" --name "My App"""#
    );
}

fn assert_interior_nul_error<T>(result: Result<T, CommandExecutionError>, expected_field: &str) {
    match result {
        Err(CommandExecutionError::InteriorNul { field, .. }) => assert_eq!(field, expected_field),
        Err(other) => panic!("unexpected error: {other:?}"),
        Ok(_) => panic!("interior NUL should be rejected"),
    }
}

#[test]
fn shell_execute_open_rejects_interior_nul_before_win32_call() {
    assert_interior_nul_error(
        prepare_shell_execute_open("cmd.exe\0evil.exe", "", None),
        "executable_path",
    );
    assert_interior_nul_error(
        prepare_shell_execute_open("cmd.exe", "/D\0/C exit 0", None),
        "arguments",
    );
    assert_interior_nul_error(
        prepare_shell_execute_open("cmd.exe", "/D /C exit 0", Some("C:\\Temp\0Other")),
        "directory",
    );
}

#[test]
fn shell_execute_request_trims_the_executable_and_drops_blank_directories() {
    let request = prepare_shell_execute_open("  cmd.exe ", "/D /C exit 0", Some("   "))
        .expect("request should be accepted");
    assert_eq!(request.executable_path, "cmd.exe");
    assert_eq!(request.arguments, "/D /C exit 0");
    assert_eq!(request.directory, None);
    let with_directory = prepare_shell_execute_open("cmd.exe", "", Some("C:\\Work"))
        .expect("request should be accepted");
    assert_eq!(with_directory.directory.as_deref(), Some("C:\\Work"));
    assert!(matches!(
        prepare_shell_execute_open("   ", "", None),
        Err(CommandExecutionError::EmptyExecutablePath { executable_path }) if executable_path == "   "
    ));
    assert!(reject_shell_execute_interior_nul("arguments", "fine").is_ok());
}

#[test]
fn shell_execute_failures_keep_codes_and_redact_values() {
    assert!(shell_execute_succeeded(33));
    assert!(!shell_execute_succeeded(32));
    let failure = shell_execute_open_failure(2, 5, " tool.exe ", "", Some("C:\\Work"));
    match &failure {
        CommandExecutionError::ShellExecuteFailed {
            result_code,
            last_error_code,
            executable_path,
            arguments,
            directory,
        } => {
            assert_eq!(*result_code, 2);
            assert_eq!(*last_error_code, 5);
            assert_eq!(executable_path, SHELL_EXECUTE_FIELD_REDACTED);
            assert_eq!(arguments, SHELL_EXECUTE_FIELD_EMPTY);
            assert_eq!(directory.as_deref(), Some(SHELL_EXECUTE_FIELD_REDACTED));
        }
        other => panic!("unexpected error: {other:?}"),
    }
    assert_eq!(
        failure.display_text(),
        "ShellExecuteW failed: return_code=2, GetLastError=5, executable_path=<redacted>, arguments=<empty>, directory=<redacted>"
    );
    assert_eq!(
        failure.user_message_for_language(UiLanguage::English),
        "Command failed\n\nThe specified file could not be found.\nCode: 2, Windows: 5"
    );
    assert_eq!(redacted_shell_execute_failure_value(Some("<empty>")), "<empty>");
}

#[test]
fn error_messages_cover_each_variant() {
    let empty = CommandExecutionError::EmptyExecutablePath {
        executable_path: " ".to_owned(),
    };
    assert_eq!(empty.user_message(), "실행 대상을 입력하세요.");
    assert_eq!(empty.display_text(), "empty executable_path: \" \"");
    let nul = CommandExecutionError::InteriorNul {
        field: "arguments",
        value: "a\0b".to_owned(),
    };
    assert_eq!(
        nul.user_message_for_language(UiLanguage::English),
        "The execution value contains an unsupported character: arguments"
    );
    let unknown = ArgumentResolutionError::UnknownTokens(vec!["{missing}".to_owned()]);
    assert!(unknown.display_text().contains("{missing}"));
    assert_eq!(
        DomainValidationError::EmptyCategoryName.user_message_for_language(UiLanguage::English),
        "Enter a name."
    );
}

#[test]
fn quoting_helpers_classify_characters() {
    assert!(requires_windows_command_quote(' '));
    assert!(requires_windows_command_quote('"'));
    assert!(!requires_windows_command_quote('a'));
    assert!(requires_cmd_escape('%'));
    assert!(requires_cmd_escape('&'));
    assert!(!requires_cmd_escape('a'));
    assert_eq!(quote_cmd_command_argument("plain"), "plain");
    assert_eq!(quote_windows_command_argument(""), "\"\"");
}

#[test]
fn command_processor_defaults_to_cmd() {
    assert_eq!(command_processor_path_from(None), "cmd.exe");
    assert_eq!(command_processor_path_from(Some("  ")), "cmd.exe");
    assert_eq!(
        command_processor_path_from(Some("C:\\Windows\\system32\\cmd.exe")),
        "C:\\Windows\\system32\\cmd.exe"
    );
}

/// Reads `text` as one argument with the Windows backslash and quote rules; `None` when it
/// splits into several arguments or leaves a quote open.
fn read_windows_argument(text: &str) -> Option<String> {
    let mut out = String::new();
    let mut backslashes = 0usize;
    let mut in_quotes = false;
    for c in text.chars() {
        match c {
            '\\' => backslashes += 1,
            '"' => {
                out.push_str(&"\\".repeat(backslashes / 2));
                if backslashes % 2 == 0 {
                    in_quotes = !in_quotes;
                } else {
                    out.push('"');
                }
                backslashes = 0;
            }
            ' ' | '\t' if !in_quotes => return None,
            _ => {
                out.push_str(&"\\".repeat(backslashes));
                backslashes = 0;
                out.push(c);
            }
        }
    }
    if text.is_empty() || in_quotes {
        return None;
    }
    out.push_str(&"\\".repeat(backslashes));
    Some(out)
}

/// Drops each `^` and keeps the character after it, as `cmd.exe` does outside quotes.
fn read_carets(text: &str) -> String {
    let mut out = String::new();
    let mut chars = text.chars();
    while let Some(c) = chars.next() {
        if c == '^' {
            if let Some(next) = chars.next() {
                out.push(next);
                continue;
            }
        }
        out.push(c);
    }
    out
}

#[test]
fn quoted_values_read_back_as_one_argument() {
    let values = [
        "",
        "plain",
        r"C:\Work Dir\",
        r#"say "hello""#,
        r#"a\\"b c\"#,
        r"back\slash\\",
        "tab\there",
        "^caret & pipe | <x> (y) %PATH% !v!",
    ];
    for value in values {
        let quoted = quote_windows_command_argument(value);
        assert_eq!(read_windows_argument(&quoted).as_deref(), Some(value), "{quoted}");
        let terminal = quote_cmd_command_argument(value);
        assert_eq!(
            read_windows_argument(&read_carets(&terminal)).as_deref(),
            Some(value),
            "{terminal}"
        );
    }
}

/// Splits a command line with the Windows backslash and quote rules.
fn split_windows_command_line(text: &str) -> Vec<String> {
    let mut arguments = Vec::new();
    let mut current = String::new();
    let mut started = false;
    let mut backslashes = 0usize;
    let mut in_quotes = false;
    for c in text.chars() {
        match c {
            ' ' | '\t' if !in_quotes => {
                if started {
                    current.push_str(&"\\".repeat(backslashes));
                    arguments.push(std::mem::take(&mut current));
                    backslashes = 0;
                    started = false;
                }
            }
            '\\' => {
                backslashes += 1;
                started = true;
            }
            '"' => {
                current.push_str(&"\\".repeat(backslashes / 2));
                if backslashes % 2 == 0 {
                    in_quotes = !in_quotes;
                } else {
                    current.push('"');
                }
                backslashes = 0;
                started = true;
            }
            _ => {
                current.push_str(&"\\".repeat(backslashes));
                backslashes = 0;
                current.push(c);
                started = true;
            }
        }
    }
    if started {
        current.push_str(&"\\".repeat(backslashes));
        arguments.push(current);
    }
    arguments
}

#[test]
fn quoted_value_after_a_program_splits_back_into_both() {
    for value in ["", "plain", r"C:\Work Dir\", r#"say "hello""#, r#"a\\"b c\"#, "tab\there"] {
        let line = format!("x {}", quote_windows_command_argument(value));
        assert_eq!(split_windows_command_line(&line), vec!["x".to_owned(), value.to_owned()], "{line}");
    }
    assert_eq!(quote_windows_command_argument(r"C:\plain\path"), r"C:\plain\path");
}
