use j3devhelper::arguments::{
    arguments_use_token, prepare_command_arguments, replace_argument_tokens,
    unknown_argument_tokens, workspace_replacements,
};
use j3devhelper::command_line::{ArgumentToken, ExecutionType};
use j3devhelper::execution::{
    command_launch, run_completed_message, ArgumentResolutionError, CommandExecutionError,
};
use j3devhelper::fonts::{enumerated_font_family, requested_font_family};
use j3devhelper::language::UiLanguage;
use j3devhelper::layout::DEFAULT_FONT_FAMILY;
use j3devhelper::model::{CommandButton, Workspace};
use j3devhelper::scaling::{dpi_from_change_message, dpi_from_logical_pixels};

fn temp_workspace() -> Workspace {
    Workspace::new("C:\\Users\\dev\\AppData\\Local\\Temp", "Temp", "Rust")
        .expect("workspace should be valid")
}

#[test]
fn prepare_command_arguments_does_not_replace_button_name_or_executable_path() {
    let workspace = temp_workspace();
    let button = CommandButton::new(
        "{name}",
        "{path}",
        "--language {Language}",
        ExecutionType::ShellApi,
    )
    .expect("button should be valid");

    let arguments = prepare_command_arguments(&button, &workspace_replacements(&workspace))
        .expect("arguments should resolve");

    assert_eq!(arguments, "--language Rust");
    assert_eq!(button.button_name, "{name}");
    assert_eq!(button.executable_path, "{path}");
}

#[test]
fn prepare_command_arguments_returns_typed_unknown_token_error() {
    let button = CommandButton::new("Run", "tool.exe", "{missing}", ExecutionType::ShellApi)
        .expect("button should be valid");

    let error = prepare_command_arguments(&button, &vec![])
        .expect_err("unknown token should fail argument preparation");

    match error {
        CommandExecutionError::ArgumentResolution { source } => match source {
            ArgumentResolutionError::UnknownTokens(tokens) => {
                assert_eq!(tokens, vec!["{missing}".to_owned()]);
            }
            other => panic!("unexpected resolution error: {other:?}"),
        },
        other => panic!("unexpected command execution error: {other:?}"),
    }
}

#[test]
fn workspace_values_are_quoted_for_the_execution_type() {
    let workspace = Workspace::new("C:\\Work Dir", "My App", "Rust")
        .expect("workspace should be valid");
    let shell = CommandButton::new("Open", "code", "{path} --name {name}", ExecutionType::ShellApi)
        .expect("button should be valid");
    assert_eq!(
        prepare_command_arguments(&shell, &workspace_replacements(&workspace)).unwrap(),
        "\"C:\\Work Dir\" --name \"My App\""
    );
    let terminal =
        CommandButton::new("Open", "code", "{path}", ExecutionType::ExternalTerminal)
            .expect("button should be valid");
    assert_eq!(
        prepare_command_arguments(&terminal, &workspace_replacements(&workspace)).unwrap(),
        "^\"C:\\Work Dir^\""
    );
}

#[test]
fn token_replacement_keeps_other_text_and_missing_values() {
    let values = vec![
        (ArgumentToken::InputText, "hello".to_owned()),
        (ArgumentToken::InputText, "ignored".to_owned()),
    ];
    assert_eq!(
        replace_argument_tokens("say {inputtext} to {name} {x", &values),
        "say hello to {name} {x"
    );
    assert_eq!(replace_argument_tokens("{inputtext}{inputtext}", &values), "hellohello");
    assert_eq!(replace_argument_tokens("plain", &vec![]), "plain");
}

#[test]
fn unknown_tokens_are_listed_in_order() {
    assert_eq!(
        unknown_argument_tokens("{path} {Path} {x1} {abc} { } {} {selectdir} {zz}"),
        vec!["{Path}".to_owned(), "{abc}".to_owned(), "{zz}".to_owned()]
    );
    assert!(unknown_argument_tokens("--json {\"a\":1}").is_empty());
    assert!(arguments_use_token("a {selectfile} b", ArgumentToken::SelectFile));
    assert!(!arguments_use_token("a {selectdir} b", ArgumentToken::SelectFile));
}

#[test]
fn launches_open_the_program_or_the_command_processor() {
    let workspace = temp_workspace();
    let shell = CommandButton::new("Status", "git", "status", ExecutionType::ShellApi)
        .expect("button should be valid");
    let launch = command_launch(&shell, "status", None, "cmd.exe").expect("shell launch");
    assert_eq!(launch.executable_path, "git");
    assert_eq!(launch.arguments, "status");
    assert_eq!(launch.directory, None);

    let terminal = CommandButton::new("Check", "cargo", "check", ExecutionType::ExternalTerminal)
        .expect("button should be valid");
    let launch = command_launch(&terminal, "check", Some(&workspace), "C:\\Windows\\cmd.exe")
        .expect("terminal launch");
    assert_eq!(launch.executable_path, "C:\\Windows\\cmd.exe");
    assert_eq!(launch.arguments, "/D /V:OFF /S /K \"cargo check\"");
    assert_eq!(launch.directory.as_deref(), Some(workspace.path.as_str()));
    assert!(matches!(
        command_launch(&terminal, "check", None, "cmd.exe"),
        Err(CommandExecutionError::MissingWorkspaceForExternalTerminal)
    ));
    assert_eq!(run_completed_message(UiLanguage::English, "Check"), "Run completed: Check");
    assert_eq!(run_completed_message(UiLanguage::Korean, "Check"), "실행 완료: Check");
}

#[test]
fn font_enumeration_keeps_trimmed_horizontal_families() {
    assert_eq!(enumerated_font_family("  Consolas ").as_deref(), Some("Consolas"));
    assert_eq!(enumerated_font_family("@Malgun Gothic"), None);
    assert_eq!(enumerated_font_family("   "), None);
    assert_eq!(requested_font_family(" Arial ").as_deref(), Some("Arial"));
    assert_eq!(requested_font_family(" ").as_deref(), Some(DEFAULT_FONT_FAMILY));
    assert_eq!(requested_font_family("@Arial"), None);
}

#[test]
fn dpi_values_fall_back_and_take_the_larger_word() {
    assert_eq!(dpi_from_logical_pixels(120), 120);
    assert_eq!(dpi_from_logical_pixels(0), 96);
    assert_eq!(dpi_from_logical_pixels(-3), 96);
    assert_eq!(dpi_from_change_message((144 << 16) | 120), 144);
    assert_eq!(dpi_from_change_message((96 << 16) | 120), 120);
    assert_eq!(dpi_from_change_message(0), 1);
}
