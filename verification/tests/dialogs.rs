use j3devhelper::dialogs::{
    about_link_markup, argument_token_for_button_id, combo_selection_index,
    command_button_apply_step, command_button_from_dialog_values, font_preview_text,
    inferred_language_option, inferred_language_option_index, settings_save_failure_message,
    text_input_dialog_value, workspace_dialog_ok_enabled, CommandButtonApply, CommandButtonDialogMode,
    WorkspaceDialogMode, CONTROL_TOKEN_LANGUAGE_BUTTON_ID, CONTROL_TOKEN_PATH_BUTTON_ID,
};
use j3devhelper::command_line::ExecutionType;
use j3devhelper::language::UiLanguage;

#[test]
fn dialog_titles_follow_mode_and_language() {
    assert_eq!(WorkspaceDialogMode::Add.title(UiLanguage::Korean), "워크스페이스 추가");
    assert_eq!(WorkspaceDialogMode::Edit.title(UiLanguage::English), "Edit Workspace");
    assert_eq!(CommandButtonDialogMode::Add.title(UiLanguage::English), "Add Command");
    assert_eq!(CommandButtonDialogMode::Edit.title(UiLanguage::Korean), "명령 편집");
    assert_eq!(font_preview_text(UiLanguage::English), "Preview 123 ABC");
    assert_eq!(font_preview_text(UiLanguage::Korean), "미리보기 123 가나다");
}

#[test]
fn about_link_wraps_the_url() {
    assert_eq!(
        about_link_markup("https://example.com/app"),
        "<a href=\"https://example.com/app\">https://example.com/app</a>"
    );
}

#[test]
fn token_buttons_insert_their_tokens() {
    assert_eq!(argument_token_for_button_id(CONTROL_TOKEN_PATH_BUTTON_ID), Some("{path}"));
    assert_eq!(argument_token_for_button_id(5011), Some("{name}"));
    assert_eq!(argument_token_for_button_id(5012), Some("{selectfile}"));
    assert_eq!(argument_token_for_button_id(5013), Some("{selectdir}"));
    assert_eq!(argument_token_for_button_id(5014), Some("{inputtext}"));
    assert_eq!(
        argument_token_for_button_id(CONTROL_TOKEN_LANGUAGE_BUTTON_ID),
        Some("{Language}")
    );
    assert_eq!(argument_token_for_button_id(5016), None);
}

#[test]
fn text_input_accepts_trimmed_names_or_raw_text() {
    assert_eq!(text_input_dialog_value("  Build  ", false).as_deref(), Some("Build"));
    assert_eq!(text_input_dialog_value("   ", false), None);
    assert_eq!(text_input_dialog_value("  raw  ", true).as_deref(), Some("  raw  "));
    assert_eq!(text_input_dialog_value("", true).as_deref(), Some(""));
}

#[test]
fn inferred_language_selects_the_matching_option() {
    let options = vec!["Rust".to_owned(), "Go".to_owned(), "rust".to_owned()];
    assert_eq!(inferred_language_option_index(&options, Some("RUST")), 1);
    assert_eq!(inferred_language_option_index(&options, Some("go")), 2);
    assert_eq!(inferred_language_option_index(&options, Some("Java")), 0);
    assert_eq!(inferred_language_option_index(&options, None), 0);
    assert_eq!(inferred_language_option(&options, 2).map(String::as_str), Some("Go"));
    assert_eq!(inferred_language_option(&options, 0), None);
    assert_eq!(inferred_language_option(&options, 4), None);
    assert!(workspace_dialog_ok_enabled(false, false));
    assert!(!workspace_dialog_ok_enabled(true, false));
    assert!(!workspace_dialog_ok_enabled(false, true));
}

#[test]
fn settings_save_failure_message_keeps_the_error_text() {
    assert_eq!(
        settings_save_failure_message(UiLanguage::English, "denied"),
        "Settings save failed\n\ndenied"
    );
    assert_eq!(
        settings_save_failure_message(UiLanguage::Korean, "denied"),
        "설정 저장 실패\n\ndenied"
    );
}

#[test]
fn combo_selects_the_last_matching_option_or_the_first() {
    let options = vec!["Rust".to_owned(), "Go".to_owned(), "rust".to_owned()];
    assert_eq!(combo_selection_index(&options, "RUST"), 2);
    assert_eq!(combo_selection_index(&options, "go"), 1);
    assert_eq!(combo_selection_index(&options, "Python"), 0);
    assert_eq!(combo_selection_index(&Vec::new(), "Rust"), 0);
}

#[test]
fn command_button_dialog_checks_its_values_in_order() {
    let english = UiLanguage::English;
    let shell = Some(ExecutionType::ShellApi);
    assert_eq!(
        command_button_from_dialog_values(" ", "", "{bad}", None, english).unwrap_err(),
        "Enter a name."
    );
    assert_eq!(
        command_button_from_dialog_values("Run", "\t", "{bad}", None, english).unwrap_err(),
        "Enter an executable target."
    );
    assert_eq!(
        command_button_from_dialog_values("Run", "tool.exe", "{bad} {path} {worse}", None, english)
            .unwrap_err(),
        "Unknown argument tokens: {bad}, {worse}"
    );
    assert_eq!(
        command_button_from_dialog_values("Run", "tool.exe", "{path}", None, UiLanguage::Korean)
            .unwrap_err(),
        "실행 방식을 선택하세요."
    );
    let button =
        command_button_from_dialog_values("Run", "tool.exe", "--path {path}", shell, english)
            .unwrap();
    assert_eq!(button.button_name, "Run");
    assert_eq!(button.executable_path, "tool.exe");
    assert_eq!(button.arguments, "--path {path}");
    assert_eq!(button.execution_type, ExecutionType::ShellApi);
}

#[test]
fn applying_the_command_button_dialog() {
    let add = CommandButtonDialogMode::Add;
    let edit = CommandButtonDialogMode::Edit;
    assert_eq!(command_button_apply_step(edit, Some(2), true), CommandButtonApply::Close);
    assert_eq!(
        command_button_apply_step(edit, Some(2), false),
        CommandButtonApply::Update { button_index: 2 }
    );
    assert_eq!(
        command_button_apply_step(add, Some(4), false),
        CommandButtonApply::Update { button_index: 4 }
    );
    assert_eq!(command_button_apply_step(add, None, false), CommandButtonApply::Add);
    assert_eq!(command_button_apply_step(edit, None, false), CommandButtonApply::InvalidIndex);
}
