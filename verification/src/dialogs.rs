//! The decisions of the application's dialogs: their titles, what their buttons insert, and what
//! they accept.

use vstd::prelude::*;

use crate::arguments::{unknown_argument_tokens, unknown_from};
use crate::command_line::ExecutionType;
use crate::execution::{opt_view, ArgumentResolutionError};
use crate::model::CommandButton;
use crate::language::{tr, ui_text, UiLanguage};
use crate::text::{
    eq_ignore_ascii_case, equal_ignoring_ascii_case, has_whitespace_only, is_blank, joined, push_str,
    string_of, trim_text, trimmed,
};

verus! {

pub const CONTROL_TOKEN_PATH_BUTTON_ID: u32 = 5010;
pub const CONTROL_TOKEN_NAME_BUTTON_ID: u32 = 5011;
pub const CONTROL_TOKEN_SELECT_FILE_BUTTON_ID: u32 = 5012;
pub const CONTROL_TOKEN_SELECT_DIR_BUTTON_ID: u32 = 5013;
pub const CONTROL_TOKEN_INPUT_TEXT_BUTTON_ID: u32 = 5014;
pub const CONTROL_TOKEN_LANGUAGE_BUTTON_ID: u32 = 5015;

/// The sample text of the font dialog's preview.
pub fn font_preview_text(language: UiLanguage) -> (text: &'static str)
    ensures
        text@ == ui_text(language, "미리보기 123 가나다"@, "Preview 123 ABC"@),
{
    tr(language, "미리보기 123 가나다", "Preview 123 ABC")
}

/// Whether the workspace dialog adds a workspace or edits one.
#[derive(Clone, Copy, Debug, PartialEq, Eq, Structural)]
pub enum WorkspaceDialogMode {
    Add,
    Edit,
}

impl WorkspaceDialogMode {
    /// The dialog's title.
    pub fn title(self, language: UiLanguage) -> (title: &'static str)
        ensures
            title@ == match self {
                WorkspaceDialogMode::Add => ui_text(
                    language,
                    "워크스페이스 추가"@,
                    "Add Workspace"@,
                ),
                WorkspaceDialogMode::Edit => ui_text(
                    language,
                    "워크스페이스 편집"@,
                    "Edit Workspace"@,
                ),
            },
    {
        match self {
            WorkspaceDialogMode::Add => tr(language, "워크스페이스 추가", "Add Workspace"),
            WorkspaceDialogMode::Edit => tr(language, "워크스페이스 편집", "Edit Workspace"),
        }
    }
}

/// Whether the command dialog adds a command button or edits one.
#[derive(Clone, Copy, Debug, PartialEq, Eq, Structural)]
pub enum CommandButtonDialogMode {
    Add,
    Edit,
}

impl CommandButtonDialogMode {
    /// The dialog's title.
    pub fn title(self, language: UiLanguage) -> (title: &'static str)
        ensures
            title@ == match self {
                CommandButtonDialogMode::Add => ui_text(language, "명령 추가"@, "Add Command"@),
                CommandButtonDialogMode::Edit => ui_text(language, "명령 편집"@, "Edit Command"@),
            },
    {
        match self {
            CommandButtonDialogMode::Add => tr(language, "명령 추가", "Add Command"),
            CommandButtonDialogMode::Edit => tr(language, "명령 편집", "Edit Command"),
        }
    }
}

/// The markup of the About dialog's link to `url`.
pub fn about_link_markup(url: &str) -> (markup: String)
    ensures
        markup@ == "<a href=\""@ + url@ + "\">"@ + url@ + "</a>"@,
{
    let mut markup = string_of("<a href=\"");
    push_str(&mut markup, url);
    push_str(&mut markup, "\">");
    push_str(&mut markup, url);
    push_str(&mut markup, "</a>");
    markup
}

/// The argument token that each token button of the command dialog inserts.
pub open spec fn token_for_control(control_id: u32) -> Option<Seq<char>> {
    if control_id == CONTROL_TOKEN_PATH_BUTTON_ID {
        Some("{path}"@)
    } else if control_id == CONTROL_TOKEN_NAME_BUTTON_ID {
        Some("{name}"@)
    } else if control_id == CONTROL_TOKEN_SELECT_FILE_BUTTON_ID {
        Some("{selectfile}"@)
    } else if control_id == CONTROL_TOKEN_SELECT_DIR_BUTTON_ID {
        Some("{selectdir}"@)
    } else if control_id == CONTROL_TOKEN_INPUT_TEXT_BUTTON_ID {
        Some("{inputtext}"@)
    } else if control_id == CONTROL_TOKEN_LANGUAGE_BUTTON_ID {
        Some("{Language}"@)
    } else {
        None
    }
}

/// The argument token that a token button inserts.
pub fn argument_token_for_button_id(control_id: u32) -> (token: Option<&'static str>)
    ensures
        opt_view(token) == token_for_control(control_id),
{
    if control_id == CONTROL_TOKEN_PATH_BUTTON_ID {
        Some("{path}")
    } else if control_id == CONTROL_TOKEN_NAME_BUTTON_ID {
        Some("{name}")
    } else if control_id == CONTROL_TOKEN_SELECT_FILE_BUTTON_ID {
        Some("{selectfile}")
    } else if control_id == CONTROL_TOKEN_SELECT_DIR_BUTTON_ID {
        Some("{selectdir}")
    } else if control_id == CONTROL_TOKEN_INPUT_TEXT_BUTTON_ID {
        Some("{inputtext}")
    } else if control_id == CONTROL_TOKEN_LANGUAGE_BUTTON_ID {
        Some("{Language}")
    } else {
        None
    }
}

/// The value a text input dialog accepts: the text as typed when empty text is allowed, else the
/// trimmed text, which must not be blank (`None`: the dialog asks for a name and stays open).
pub fn text_input_dialog_value(value: &str, allow_empty: bool) -> (accepted: Option<String>)
    ensures
        allow_empty ==> (accepted matches Some(text) && text@ == value@),
        !allow_empty && has_whitespace_only(value@) ==> accepted is None,
        !allow_empty && !has_whitespace_only(value@) ==> (accepted matches Some(text) && text@
            == trimmed(value@)),
{
    if allow_empty {
        return Some(string_of(value));
    }
    if is_blank(value) {
        return None;
    }
    Some(trim_text(value))
}

/// Finds which language option a guessed language selects: its position counted from one, or
/// zero to keep the current choice.
pub fn inferred_language_option_index(options: &Vec<String>, language: Option<&str>) -> (index:
    usize)
    ensures
        index == 0 <==> language is None || forall|i: int|
            0 <= i < options@.len() ==> !equal_ignoring_ascii_case(
                #[trigger] options@[i]@,
                language->0@,
            ),
        index > 0 ==> {
            &&& index <= options@.len()
            &&& equal_ignoring_ascii_case(options@[index - 1]@, language->0@)
            &&& forall|k: int|
                0 <= k < index - 1 ==> !equal_ignoring_ascii_case(
                    #[trigger] options@[k]@,
                    language->0@,
                )
        },
{
    let name = match language {
        Some(name) => name,
        None => return 0,
    };
    let mut i: usize = 0;
    while i < options.len()
        invariant
            i <= options.len(),
            language == Some(name),
            forall|k: int|
                0 <= k < i ==> !equal_ignoring_ascii_case(#[trigger] options@[k]@, name@),
        decreases options.len() - i,
    {
        if eq_ignore_ascii_case(options[i].as_str(), name) {
            return i + 1;
        }
        i = i + 1;
    }
    0
}

/// The language option to select once a guess arrives: the option at `index` counted from one,
/// or none for zero or a position past the options.
pub fn inferred_language_option(options: &Vec<String>, index: usize) -> (option: Option<&String>)
    ensures
        index == 0 || index > options@.len() ==> option is None,
        0 < index <= options@.len() ==> option == Some(&options@[index - 1]),
{
    if index == 0 || index > options.len() {
        None
    } else {
        Some(&options[index - 1])
    }
}

/// The entry a filled combo box selects: the last option equal to `selected` without ASCII case,
/// or the first entry when none is.
pub open spec fn combo_selection(options: Seq<String>, selected: Seq<char>) -> int
    decreases options.len(),
{
    if options.len() == 0 {
        0
    } else if equal_ignoring_ascii_case(options.last()@, selected) {
        options.len() - 1
    } else {
        combo_selection(options.drop_last(), selected)
    }
}

/// Which entry of the language or font combo box is selected after it is filled with `options`
/// in order.
pub fn combo_selection_index(options: &Vec<String>, selected: &str) -> (index: usize)
    ensures
        index == combo_selection(options@, selected@),
        options@.len() > 0 ==> index < options@.len(),
{
    let mut index: usize = 0;
    let mut i: usize = 0;
    while i < options.len()
        invariant
            i <= options.len(),
            index == combo_selection(options@.take(i as int), selected@),
            i > 0 ==> index < i,
        decreases options.len() - i,
    {
        proof {
            assert(options@.take(i + 1).drop_last() =~= options@.take(i as int));
            assert(options@.take(i + 1).last() == options@[i as int]);
        }
        if eq_ignore_ascii_case(options[i].as_str(), selected) {
            index = i;
        }
        i = i + 1;
    }
    assert(options@.take(options.len() as int) =~= options@);
    index
}

/// Why the command button dialog's values cannot make a button, as the warning shown; `None`
/// when they can. The name is looked at first, then the executable, the argument tokens and the
/// execution type.
pub open spec fn command_button_refusal(
    button_name: Seq<char>,
    executable_path: Seq<char>,
    arguments: Seq<char>,
    execution_type: Option<ExecutionType>,
    language: UiLanguage,
) -> Option<Seq<char>> {
    if has_whitespace_only(button_name) {
        Some(ui_text(language, "이름을 입력하세요."@, "Enter a name."@))
    } else if has_whitespace_only(executable_path) {
        Some(ui_text(language, "실행 대상을 입력하세요."@, "Enter an executable target."@))
    } else if unknown_from(arguments, 0).len() > 0 {
        Some(
            ui_text(language, "알 수 없는 인수 토큰: "@, "Unknown argument tokens: "@) + joined(
                unknown_from(arguments, 0),
                ", "@,
            ),
        )
    } else if execution_type is None {
        Some(ui_text(language, "실행 방식을 선택하세요."@, "Select an execution type."@))
    } else {
        None
    }
}

/// Makes the command button from the dialog's values, or gives the warning that keeps the
/// dialog open.
pub fn command_button_from_dialog_values(
    button_name: &str,
    executable_path: &str,
    arguments: &str,
    execution_type: Option<ExecutionType>,
    language: UiLanguage,
) -> (result: Result<CommandButton, String>)
    ensures
        match command_button_refusal(
            button_name@,
            executable_path@,
            arguments@,
            execution_type,
            language,
        ) {
            Some(message) => result matches Err(shown) && shown@ == message,
            None => result matches Ok(button) && {
                &&& button.button_name@ == button_name@
                &&& button.executable_path@ == executable_path@
                &&& button.arguments@ == arguments@
                &&& execution_type == Some(button.execution_type)
            },
        },
{
    if is_blank(button_name) {
        return Err(string_of(tr(language, "이름을 입력하세요.", "Enter a name.")));
    }
    if is_blank(executable_path) {
        return Err(string_of(tr(language, "실행 대상을 입력하세요.", "Enter an executable target.")));
    }
    let unknown = unknown_argument_tokens(arguments);
    if unknown.len() > 0 {
        let error = ArgumentResolutionError::UnknownTokens(unknown);
        return Err(error.user_message_for_language(language));
    }
    let chosen = match execution_type {
        Some(chosen) => chosen,
        None => {
            return Err(string_of(tr(language, "실행 방식을 선택하세요.", "Select an execution type.")));
        },
    };
    match CommandButton::new(button_name, executable_path, arguments, chosen) {
        Ok(button) => Ok(button),
        Err(error) => Err(error.user_message_for_language(language)),
    }
}

/// What applying the command button dialog's valid button does to the selected tab.
#[derive(Clone, Copy, Debug, PartialEq, Eq, Structural)]
pub enum CommandButtonApply {
    /// The edited button is unchanged: the dialog closes without saving.
    Close,
    /// The button is added to the tab; the dialog then edits the added button.
    Add,
    /// Button `button_index` of the tab is replaced by the dialog's button.
    Update { button_index: usize },
    /// An edit without a button to edit fails as an invalid button index (index 0).
    InvalidIndex,
}

/// Decides what applying the command button dialog does. `button_index` is the button the dialog
/// works on (none for a new button not yet added); `unchanged` tells whether the dialog's button
/// equals that stored button, and is read only when there is one.
pub fn command_button_apply_step(
    mode: CommandButtonDialogMode,
    button_index: Option<usize>,
    unchanged: bool,
) -> (step: CommandButtonApply)
    ensures
        button_index is Some && unchanged ==> step == CommandButtonApply::Close,
        button_index is Some && !unchanged ==> step == (CommandButtonApply::Update {
            button_index: button_index.unwrap(),
        }),
        button_index is None && mode == CommandButtonDialogMode::Add ==> step
            == CommandButtonApply::Add,
        button_index is None && mode == CommandButtonDialogMode::Edit ==> step
            == CommandButtonApply::InvalidIndex,
{
    match button_index {
        Some(index) => if unchanged {
            CommandButtonApply::Close
        } else {
            CommandButtonApply::Update { button_index: index }
        },
        None => match mode {
            CommandButtonDialogMode::Add => CommandButtonApply::Add,
            CommandButtonDialogMode::Edit => CommandButtonApply::InvalidIndex,
        },
    }
}

/// Whether the workspace dialog's OK button is enabled: not while a path check or a language
/// guess is running.
pub fn workspace_dialog_ok_enabled(path_check_pending: bool, language_guess_pending: bool) -> (enabled:
    bool)
    ensures
        enabled == (!path_check_pending && !language_guess_pending),
{
    !path_check_pending && !language_guess_pending
}

/// The status message after the settings could not be saved, with the error's text.
pub fn settings_save_failure_message(language: UiLanguage, error_text: &str) -> (message: String)
    ensures
        message@ == ui_text(language, "설정 저장 실패\n\n"@, "Settings save failed\n\n"@)
            + error_text@,
{
    let mut message = string_of(tr(language, "설정 저장 실패\n\n", "Settings save failed\n\n"));
    push_str(&mut message, error_text);
    message
}

} // verus!
