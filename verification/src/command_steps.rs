//! What the main window does when a command button is moved, deleted, dragged or run, and when a
//! command tab is renamed.
//!
//! The window reads the selection from the application state and shows the dialogs; each function
//! here takes what it read and says, as a step, which warning to show or which change to make.

use vstd::prelude::*;

use crate::command_line::ExecutionType;
use crate::execution::{
    button_needs_workspace, command_workspace_error, execution_message, run_completed_message,
    ArgumentResolutionError, CommandExecutionError,
};
use crate::language::{tr, ui_text, UiLanguage};
use crate::model::{CommandButton, Workspace};
use crate::rules::{
    command_button_drop_destination, command_button_move_destination, step_destination,
    command_tab_move_destination, CommandButtonMoveDirection, CommandTabMoveDirection,
};
use crate::text::{decimal_digits, push_str, string_of, unsigned_decimal};

verus! {

/// Which selection a warning step clears before it is shown.
#[derive(Clone, Copy, Debug, PartialEq, Eq, Structural)]
pub enum SelectionClear {
    /// Keeps the selection.
    Nothing,
    /// Clears the selected command tab, which could not be found.
    Tab,
    /// Clears the selected command button, which could not be found.
    Button,
}

/// What moving the selected command button does.
#[derive(Clone, Debug)]
pub enum CommandEditStep {
    /// Shows `message` after clearing `clear`; nothing moves.
    Warn { message: String, clear: SelectionClear },
    /// Moves button `from` of tab `tab_index` to place `to`.
    Move { tab_index: usize, from: usize, to: usize },
}

/// Whether `step` is a warning with exactly this text and cleared selection.
pub open spec fn edit_warns(step: CommandEditStep, text: Seq<char>, clear: SelectionClear) -> bool {
    step matches CommandEditStep::Warn { message, clear: c } && message@ == text && c == clear
}

/// Moves the selected command button one place: warns when no tab or no button is selected, when
/// the selected tab is gone (clearing it), or when the button is already at the end it moves
/// towards. `tab_button_count` is the number of buttons of the selected tab, `None` when the tab
/// could not be found.
pub fn command_button_move_step(
    language: UiLanguage,
    selected_tab: Option<usize>,
    selected_button: Option<usize>,
    tab_button_count: Option<usize>,
    direction: CommandButtonMoveDirection,
) -> (step: CommandEditStep)
    ensures
        selected_tab is None ==> edit_warns(
            step,
            ui_text(language, "명령 그룹을 선택하세요."@, "Select a command group."@),
            SelectionClear::Nothing,
        ),
        selected_tab is Some && selected_button is None ==> edit_warns(
            step,
            ui_text(language, "이동할 명령을 선택하세요."@, "Select a command to move."@),
            SelectionClear::Nothing,
        ),
        selected_tab is Some && selected_button is Some && tab_button_count is None ==> edit_warns(
            step,
            ui_text(
                language,
                "선택한 명령 그룹을 찾을 수 없습니다."@,
                "The selected command group could not be found."@,
            ),
            SelectionClear::Tab,
        ),
        selected_tab is Some && selected_button is Some && tab_button_count is Some ==> match step_destination(
            selected_button.unwrap() as int,
            tab_button_count.unwrap() as int,
            direction == CommandButtonMoveDirection::Next,
        ) {
            Some(to) => step == (CommandEditStep::Move {
                tab_index: selected_tab.unwrap(),
                from: selected_button.unwrap(),
                to,
            }),
            None => edit_warns(
                step,
                ui_text(language, "더 이동할 수 없습니다."@, "Cannot move any further."@),
                SelectionClear::Nothing,
            ),
        },
{
    let tab_index = match selected_tab {
        Some(index) => index,
        None => {
            return CommandEditStep::Warn {
                message: string_of(tr(language, "명령 그룹을 선택하세요.", "Select a command group.")),
                clear: SelectionClear::Nothing,
            };
        },
    };
    let button_index = match selected_button {
        Some(index) => index,
        None => {
            return CommandEditStep::Warn {
                message: string_of(tr(language, "이동할 명령을 선택하세요.", "Select a command to move.")),
                clear: SelectionClear::Nothing,
            };
        },
    };
    let count = match tab_button_count {
        Some(count) => count,
        None => {
            return CommandEditStep::Warn {
                message: string_of(
                    tr(
                        language,
                        "선택한 명령 그룹을 찾을 수 없습니다.",
                        "The selected command group could not be found.",
                    ),
                ),
                clear: SelectionClear::Tab,
            };
        },
    };
    match command_button_move_destination(button_index, count, direction) {
        Some(to) => CommandEditStep::Move { tab_index, from: button_index, to },
        None => CommandEditStep::Warn {
            message: string_of(tr(language, "더 이동할 수 없습니다.", "Cannot move any further.")),
            clear: SelectionClear::Nothing,
        },
    }
}

/// What deleting the selected command button does.
#[derive(Clone, Debug)]
pub enum CommandDeleteStep {
    /// Shows `message` after clearing `clear`; nothing is deleted.
    Warn { message: String, clear: SelectionClear },
    /// Asks the user, with this title and prompt, whether to delete button `button_index` of tab
    /// `tab_index`; it is deleted only if the user agrees.
    Confirm { tab_index: usize, button_index: usize, title: String, prompt: String },
}

/// The question asked before a command button is deleted.
pub open spec fn delete_prompt(language: UiLanguage, name: Seq<char>, executable: Seq<char>) -> Seq<
    char,
> {
    match language {
        UiLanguage::Korean => "명령을 삭제할까요?\n\n이름: "@ + name + "\n실행 대상: "@ + executable,
        UiLanguage::English => "Delete this command?\n\nName: "@ + name + "\nExecutable: "@
            + executable,
    }
}

/// Whether `step` is a warning with exactly this text and cleared selection.
pub open spec fn delete_warns(step: CommandDeleteStep, text: Seq<char>, clear: SelectionClear) -> bool {
    step matches CommandDeleteStep::Warn { message, clear: c } && message@ == text && c == clear
}

/// Prepares deleting the selected command button: warns when no tab or no button is selected, or
/// when the selected button is gone (clearing it); otherwise asks for confirmation, naming the
/// button and its executable. `button` is the selected button as found in the selected tab.
pub fn command_button_delete_step(
    language: UiLanguage,
    selected_tab: Option<usize>,
    selected_button: Option<usize>,
    button: Option<&CommandButton>,
) -> (step: CommandDeleteStep)
    ensures
        selected_tab is None ==> delete_warns(
            step,
            ui_text(language, "명령 그룹을 선택하세요."@, "Select a command group."@),
            SelectionClear::Nothing,
        ),
        selected_tab is Some && selected_button is None ==> delete_warns(
            step,
            ui_text(language, "삭제할 명령을 선택하세요."@, "Select a command to delete."@),
            SelectionClear::Nothing,
        ),
        selected_tab is Some && selected_button is Some && button is None ==> delete_warns(
            step,
            ui_text(
                language,
                "선택한 명령을 찾을 수 없습니다."@,
                "The selected command could not be found."@,
            ),
            SelectionClear::Button,
        ),
        selected_tab is Some && selected_button is Some && button is Some ==> (step matches CommandDeleteStep::Confirm {
            tab_index,
            button_index,
            title,
            prompt,
        } && tab_index == selected_tab.unwrap() && button_index == selected_button.unwrap()
            && title@ == ui_text(language, "명령 삭제"@, "Delete Command"@) && prompt@
            == delete_prompt(
            language,
            button.unwrap().button_name@,
            button.unwrap().executable_path@,
        )),
{
    let tab_index = match selected_tab {
        Some(index) => index,
        None => {
            return CommandDeleteStep::Warn {
                message: string_of(tr(language, "명령 그룹을 선택하세요.", "Select a command group.")),
                clear: SelectionClear::Nothing,
            };
        },
    };
    let button_index = match selected_button {
        Some(index) => index,
        None => {
            return CommandDeleteStep::Warn {
                message: string_of(tr(language, "삭제할 명령을 선택하세요.", "Select a command to delete.")),
                clear: SelectionClear::Nothing,
            };
        },
    };
    let button = match button {
        Some(button) => button,
        None => {
            return CommandDeleteStep::Warn {
                message: string_of(
                    tr(
                        language,
                        "선택한 명령을 찾을 수 없습니다.",
                        "The selected command could not be found.",
                    ),
                ),
                clear: SelectionClear::Button,
            };
        },
    };
    let mut prompt = string_of(
        tr(language, "명령을 삭제할까요?\n\n이름: ", "Delete this command?\n\nName: "),
    );
    push_str(&mut prompt, button.button_name.as_str());
    push_str(&mut prompt, tr(language, "\n실행 대상: ", "\nExecutable: "));
    push_str(&mut prompt, button.executable_path.as_str());
    CommandDeleteStep::Confirm {
        tab_index,
        button_index,
        title: string_of(tr(language, "명령 삭제", "Delete Command")),
        prompt,
    }
}

/// What releasing a dragged command button does.
#[derive(Clone, Copy, Debug, PartialEq, Eq, Structural)]
pub enum CommandButtonDragFinish {
    /// The button was only clicked: runs button `button`.
    Execute { button: usize },
    /// No tab is selected: only the menus are brought up to date.
    UpdateMenus,
    /// The drop moves nothing: selects the dragged button `button` again.
    Reselect { button: usize },
    /// Moves button `from` of tab `tab_index` to place `to`.
    Move { tab_index: usize, from: usize, to: usize },
}

/// The step after a command button drag ends. `moved` tells whether the pointer went past the
/// drag threshold, `target` is the button cell under the pointer, and `tab_button_count` the
/// number of buttons of the selected tab (`None` when it could not be found, counted as none).
pub fn command_button_drag_finish_step(
    moved: bool,
    source: usize,
    target: Option<usize>,
    selected_tab: Option<usize>,
    tab_button_count: Option<usize>,
) -> (step: CommandButtonDragFinish)
    ensures
        !moved ==> step == (CommandButtonDragFinish::Execute { button: source }),
        moved && selected_tab is None ==> step == CommandButtonDragFinish::UpdateMenus,
        moved && selected_tab is Some ==> {
            let count = match tab_button_count {
                Some(count) => count,
                None => 0,
            };
            let can_drop = match target {
                Some(t) => source < count && t < count && source != t,
                None => false,
            };
            &&& can_drop ==> step == (CommandButtonDragFinish::Move {
                tab_index: selected_tab.unwrap(),
                from: source,
                to: target.unwrap(),
            })
            &&& !can_drop ==> step == (CommandButtonDragFinish::Reselect { button: source })
        },
{
    if !moved {
        return CommandButtonDragFinish::Execute { button: source };
    }
    let tab_index = match selected_tab {
        Some(index) => index,
        None => return CommandButtonDragFinish::UpdateMenus,
    };
    let count = match tab_button_count {
        Some(count) => count,
        None => 0,
    };
    let destination = match target {
        Some(t) => command_button_drop_destination(source, t, count),
        None => None,
    };
    match destination {
        Some(to) => CommandButtonDragFinish::Move { tab_index, from: source, to },
        None => CommandButtonDragFinish::Reselect { button: source },
    }
}

/// What renaming the selected command tab does.
#[derive(Clone, Debug)]
pub enum TabRenameStep {
    /// Shows `message` after clearing `clear`; nothing is renamed.
    Warn { message: String, clear: SelectionClear },
    /// Asks for the new name of tab `tab_index` in a text dialog with this title and prompt,
    /// starting from `initial`.
    AskName { tab_index: usize, title: String, prompt: String, initial: String },
}

/// Prepares renaming the selected command tab: warns when no tab is selected, or when it is gone
/// (clearing it); otherwise asks for the new name, starting from the current one. `tab_name` is
/// the name of the selected tab as found.
pub fn command_tab_rename_step(
    language: UiLanguage,
    selected_tab: Option<usize>,
    tab_name: Option<&str>,
) -> (step: TabRenameStep)
    ensures
        selected_tab is None ==> (step matches TabRenameStep::Warn { message, clear } && message@
            == ui_text(language, "이름을 바꿀 그룹을 선택하세요."@, "Select a group to rename."@)
            && clear == SelectionClear::Nothing),
        selected_tab is Some && tab_name is None ==> (step matches TabRenameStep::Warn {
            message,
            clear,
        } && message@ == ui_text(
            language,
            "선택한 명령 그룹을 찾을 수 없습니다."@,
            "The selected command group could not be found."@,
        ) && clear == SelectionClear::Tab),
        selected_tab is Some && tab_name is Some ==> (step matches TabRenameStep::AskName {
            tab_index,
            title,
            prompt,
            initial,
        } && tab_index == selected_tab.unwrap() && title@ == ui_text(
            language,
            "그룹 이름 변경"@,
            "Rename Group"@,
        ) && prompt@ == ui_text(language, "그룹 이름"@, "Group name"@) && initial@
            == tab_name.unwrap()@),
{
    let tab_index = match selected_tab {
        Some(index) => index,
        None => {
            return TabRenameStep::Warn {
                message: string_of(tr(language, "이름을 바꿀 그룹을 선택하세요.", "Select a group to rename.")),
                clear: SelectionClear::Nothing,
            };
        },
    };
    match tab_name {
        Some(name) => TabRenameStep::AskName {
            tab_index,
            title: string_of(tr(language, "그룹 이름 변경", "Rename Group")),
            prompt: string_of(tr(language, "그룹 이름", "Group name")),
            initial: string_of(name),
        },
        None => TabRenameStep::Warn {
            message: string_of(
                tr(
                    language,
                    "선택한 명령 그룹을 찾을 수 없습니다.",
                    "The selected command group could not be found.",
                ),
            ),
            clear: SelectionClear::Tab,
        },
    }
}

/// How running the selected command button starts.
#[derive(Clone, Debug)]
pub enum CommandRunStart {
    /// The selected button is gone: clears the button selection and shows `message`; the run is
    /// not handled.
    NotFound { message: String },
    /// The button cannot run with the workspace selection: records `status` as the status message
    /// and shows it as a warning.
    Blocked { status: String },
    /// Goes on to ask for the argument values and run.
    Resolve,
}

/// Starts running the selected command button. `button` is the selected button as found, and
/// `workspace_accessible` whether the selected workspace folder can be opened.
pub fn command_run_start(
    language: UiLanguage,
    button: Option<&CommandButton>,
    workspace: Option<&Workspace>,
    workspace_accessible: bool,
) -> (start: CommandRunStart)
    ensures
        button is None ==> (start matches CommandRunStart::NotFound { message } && message@
            == ui_text(
            language,
            "선택한 명령을 찾을 수 없습니다."@,
            "The selected command could not be found."@,
        )),
        button is Some ==> {
            let b = button.unwrap();
            let blocked = button_needs_workspace(*b) && (workspace is None || !workspace_accessible);
            &&& !blocked ==> start is Resolve
            &&& blocked ==> (start matches CommandRunStart::Blocked { status } && status@
                == blocking_status(*b, workspace, language))
        },
{
    let button = match button {
        Some(button) => button,
        None => {
            return CommandRunStart::NotFound {
                message: string_of(
                    tr(
                        language,
                        "선택한 명령을 찾을 수 없습니다.",
                        "The selected command could not be found.",
                    ),
                ),
            };
        },
    };
    match command_workspace_error(button, workspace, workspace_accessible) {
        Some(error) => {
            let status = error.user_message_for_language(language);
            CommandRunStart::Blocked { status }
        },
        None => CommandRunStart::Resolve,
    }
}

/// The status message when `button` cannot run with `workspace`: the message of a missing
/// workspace for an external-terminal button, of a required workspace for a shell button, or of
/// the workspace's folder that cannot be opened.
pub open spec fn blocking_status(
    button: CommandButton,
    workspace: Option<&Workspace>,
    language: UiLanguage,
) -> Seq<char> {
    match workspace {
        None => match button.execution_type {
            ExecutionType::ExternalTerminal => execution_message(
                CommandExecutionError::MissingWorkspaceForExternalTerminal,
                language,
            ),
            ExecutionType::ShellApi => execution_message(
                CommandExecutionError::ArgumentResolution {
                    source: ArgumentResolutionError::WorkspaceRequired,
                },
                language,
            ),
        },
        Some(w) => execution_message(
            CommandExecutionError::InaccessibleWorkspacePath { path: w.path },
            language,
        ),
    }
}

/// How a run of a command button ended.
#[derive(Clone, Debug)]
pub enum CommandRunOutcome {
    /// The user closed a dialog that asks for an argument value.
    Canceled,
    /// Preparing the arguments or starting the program failed.
    Failed(CommandExecutionError),
    /// The program was started.
    Completed,
}

/// What the window reports after a run: the status message it records, and whether the message
/// is also shown as an error.
pub struct CommandRunReport {
    pub status: String,
    pub show_error: bool,
}

/// The report after running `button_name`: "Run canceled" for a canceled run, the error's message
/// (also shown as an error) for a failed one, and "Run completed: " and the name otherwise.
pub fn command_run_report(language: UiLanguage, button_name: &str, outcome: &CommandRunOutcome) -> (report:
    CommandRunReport)
    ensures
        match outcome {
            CommandRunOutcome::Canceled => report.status@ == ui_text(
                language,
                "실행 취소"@,
                "Run canceled"@,
            ) && !report.show_error,
            CommandRunOutcome::Failed(error) => report.status@ == execution_message(
                *error,
                language,
            ) && report.show_error,
            CommandRunOutcome::Completed => report.status@ == ui_text(
                language,
                "실행 완료: "@,
                "Run completed: "@,
            ) + button_name@ && !report.show_error,
        },
{
    match outcome {
        CommandRunOutcome::Canceled => CommandRunReport {
            status: string_of(tr(language, "실행 취소", "Run canceled")),
            show_error: false,
        },
        CommandRunOutcome::Failed(error) => CommandRunReport {
            status: error.user_message_for_language(language),
            show_error: true,
        },
        CommandRunOutcome::Completed => CommandRunReport {
            status: run_completed_message(language, button_name),
            show_error: false,
        },
    }
}

/// What moving or deleting the selected command tab does.
#[derive(Clone, Debug)]
pub enum TabEditStep {
    /// Shows `message` after clearing `clear`; nothing changes.
    Warn { message: String, clear: SelectionClear },
    /// Moves tab `from` to place `to`.
    Move { from: usize, to: usize },
    /// Asks the user, with this title and prompt, whether to delete tab `tab_index` with its
    /// buttons; it is deleted only if the user agrees.
    ConfirmDelete { tab_index: usize, title: String, prompt: String },
}

/// Moves the selected command tab one place: warns when no tab is selected or it is already at
/// the end it moves towards.
pub fn command_tab_move_step(
    language: UiLanguage,
    selected_tab: Option<usize>,
    tab_count: usize,
    direction: CommandTabMoveDirection,
) -> (step: TabEditStep)
    ensures
        selected_tab is None ==> (step matches TabEditStep::Warn { message, clear } && message@
            == ui_text(language, "이동할 명령 그룹을 선택하세요."@, "Select a command group to move."@)
            && clear == SelectionClear::Nothing),
        selected_tab is Some ==> match step_destination(
            selected_tab.unwrap() as int,
            tab_count as int,
            direction == CommandTabMoveDirection::Right,
        ) {
            Some(to) => (step matches TabEditStep::Move { from, to: t } && from
                == selected_tab.unwrap() && t == to),
            None => (step matches TabEditStep::Warn { message, clear } && message@ == ui_text(
                language,
                "더 이동할 수 없습니다."@,
                "Cannot move any further."@,
            ) && clear == SelectionClear::Nothing),
        },
{
    let index = match selected_tab {
        Some(index) => index,
        None => {
            return TabEditStep::Warn {
                message: string_of(
                    tr(language, "이동할 명령 그룹을 선택하세요.", "Select a command group to move."),
                ),
                clear: SelectionClear::Nothing,
            };
        },
    };
    match command_tab_move_destination(index, tab_count, direction) {
        Some(to) => TabEditStep::Move { from: index, to },
        None => TabEditStep::Warn {
            message: string_of(tr(language, "더 이동할 수 없습니다.", "Cannot move any further.")),
            clear: SelectionClear::Nothing,
        },
    }
}

/// The question asked before a command tab is deleted.
pub open spec fn tab_delete_prompt(language: UiLanguage, name: Seq<char>, button_count: nat) -> Seq<
    char,
> {
    match language {
        UiLanguage::Korean => "명령 그룹을 삭제할까요?\n\n이름: "@ + name + "\n명령: "@ + decimal_digits(
            button_count,
        ) + "개\n포함된 명령도 삭제됩니다."@,
        UiLanguage::English => "Delete this command group?\n\nName: "@ + name + "\nCommands: "@
            + decimal_digits(button_count) + "\nIncluded commands will also be deleted."@,
    }
}

/// Prepares deleting the selected command tab: warns when no tab is selected, or when it is gone
/// (clearing it); otherwise asks for confirmation, naming the tab and how many buttons go with
/// it. `tab` is the selected tab's name and button count, as found.
pub fn command_tab_delete_step(
    language: UiLanguage,
    selected_tab: Option<usize>,
    tab: Option<(&str, usize)>,
) -> (step: TabEditStep)
    ensures
        selected_tab is None ==> (step matches TabEditStep::Warn { message, clear } && message@
            == ui_text(
            language,
            "삭제할 명령 그룹을 선택하세요."@,
            "Select a command group to delete."@,
        ) && clear == SelectionClear::Nothing),
        selected_tab is Some && tab is None ==> (step matches TabEditStep::Warn { message, clear }
            && message@ == ui_text(
            language,
            "선택한 명령 그룹을 찾을 수 없습니다."@,
            "The selected command group could not be found."@,
        ) && clear == SelectionClear::Tab),
        selected_tab is Some && tab is Some ==> (step matches TabEditStep::ConfirmDelete {
            tab_index,
            title,
            prompt,
        } && tab_index == selected_tab.unwrap() && title@ == ui_text(
            language,
            "명령 그룹 삭제"@,
            "Delete Command Group"@,
        ) && prompt@ == tab_delete_prompt(
            language,
            tab.unwrap().0@,
            tab.unwrap().1 as nat,
        )),
{
    let tab_index = match selected_tab {
        Some(index) => index,
        None => {
            return TabEditStep::Warn {
                message: string_of(
                    tr(language, "삭제할 명령 그룹을 선택하세요.", "Select a command group to delete."),
                ),
                clear: SelectionClear::Nothing,
            };
        },
    };
    let (name, count) = match tab {
        Some(found) => found,
        None => {
            return TabEditStep::Warn {
                message: string_of(
                    tr(
                        language,
                        "선택한 명령 그룹을 찾을 수 없습니다.",
                        "The selected command group could not be found.",
                    ),
                ),
                clear: SelectionClear::Tab,
            };
        },
    };
    let mut prompt = string_of(
        tr(language, "명령 그룹을 삭제할까요?\n\n이름: ", "Delete this command group?\n\nName: "),
    );
    push_str(&mut prompt, name);
    push_str(&mut prompt, tr(language, "\n명령: ", "\nCommands: "));
    let digits = unsigned_decimal(count as u64);
    push_str(&mut prompt, digits.as_str());
    push_str(
        &mut prompt,
        tr(language, "개\n포함된 명령도 삭제됩니다.", "\nIncluded commands will also be deleted."),
    );
    TabEditStep::ConfirmDelete {
        tab_index,
        title: string_of(tr(language, "명령 그룹 삭제", "Delete Command Group")),
        prompt,
    }
}

} // verus!
