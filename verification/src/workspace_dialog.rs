//! The decisions of the workspace dialog: the folders that another workspace already holds,
//! accepting the dialog after its folder has been checked in the background, and taking the
//! answer of a background language guess.
//!
//! The dialog window starts the checks and shows the warnings; these functions say, from the
//! dialog's state and what just happened, what it does next.

use vstd::prelude::*;

use crate::drop::{same_workspace_path, workspace_paths_equal};
use crate::execution::{opt_string_view, opt_view};
use crate::language::{tr, ui_text, UiLanguage};
use crate::model::{validation_message, DomainValidationError, Workspace};
use crate::text::{has_whitespace_only, is_blank, string_of};

verus! {

/// The paths of `workspaces` in order, leaving out the one at `except` (the workspace being
/// edited).
pub open spec fn paths_except(workspaces: Seq<Workspace>, except: Option<usize>) -> Seq<Seq<char>>
    decreases workspaces.len(),
{
    if workspaces.len() == 0 {
        Seq::empty()
    } else {
        let head = paths_except(workspaces.drop_last(), except);
        if except == Some((workspaces.len() - 1) as usize) {
            head
        } else {
            head.push(workspaces.last().path@)
        }
    }
}

/// The folders that the workspace dialog refuses: those of every workspace but the one at
/// `except_index`.
pub fn workspace_paths_except(workspaces: &Vec<Workspace>, except_index: Option<usize>) -> (paths:
    Vec<String>)
    ensures
        paths@.map_values(|p: String| p@) == paths_except(workspaces@, except_index),
{
    let mut paths: Vec<String> = Vec::new();
    let mut i: usize = 0;
    while i < workspaces.len()
        invariant
            i <= workspaces.len(),
            paths@.map_values(|p: String| p@) == paths_except(workspaces@.take(i as int), except_index),
        decreases workspaces.len() - i,
    {
        let ghost before = paths@.map_values(|p: String| p@);
        proof {
            assert(workspaces@.take(i + 1).drop_last() =~= workspaces@.take(i as int));
        }
        if except_index != Some(i) {
            paths.push(string_of(workspaces[i].path.as_str()));
            assert(paths@.map_values(|p: String| p@) =~= before.push(workspaces@[i as int].path@));
        }
        i = i + 1;
    }
    assert(workspaces@.take(workspaces.len() as int) =~= workspaces@);
    paths
}

/// Whether another workspace already holds `path`.
pub open spec fn path_is_reserved(reserved: Seq<Seq<char>>, path: Seq<char>) -> bool {
    exists|i: int| 0 <= i < reserved.len() && same_workspace_path(#[trigger] reserved[i], path)
}

/// Whether a chosen language is missing: none chosen, or blank.
pub open spec fn language_missing(language: Option<Seq<char>>) -> bool {
    match language {
        Some(value) => has_whitespace_only(value),
        None => true,
    }
}

/// Why the dialog's values cannot make a workspace, as the warning shown; `None` when they can.
/// The name is looked at first, then the language, then whether the folder is taken.
pub open spec fn accept_refusal(
    path: Seq<char>,
    name: Seq<char>,
    language: Option<Seq<char>>,
    reserved: Seq<Seq<char>>,
    ui_language: UiLanguage,
) -> Option<Seq<char>> {
    if has_whitespace_only(name) {
        Some(ui_text(ui_language, "이름을 입력하세요."@, "Enter a name."@))
    } else if language_missing(language) {
        Some(ui_text(ui_language, "언어를 선택하세요."@, "Select a language."@))
    } else if path_is_reserved(reserved, path) {
        Some(
            ui_text(ui_language, "이미 등록된 폴더입니다."@, "This folder is already registered."@),
        )
    } else if has_whitespace_only(path) {
        Some(validation_message(DomainValidationError::EmptyWorkspacePath, ui_language))
    } else {
        None
    }
}

/// Whether `workspace` is the top-level workspace made of the dialog's values.
pub open spec fn made_from(
    workspace: Workspace,
    path: Seq<char>,
    name: Seq<char>,
    language: Option<Seq<char>>,
) -> bool {
    &&& workspace.path@ == path
    &&& workspace.name@ == name
    &&& language == Some(workspace.language@)
    &&& workspace.category is None
}

fn reserved_path_position(reserved_paths: &Vec<String>, path: &str) -> (found: bool)
    ensures
        found == path_is_reserved(reserved_paths@.map_values(|p: String| p@), path@),
{
    let ghost reserved = reserved_paths@.map_values(|p: String| p@);
    let mut i: usize = 0;
    while i < reserved_paths.len()
        invariant
            i <= reserved_paths.len(),
            reserved == reserved_paths@.map_values(|p: String| p@),
            forall|k: int| 0 <= k < i ==> !same_workspace_path(#[trigger] reserved[k], path@),
        decreases reserved_paths.len() - i,
    {
        if workspace_paths_equal(reserved_paths[i].as_str(), path) {
            assert(same_workspace_path(reserved[i as int], path@));
            return true;
        }
        i = i + 1;
    }
    false
}

/// Makes the workspace from the dialog's values once its folder has been found accessible, or
/// gives the warning that keeps the dialog open.
pub fn workspace_dialog_finish_accept(
    path: &str,
    name: &str,
    language: Option<&str>,
    reserved_paths: &Vec<String>,
    ui_language: UiLanguage,
) -> (result: Result<Workspace, String>)
    ensures
        match accept_refusal(
            path@,
            name@,
            opt_view(language),
            reserved_paths@.map_values(|p: String| p@),
            ui_language,
        ) {
            Some(message) => result matches Err(shown) && shown@ == message,
            None => result matches Ok(workspace) && made_from(
                workspace,
                path@,
                name@,
                opt_view(language),
            ),
        },
{
    if is_blank(name) {
        return Err(string_of(tr(ui_language, "이름을 입력하세요.", "Enter a name.")));
    }
    let chosen = match language {
        Some(value) => {
            if is_blank(value) {
                return Err(string_of(tr(ui_language, "언어를 선택하세요.", "Select a language.")));
            }
            value
        },
        None => {
            return Err(string_of(tr(ui_language, "언어를 선택하세요.", "Select a language.")));
        },
    };
    if reserved_path_position(reserved_paths, path) {
        return Err(
            string_of(
                tr(ui_language, "이미 등록된 폴더입니다.", "This folder is already registered."),
            ),
        );
    }
    match Workspace::new(path, name, chosen) {
        Ok(workspace) => Ok(workspace),
        Err(error) => Err(error.user_message_for_language(ui_language)),
    }
}

/// An accept that waits for the background check of its folder.
#[derive(Clone, Debug)]
pub struct PendingWorkspacePathCheck {
    pub request_id: u32,
    pub path: String,
    pub name: String,
    pub language: Option<String>,
}

/// What the workspace dialog does next.
#[derive(Clone, Debug)]
pub enum WorkspaceDialogStep {
    /// Nothing: a folder check is already running, or an answer came for an earlier request.
    Wait,
    /// Shows this warning and stays open.
    Warn(String),
    /// Checks in the background whether the folder can be opened, for this request.
    CheckFolder { request_id: u32, path: String },
    /// Closes with this workspace.
    Accept(Workspace),
}

/// Whether a pending check holds exactly the dialog's values for `request_id`.
pub open spec fn pending_holds(
    pending: PendingWorkspacePathCheck,
    request_id: u32,
    path: Seq<char>,
    name: Seq<char>,
    language: Option<Seq<char>>,
) -> bool {
    &&& pending.request_id == request_id
    &&& pending.path@ == path
    &&& pending.name@ == name
    &&& opt_string_view(pending.language) == language
}

fn copy_language(language: &Option<String>) -> (copy: Option<String>)
    ensures
        opt_string_view(copy) == opt_string_view(*language),
{
    match language {
        Some(value) => Some(string_of(value.as_str())),
        None => None,
    }
}

/// OK was pressed with these values: wait while a check runs, warn when no folder is given, and
/// otherwise remember the values under `request_id` and check the folder.
pub fn workspace_dialog_try_accept(
    pending: &mut Option<PendingWorkspacePathCheck>,
    path: &str,
    name: &str,
    language: &Option<String>,
    request_id: u32,
    ui_language: UiLanguage,
) -> (step: WorkspaceDialogStep)
    ensures
        (*old(pending)) is Some ==> step is Wait && *final(pending) == *old(pending),
        (*old(pending)) is None && has_whitespace_only(path@) ==> {
            &&& step matches WorkspaceDialogStep::Warn(message) && message@ == ui_text(
                ui_language,
                "폴더를 선택하세요."@,
                "Select a folder."@,
            )
            &&& (*final(pending)) is None
        },
        (*old(pending)) is None && !has_whitespace_only(path@) ==> {
            &&& step matches WorkspaceDialogStep::CheckFolder { request_id: id, path: folder }
                && id == request_id && folder@ == path@
            &&& *final(pending) matches Some(waiting) && pending_holds(
                waiting,
                request_id,
                path@,
                name@,
                opt_string_view(*language),
            )
        },
{
    if pending.is_some() {
        return WorkspaceDialogStep::Wait;
    }
    if is_blank(path) {
        return WorkspaceDialogStep::Warn(string_of(tr(ui_language, "폴더를 선택하세요.", "Select a folder.")));
    }
    *pending = Some(
        PendingWorkspacePathCheck {
            request_id,
            path: string_of(path),
            name: string_of(name),
            language: copy_language(language),
        },
    );
    WorkspaceDialogStep::CheckFolder { request_id, path: string_of(path) }
}

/// The folder check could not be started: forget the waiting accept and warn.
pub fn workspace_dialog_check_not_started(
    pending: &mut Option<PendingWorkspacePathCheck>,
    ui_language: UiLanguage,
) -> (message: String)
    ensures
        (*final(pending)) is None,
        message@ == ui_text(
            ui_language,
            "폴더를 확인할 수 없습니다."@,
            "Could not validate the folder."@,
        ),
{
    *pending = None;
    string_of(tr(ui_language, "폴더를 확인할 수 없습니다.", "Could not validate the folder."))
}

/// The background check of request `request_id` answered: an answer for another request is
/// ignored; otherwise the waiting accept is taken, and it is refused when the folder cannot be
/// opened or finished with the values it remembered.
pub fn workspace_dialog_complete_path_validation(
    pending: &mut Option<PendingWorkspacePathCheck>,
    request_id: u32,
    accessible: bool,
    reserved_paths: &Vec<String>,
    ui_language: UiLanguage,
) -> (step: WorkspaceDialogStep)
    ensures
        (*old(pending)) is None ==> step is Wait && (*final(pending)) is None,
        (*old(pending)) is Some && old(pending).unwrap().request_id != request_id ==> step is Wait
            && *final(pending) == *old(pending),
        (*old(pending)) is Some && old(pending).unwrap().request_id == request_id ==> (*final(pending)) is None,
        (*old(pending)) is Some && old(pending).unwrap().request_id == request_id && !accessible ==> (
        step matches WorkspaceDialogStep::Warn(message) && message@ == ui_text(
            ui_language,
            "접근 가능한 폴더를 선택하세요."@,
            "Select an accessible folder."@,
        )),
        (*old(pending)) is Some && old(pending).unwrap().request_id == request_id && accessible ==> (
        match accept_refusal(
            old(pending).unwrap().path@,
            old(pending).unwrap().name@,
            opt_string_view(old(pending).unwrap().language),
            reserved_paths@.map_values(|p: String| p@),
            ui_language,
        ) {
            Some(refusal) => step matches WorkspaceDialogStep::Warn(message) && message@ == refusal,
            None => step matches WorkspaceDialogStep::Accept(workspace) && made_from(
                workspace,
                old(pending).unwrap().path@,
                old(pending).unwrap().name@,
                opt_string_view(old(pending).unwrap().language),
            ),
        }),
{
    let waiting = match pending.take() {
        Some(waiting) => waiting,
        None => return WorkspaceDialogStep::Wait,
    };
    if waiting.request_id != request_id {
        *pending = Some(waiting);
        return WorkspaceDialogStep::Wait;
    }
    if !accessible {
        return WorkspaceDialogStep::Warn(
            string_of(
                tr(ui_language, "접근 가능한 폴더를 선택하세요.", "Select an accessible folder."),
            ),
        );
    }
    let language = match &waiting.language {
        Some(value) => Some(value.as_str()),
        None => None,
    };
    match workspace_dialog_finish_accept(
        waiting.path.as_str(),
        waiting.name.as_str(),
        language,
        reserved_paths,
        ui_language,
    ) {
        Ok(workspace) => WorkspaceDialogStep::Accept(workspace),
        Err(message) => WorkspaceDialogStep::Warn(message),
    }
}

/// A language guess answered for `request_id`: true when it is the guess that runs, which is then
/// over; an answer for another guess changes nothing.
pub fn workspace_dialog_take_language_guess(pending: &mut Option<u32>, request_id: u32) -> (current:
    bool)
    ensures
        current == (*old(pending) == Some(request_id)),
        current ==> (*final(pending)) is None,
        !current ==> *final(pending) == *old(pending),
{
    if *pending == Some(request_id) {
        *pending = None;
        true
    } else {
        false
    }
}

/// Stops waiting for a language guess; true when one was running.
pub fn workspace_dialog_cancel_language_guess(pending: &mut Option<u32>) -> (was_running: bool)
    ensures
        was_running == (*old(pending)) is Some,
        (*final(pending)) is None,
{
    pending.take().is_some()
}

} // verus!
