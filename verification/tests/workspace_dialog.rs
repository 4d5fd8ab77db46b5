use j3devhelper::language::UiLanguage;
use j3devhelper::model::Workspace;
use j3devhelper::workspace_dialog::{
    workspace_dialog_cancel_language_guess, workspace_dialog_check_not_started,
    workspace_dialog_complete_path_validation, workspace_dialog_finish_accept,
    workspace_dialog_take_language_guess, workspace_dialog_try_accept, workspace_paths_except,
    PendingWorkspacePathCheck, WorkspaceDialogStep,
};

fn workspace(path: &str, name: &str) -> Workspace {
    Workspace::new(path, name, "Rust").expect("workspace should be valid")
}

#[test]
fn reserved_paths_leave_out_the_edited_workspace() {
    let workspaces = vec![workspace(r"C:\a", "A"), workspace(r"C:\b", "B"), workspace(r"C:\c", "C")];
    assert_eq!(workspace_paths_except(&workspaces, None), vec![r"C:\a", r"C:\b", r"C:\c"]);
    assert_eq!(workspace_paths_except(&workspaces, Some(1)), vec![r"C:\a", r"C:\c"]);
    assert_eq!(workspace_paths_except(&workspaces, Some(7)), vec![r"C:\a", r"C:\b", r"C:\c"]);
}

#[test]
fn finishing_an_accept_checks_name_language_and_taken_folders() {
    let reserved = vec![r"C:\Work\App".to_owned()];
    let english = UiLanguage::English;
    assert_eq!(
        workspace_dialog_finish_accept(r"C:\New", "  ", Some("Rust"), &reserved, english).unwrap_err(),
        "Enter a name."
    );
    assert_eq!(
        workspace_dialog_finish_accept(r"C:\New", "New", None, &reserved, english).unwrap_err(),
        "Select a language."
    );
    assert_eq!(
        workspace_dialog_finish_accept(r"C:\New", "New", Some(" "), &reserved, english).unwrap_err(),
        "Select a language."
    );
    assert_eq!(
        workspace_dialog_finish_accept(r"c:\work\app", "App", Some("Rust"), &reserved, english)
            .unwrap_err(),
        "This folder is already registered."
    );
    assert_eq!(
        workspace_dialog_finish_accept(r"c:\work\app", "App", Some("Rust"), &reserved, UiLanguage::Korean)
            .unwrap_err(),
        "이미 등록된 폴더입니다."
    );
    let accepted =
        workspace_dialog_finish_accept(r"C:\New", "New", Some("Go"), &reserved, english).unwrap();
    assert_eq!(accepted.path, r"C:\New");
    assert_eq!(accepted.name, "New");
    assert_eq!(accepted.language, "Go");
    assert_eq!(accepted.category, None);
}

#[test]
fn accepting_checks_the_folder_before_closing() {
    let english = UiLanguage::English;
    let mut pending: Option<PendingWorkspacePathCheck> = None;
    match workspace_dialog_try_accept(&mut pending, "  ", "App", &Some("Rust".to_owned()), 1, english) {
        WorkspaceDialogStep::Warn(message) => assert_eq!(message, "Select a folder."),
        other => panic!("unexpected step: {other:?}"),
    }
    assert!(pending.is_none());

    match workspace_dialog_try_accept(&mut pending, r"C:\App", "App", &Some("Rust".to_owned()), 2, english) {
        WorkspaceDialogStep::CheckFolder { request_id, path } => {
            assert_eq!(request_id, 2);
            assert_eq!(path, r"C:\App");
        }
        other => panic!("unexpected step: {other:?}"),
    }
    let waiting = pending.clone().expect("the accept should wait for the check");
    assert_eq!(waiting.request_id, 2);
    assert_eq!(waiting.name, "App");

    assert!(matches!(
        workspace_dialog_try_accept(&mut pending, r"C:\Other", "Other", &None, 3, english),
        WorkspaceDialogStep::Wait
    ));
    assert_eq!(pending.as_ref().map(|p| p.request_id), Some(2));

    let reserved: Vec<String> = Vec::new();
    assert!(matches!(
        workspace_dialog_complete_path_validation(&mut pending, 9, true, &reserved, english),
        WorkspaceDialogStep::Wait
    ));
    assert!(pending.is_some());

    match workspace_dialog_complete_path_validation(&mut pending, 2, true, &reserved, english) {
        WorkspaceDialogStep::Accept(workspace) => {
            assert_eq!(workspace.path, r"C:\App");
            assert_eq!(workspace.name, "App");
            assert_eq!(workspace.language, "Rust");
        }
        other => panic!("unexpected step: {other:?}"),
    }
    assert!(pending.is_none());
    assert!(matches!(
        workspace_dialog_complete_path_validation(&mut pending, 2, true, &reserved, english),
        WorkspaceDialogStep::Wait
    ));
}

#[test]
fn an_inaccessible_or_taken_folder_keeps_the_dialog_open() {
    let english = UiLanguage::English;
    let mut pending: Option<PendingWorkspacePathCheck> = None;
    workspace_dialog_try_accept(&mut pending, r"C:\Gone", "Gone", &Some("Rust".to_owned()), 4, english);
    match workspace_dialog_complete_path_validation(&mut pending, 4, false, &Vec::new(), english) {
        WorkspaceDialogStep::Warn(message) => assert_eq!(message, "Select an accessible folder."),
        other => panic!("unexpected step: {other:?}"),
    }
    assert!(pending.is_none());

    workspace_dialog_try_accept(&mut pending, r"C:\Taken", "Taken", &Some("Rust".to_owned()), 5, english);
    let reserved = vec![r"C:\TAKEN".to_owned()];
    match workspace_dialog_complete_path_validation(&mut pending, 5, true, &reserved, english) {
        WorkspaceDialogStep::Warn(message) => {
            assert_eq!(message, "This folder is already registered.")
        }
        other => panic!("unexpected step: {other:?}"),
    }

    workspace_dialog_try_accept(&mut pending, r"C:\Later", "Later", &None, 6, english);
    assert_eq!(
        workspace_dialog_check_not_started(&mut pending, english),
        "Could not validate the folder."
    );
    assert!(pending.is_none());
}

#[test]
fn only_the_running_language_guess_is_taken() {
    let mut pending = Some(7u32);
    assert!(!workspace_dialog_take_language_guess(&mut pending, 6));
    assert_eq!(pending, Some(7));
    assert!(workspace_dialog_take_language_guess(&mut pending, 7));
    assert_eq!(pending, None);
    assert!(!workspace_dialog_cancel_language_guess(&mut pending));
    let mut running = Some(8u32);
    assert!(workspace_dialog_cancel_language_guess(&mut running));
    assert_eq!(running, None);
}
