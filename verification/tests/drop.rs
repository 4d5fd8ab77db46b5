use j3devhelper::drop::{
    hdrop_copied_path_len, hdrop_path_buffer_len, hdrop_path_count_capacity,
    infer_workspace_language_from_folder_entries,
    infer_workspace_language_from_limited_entry_names, marker_language_of,
    reject_duplicate_workspace_drop_path, validate_single_workspace_drop_path,
    validate_workspace_drop_paths_against_workspaces, workspace_drop_reject_message,
    workspace_paths_equal, DropDataError, WorkspaceDropRejectReason, MAX_HDROP_PATHS_TO_READ,
    MAX_HDROP_PATH_CHARS, WORKSPACE_LANGUAGE_INFERENCE_ENTRY_LIMIT,
};
use j3devhelper::language::UiLanguage;
use j3devhelper::model::Workspace;

#[test]
fn hdrop_path_count_capacity_rejects_excessive_counts() {
    assert_eq!(hdrop_path_count_capacity(MAX_HDROP_PATHS_TO_READ), Ok(16));
    assert_eq!(
        hdrop_path_count_capacity(MAX_HDROP_PATHS_TO_READ + 1),
        Err(DropDataError::TooManyHdropItems)
    );
}

#[test]
fn hdrop_path_buffer_len_rejects_oversized_lengths() {
    assert_eq!(hdrop_path_buffer_len(0), Ok(1));
    assert_eq!(hdrop_path_buffer_len(MAX_HDROP_PATH_CHARS), Ok(32_768));
    assert_eq!(
        hdrop_path_buffer_len(MAX_HDROP_PATH_CHARS + 1),
        Err(DropDataError::InvalidHdropPathLength)
    );
}

#[test]
fn hdrop_copied_path_len_rejects_unexpected_copy_lengths() {
    assert_eq!(hdrop_copied_path_len(4, 4), Ok(4));
    assert_eq!(
        hdrop_copied_path_len(5, 4),
        Err(DropDataError::InvalidHdropPathLength)
    );
}

#[test]
fn workspace_drop_feedback_validation_allows_missing_single_paths_without_fs_access() {
    let paths = vec!["Z:\\slow-or-missing\\workspace".to_owned()];

    let result = validate_workspace_drop_paths_against_workspaces(&paths, &vec![]);

    assert_eq!(result, Ok(paths[0].as_str()));
}

#[test]
fn workspace_drop_feedback_validation_rejects_duplicate_paths_without_fs_access() {
    let paths = vec!["Z:\\slow-or-missing\\workspace".to_owned()];
    let workspace = Workspace::new(&paths[0], "existing", "Rust").expect("workspace should be valid");

    let result = validate_workspace_drop_paths_against_workspaces(&paths, &vec![workspace]);

    assert_eq!(
        result,
        Err(WorkspaceDropRejectReason::DuplicatePath {
            path: paths[0].clone(),
            name: "existing".to_owned(),
        })
    );
}

#[test]
fn workspace_language_inference_keeps_small_folder_detection() {
    let language =
        infer_workspace_language_from_limited_entry_names(&vec![Some("Cargo.toml".to_owned())]);

    assert_eq!(language, Some("Rust"));
}

#[test]
fn workspace_language_inference_does_not_read_past_entry_limit() {
    let mut entry_names: Vec<Option<String>> = (0..WORKSPACE_LANGUAGE_INFERENCE_ENTRY_LIMIT)
        .map(|_| Some("notes.txt".to_owned()))
        .collect();
    entry_names.push(Some("Cargo.toml".to_owned()));

    assert!(infer_workspace_language_from_limited_entry_names(&entry_names).is_none());
}

#[test]
fn language_inference_skips_unreadable_entries_and_uses_first_marker() {
    let entries = vec![
        None,
        Some("README.md".to_owned()),
        Some("GO.MOD".to_owned()),
        Some("Cargo.toml".to_owned()),
    ];
    assert_eq!(infer_workspace_language_from_folder_entries(&entries), Some("Go"));
    assert_eq!(infer_workspace_language_from_folder_entries(&vec![]), None);
    assert_eq!(marker_language_of("package.json"), Some("JavaScript"));
    assert_eq!(marker_language_of("requirements.txt"), Some("Python"));
    assert_eq!(marker_language_of("pom.xml"), Some("Java"));
    assert_eq!(marker_language_of("CMakeLists.txt"), Some("C++"));
    assert_eq!(marker_language_of("Cargo.lock"), None);
}

#[test]
fn drop_validation_counts_items() {
    assert_eq!(
        validate_single_workspace_drop_path(&vec![]),
        Err(WorkspaceDropRejectReason::Empty)
    );
    let two = vec!["C:\\a".to_owned(), "C:\\b".to_owned()];
    assert_eq!(
        validate_single_workspace_drop_path(&two),
        Err(WorkspaceDropRejectReason::MultipleItems(2))
    );
    assert_eq!(
        validate_workspace_drop_paths_against_workspaces(&two, &vec![]),
        Err(WorkspaceDropRejectReason::MultipleItems(2))
    );
}

#[test]
fn duplicate_check_ignores_ascii_case_and_names_first_match() {
    let first = Workspace::new("C:\\Work\\App", "first", "Rust").expect("workspace should be valid");
    let second = Workspace::new("c:\\work\\app", "second", "Rust").expect("workspace should be valid");
    let other = Workspace::new("C:\\Other", "other", "Rust").expect("workspace should be valid");
    assert!(workspace_paths_equal("C:\\WORK\\app", "c:\\work\\APP"));
    assert!(!workspace_paths_equal("C:\\Work\\App2", "C:\\Work\\App"));
    assert_eq!(
        reject_duplicate_workspace_drop_path("C:\\work\\APP", &vec![other.clone(), first, second]),
        Err(WorkspaceDropRejectReason::DuplicatePath {
            path: "C:\\work\\APP".to_owned(),
            name: "first".to_owned(),
        })
    );
    assert_eq!(reject_duplicate_workspace_drop_path("C:\\New", &vec![other]), Ok(()));
}

#[test]
fn reject_messages_name_the_reason_in_each_language() {
    assert_eq!(
        workspace_drop_reject_message(UiLanguage::Korean, WorkspaceDropRejectReason::Empty),
        "폴더 하나를 드롭하세요."
    );
    assert_eq!(
        workspace_drop_reject_message(UiLanguage::English, WorkspaceDropRejectReason::Empty),
        "Drop one folder."
    );
    assert_eq!(
        workspace_drop_reject_message(
            UiLanguage::Korean,
            WorkspaceDropRejectReason::MultipleItems(3)
        ),
        "폴더 하나만 드롭하세요. (3개 선택됨)"
    );
    assert_eq!(
        workspace_drop_reject_message(
            UiLanguage::English,
            WorkspaceDropRejectReason::MultipleItems(12)
        ),
        "Drop only one folder. (12 items selected)"
    );
    assert_eq!(
        workspace_drop_reject_message(
            UiLanguage::English,
            WorkspaceDropRejectReason::NotFolder("C:\\a.txt".to_owned())
        ),
        "Files cannot be registered. Drop a folder.\n\nItem: C:\\a.txt"
    );
    assert_eq!(
        workspace_drop_reject_message(
            UiLanguage::Korean,
            WorkspaceDropRejectReason::UnreadableFolder("C:\\x".to_owned())
        ),
        "폴더를 열 수 없습니다.\n\n폴더: C:\\x"
    );
    assert_eq!(
        workspace_drop_reject_message(
            UiLanguage::English,
            WorkspaceDropRejectReason::DuplicatePath {
                path: "C:\\app".to_owned(),
                name: "app".to_owned(),
            }
        ),
        "This folder is already registered.\n\nName: app\nFolder: C:\\app"
    );
    assert_eq!(
        workspace_drop_reject_message(
            UiLanguage::Korean,
            WorkspaceDropRejectReason::DuplicatePath {
                path: "C:\\app".to_owned(),
                name: "app".to_owned(),
            }
        ),
        "이미 등록된 폴더입니다.\n\n이름: app\n폴더: C:\\app"
    );
}
