//! Folders dropped on the workspace tree: bounds on the dropped-file data that is read, the checks
//! a dropped folder must pass, the messages for a refused drop, and the language guessed from the
//! folder's entries.

use vstd::prelude::*;

use crate::execution::opt_view;
use crate::language::UiLanguage;
use crate::model::Workspace;
use crate::text::{
    decimal_digits, eq_ignore_ascii_case, equal_ignoring_ascii_case, push_str, string_of,
    unsigned_decimal,
};

verus! {

/// At most this many dropped items are read; a workspace drop takes one folder, and a few more
/// are read only to explain the refusal.
pub const MAX_HDROP_PATHS_TO_READ: u32 = 16;

/// The longest dropped path that is read, in UTF-16 units.
pub const MAX_HDROP_PATH_CHARS: u32 = 32_767;

/// At most this many folder entries are looked at to guess a workspace's language.
pub const WORKSPACE_LANGUAGE_INFERENCE_ENTRY_LIMIT: usize = 256;

/// Why the dropped-file data could not be read.
#[derive(Clone, Copy, Debug, PartialEq, Eq, Structural)]
pub enum DropDataError {
    MissingDataObject,
    GetDataFailed,
    MissingHdrop,
    TooManyHdropItems,
    InvalidHdropPathLength,
}

/// The capacity to reserve for `count` dropped paths; too many items are refused.
pub fn hdrop_path_count_capacity(count: u32) -> (capacity: Result<usize, DropDataError>)
    ensures
        count > MAX_HDROP_PATHS_TO_READ ==> capacity == Err::<usize, _>(
            DropDataError::TooManyHdropItems,
        ),
        count <= MAX_HDROP_PATHS_TO_READ ==> capacity == Ok::<usize, DropDataError>(
            count as usize,
        ),
{
    if count > MAX_HDROP_PATHS_TO_READ {
        return Err(DropDataError::TooManyHdropItems);
    }
    Ok(count as usize)
}

/// The buffer length for a dropped path of `path_len` units, with room for the terminating NUL;
/// an overlong path is refused.
pub fn hdrop_path_buffer_len(path_len: u32) -> (buffer_len: Result<usize, DropDataError>)
    ensures
        path_len > MAX_HDROP_PATH_CHARS ==> buffer_len == Err::<usize, _>(
            DropDataError::InvalidHdropPathLength,
        ),
        path_len <= MAX_HDROP_PATH_CHARS ==> buffer_len == Ok::<usize, DropDataError>(
            (path_len + 1) as usize,
        ),
{
    if path_len > MAX_HDROP_PATH_CHARS {
        return Err(DropDataError::InvalidHdropPathLength);
    }
    Ok(path_len as usize + 1)
}

/// The number of path units copied, which may not exceed the length queried before the copy.
pub fn hdrop_copied_path_len(copied_len: u32, queried_len: u32) -> (len: Result<
    usize,
    DropDataError,
>)
    ensures
        copied_len > queried_len ==> len == Err::<usize, _>(DropDataError::InvalidHdropPathLength),
        copied_len <= queried_len ==> len == Ok::<usize, DropDataError>(copied_len as usize),
{
    if copied_len > queried_len {
        return Err(DropDataError::InvalidHdropPathLength);
    }
    Ok(copied_len as usize)
}

/// Why a dropped item is not added as a workspace.
#[derive(Clone, Debug, PartialEq, Eq)]
pub enum WorkspaceDropRejectReason {
    Empty,
    MultipleItems(usize),
    NotFolder(String),
    UnreadableFolder(String),
    DuplicatePath { path: String, name: String },
}

/// Whether two workspace paths name the same folder: Windows paths are compared without ASCII
/// case.
pub open spec fn same_workspace_path(left: Seq<char>, right: Seq<char>) -> bool {
    equal_ignoring_ascii_case(left, right)
}

/// Whether two workspace paths name the same folder.
pub fn workspace_paths_equal(left: &str, right: &str) -> (equal: bool)
    ensures
        equal == same_workspace_path(left@, right@),
{
    eq_ignore_ascii_case(left, right)
}

/// A drop must hold exactly one item; that item's path is returned.
pub fn validate_single_workspace_drop_path(paths: &Vec<String>) -> (path: Result<
    &str,
    WorkspaceDropRejectReason,
>)
    ensures
        paths@.len() == 0 ==> path == Err::<&str, _>(WorkspaceDropRejectReason::Empty),
        paths@.len() > 1 ==> path == Err::<&str, _>(
            WorkspaceDropRejectReason::MultipleItems(paths@.len() as usize),
        ),
        paths@.len() == 1 ==> (path matches Ok(p) && p@ == paths@[0]@),
{
    if paths.len() == 0 {
        return Err(WorkspaceDropRejectReason::Empty);
    }
    if paths.len() > 1 {
        return Err(WorkspaceDropRejectReason::MultipleItems(paths.len()));
    }
    Ok(paths[0].as_str())
}

/// Whether workspace `index` is the first one registered at `path`.
pub open spec fn is_first_duplicate(workspaces: Seq<Workspace>, path: Seq<char>, index: int) -> bool {
    &&& 0 <= index < workspaces.len()
    &&& same_workspace_path(workspaces[index].path@, path)
    &&& forall|k: int|
        0 <= k < index ==> !same_workspace_path(#[trigger] workspaces[k].path@, path)
}

/// Whether `reason` refuses `path` as the folder of the workspace named `name`.
pub open spec fn names_duplicate(
    reason: WorkspaceDropRejectReason,
    path: Seq<char>,
    name: Seq<char>,
) -> bool {
    match reason {
        WorkspaceDropRejectReason::DuplicatePath { path: p, name: n } => p@ == path && n@ == name,
        _ => false,
    }
}

/// Refuses a path that a workspace is already registered at, naming the first such workspace.
pub fn reject_duplicate_workspace_drop_path(path: &str, workspaces: &Vec<Workspace>) -> (result:
    Result<(), WorkspaceDropRejectReason>)
    ensures
        result is Ok <==> forall|k: int|
            0 <= k < workspaces@.len() ==> !same_workspace_path(
                #[trigger] workspaces@[k].path@,
                path@,
            ),
        result matches Err(reason) ==> exists|index: int|
            #[trigger] is_first_duplicate(workspaces@, path@, index) && names_duplicate(
                reason,
                path@,
                workspaces@[index].name@,
            ),
{
    let mut k: usize = 0;
    while k < workspaces.len()
        invariant
            k <= workspaces.len(),
            forall|j: int|
                0 <= j < k ==> !same_workspace_path(#[trigger] workspaces@[j].path@, path@),
        decreases workspaces.len() - k,
    {
        if workspace_paths_equal(workspaces[k].path.as_str(), path) {
            assert(is_first_duplicate(workspaces@, path@, k as int));
            return Err(
                WorkspaceDropRejectReason::DuplicatePath {
                    path: string_of(path),
                    name: string_of(workspaces[k].name.as_str()),
                },
            );
        }
        k = k + 1;
    }
    Ok(())
}

/// Checks a drop before any file-system access: one item, not registered yet.
pub fn validate_workspace_drop_paths_against_workspaces<'a>(
    paths: &'a Vec<String>,
    workspaces: &Vec<Workspace>,
) -> (result: Result<&'a str, WorkspaceDropRejectReason>)
    ensures
        paths@.len() == 0 ==> result == Err::<&str, _>(WorkspaceDropRejectReason::Empty),
        paths@.len() > 1 ==> result == Err::<&str, _>(
            WorkspaceDropRejectReason::MultipleItems(paths@.len() as usize),
        ),
        paths@.len() == 1 ==> {
            &&& result is Ok <==> forall|k: int|
                0 <= k < workspaces@.len() ==> !same_workspace_path(
                    #[trigger] workspaces@[k].path@,
                    paths@[0]@,
                )
            &&& result matches Ok(p) ==> p@ == paths@[0]@
            &&& result matches Err(reason) ==> exists|index: int|
                #[trigger] is_first_duplicate(workspaces@, paths@[0]@, index) && names_duplicate(
                    reason,
                    paths@[0]@,
                    workspaces@[index].name@,
                )
        },
{
    let path = match validate_single_workspace_drop_path(paths) {
        Ok(path) => path,
        Err(reason) => return Err(reason),
    };
    match reject_duplicate_workspace_drop_path(path, workspaces) {
        Ok(()) => Ok(path),
        Err(reason) => Err(reason),
    }
}

/// The message shown for a refused drop.
pub open spec fn reject_message_text(language: UiLanguage, reason: WorkspaceDropRejectReason) -> Seq<
    char,
> {
    match (language, reason) {
        (UiLanguage::Korean, WorkspaceDropRejectReason::Empty) => "폴더 하나를 드롭하세요."@,
        (UiLanguage::English, WorkspaceDropRejectReason::Empty) => "Drop one folder."@,
        (UiLanguage::Korean, WorkspaceDropRejectReason::MultipleItems(count)) => "폴더 하나만 드롭하세요. ("@
            + decimal_digits(count as nat) + "개 선택됨)"@,
        (UiLanguage::English, WorkspaceDropRejectReason::MultipleItems(count)) => "Drop only one folder. ("@
            + decimal_digits(count as nat) + " items selected)"@,
        (UiLanguage::Korean, WorkspaceDropRejectReason::NotFolder(path)) =>
            "파일은 등록할 수 없습니다. 폴더를 드롭하세요.\n\n항목: "@ + path@,
        (UiLanguage::English, WorkspaceDropRejectReason::NotFolder(path)) =>
            "Files cannot be registered. Drop a folder.\n\nItem: "@ + path@,
        (UiLanguage::Korean, WorkspaceDropRejectReason::UnreadableFolder(path)) =>
            "폴더를 열 수 없습니다.\n\n폴더: "@ + path@,
        (UiLanguage::English, WorkspaceDropRejectReason::UnreadableFolder(path)) =>
            "Could not open the folder.\n\nFolder: "@ + path@,
        (UiLanguage::Korean, WorkspaceDropRejectReason::DuplicatePath { path, name }) =>
            "이미 등록된 폴더입니다.\n\n이름: "@ + name@ + "\n폴더: "@ + path@,
        (UiLanguage::English, WorkspaceDropRejectReason::DuplicatePath { path, name }) =>
            "This folder is already registered.\n\nName: "@ + name@ + "\nFolder: "@ + path@,
    }
}

fn text_of_two(first: &str, last: &str) -> (text: String)
    ensures
        text@ == first@ + last@,
{
    let mut text = string_of(first);
    push_str(&mut text, last);
    text
}

fn text_of_pieces(first: &str, middle: &str, last: &str) -> (text: String)
    ensures
        text@ == first@ + middle@ + last@,
{
    let mut text = string_of(first);
    push_str(&mut text, middle);
    push_str(&mut text, last);
    text
}

/// Builds the message shown for a refused drop.
pub fn workspace_drop_reject_message(language: UiLanguage, reason: WorkspaceDropRejectReason) -> (message:
    String)
    ensures
        message@ == reject_message_text(language, reason),
{
    match (language, reason) {
        (UiLanguage::Korean, WorkspaceDropRejectReason::Empty) => string_of("폴더 하나를 드롭하세요."),
        (UiLanguage::English, WorkspaceDropRejectReason::Empty) => string_of("Drop one folder."),
        (UiLanguage::Korean, WorkspaceDropRejectReason::MultipleItems(count)) => {
            let digits = unsigned_decimal(count as u64);
            text_of_pieces("폴더 하나만 드롭하세요. (", digits.as_str(), "개 선택됨)")
        },
        (UiLanguage::English, WorkspaceDropRejectReason::MultipleItems(count)) => {
            let digits = unsigned_decimal(count as u64);
            text_of_pieces("Drop only one folder. (", digits.as_str(), " items selected)")
        },
        (UiLanguage::Korean, WorkspaceDropRejectReason::NotFolder(path)) => text_of_two(
            "파일은 등록할 수 없습니다. 폴더를 드롭하세요.\n\n항목: ",
            path.as_str(),
        ),
        (UiLanguage::English, WorkspaceDropRejectReason::NotFolder(path)) => text_of_two(
            "Files cannot be registered. Drop a folder.\n\nItem: ",
            path.as_str(),
        ),
        (UiLanguage::Korean, WorkspaceDropRejectReason::UnreadableFolder(path)) => text_of_two(
            "폴더를 열 수 없습니다.\n\n폴더: ",
            path.as_str(),
        ),
        (UiLanguage::English, WorkspaceDropRejectReason::UnreadableFolder(path)) => text_of_two(
            "Could not open the folder.\n\nFolder: ",
            path.as_str(),
        ),
        (UiLanguage::Korean, WorkspaceDropRejectReason::DuplicatePath { path, name }) => {
            let mut text = text_of_pieces("이미 등록된 폴더입니다.\n\n이름: ", name.as_str(), "\n폴더: ");
            push_str(&mut text, path.as_str());
            text
        },
        (UiLanguage::English, WorkspaceDropRejectReason::DuplicatePath { path, name }) => {
            let mut text = text_of_pieces(
                "This folder is already registered.\n\nName: ",
                name.as_str(),
                "\nFolder: ",
            );
            push_str(&mut text, path.as_str());
            text
        },
    }
}


/// The language that a folder entry marks, by its file name (compared without ASCII case).
pub open spec fn marker_language(name: Seq<char>) -> Option<Seq<char>> {
    if equal_ignoring_ascii_case(name, "Cargo.toml"@) {
        Some("Rust"@)
    } else if equal_ignoring_ascii_case(name, "go.mod"@) {
        Some("Go"@)
    } else if equal_ignoring_ascii_case(name, "package.json"@) {
        Some("JavaScript"@)
    } else if equal_ignoring_ascii_case(name, "pyproject.toml"@) || equal_ignoring_ascii_case(
        name,
        "requirements.txt"@,
    ) {
        Some("Python"@)
    } else if equal_ignoring_ascii_case(name, "pom.xml"@) || equal_ignoring_ascii_case(
        name,
        "build.gradle"@,
    ) {
        Some("Java"@)
    } else if equal_ignoring_ascii_case(name, "CMakeLists.txt"@) {
        Some("C++"@)
    } else {
        None
    }
}

/// The language marked by the first entry that marks one; unreadable entries (`None`) are
/// skipped.
pub open spec fn first_marked_language(entries: Seq<Option<String>>) -> Option<Seq<char>>
    decreases entries.len(),
{
    if entries.len() == 0 {
        None
    } else {
        let here = match entries[0] {
            Some(name) => marker_language(name@),
            None => None,
        };
        if here is Some {
            here
        } else {
            first_marked_language(entries.drop_first())
        }
    }
}

/// The language guessed from a folder's entries: the first marked language among the first
/// `WORKSPACE_LANGUAGE_INFERENCE_ENTRY_LIMIT` entries.
pub open spec fn guessed_language(entries: Seq<Option<String>>) -> Option<Seq<char>> {
    let limit = if entries.len() < WORKSPACE_LANGUAGE_INFERENCE_ENTRY_LIMIT {
        entries.len() as int
    } else {
        WORKSPACE_LANGUAGE_INFERENCE_ENTRY_LIMIT as int
    };
    first_marked_language(entries.take(limit))
}

/// Entries after the first `WORKSPACE_LANGUAGE_INFERENCE_ENTRY_LIMIT` never change the guess.
pub proof fn language_guess_ignores_entries_past_limit(
    entries: Seq<Option<String>>,
    more: Seq<Option<String>>,
)
    requires
        entries.len() >= WORKSPACE_LANGUAGE_INFERENCE_ENTRY_LIMIT,
    ensures
        guessed_language(entries + more) == guessed_language(entries),
{
    let limit = WORKSPACE_LANGUAGE_INFERENCE_ENTRY_LIMIT as int;
    assert((entries + more).take(limit) =~= entries.take(limit));
}

/// The language that a folder entry name marks.
pub fn marker_language_of(name: &str) -> (language: Option<&'static str>)
    ensures
        opt_view(language) == marker_language(name@),
{
    if eq_ignore_ascii_case(name, "Cargo.toml") {
        Some("Rust")
    } else if eq_ignore_ascii_case(name, "go.mod") {
        Some("Go")
    } else if eq_ignore_ascii_case(name, "package.json") {
        Some("JavaScript")
    } else if eq_ignore_ascii_case(name, "pyproject.toml") || eq_ignore_ascii_case(
        name,
        "requirements.txt",
    ) {
        Some("Python")
    } else if eq_ignore_ascii_case(name, "pom.xml") || eq_ignore_ascii_case(name, "build.gradle") {
        Some("Java")
    } else if eq_ignore_ascii_case(name, "CMakeLists.txt") {
        Some("C++")
    } else {
        None
    }
}

/// Guesses a workspace's language from its first `WORKSPACE_LANGUAGE_INFERENCE_ENTRY_LIMIT`
/// folder entries; entries past the limit are never looked at.
pub fn infer_workspace_language_from_limited_entry_names(entry_names: &Vec<Option<String>>) -> (language:
    Option<&'static str>)
    ensures
        opt_view(language) == guessed_language(entry_names@),
{
    let limit = if entry_names.len() < WORKSPACE_LANGUAGE_INFERENCE_ENTRY_LIMIT {
        entry_names.len()
    } else {
        WORKSPACE_LANGUAGE_INFERENCE_ENTRY_LIMIT
    };
    let ghost limited = entry_names@.take(limit as int);
    assert(limited.skip(0) =~= limited);
    let mut k: usize = 0;
    while k < limit
        invariant
            k <= limit <= entry_names@.len(),
            limit == (if entry_names@.len() < WORKSPACE_LANGUAGE_INFERENCE_ENTRY_LIMIT {
                entry_names@.len() as int
            } else {
                WORKSPACE_LANGUAGE_INFERENCE_ENTRY_LIMIT as int
            }),
            limited == entry_names@.take(limit as int),
            first_marked_language(limited) == first_marked_language(limited.skip(k as int)),
        decreases limit - k,
    {
        proof {
            assert(limited.skip(k as int).drop_first() =~= limited.skip(k + 1));
            assert(limited.skip(k as int)[0] == entry_names@[k as int]);
        }
        match &entry_names[k] {
            Some(name) => {
                let found = marker_language_of(name.as_str());
                if found.is_some() {
                    assert(limited.skip(k as int)[0] == Some(*name));
                    assert(first_marked_language(limited.skip(k as int)) == marker_language(name@));
                    return found;
                }
            },
            None => {},
        }
        k = k + 1;
    }
    proof {
        assert(limited.skip(k as int).len() == 0);
    }
    None
}

/// Guesses a workspace's language from its folder entries.
pub fn infer_workspace_language_from_folder_entries(entry_names: &Vec<Option<String>>) -> (language:
    Option<&'static str>)
    ensures
        opt_view(language) == guessed_language(entry_names@),
{
    infer_workspace_language_from_limited_entry_names(entry_names)
}

} // verus!
