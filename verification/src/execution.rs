//! Decisions around running a command button: which selection a button needs, what may reach
//! `ShellExecuteW`, and what the user is told when a run fails.

use vstd::prelude::*;

use crate::command_line::{
    command_line_from_executable_and_arguments, external_terminal_parameters_for_command,
    terminal_command_line, terminal_parameters, ExecutionType,
};
use crate::language::{ui_text, UiLanguage};
use crate::model::{CommandButton, Workspace};
use crate::text::{
    chars_of, contains_char, contains_text, find_text, has_whitespace_only, is_blank, trim_text, trimmed,
    debug_quoted, debug_quoted_text, decimal_text, join_strings, joined, push_str, signed_decimal,
    string_of, text_equals, unsigned_decimal, views,
};

verus! {

/// Why the arguments of a command button could not be resolved.
#[derive(Clone, Debug)]
pub enum ArgumentResolutionError {
    /// The arguments name the selected workspace and none is selected.
    WorkspaceRequired,
    /// The arguments hold tokens that the library does not know.
    UnknownTokens(Vec<String>),
}

/// The message shown for an argument resolution error.
pub open spec fn resolution_message(error: ArgumentResolutionError, language: UiLanguage) -> Seq<char> {
    match error {
        ArgumentResolutionError::WorkspaceRequired => ui_text(
            language,
            "워크스페이스를 선택하세요."@,
            "Select a workspace."@,
        ),
        ArgumentResolutionError::UnknownTokens(tokens) => ui_text(
            language,
            "알 수 없는 인수 토큰: "@,
            "Unknown argument tokens: "@,
        ) + joined(views(tokens@), ", "@),
    }
}

/// The diagnostic text of an argument resolution error.
pub open spec fn resolution_text(error: ArgumentResolutionError) -> Seq<char> {
    match error {
        ArgumentResolutionError::WorkspaceRequired => "a selected workspace is required"@,
        ArgumentResolutionError::UnknownTokens(tokens) => "unknown argument tokens: "@ + joined(
            views(tokens@),
            ", "@,
        ),
    }
}

impl ArgumentResolutionError {
    /// The message shown for this error in `language`.
    pub fn user_message_for_language(&self, language: UiLanguage) -> (message: String)
        ensures
            message@ == resolution_message(*self, language),
    {
        match self {
            ArgumentResolutionError::WorkspaceRequired => string_of(
                language.text("워크스페이스를 선택하세요.", "Select a workspace."),
            ),
            ArgumentResolutionError::UnknownTokens(tokens) => {
                let mut message = string_of(
                    language.text("알 수 없는 인수 토큰: ", "Unknown argument tokens: "),
                );
                let list = join_strings(tokens, ", ");
                push_str(&mut message, list.as_str());
                message
            },
        }
    }

    /// The diagnostic text of this error.
    pub fn display_text(&self) -> (text: String)
        ensures
            text@ == resolution_text(*self),
    {
        match self {
            ArgumentResolutionError::WorkspaceRequired => string_of(
                "a selected workspace is required",
            ),
            ArgumentResolutionError::UnknownTokens(tokens) => {
                let mut text = string_of("unknown argument tokens: ");
                let list = join_strings(tokens, ", ");
                push_str(&mut text, list.as_str());
                text
            },
        }
    }
}

/// Why running a command button failed.
#[derive(Clone, Debug)]
pub enum CommandExecutionError {
    ArgumentResolution { source: ArgumentResolutionError },
    MissingWorkspaceForExternalTerminal,
    InaccessibleWorkspacePath { path: String },
    EmptyExecutablePath { executable_path: String },
    InteriorNul { field: &'static str, value: String },
    ShellExecuteFailed {
        result_code: isize,
        last_error_code: u32,
        executable_path: String,
        arguments: String,
        directory: Option<String>,
    },
}

/// The text that `ShellExecuteW` failures are described by, for a return code at most 32.
pub open spec fn shell_execute_error_text(language: UiLanguage, code: int) -> Seq<char> {
    if code == 0 {
        ui_text(
            language,
            "실행할 시스템 리소스가 부족합니다."@,
            "There are not enough system resources to run it."@,
        )
    } else if code == 2 {
        ui_text(
            language,
            "지정한 파일을 찾을 수 없습니다."@,
            "The specified file could not be found."@,
        )
    } else if code == 3 {
        ui_text(
            language,
            "지정한 경로를 찾을 수 없습니다."@,
            "The specified path could not be found."@,
        )
    } else if code == 5 {
        ui_text(language, "접근이 거부되었습니다."@, "Access was denied."@)
    } else if code == 8 {
        ui_text(language, "메모리가 부족합니다."@, "Out of memory."@)
    } else if code == 26 {
        ui_text(
            language,
            "공유 위반 때문에 실행할 수 없습니다."@,
            "Could not run because of a sharing violation."@,
        )
    } else if code == 27 {
        ui_text(
            language,
            "파일 연결이 올바르지 않습니다."@,
            "The file association is invalid."@,
        )
    } else if code == 28 {
        ui_text(
            language,
            "DDE 트랜잭션 시간이 초과되었습니다."@,
            "The DDE transaction timed out."@,
        )
    } else if code == 29 {
        ui_text(language, "DDE 트랜잭션에 실패했습니다."@, "The DDE transaction failed."@)
    } else if code == 30 {
        ui_text(
            language,
            "다른 DDE 트랜잭션이 처리 중입니다."@,
            "Another DDE transaction is in progress."@,
        )
    } else if code == 31 {
        ui_text(
            language,
            "이 파일 형식에 연결된 실행 프로그램이 없습니다."@,
            "There is no app associated with this file type."@,
        )
    } else if code == 32 {
        ui_text(
            language,
            "동적 연결 라이브러리를 찾을 수 없습니다."@,
            "The dynamic-link library could not be found."@,
        )
    } else {
        ui_text(language, "ShellExecuteW 오류 코드 "@, "ShellExecuteW error code "@)
            + decimal_text(code)
    }
}

/// Describes a `ShellExecuteW` return code in `language`.
pub fn shell_execute_error_message_for_language(language: UiLanguage, code: isize) -> (message:
    String)
    ensures
        message@ == shell_execute_error_text(language, code as int),
{
    let text = match code {
        0 => language.text(
            "실행할 시스템 리소스가 부족합니다.",
            "There are not enough system resources to run it.",
        ),
        2 => language.text(
            "지정한 파일을 찾을 수 없습니다.",
            "The specified file could not be found.",
        ),
        3 => language.text(
            "지정한 경로를 찾을 수 없습니다.",
            "The specified path could not be found.",
        ),
        5 => language.text("접근이 거부되었습니다.", "Access was denied."),
        8 => language.text("메모리가 부족합니다.", "Out of memory."),
        26 => language.text(
            "공유 위반 때문에 실행할 수 없습니다.",
            "Could not run because of a sharing violation.",
        ),
        27 => language.text("파일 연결이 올바르지 않습니다.", "The file association is invalid."),
        28 => language.text(
            "DDE 트랜잭션 시간이 초과되었습니다.",
            "The DDE transaction timed out.",
        ),
        29 => language.text("DDE 트랜잭션에 실패했습니다.", "The DDE transaction failed."),
        30 => language.text(
            "다른 DDE 트랜잭션이 처리 중입니다.",
            "Another DDE transaction is in progress.",
        ),
        31 => language.text(
            "이 파일 형식에 연결된 실행 프로그램이 없습니다.",
            "There is no app associated with this file type.",
        ),
        32 => language.text(
            "동적 연결 라이브러리를 찾을 수 없습니다.",
            "The dynamic-link library could not be found.",
        ),
        _ => {
            let mut message = string_of(
                language.text("ShellExecuteW 오류 코드 ", "ShellExecuteW error code "),
            );
            let digits = signed_decimal(code as i64);
            push_str(&mut message, digits.as_str());
            return message;
        },
    };
    string_of(text)
}

/// The message shown to the user for a failed run.
pub open spec fn execution_message(error: CommandExecutionError, language: UiLanguage) -> Seq<char> {
    match error {
        CommandExecutionError::ArgumentResolution { source } => resolution_message(
            source,
            language,
        ),
        CommandExecutionError::MissingWorkspaceForExternalTerminal => ui_text(
            language,
            "워크스페이스를 선택하세요."@,
            "Select a workspace."@,
        ),
        CommandExecutionError::InaccessibleWorkspacePath { path } => ui_text(
            language,
            "워크스페이스 폴더를 열 수 없습니다"@,
            "Could not open the workspace folder"@,
        ) + ": "@ + path@,
        CommandExecutionError::EmptyExecutablePath { .. } => ui_text(
            language,
            "실행 대상을 입력하세요."@,
            "Enter an executable."@,
        ),
        CommandExecutionError::InteriorNul { field, .. } => ui_text(
            language,
            "실행 값에 사용할 수 없는 문자가 있습니다"@,
            "The execution value contains an unsupported character"@,
        ) + ": "@ + field@,
        CommandExecutionError::ShellExecuteFailed { result_code, last_error_code, .. } => ui_text(
            language,
            "명령 실행 실패"@,
            "Command failed"@,
        ) + "\n\n"@ + shell_execute_error_text(language, result_code as int) + "\n"@ + ui_text(
            language,
            "코드"@,
            "Code"@,
        ) + ": "@ + decimal_text(result_code as int) + ", Windows: "@ + decimal_text(
            last_error_code as int,
        ),
    }
}

/// The failure log's marker for a command value that was given and not empty.
pub const SHELL_EXECUTE_FIELD_REDACTED: &'static str = "<redacted>";

/// The failure log's marker for an empty command value.
pub const SHELL_EXECUTE_FIELD_EMPTY: &'static str = "<empty>";

/// The failure log's marker for a command value that was not given.
pub const SHELL_EXECUTE_FIELD_NOT_PROVIDED: &'static str = "<not provided>";

/// What the failure log shows for a command value: only whether it was given and empty.
pub open spec fn failure_value_text(value: Option<Seq<char>>) -> Seq<char> {
    match value {
        None => "<not provided>"@,
        Some(v) => if v == "<redacted>"@ || v == "<empty>"@ || v == "<not provided>"@ {
            v
        } else if v.len() == 0 {
            "<empty>"@
        } else {
            "<redacted>"@
        },
    }
}

/// The failure log shows one of its three markers for every command value, never the value.
pub proof fn failure_values_are_markers(value: Option<Seq<char>>)
    ensures
        failure_value_text(value) == "<redacted>"@ || failure_value_text(value) == "<empty>"@
            || failure_value_text(value) == "<not provided>"@,
{
}

/// The view of an optional string.
pub open spec fn opt_string_view(value: Option<String>) -> Option<Seq<char>> {
    match value {
        Some(v) => Some(v@),
        None => None,
    }
}

/// The option of a view.
pub open spec fn opt_view(value: Option<&str>) -> Option<Seq<char>> {
    match value {
        Some(v) => Some(v@),
        None => None,
    }
}

/// The diagnostic text of a failed run; command values are never shown.
pub open spec fn execution_text(error: CommandExecutionError) -> Seq<char> {
    match error {
        CommandExecutionError::ArgumentResolution { source } => "command argument resolution failed: "@
            + resolution_text(source),
        CommandExecutionError::MissingWorkspaceForExternalTerminal => "external_terminal command requires a selected workspace"@,
        CommandExecutionError::InaccessibleWorkspacePath { path } => "workspace path is not accessible: "@
            + path@,
        CommandExecutionError::EmptyExecutablePath { executable_path } => "empty executable_path: "@
            + debug_quoted_text(executable_path@),
        CommandExecutionError::InteriorNul { field, value } => "command execution value contains interior NUL: field="@
            + field@ + ", value="@ + debug_quoted_text(value@),
        CommandExecutionError::ShellExecuteFailed {
            result_code,
            last_error_code,
            executable_path,
            arguments,
            directory,
        } => "ShellExecuteW failed: return_code="@ + decimal_text(result_code as int)
            + ", GetLastError="@ + decimal_text(last_error_code as int) + ", executable_path="@
            + failure_value_text(Some(executable_path@)) + ", arguments="@ + failure_value_text(
            Some(arguments@),
        ) + ", directory="@ + failure_value_text(
            match directory {
                Some(d) => Some(d@),
                None => None,
            },
        ),
    }
}

/// Classifies a command value for the failure log: `<not provided>`, `<empty>` or `<redacted>`
/// (a value that is already one of these markers is kept).
pub fn shell_execute_failure_value_display(value: Option<&str>) -> (display: &'static str)
    ensures
        display@ == failure_value_text(opt_view(value)),
{
    match value {
        None => "<not provided>",
        Some(v) => {
            if text_equals(v, "<redacted>") {
                "<redacted>"
            } else if text_equals(v, "<empty>") {
                "<empty>"
            } else if text_equals(v, "<not provided>") {
                "<not provided>"
            } else if v.is_empty() {
                proof {
                    reveal_strlit("<redacted>");
                    reveal_strlit("<empty>");
                    reveal_strlit("<not provided>");
                }
                "<empty>"
            } else {
                "<redacted>"
            }
        },
    }
}

/// The redacted form of a command value, as stored in a failure.
pub fn redacted_shell_execute_failure_value(value: Option<&str>) -> (display: String)
    ensures
        display@ == failure_value_text(opt_view(value)),
{
    string_of(shell_execute_failure_value_display(value))
}

impl CommandExecutionError {
    /// The message shown to the user in Korean, the default language.
    pub fn user_message(&self) -> (message: String)
        ensures
            message@ == execution_message(*self, UiLanguage::Korean),
    {
        self.user_message_for_language(UiLanguage::Korean)
    }

    /// The message shown to the user in `language`.
    pub fn user_message_for_language(&self, language: UiLanguage) -> (message: String)
        ensures
            message@ == execution_message(*self, language),
    {
        match self {
            CommandExecutionError::ArgumentResolution { source } => source.user_message_for_language(
                language,
            ),
            CommandExecutionError::MissingWorkspaceForExternalTerminal => string_of(
                language.text("워크스페이스를 선택하세요.", "Select a workspace."),
            ),
            CommandExecutionError::InaccessibleWorkspacePath { path } => {
                let mut message = string_of(
                    language.text(
                        "워크스페이스 폴더를 열 수 없습니다",
                        "Could not open the workspace folder",
                    ),
                );
                push_str(&mut message, ": ");
                push_str(&mut message, path.as_str());
                message
            },
            CommandExecutionError::EmptyExecutablePath { .. } => string_of(
                language.text("실행 대상을 입력하세요.", "Enter an executable."),
            ),
            CommandExecutionError::InteriorNul { field, .. } => {
                let mut message = string_of(
                    language.text(
                        "실행 값에 사용할 수 없는 문자가 있습니다",
                        "The execution value contains an unsupported character",
                    ),
                );
                push_str(&mut message, ": ");
                push_str(&mut message, field);
                message
            },
            CommandExecutionError::ShellExecuteFailed { result_code, last_error_code, .. } => {
                let mut message = string_of(language.text("명령 실행 실패", "Command failed"));
                push_str(&mut message, "\n\n");
                let detail = shell_execute_error_message_for_language(language, *result_code);
                push_str(&mut message, detail.as_str());
                push_str(&mut message, "\n");
                push_str(&mut message, language.text("코드", "Code"));
                push_str(&mut message, ": ");
                let code = signed_decimal(*result_code as i64);
                push_str(&mut message, code.as_str());
                push_str(&mut message, ", Windows: ");
                let windows = unsigned_decimal(*last_error_code as u64);
                push_str(&mut message, windows.as_str());
                message
            },
        }
    }

    /// The diagnostic text of this error, as written to the log.
    pub fn display_text(&self) -> (text: String)
        ensures
            text@ == execution_text(*self),
    {
        match self {
            CommandExecutionError::ArgumentResolution { source } => {
                let mut text = string_of("command argument resolution failed: ");
                let inner = source.display_text();
                push_str(&mut text, inner.as_str());
                text
            },
            CommandExecutionError::MissingWorkspaceForExternalTerminal => string_of(
                "external_terminal command requires a selected workspace",
            ),
            CommandExecutionError::InaccessibleWorkspacePath { path } => {
                let mut text = string_of("workspace path is not accessible: ");
                push_str(&mut text, path.as_str());
                text
            },
            CommandExecutionError::EmptyExecutablePath { executable_path } => {
                let mut text = string_of("empty executable_path: ");
                let quoted = debug_quoted(executable_path.as_str());
                push_str(&mut text, quoted.as_str());
                text
            },
            CommandExecutionError::InteriorNul { field, value } => {
                let mut text = string_of(
                    "command execution value contains interior NUL: field=",
                );
                push_str(&mut text, field);
                push_str(&mut text, ", value=");
                let quoted = debug_quoted(value.as_str());
                push_str(&mut text, quoted.as_str());
                text
            },
            CommandExecutionError::ShellExecuteFailed {
                result_code,
                last_error_code,
                executable_path,
                arguments,
                directory,
            } => {
                let mut text = string_of("ShellExecuteW failed: return_code=");
                let code = signed_decimal(*result_code as i64);
                push_str(&mut text, code.as_str());
                push_str(&mut text, ", GetLastError=");
                let windows = unsigned_decimal(*last_error_code as u64);
                push_str(&mut text, windows.as_str());
                push_str(&mut text, ", executable_path=");
                push_str(
                    &mut text,
                    shell_execute_failure_value_display(Some(executable_path.as_str())),
                );
                push_str(&mut text, ", arguments=");
                push_str(&mut text, shell_execute_failure_value_display(Some(arguments.as_str())));
                push_str(&mut text, ", directory=");
                let shown = match directory {
                    Some(d) => shell_execute_failure_value_display(Some(d.as_str())),
                    None => shell_execute_failure_value_display(None),
                };
                push_str(&mut text, shown);
                text
            },
        }
    }
}


/// Refuses a value that holds a NUL character, which would cut the string handed to Windows.
pub fn reject_shell_execute_interior_nul(field: &'static str, value: &str) -> (result: Result<
    (),
    CommandExecutionError,
>)
    ensures
        result is Ok <==> !value@.contains('\0'),
        result matches Err(error) ==> error matches CommandExecutionError::InteriorNul {
            field: f,
            value: v,
        } && f == field && v@ == value@,
{
    if contains_char(value, '\0') {
        Err(CommandExecutionError::InteriorNul { field, value: string_of(value) })
    } else {
        Ok(())
    }
}

/// The checked values that are handed to `ShellExecuteW` with the `open` verb.
pub struct ShellExecuteRequest {
    /// The executable path without surrounding whitespace.
    pub executable_path: String,
    /// The parameters; none are passed when this is empty.
    pub arguments: String,
    /// The working directory, when one was given that is not blank.
    pub directory: Option<String>,
}

/// The directory that is passed on: none when it is missing or blank.
pub open spec fn effective_directory(directory: Option<Seq<char>>) -> Option<Seq<char>> {
    match directory {
        Some(d) => if has_whitespace_only(d) {
            None
        } else {
            Some(d)
        },
        None => None,
    }
}

/// Checks the values of a `ShellExecuteW` call: the executable (trimmed) must not be empty, and
/// no value may hold a NUL character. The checks run in this order: executable, arguments,
/// directory.
pub fn prepare_shell_execute_open(
    executable_path: &str,
    arguments: &str,
    directory: Option<&str>,
) -> (result: Result<ShellExecuteRequest, CommandExecutionError>)
    ensures
        trimmed(executable_path@).len() == 0 ==> (result matches Err(
            CommandExecutionError::EmptyExecutablePath { executable_path: p },
        ) && p@ == executable_path@),
        trimmed(executable_path@).len() > 0 && trimmed(executable_path@).contains('\0') ==> (
        result matches Err(CommandExecutionError::InteriorNul { field, value }) && field
            == "executable_path" && value@ == trimmed(executable_path@)),
        trimmed(executable_path@).len() > 0 && !trimmed(executable_path@).contains('\0')
            && arguments@.contains('\0') ==> (result matches Err(
            CommandExecutionError::InteriorNul { field, value },
        ) && field == "arguments" && value@ == arguments@),
        trimmed(executable_path@).len() > 0 && !trimmed(executable_path@).contains('\0')
            && !arguments@.contains('\0') && effective_directory(opt_view(directory)) is Some
            && effective_directory(opt_view(directory)).unwrap().contains('\0') ==> (
        result matches Err(CommandExecutionError::InteriorNul { field, value }) && field
            == "directory" && value@ == effective_directory(opt_view(directory)).unwrap()),
        result is Ok <==> trimmed(executable_path@).len() > 0 && !trimmed(
            executable_path@,
        ).contains('\0') && !arguments@.contains('\0') && !(effective_directory(
            opt_view(directory),
        ) is Some && effective_directory(opt_view(directory)).unwrap().contains('\0')),
        result matches Ok(request) ==> {
            &&& request.executable_path@ == trimmed(executable_path@)
            &&& request.arguments@ == arguments@
            &&& opt_string_view(request.directory) == effective_directory(opt_view(directory))
        },
{
    let executable = trim_text(executable_path);
    if executable.as_str().is_empty() {
        return Err(
            CommandExecutionError::EmptyExecutablePath { executable_path: string_of(executable_path) },
        );
    }
    reject_shell_execute_interior_nul("executable_path", executable.as_str())?;
    reject_shell_execute_interior_nul("arguments", arguments)?;
    let directory_value = match directory {
        Some(d) => if is_blank(d) {
            None
        } else {
            Some(string_of(d))
        },
        None => None,
    };
    if let Some(d) = &directory_value {
        reject_shell_execute_interior_nul("directory", d.as_str())?;
    }
    Ok(
        ShellExecuteRequest {
            executable_path: executable,
            arguments: string_of(arguments),
            directory: directory_value,
        },
    )
}

/// Whether a `ShellExecuteW` return value reports success (it is above 32).
pub fn shell_execute_succeeded(result_code: isize) -> (succeeded: bool)
    ensures
        succeeded == (result_code > 32),
{
    result_code > 32
}

/// The error recorded for a failed `ShellExecuteW` call: the codes, and the command values
/// replaced by their redacted forms.
pub fn shell_execute_open_failure(
    result_code: isize,
    last_error_code: u32,
    executable_path: &str,
    arguments: &str,
    directory: Option<&str>,
) -> (error: CommandExecutionError)
    ensures
        error matches CommandExecutionError::ShellExecuteFailed {
            result_code: r,
            last_error_code: l,
            executable_path: e,
            arguments: a,
            directory: d,
        } && r == result_code && l == last_error_code && e@ == failure_value_text(
            Some(trimmed(executable_path@)),
        ) && a@ == failure_value_text(Some(arguments@)) && opt_string_view(d) == match effective_directory(
            opt_view(directory),
        ) {
            Some(dir) => Some(failure_value_text(Some(dir))),
            None => None,
        },
{
    let executable = trim_text(executable_path);
    let executable_display = redacted_shell_execute_failure_value(Some(executable.as_str()));
    let arguments_display = redacted_shell_execute_failure_value(Some(arguments));
    let directory_display = match directory {
        Some(d) => if is_blank(d) {
            None
        } else {
            Some(redacted_shell_execute_failure_value(Some(d)))
        },
        None => None,
    };
    CommandExecutionError::ShellExecuteFailed {
        result_code,
        last_error_code,
        executable_path: executable_display,
        arguments: arguments_display,
        directory: directory_display,
    }
}

/// Whether arguments name the selected workspace (`{path}`, `{name}` or `{Language}`).
pub open spec fn names_workspace(arguments: Seq<char>) -> bool {
    contains_text(arguments, "{path}"@) || contains_text(arguments, "{name}"@) || contains_text(
        arguments,
        "{Language}"@,
    )
}

/// Whether the arguments of a button need a selected workspace.
pub fn arguments_require_workspace(arguments: &str) -> (required: bool)
    ensures
        required == names_workspace(arguments@),
{
    let chars = chars_of(arguments);
    find_text(&chars, "{path}") || find_text(&chars, "{name}") || find_text(&chars, "{Language}")
}

/// Whether running `button` needs a selected workspace: every external-terminal button does,
/// and a shell button whose arguments name the workspace.
pub open spec fn button_needs_workspace(button: CommandButton) -> bool {
    button.execution_type == ExecutionType::ExternalTerminal || names_workspace(button.arguments@)
}

/// Why `button` cannot run with the current workspace selection, if it cannot.
/// `workspace_accessible` tells whether the selected workspace folder can be opened; it is read
/// only when a workspace is selected.
pub fn command_workspace_error(
    button: &CommandButton,
    workspace: Option<&Workspace>,
    workspace_accessible: bool,
) -> (error: Option<CommandExecutionError>)
    ensures
        !button_needs_workspace(*button) ==> error is None,
        button_needs_workspace(*button) && workspace is None ==> match button.execution_type {
            ExecutionType::ExternalTerminal => error matches Some(
                CommandExecutionError::MissingWorkspaceForExternalTerminal,
            ),
            ExecutionType::ShellApi => error matches Some(
                CommandExecutionError::ArgumentResolution {
                    source: ArgumentResolutionError::WorkspaceRequired,
                },
            ),
        },
        button_needs_workspace(*button) && workspace is Some ==> if workspace_accessible {
            error is None
        } else {
            error matches Some(CommandExecutionError::InaccessibleWorkspacePath { path })
                && path@ == workspace.unwrap().path@
        },
{
    let requires_workspace = button.execution_type == ExecutionType::ExternalTerminal
        || arguments_require_workspace(button.arguments.as_str());
    if !requires_workspace {
        return None;
    }
    match workspace {
        None => Some(
            match button.execution_type {
                ExecutionType::ExternalTerminal => CommandExecutionError::MissingWorkspaceForExternalTerminal,
                ExecutionType::ShellApi => CommandExecutionError::ArgumentResolution {
                    source: ArgumentResolutionError::WorkspaceRequired,
                },
            },
        ),
        Some(workspace) => if workspace_accessible {
            None
        } else {
            Some(CommandExecutionError::InaccessibleWorkspacePath { path: workspace.path.clone() })
        },
    }
}


/// The command processor that external-terminal buttons run: the `ComSpec` value when it is set
/// and not blank, else `cmd.exe`.
pub fn command_processor_path_from(com_spec: Option<&str>) -> (path: String)
    ensures
        path@ == match com_spec {
            Some(value) => if has_whitespace_only(value@) {
                "cmd.exe"@
            } else {
                value@
            },
            None => "cmd.exe"@,
        },
{
    match com_spec {
        Some(value) => if is_blank(value) {
            string_of("cmd.exe")
        } else {
            string_of(value)
        },
        None => string_of("cmd.exe"),
    }
}


/// What running a command button asks Windows to open: a program, its parameters and the folder
/// it starts in.
pub struct CommandLaunch {
    pub executable_path: String,
    pub arguments: String,
    pub directory: Option<String>,
}

/// Decides what to open for a button whose arguments are prepared: a shell button opens its
/// executable with the arguments; an external-terminal button opens the command processor, which
/// runs the escaped command line in the selected workspace's folder and keeps its window open.
pub fn command_launch(
    button: &CommandButton,
    arguments: &str,
    workspace: Option<&Workspace>,
    command_processor: &str,
) -> (launch: Result<CommandLaunch, CommandExecutionError>)
    ensures
        button.execution_type == ExecutionType::ShellApi ==> (launch matches Ok(l) && {
            &&& l.executable_path@ == button.executable_path@
            &&& l.arguments@ == arguments@
            &&& l.directory is None
        }),
        button.execution_type == ExecutionType::ExternalTerminal && workspace is None ==> (
        launch matches Err(CommandExecutionError::MissingWorkspaceForExternalTerminal)),
        button.execution_type == ExecutionType::ExternalTerminal && workspace is Some ==> (
        launch matches Ok(l) && {
            &&& l.executable_path@ == command_processor@
            &&& l.arguments@ == terminal_parameters(
                terminal_command_line(button.executable_path@, arguments@),
            )
            &&& opt_string_view(l.directory) == Some(workspace.unwrap().path@)
        }),
{
    match button.execution_type {
        ExecutionType::ShellApi => Ok(
            CommandLaunch {
                executable_path: string_of(button.executable_path.as_str()),
                arguments: string_of(arguments),
                directory: None,
            },
        ),
        ExecutionType::ExternalTerminal => match workspace {
            Some(workspace) => {
                let command_line = command_line_from_executable_and_arguments(
                    button.executable_path.as_str(),
                    arguments,
                );
                Ok(
                    CommandLaunch {
                        executable_path: string_of(command_processor),
                        arguments: external_terminal_parameters_for_command(command_line.as_str()),
                        directory: Some(string_of(workspace.path.as_str())),
                    },
                )
            },
            None => Err(CommandExecutionError::MissingWorkspaceForExternalTerminal),
        },
    }
}

/// The status message after a command button ran.
pub fn run_completed_message(language: UiLanguage, button_name: &str) -> (message: String)
    ensures
        message@ == ui_text(language, "실행 완료: "@, "Run completed: "@) + button_name@,
{
    let mut message = string_of(language.text("실행 완료: ", "Run completed: "));
    push_str(&mut message, button_name);
    message
}

} // verus!
