//! The settings records that the window logic reads: workspaces, categories and command buttons.

use vstd::prelude::*;

use crate::command_line::ExecutionType;
use crate::language::{ui_text, UiLanguage};
use crate::text::{has_whitespace_only, is_blank, string_of};

verus! {

/// Why a settings record was refused.
#[derive(Clone, Copy, Debug, PartialEq, Eq, Structural)]
pub enum DomainValidationError {
    EmptyWorkspacePath,
    EmptyWorkspaceName,
    EmptyWorkspaceLanguage,
    EmptyCategoryName,
    EmptyButtonName,
    EmptyExecutablePath,
}

/// The message shown for a refused record.
pub open spec fn validation_message(error: DomainValidationError, language: UiLanguage) -> Seq<char> {
    match error {
        DomainValidationError::EmptyWorkspacePath => ui_text(
            language,
            "폴더를 선택하세요."@,
            "Select a folder."@,
        ),
        DomainValidationError::EmptyWorkspaceName
        | DomainValidationError::EmptyCategoryName
        | DomainValidationError::EmptyButtonName => ui_text(
            language,
            "이름을 입력하세요."@,
            "Enter a name."@,
        ),
        DomainValidationError::EmptyWorkspaceLanguage => ui_text(
            language,
            "언어를 선택하세요."@,
            "Select a language."@,
        ),
        DomainValidationError::EmptyExecutablePath => ui_text(
            language,
            "실행 대상을 입력하세요."@,
            "Enter an executable target."@,
        ),
    }
}

impl DomainValidationError {
    /// The message shown for this error in `language`.
    pub fn user_message_for_language(&self, language: UiLanguage) -> (message: String)
        ensures
            message@ == validation_message(*self, language),
    {
        let text = match self {
            DomainValidationError::EmptyWorkspacePath => language.text(
                "폴더를 선택하세요.",
                "Select a folder.",
            ),
            DomainValidationError::EmptyWorkspaceName
            | DomainValidationError::EmptyCategoryName
            | DomainValidationError::EmptyButtonName => language.text(
                "이름을 입력하세요.",
                "Enter a name.",
            ),
            DomainValidationError::EmptyWorkspaceLanguage => language.text(
                "언어를 선택하세요.",
                "Select a language.",
            ),
            DomainValidationError::EmptyExecutablePath => language.text(
                "실행 대상을 입력하세요.",
                "Enter an executable target.",
            ),
        };
        string_of(text)
    }
}

/// A registered workspace folder.
#[derive(Clone, Debug)]
pub struct Workspace {
    pub path: String,
    pub name: String,
    pub language: String,
    /// The name of the category that holds the workspace; `None` places it at the top level.
    pub category: Option<String>,
}

impl Workspace {
    /// A workspace at the top level. The path, name and language must not be blank.
    pub fn new(path: &str, name: &str, language: &str) -> (result: Result<
        Workspace,
        DomainValidationError,
    >)
        ensures
            has_whitespace_only(path@) ==> result == Err::<Workspace, _>(
                DomainValidationError::EmptyWorkspacePath,
            ),
            !has_whitespace_only(path@) && has_whitespace_only(name@) ==> result == Err::<
                Workspace,
                _,
            >(DomainValidationError::EmptyWorkspaceName),
            !has_whitespace_only(path@) && !has_whitespace_only(name@) && has_whitespace_only(
                language@,
            ) ==> result == Err::<Workspace, _>(DomainValidationError::EmptyWorkspaceLanguage),
            result matches Ok(workspace) ==> {
                &&& workspace.path@ == path@
                &&& workspace.name@ == name@
                &&& workspace.language@ == language@
                &&& workspace.category is None
            },
            result is Ok <==> !has_whitespace_only(path@) && !has_whitespace_only(name@)
                && !has_whitespace_only(language@),
    {
        if is_blank(path) {
            return Err(DomainValidationError::EmptyWorkspacePath);
        }
        if is_blank(name) {
            return Err(DomainValidationError::EmptyWorkspaceName);
        }
        if is_blank(language) {
            return Err(DomainValidationError::EmptyWorkspaceLanguage);
        }
        Ok(Workspace {
            path: string_of(path),
            name: string_of(name),
            language: string_of(language),
            category: None,
        })
    }

    /// The same workspace placed in `category` (or at the top level for `None`).
    pub fn with_category(self, category: Option<String>) -> (workspace: Workspace)
        ensures
            workspace.path == self.path,
            workspace.name == self.name,
            workspace.language == self.language,
            workspace.category == category,
    {
        Workspace { category, ..self }
    }
}

/// A named group of workspaces in the workspace tree.
#[derive(Clone, Debug)]
pub struct Category {
    pub name: String,
}

impl Category {
    /// A category; its name must not be blank.
    pub fn new(name: &str) -> (result: Result<Category, DomainValidationError>)
        ensures
            result is Err <==> has_whitespace_only(name@),
            result matches Err(error) ==> error == DomainValidationError::EmptyCategoryName,
            result matches Ok(category) ==> category.name@ == name@,
    {
        if is_blank(name) {
            Err(DomainValidationError::EmptyCategoryName)
        } else {
            Ok(Category { name: string_of(name) })
        }
    }
}

/// A button that runs an executable with arguments.
#[derive(Clone, Debug)]
pub struct CommandButton {
    pub button_name: String,
    pub executable_path: String,
    pub arguments: String,
    pub execution_type: ExecutionType,
}

impl CommandButton {
    /// A command button; its name and executable path must not be blank.
    pub fn new(
        button_name: &str,
        executable_path: &str,
        arguments: &str,
        execution_type: ExecutionType,
    ) -> (result: Result<CommandButton, DomainValidationError>)
        ensures
            has_whitespace_only(button_name@) ==> result == Err::<CommandButton, _>(
                DomainValidationError::EmptyButtonName,
            ),
            !has_whitespace_only(button_name@) && has_whitespace_only(executable_path@) ==> result
                == Err::<CommandButton, _>(DomainValidationError::EmptyExecutablePath),
            result is Ok <==> !has_whitespace_only(button_name@) && !has_whitespace_only(
                executable_path@,
            ),
            result matches Ok(button) ==> {
                &&& button.button_name@ == button_name@
                &&& button.executable_path@ == executable_path@
                &&& button.arguments@ == arguments@
                &&& button.execution_type == execution_type
            },
    {
        if is_blank(button_name) {
            return Err(DomainValidationError::EmptyButtonName);
        }
        if is_blank(executable_path) {
            return Err(DomainValidationError::EmptyExecutablePath);
        }
        Ok(
            CommandButton {
                button_name: string_of(button_name),
                executable_path: string_of(executable_path),
                arguments: string_of(arguments),
                execution_type,
            },
        )
    }
}


/// The message shown for a refused record in `language`.
pub fn localized_domain_error(language: UiLanguage, error: &DomainValidationError) -> (message: String)
    ensures
        message@ == validation_message(*error, language),
{
    error.user_message_for_language(language)
}

} // verus!
