//! The interface language and the colour themes that the user can pick.

use vstd::prelude::*;

verus! {

/// The language of the user interface. Korean is the default.
#[derive(Clone, Copy, Debug, PartialEq, Eq, Structural)]
pub enum UiLanguage {
    Korean,
    English,
}

/// Picks the Korean or the English text for `language`.
pub open spec fn ui_text(language: UiLanguage, korean: Seq<char>, english: Seq<char>) -> Seq<char> {
    match language {
        UiLanguage::Korean => korean,
        UiLanguage::English => english,
    }
}

impl UiLanguage {
    /// The language used when none has been chosen.
    pub fn default_language() -> (language: UiLanguage)
        ensures
            language == UiLanguage::Korean,
    {
        UiLanguage::Korean
    }

    /// The selectable languages in menu order.
    pub fn options() -> (options: [UiLanguage; 2])
        ensures
            options@ == seq![UiLanguage::Korean, UiLanguage::English],
    {
        let options = [UiLanguage::Korean, UiLanguage::English];
        assert(options@ =~= seq![UiLanguage::Korean, UiLanguage::English]);
        options
    }

    /// The text of a pair that matches this language.
    pub fn text(self, korean: &'static str, english: &'static str) -> (text: &'static str)
        ensures
            text@ == ui_text(self, korean@, english@),
    {
        match self {
            UiLanguage::Korean => korean,
            UiLanguage::English => english,
        }
    }
}

/// Picks the Korean or the English text for `language`.
pub fn tr(language: UiLanguage, korean: &'static str, english: &'static str) -> (text: &'static str)
    ensures
        text@ == ui_text(language, korean@, english@),
{
    language.text(korean, english)
}

/// A colour theme of the main window.
#[derive(Clone, Copy, Debug, PartialEq, Eq, Structural)]
pub enum ViewTheme {
    System,
    Light,
    ClassicDark,
    SepiaTeal,
    Graphite,
    Forest,
    SteelBlue,
}

/// Whether `theme` is one of the dark themes, drawn with the library's own colours.
pub open spec fn is_dark_theme(theme: ViewTheme) -> bool {
    !(theme == ViewTheme::System || theme == ViewTheme::Light)
}

impl ViewTheme {
    /// The theme used when none has been chosen.
    pub fn default_theme() -> (theme: ViewTheme)
        ensures
            theme == ViewTheme::System,
    {
        ViewTheme::System
    }

    /// The selectable themes in menu order.
    pub fn options() -> (options: [ViewTheme; 7])
        ensures
            options@ == seq![
                ViewTheme::System,
                ViewTheme::Light,
                ViewTheme::ClassicDark,
                ViewTheme::SepiaTeal,
                ViewTheme::Graphite,
                ViewTheme::Forest,
                ViewTheme::SteelBlue,
            ],
    {
        let options = [
            ViewTheme::System,
            ViewTheme::Light,
            ViewTheme::ClassicDark,
            ViewTheme::SepiaTeal,
            ViewTheme::Graphite,
            ViewTheme::Forest,
            ViewTheme::SteelBlue,
        ];
        assert(options@ =~= seq![
            ViewTheme::System,
            ViewTheme::Light,
            ViewTheme::ClassicDark,
            ViewTheme::SepiaTeal,
            ViewTheme::Graphite,
            ViewTheme::Forest,
            ViewTheme::SteelBlue,
        ]);
        options
    }

    /// Whether the theme asks for a dark title bar and dark controls.
    pub fn uses_dark_mode(self) -> (dark: bool)
        ensures
            dark == is_dark_theme(self),
    {
        match self {
            ViewTheme::System | ViewTheme::Light => false,
            _ => true,
        }
    }
}


impl Default for UiLanguage {
    /// Korean.
    fn default() -> (language: UiLanguage)
        ensures
            language == UiLanguage::Korean,
    {
        UiLanguage::Korean
    }
}

impl Default for ViewTheme {
    /// The system theme.
    fn default() -> (theme: ViewTheme)
        ensures
            theme == ViewTheme::System,
    {
        ViewTheme::System
    }
}

} // verus!
