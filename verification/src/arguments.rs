//! Argument tokens in a command button's arguments: finding the tokens that a run must fill in,
//! refusing tokens that do not exist, and putting the prepared values in their place.
//!
//! A token is a name of ASCII letters in braces, such as `{path}`. The known tokens are `{path}`,
//! `{name}`, `{selectfile}`, `{selectdir}`, `{inputtext}` and `{Language}`, with this exact case.

use vstd::prelude::*;

use crate::command_line::{
    argument_token_execution_value, cmd_quoted_argument, quoted_argument_reads_back,
    token_execution_value, windows_quoted, windows_single_argument, ArgumentToken, ExecutionType,
};
use crate::execution::{
    button_needs_workspace, names_workspace, ArgumentResolutionError, CommandExecutionError,
};
use crate::text::{contains_text, occurs_at};
use crate::model::{CommandButton, Workspace};
use crate::text::{chars_of, push_char, push_str, string_from_chars, string_of};

verus! {

/// The text of each token.
pub open spec fn token_literal(token: ArgumentToken) -> Seq<char> {
    match token {
        ArgumentToken::Path => seq!['{', 'p', 'a', 't', 'h', '}'],
        ArgumentToken::Name => seq!['{', 'n', 'a', 'm', 'e', '}'],
        ArgumentToken::SelectFile => seq![
            '{',
            's',
            'e',
            'l',
            'e',
            'c',
            't',
            'f',
            'i',
            'l',
            'e',
            '}',
        ],
        ArgumentToken::SelectDir => seq!['{', 's', 'e', 'l', 'e', 'c', 't', 'd', 'i', 'r', '}'],
        ArgumentToken::InputText => seq!['{', 'i', 'n', 'p', 'u', 't', 't', 'e', 'x', 't', '}'],
        ArgumentToken::Language => seq!['{', 'L', 'a', 'n', 'g', 'u', 'a', 'g', 'e', '}'],
    }
}

/// Whether `literal` stands in `text` at `at`.
pub open spec fn stands_at(text: Seq<char>, at: int, literal: Seq<char>) -> bool {
    0 <= at && at + literal.len() <= text.len() && text.subrange(at, at + literal.len()) == literal
}

/// The known token that stands in `text` at `at`, if any.
pub open spec fn token_at(text: Seq<char>, at: int) -> Option<ArgumentToken> {
    if stands_at(text, at, token_literal(ArgumentToken::Path)) {
        Some(ArgumentToken::Path)
    } else if stands_at(text, at, token_literal(ArgumentToken::Name)) {
        Some(ArgumentToken::Name)
    } else if stands_at(text, at, token_literal(ArgumentToken::SelectFile)) {
        Some(ArgumentToken::SelectFile)
    } else if stands_at(text, at, token_literal(ArgumentToken::SelectDir)) {
        Some(ArgumentToken::SelectDir)
    } else if stands_at(text, at, token_literal(ArgumentToken::InputText)) {
        Some(ArgumentToken::InputText)
    } else if stands_at(text, at, token_literal(ArgumentToken::Language)) {
        Some(ArgumentToken::Language)
    } else {
        None
    }
}

/// The value given for `token`: the first pair that names it.
pub open spec fn value_for(replacements: Seq<(ArgumentToken, Seq<char>)>, token: ArgumentToken) -> Option<
    Seq<char>,
>
    decreases replacements.len(),
{
    if replacements.len() == 0 {
        None
    } else if replacements[0].0 == token {
        Some(replacements[0].1)
    } else {
        value_for(replacements.drop_first(), token)
    }
}

/// `text` from `at` on, with every known token that has a value replaced by it; everything else
/// is kept.
pub open spec fn replaced_from(
    text: Seq<char>,
    at: int,
    replacements: Seq<(ArgumentToken, Seq<char>)>,
) -> Seq<char>
    decreases text.len() - at,
{
    if at < 0 || at >= text.len() {
        Seq::empty()
    } else {
        match token_at(text, at) {
            Some(token) => match value_for(replacements, token) {
                Some(value) => value + replaced_from(
                    text,
                    at + token_literal(token).len(),
                    replacements,
                ),
                None => seq![text[at]] + replaced_from(text, at + 1, replacements),
            },
            None => seq![text[at]] + replaced_from(text, at + 1, replacements),
        }
    }
}

/// Whether `c` is an ASCII letter.
pub open spec fn is_ascii_letter(c: char) -> bool {
    ('a' <= c && c <= 'z') || ('A' <= c && c <= 'Z')
}

/// The end of the run of ASCII letters that starts at `from`.
pub open spec fn letters_end(text: Seq<char>, from: int) -> int
    decreases text.len() - from,
{
    if from < 0 || from >= text.len() || !is_ascii_letter(text[from]) {
        from
    } else {
        letters_end(text, from + 1)
    }
}

/// The closing brace of a token-shaped group (`{`, one or more letters, `}`) that opens at `at`.
pub open spec fn group_close(text: Seq<char>, at: int) -> Option<int> {
    if 0 <= at < text.len() && text[at] == '{' {
        let end = letters_end(text, at + 1);
        if end > at + 1 && end < text.len() && text[end] == '}' {
            Some(end)
        } else {
            None
        }
    } else {
        None
    }
}

/// The token-shaped groups of `text` from `at` on that are not known tokens, in order.
pub open spec fn unknown_from(text: Seq<char>, at: int) -> Seq<Seq<char>>
    decreases text.len() - at,
{
    if at < 0 || at >= text.len() {
        Seq::empty()
    } else {
        match group_close(text, at) {
            Some(end) => if token_at(text, at) is Some {
                unknown_from(text, end + 1)
            } else {
                seq![text.subrange(at, end + 1)] + unknown_from(text, end + 1)
            },
            None => unknown_from(text, at + 1),
        }
    }
}

/// Whether `token` appears in `text` from `at` on, by the same left-to-right reading.
pub open spec fn uses_token_from(text: Seq<char>, at: int, token: ArgumentToken) -> bool
    decreases text.len() - at,
{
    if at < 0 || at >= text.len() {
        false
    } else {
        match token_at(text, at) {
            Some(found) => found == token || uses_token_from(
                text,
                at + token_literal(found).len(),
                token,
            ),
            None => uses_token_from(text, at + 1, token),
        }
    }
}

fn literal_matches(text: &Vec<char>, at: usize, literal: &str) -> (matches: bool)
    ensures
        matches == stands_at(text@, at as int, literal@),
{
    let expected = chars_of(literal);
    if at > text.len() || expected.len() > text.len() - at {
        return false;
    }
    let mut k: usize = 0;
    while k < expected.len()
        invariant
            k <= expected.len(),
            at + expected.len() <= text.len(),
            expected@ == literal@,
            forall|j: int| 0 <= j < k ==> text@[at + j] == expected@[j],
        decreases expected.len() - k,
    {
        if text[at + k] != expected[k] {
            assert(text@.subrange(at as int, at + expected.len())[k as int] != literal@[k as int]);
            return false;
        }
        k = k + 1;
    }
    assert(text@.subrange(at as int, at + expected.len()) =~= literal@);
    true
}

fn token_starting_at(text: &Vec<char>, at: usize) -> (token: Option<ArgumentToken>)
    ensures
        token == token_at(text@, at as int),
        token matches Some(t) ==> at + token_literal(t).len() <= text@.len(),
{
    proof {
        reveal_strlit("{path}");
        reveal_strlit("{name}");
        reveal_strlit("{selectfile}");
        reveal_strlit("{selectdir}");
        reveal_strlit("{inputtext}");
        reveal_strlit("{Language}");
        assert("{path}"@ =~= token_literal(ArgumentToken::Path));
        assert("{name}"@ =~= token_literal(ArgumentToken::Name));
        assert("{selectfile}"@ =~= token_literal(ArgumentToken::SelectFile));
        assert("{selectdir}"@ =~= token_literal(ArgumentToken::SelectDir));
        assert("{inputtext}"@ =~= token_literal(ArgumentToken::InputText));
        assert("{Language}"@ =~= token_literal(ArgumentToken::Language));
    }
    if literal_matches(text, at, "{path}") {
        Some(ArgumentToken::Path)
    } else if literal_matches(text, at, "{name}") {
        Some(ArgumentToken::Name)
    } else if literal_matches(text, at, "{selectfile}") {
        Some(ArgumentToken::SelectFile)
    } else if literal_matches(text, at, "{selectdir}") {
        Some(ArgumentToken::SelectDir)
    } else if literal_matches(text, at, "{inputtext}") {
        Some(ArgumentToken::InputText)
    } else if literal_matches(text, at, "{Language}") {
        Some(ArgumentToken::Language)
    } else {
        None
    }
}

fn literal_len(token: ArgumentToken) -> (len: usize)
    ensures
        len == token_literal(token).len(),
{
    match token {
        ArgumentToken::Path => 6,
        ArgumentToken::Name => 6,
        ArgumentToken::SelectFile => 12,
        ArgumentToken::SelectDir => 11,
        ArgumentToken::InputText => 11,
        ArgumentToken::Language => 10,
    }
}

/// The views of replacement pairs.
pub open spec fn pair_views(replacements: Seq<(ArgumentToken, String)>) -> Seq<(ArgumentToken, Seq<char>)> {
    replacements.map_values(|p: (ArgumentToken, String)| (p.0, p.1@))
}

fn find_value(replacements: &Vec<(ArgumentToken, String)>, token: ArgumentToken) -> (index: Option<
    usize,
>)
    ensures
        match index {
            Some(i) => i < replacements@.len() && value_for(pair_views(replacements@), token)
                == Some(replacements@[i as int].1@),
            None => value_for(pair_views(replacements@), token) is None,
        },
{
    let ghost pairs = pair_views(replacements@);
    assert(pairs.skip(0) =~= pairs);
    let mut i: usize = 0;
    while i < replacements.len()
        invariant
            i <= replacements.len(),
            pairs == pair_views(replacements@),
            value_for(pairs, token) == value_for(pairs.skip(i as int), token),
        decreases replacements.len() - i,
    {
        proof {
            assert(pairs.skip(i as int).drop_first() =~= pairs.skip(i + 1));
            assert(pairs.skip(i as int)[0] == (replacements@[i as int].0, replacements@[i as int].1@));
        }
        if replacements[i].0 == token {
            return Some(i);
        }
        i = i + 1;
    }
    None
}

/// Puts the given values in place of the known tokens of `arguments`; tokens without a value and
/// all other text are kept as they are.
pub fn replace_argument_tokens(arguments: &str, replacements: &Vec<(ArgumentToken, String)>) -> (replaced:
    String)
    ensures
        replaced@ == replaced_from(arguments@, 0, pair_views(replacements@)),
{
    let text = chars_of(arguments);
    let ghost pairs = pair_views(replacements@);
    let mut replaced = String::new();
    let mut at: usize = 0;
    while at < text.len()
        invariant
            at <= text.len(),
            text@ == arguments@,
            pairs == pair_views(replacements@),
            replaced@ + replaced_from(text@, at as int, pairs) == replaced_from(text@, 0, pairs),
        decreases text.len() - at,
    {
        let mut step: usize = 1;
        let mut substituted = false;
        match token_starting_at(&text, at) {
            Some(token) => match find_value(replacements, token) {
                Some(index) => {
                    let ghost before = replaced@;
                    push_str(&mut replaced, replacements[index].1.as_str());
                    step = literal_len(token);
                    substituted = true;
                    assert(replaced@ + replaced_from(text@, at + step, pairs) =~= before
                        + replaced_from(text@, at as int, pairs));
                },
                None => {},
            },
            None => {},
        }
        if !substituted {
            let ghost before = replaced@;
            push_char(&mut replaced, text[at]);
            assert(replaced@ + replaced_from(text@, at + 1, pairs) =~= before + replaced_from(
                text@,
                at as int,
                pairs,
            ));
        }
        at = at + step;
    }
    assert(replaced@ =~= replaced@ + replaced_from(text@, at as int, pairs));
    replaced
}

fn letters_end_from(text: &Vec<char>, from: usize) -> (end: usize)
    requires
        from <= text@.len(),
    ensures
        end == letters_end(text@, from as int),
        from <= end <= text@.len(),
{
    let mut end = from;
    while end < text.len() && ((text[end] >= 'a' && text[end] <= 'z') || (text[end] >= 'A'
        && text[end] <= 'Z'))
        invariant
            from <= end <= text@.len(),
            letters_end(text@, from as int) == letters_end(text@, end as int),
        decreases text.len() - end,
    {
        end = end + 1;
    }
    end
}

fn group_close_at(text: &Vec<char>, at: usize) -> (close: Option<usize>)
    requires
        at < text@.len(),
    ensures
        match close {
            Some(end) => group_close(text@, at as int) == Some(end as int),
            None => group_close(text@, at as int) is None,
        },
{
    let len = text.len();
    if text[at] != '{' {
        return None;
    }
    assert(at < len);
    let end = letters_end_from(text, at + 1);
    if end > at + 1 && end < text.len() && text[end] == '}' {
        Some(end)
    } else {
        None
    }
}

/// The token-shaped groups of `arguments` that are not known tokens, in order of appearance.
pub fn unknown_argument_tokens(arguments: &str) -> (unknown: Vec<String>)
    ensures
        unknown@.map_values(|s: String| s@) == unknown_from(arguments@, 0),
{
    let text = chars_of(arguments);
    let mut unknown: Vec<String> = Vec::new();
    let mut at: usize = 0;
    while at < text.len()
        invariant
            at <= text.len(),
            text@ == arguments@,
            unknown@.map_values(|s: String| s@) + unknown_from(text@, at as int) == unknown_from(
                text@,
                0,
            ),
        decreases text.len() - at,
    {
        match group_close_at(&text, at) {
            Some(end) => {
                if token_starting_at(&text, at).is_none() {
                    let ghost before = unknown@.map_values(|s: String| s@);
                    unknown.push(string_from_chars(&text, at, end + 1));
                    assert(unknown@.map_values(|s: String| s@) =~= before.push(
                        text@.subrange(at as int, end + 1),
                    ));
                    assert(unknown@.map_values(|s: String| s@) + unknown_from(text@, end + 1)
                        =~= before + unknown_from(text@, at as int));
                }
                at = end + 1;
            },
            None => {
                at = at + 1;
            },
        }
    }
    assert(unknown@.map_values(|s: String| s@) =~= unknown@.map_values(|s: String| s@)
        + unknown_from(text@, at as int));
    unknown
}

/// Whether `arguments` use `token`.
pub fn arguments_use_token(arguments: &str, token: ArgumentToken) -> (used: bool)
    ensures
        used == uses_token_from(arguments@, 0, token),
{
    let text = chars_of(arguments);
    let mut at: usize = 0;
    while at < text.len()
        invariant
            at <= text.len(),
            text@ == arguments@,
            uses_token_from(text@, 0, token) == uses_token_from(text@, at as int, token),
        decreases text.len() - at,
    {
        match token_starting_at(&text, at) {
            Some(found) => {
                if found == token {
                    return true;
                }
                at = at + literal_len(found);
            },
            None => {
                at = at + 1;
            },
        }
    }
    false
}

/// The values that the selected workspace gives the workspace tokens.
pub fn workspace_replacements(workspace: &Workspace) -> (replacements: Vec<(ArgumentToken, String)>)
    ensures
        pair_views(replacements@) == seq![
            (ArgumentToken::Path, workspace.path@),
            (ArgumentToken::Name, workspace.name@),
            (ArgumentToken::Language, workspace.language@),
        ],
{
    let mut replacements: Vec<(ArgumentToken, String)> = Vec::new();
    replacements.push((ArgumentToken::Path, string_of(workspace.path.as_str())));
    replacements.push((ArgumentToken::Name, string_of(workspace.name.as_str())));
    replacements.push((ArgumentToken::Language, string_of(workspace.language.as_str())));
    assert(pair_views(replacements@) =~= seq![
        (ArgumentToken::Path, workspace.path@),
        (ArgumentToken::Name, workspace.name@),
        (ArgumentToken::Language, workspace.language@),
    ]);
    replacements
}

/// The replacement values prepared for the button's execution type.
pub open spec fn prepared_pairs(
    execution_type: ExecutionType,
    replacements: Seq<(ArgumentToken, Seq<char>)>,
) -> Seq<(ArgumentToken, Seq<char>)> {
    replacements.map_values(
        |p: (ArgumentToken, Seq<char>)| (p.0, token_execution_value(execution_type, p.1)),
    )
}

/// Prepares a button's arguments from the values of its tokens: a token-shaped group that is not
/// a known token is refused, naming every such group; otherwise each value is quoted for the
/// button's execution type and put in place of its token.
pub fn prepare_command_arguments(
    button: &CommandButton,
    replacements: &Vec<(ArgumentToken, String)>,
) -> (arguments: Result<String, CommandExecutionError>)
    ensures
        unknown_from(button.arguments@, 0).len() > 0 ==> (arguments matches Err(
            CommandExecutionError::ArgumentResolution {
                source: ArgumentResolutionError::UnknownTokens(tokens),
            },
        ) && tokens@.map_values(|s: String| s@) == unknown_from(button.arguments@, 0)),
        unknown_from(button.arguments@, 0).len() == 0 ==> (arguments matches Ok(text) && text@
            == replaced_from(
            button.arguments@,
            0,
            prepared_pairs(button.execution_type, pair_views(replacements@)),
        )),
{
    let unknown = unknown_argument_tokens(button.arguments.as_str());
    if unknown.len() > 0 {
        return Err(
            CommandExecutionError::ArgumentResolution {
                source: ArgumentResolutionError::UnknownTokens(unknown),
            },
        );
    }
    let mut prepared: Vec<(ArgumentToken, String)> = Vec::new();
    let mut i: usize = 0;
    while i < replacements.len()
        invariant
            i <= replacements.len(),
            pair_views(prepared@) == prepared_pairs(
                button.execution_type,
                pair_views(replacements@),
            ).take(i as int),
        decreases replacements.len() - i,
    {
        let token = replacements[i].0;
        let value = string_of(replacements[i].1.as_str());
        let execution_value = argument_token_execution_value(button.execution_type, token, value);
        let ghost before = pair_views(prepared@);
        prepared.push((token, execution_value));
        assert(pair_views(prepared@) =~= before.push(
            (token, token_execution_value(button.execution_type, replacements@[i as int].1@)),
        ));
        i = i + 1;
        assert(pair_views(prepared@) =~= prepared_pairs(
            button.execution_type,
            pair_views(replacements@),
        ).take(i as int));
    }
    assert(prepared_pairs(button.execution_type, pair_views(replacements@)).take(
        replacements.len() as int,
    ) =~= prepared_pairs(button.execution_type, pair_views(replacements@)));
    Ok(replace_argument_tokens(button.arguments.as_str(), &prepared))
}


/// Without any values, replacing tokens gives the arguments back unchanged.
pub proof fn replacing_without_values_keeps_arguments(text: Seq<char>, at: int)
    requires
        0 <= at <= text.len(),
    ensures
        replaced_from(text, at, Seq::empty()) == text.subrange(at, text.len() as int),
    decreases text.len() - at,
{
    if at < text.len() {
        replacing_without_values_keeps_arguments(text, at + 1);
        assert(text.subrange(at, text.len() as int) =~= seq![text[at]] + text.subrange(
            at + 1,
            text.len() as int,
        ));
    } else {
        assert(text.subrange(at, text.len() as int) =~= Seq::<char>::empty());
    }
}

/// Arguments in which no known token stands are kept unchanged, whatever the values.
pub proof fn arguments_without_tokens_are_kept(
    text: Seq<char>,
    at: int,
    replacements: Seq<(ArgumentToken, Seq<char>)>,
)
    requires
        0 <= at <= text.len(),
        forall|k: int| at <= k < text.len() ==> #[trigger] token_at(text, k) is None,
    ensures
        replaced_from(text, at, replacements) == text.subrange(at, text.len() as int),
    decreases text.len() - at,
{
    if at < text.len() {
        assert(token_at(text, at) is None);
        arguments_without_tokens_are_kept(text, at + 1, replacements);
        assert(text.subrange(at, text.len() as int) =~= seq![text[at]] + text.subrange(
            at + 1,
            text.len() as int,
        ));
    } else {
        assert(text.subrange(at, text.len() as int) =~= Seq::<char>::empty());
    }
}

proof fn lemma_prepared_value(
    execution_type: ExecutionType,
    replacements: Seq<(ArgumentToken, Seq<char>)>,
    token: ArgumentToken,
)
    ensures
        value_for(prepared_pairs(execution_type, replacements), token) == match value_for(
            replacements,
            token,
        ) {
            Some(value) => Some(
                match execution_type {
                    ExecutionType::ShellApi => windows_quoted(value),
                    ExecutionType::ExternalTerminal => cmd_quoted_argument(value),
                },
            ),
            None => None,
        },
    decreases replacements.len(),
{
    if replacements.len() > 0 {
        let prepared = prepared_pairs(execution_type, replacements);
        assert(prepared.drop_first() =~= prepared_pairs(execution_type, replacements.drop_first()));
        assert(prepared[0].0 == replacements[0].0);
        lemma_prepared_value(execution_type, replacements.drop_first(), token);
    }
}

/// Wherever the reading of the arguments meets a token that has a value, the prepared arguments
/// hold in its place exactly that value quoted as one Windows argument (for a shell button) or
/// quoted and escaped for `cmd.exe` (for an external-terminal button), whatever the token; the
/// rest of the arguments follows. For a shell button the text put in reads back as exactly one
/// argument, the value.
pub proof fn token_values_are_quoted_in_place(
    text: Seq<char>,
    at: int,
    execution_type: ExecutionType,
    replacements: Seq<(ArgumentToken, Seq<char>)>,
    token: ArgumentToken,
    value: Seq<char>,
)
    requires
        0 <= at < text.len(),
        token_at(text, at) == Some(token),
        value_for(replacements, token) == Some(value),
    ensures
        ({
            let prepared = prepared_pairs(execution_type, replacements);
            let quoted = match execution_type {
                ExecutionType::ShellApi => windows_quoted(value),
                ExecutionType::ExternalTerminal => cmd_quoted_argument(value),
            };
            &&& replaced_from(text, at, prepared) == quoted + replaced_from(
                text,
                at + token_literal(token).len(),
                prepared,
            )
            &&& execution_type == ExecutionType::ShellApi ==> windows_single_argument(quoted)
                == Some(value)
        }),
{
    lemma_prepared_value(execution_type, replacements, token);
    quoted_argument_reads_back(value);
}

proof fn lemma_used_token_stands(text: Seq<char>, at: int, token: ArgumentToken)
    requires
        uses_token_from(text, at, token),
    ensures
        exists|k: int| stands_at(text, k, token_literal(token)),
    decreases text.len() - at,
{
    match token_at(text, at) {
        Some(found) => {
            if found == token {
                assert(stands_at(text, at, token_literal(token)));
            } else {
                lemma_used_token_stands(text, at + token_literal(found).len(), token);
            }
        },
        None => lemma_used_token_stands(text, at + 1, token),
    }
}

/// Arguments in which the reading meets a workspace token (`{path}`, `{name}` or `{Language}`)
/// name the workspace, so running the button needs a selected workspace: a shell button with such
/// arguments and no workspace is refused as needing one.
pub proof fn workspace_tokens_need_a_workspace(button: CommandButton)
    requires
        uses_token_from(button.arguments@, 0, ArgumentToken::Path) || uses_token_from(
            button.arguments@,
            0,
            ArgumentToken::Name,
        ) || uses_token_from(button.arguments@, 0, ArgumentToken::Language),
    ensures
        names_workspace(button.arguments@),
        button_needs_workspace(button),
{
    let text = button.arguments@;
    reveal_strlit("{path}");
    reveal_strlit("{name}");
    reveal_strlit("{Language}");
    assert(token_literal(ArgumentToken::Path) =~= "{path}"@);
    assert(token_literal(ArgumentToken::Name) =~= "{name}"@);
    assert(token_literal(ArgumentToken::Language) =~= "{Language}"@);
    if uses_token_from(text, 0, ArgumentToken::Path) {
        lemma_used_token_stands(text, 0, ArgumentToken::Path);
        let k = choose|k: int| stands_at(text, k, token_literal(ArgumentToken::Path));
        assert(occurs_at(text, "{path}"@, k));
        assert(contains_text(text, "{path}"@));
    } else if uses_token_from(text, 0, ArgumentToken::Name) {
        lemma_used_token_stands(text, 0, ArgumentToken::Name);
        let k = choose|k: int| stands_at(text, k, token_literal(ArgumentToken::Name));
        assert(occurs_at(text, "{name}"@, k));
        assert(contains_text(text, "{name}"@));
    } else {
        lemma_used_token_stands(text, 0, ArgumentToken::Language);
        let k = choose|k: int| stands_at(text, k, token_literal(ArgumentToken::Language));
        assert(occurs_at(text, "{Language}"@, k));
        assert(contains_text(text, "{Language}"@));
    }
}

proof fn lemma_stands_shifted(p: Seq<char>, r: Seq<char>, i: int, literal: Seq<char>)
    requires
        0 <= i,
    ensures
        stands_at(p + r, p.len() + i, literal) == stands_at(r, i, literal),
{
    if i + literal.len() <= r.len() {
        assert((p + r).subrange(p.len() + i, p.len() + i + literal.len()) =~= r.subrange(
            i,
            i + literal.len(),
        ));
    }
}

proof fn lemma_token_at_shifted(p: Seq<char>, r: Seq<char>, i: int)
    requires
        0 <= i,
    ensures
        token_at(p + r, p.len() + i) == token_at(r, i),
{
    lemma_stands_shifted(p, r, i, token_literal(ArgumentToken::Path));
    lemma_stands_shifted(p, r, i, token_literal(ArgumentToken::Name));
    lemma_stands_shifted(p, r, i, token_literal(ArgumentToken::SelectFile));
    lemma_stands_shifted(p, r, i, token_literal(ArgumentToken::SelectDir));
    lemma_stands_shifted(p, r, i, token_literal(ArgumentToken::InputText));
    lemma_stands_shifted(p, r, i, token_literal(ArgumentToken::Language));
}

proof fn lemma_uses_token_shifted(p: Seq<char>, r: Seq<char>, i: int, token: ArgumentToken)
    requires
        0 <= i,
    ensures
        uses_token_from(p + r, p.len() + i, token) == uses_token_from(r, i, token),
    decreases r.len() - i,
{
    if i < r.len() {
        lemma_token_at_shifted(p, r, i);
        match token_at(r, i) {
            Some(found) => lemma_uses_token_shifted(p, r, i + token_literal(found).len(), token),
            None => lemma_uses_token_shifted(p, r, i + 1, token),
        }
    }
}

proof fn lemma_token_reads_itself(token: ArgumentToken, rest: Seq<char>)
    ensures
        token_at(token_literal(token) + rest, 0) == Some(token),
{
    let text = token_literal(token) + rest;
    let lit = token_literal(token);
    assert(text.subrange(0, lit.len() as int) =~= lit);
    assert(forall|k: int| 0 <= k < lit.len() ==> text[k] == lit[k]);
    assert(text[1] == lit[1]);
    assert(text[7] == lit[7] || lit.len() < 8);
}

/// Reading arguments that start with a known token finds that token, and then reads on after it:
/// the arguments use a token exactly when it is the first one or the rest uses it.
pub proof fn leading_token_is_read_and_reading_goes_on(
    first: ArgumentToken,
    rest: Seq<char>,
    token: ArgumentToken,
)
    ensures
        uses_token_from(token_literal(first) + rest, 0, token) == (first == token
            || uses_token_from(rest, 0, token)),
{
    let text = token_literal(first) + rest;
    lemma_token_reads_itself(first, rest);
    lemma_uses_token_shifted(token_literal(first), rest, 0, token);
}

proof fn lemma_not_standing_first(text: Seq<char>, literal: Seq<char>)
    requires
        literal.len() > 0,
        text.len() > 0,
        text[0] != literal[0],
    ensures
        !stands_at(text, 0, literal),
{
    if stands_at(text, 0, literal) {
        assert(text.subrange(0, literal.len() as int)[0] == text[0]);
    }
}

/// A character other than an opening brace cannot open a token, so it is passed over: it changes nothing of which tokens the
/// rest of the arguments uses.
pub proof fn plain_character_is_passed_over(c: char, rest: Seq<char>, token: ArgumentToken)
    requires
        c != '\u{7b}',
    ensures
        uses_token_from(seq![c] + rest, 0, token) == uses_token_from(rest, 0, token),
{
    let text = seq![c] + rest;
    assert(text[0] == c);
    lemma_not_standing_first(text, token_literal(ArgumentToken::Path));
    lemma_not_standing_first(text, token_literal(ArgumentToken::Name));
    lemma_not_standing_first(text, token_literal(ArgumentToken::SelectFile));
    lemma_not_standing_first(text, token_literal(ArgumentToken::SelectDir));
    lemma_not_standing_first(text, token_literal(ArgumentToken::InputText));
    lemma_not_standing_first(text, token_literal(ArgumentToken::Language));
    assert(token_at(text, 0) is None);
    lemma_uses_token_shifted(seq![c], rest, 0, token);
}

} // verus!
