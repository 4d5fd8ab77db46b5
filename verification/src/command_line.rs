//! Building the command lines that command buttons hand to the Windows shell.
//!
//! A `ShellApi` button passes its arguments straight to `ShellExecuteW`, so each substituted
//! value is quoted with the rules that `CommandLineToArgvW` reverses. An `ExternalTerminal`
//! button runs through `cmd.exe /S /K "..."`, so the quoted value is additionally escaped with
//! `^` for the command processor.

use vstd::prelude::*;

use crate::text::{char_is_whitespace, is_unicode_whitespace, push_char, push_str, repeated};

verus! {

/// How a command button is run.
#[derive(Clone, Copy, Debug, PartialEq, Eq, Structural)]
pub enum ExecutionType {
    /// Started directly with `ShellExecuteW`.
    ShellApi,
    /// Started inside a new `cmd.exe` window in the workspace folder.
    ExternalTerminal,
}

/// The argument tokens that a command button may contain.
#[derive(Clone, Copy, Debug, PartialEq, Eq, Structural)]
pub enum ArgumentToken {
    /// `{path}`: the selected workspace folder.
    Path,
    /// `{name}`: the selected workspace name.
    Name,
    /// `{selectfile}`: a file chosen when the command runs.
    SelectFile,
    /// `{selectdir}`: a folder chosen when the command runs.
    SelectDir,
    /// `{inputtext}`: text typed when the command runs.
    InputText,
    /// `{Language}`: the selected workspace language.
    Language,
}

/// Characters that force a Windows command-line argument into double quotes.
pub open spec fn needs_windows_quote(c: char) -> bool {
    is_unicode_whitespace(c) || c == '"' || c == '&' || c == '|' || c == '<' || c == '>' || c
        == '(' || c == ')' || c == '^'
}

/// Whether `c` forces an argument into double quotes.
pub fn requires_windows_command_quote(c: char) -> (quote: bool)
    ensures
        quote == needs_windows_quote(c),
{
    char_is_whitespace(c) || c == '"' || c == '&' || c == '|' || c == '<' || c == '>' || c == '('
        || c == ')' || c == '^'
}

/// The inside of a quoted argument read left to right: the characters written so far and the
/// number of backslashes seen but not yet written. A run of backslashes is doubled when a double
/// quote follows it (and that quote gets one more backslash); otherwise it is kept as is.
pub open spec fn quote_scan(s: Seq<char>) -> (Seq<char>, nat)
    decreases s.len(),
{
    if s.len() == 0 {
        (Seq::empty(), 0)
    } else {
        let (written, pending) = quote_scan(s.drop_last());
        let c = s.last();
        if c == '\\' {
            (written, pending + 1)
        } else if c == '"' {
            (written + repeated('\\', 2 * pending + 1) + seq!['"'], 0)
        } else {
            (written + repeated('\\', pending) + seq![c], 0)
        }
    }
}

/// `value` as one Windows command-line argument: `""` when empty, unchanged when nothing in it
/// needs quoting, else in double quotes with backslashes and quotes escaped (backslashes before
/// the closing quote are doubled).
pub open spec fn windows_quoted(value: Seq<char>) -> Seq<char> {
    if value.len() == 0 {
        seq!['"', '"']
    } else if forall|i: int| 0 <= i < value.len() ==> !needs_windows_quote(#[trigger] value[i]) {
        value
    } else {
        seq!['"'] + quote_scan(value).0 + repeated('\\', 2 * quote_scan(value).1) + seq!['"']
    }
}

/// Quotes `value` as a single Windows command-line argument.
pub fn quote_windows_command_argument(value: &str) -> (quoted: String)
    ensures
        quoted@ == windows_quoted(value@),
{
    let mut quoted = String::new();
    if value.is_empty() {
        push_char(&mut quoted, '"');
        push_char(&mut quoted, '"');
        assert(quoted@ =~= seq!['"', '"']);
        return quoted;
    }
    let mut needs_quote = false;
    for c in it: value.chars()
        invariant
            it.seq() == value@,
            needs_quote == exists|i: int| 0 <= i < it.index() && needs_windows_quote(value@[i]),
    {
        if requires_windows_command_quote(c) {
            needs_quote = true;
        }
        assert(value@[it.index()] == c);
    }
    if !needs_quote {
        push_str(&mut quoted, value);
        assert(quoted@ =~= value@);
        return quoted;
    }
    push_char(&mut quoted, '"');
    // The backslashes seen since the last other character, not yet written.
    let mut pending = String::new();
    for c in it: value.chars()
        invariant
            it.seq() == value@,
            quoted@ == seq!['"'] + quote_scan(value@.take(it.index())).0,
            pending@ == repeated('\\', quote_scan(value@.take(it.index())).1),
    {
        proof {
            let next = value@.take(it.index() + 1);
            assert(next.drop_last() =~= value@.take(it.index()));
            assert(next.last() == c);
        }
        let ghost prev = quote_scan(value@.take(it.index()));
        if c == '\\' {
            push_char(&mut pending, '\\');
            assert(pending@ =~= repeated('\\', prev.1 + 1));
        } else if c == '"' {
            push_str(&mut quoted, pending.as_str());
            push_str(&mut quoted, pending.as_str());
            push_char(&mut quoted, '\\');
            push_char(&mut quoted, '"');
            proof {
                assert(repeated('\\', prev.1) + repeated('\\', prev.1) + seq!['\\'] =~= repeated(
                    '\\',
                    2 * prev.1 + 1,
                ));
                assert(quoted@ =~= seq!['"'] + (prev.0 + repeated('\\', 2 * prev.1 + 1) + seq![
                    '"',
                ]));
            }
            pending = String::new();
            assert(pending@ =~= repeated('\\', 0));
        } else {
            push_str(&mut quoted, pending.as_str());
            push_char(&mut quoted, c);
            proof {
                assert(quoted@ =~= seq!['"'] + (prev.0 + repeated('\\', prev.1) + seq![c]));
            }
            pending = String::new();
            assert(pending@ =~= repeated('\\', 0));
        }
    }
    push_str(&mut quoted, pending.as_str());
    push_str(&mut quoted, pending.as_str());
    push_char(&mut quoted, '"');
    proof {
        assert(value@.take(value@.len() as int) =~= value@);
        let scan = quote_scan(value@);
        assert(repeated('\\', scan.1) + repeated('\\', scan.1) =~= repeated('\\', 2 * scan.1));
        assert(quoted@ =~= seq!['"'] + scan.0 + repeated('\\', 2 * scan.1) + seq!['"']);
        let k = choose|i: int| 0 <= i < value@.len() && needs_windows_quote(value@[i]);
        assert(needs_windows_quote(value@[k]));
    }
    quoted
}

/// What the Windows argument rules have read of one command-line argument so far: the text
/// produced, the backslashes seen but not yet resolved, whether a quoted part is open, and
/// whether unquoted white space has ended the argument.
pub struct ArgumentReading {
    pub text: Seq<char>,
    pub backslashes: nat,
    pub in_quotes: bool,
    pub split: bool,
}

/// Nothing read yet.
pub open spec fn argument_reading_start() -> ArgumentReading {
    ArgumentReading { text: Seq::empty(), backslashes: 0, in_quotes: false, split: false }
}

/// Reads one more character under the Windows argument rules: backslashes are literal unless a
/// double quote follows them; `2n` backslashes and a quote give `n` backslashes and open or close
/// a quoted part, `2n + 1` backslashes and a quote give `n` backslashes and a literal quote; a
/// space or tab outside a quoted part ends the argument.
pub open spec fn argument_step(r: ArgumentReading, c: char) -> ArgumentReading {
    if r.split {
        r
    } else if c == '\\' {
        ArgumentReading {
            text: r.text,
            backslashes: r.backslashes + 1,
            in_quotes: r.in_quotes,
            split: false,
        }
    } else if c == '"' {
        if r.backslashes % 2 == 0 {
            ArgumentReading {
                text: r.text + repeated('\\', r.backslashes / 2),
                backslashes: 0,
                in_quotes: !r.in_quotes,
                split: false,
            }
        } else {
            ArgumentReading {
                text: r.text + repeated('\\', r.backslashes / 2) + seq!['"'],
                backslashes: 0,
                in_quotes: r.in_quotes,
                split: false,
            }
        }
    } else if (c == ' ' || c == '\t') && !r.in_quotes {
        ArgumentReading { text: r.text, backslashes: r.backslashes, in_quotes: false, split: true }
    } else {
        ArgumentReading {
            text: r.text + repeated('\\', r.backslashes) + seq![c],
            backslashes: 0,
            in_quotes: r.in_quotes,
            split: false,
        }
    }
}

/// Reads `s` left to right under the Windows argument rules.
pub open spec fn argument_scan(s: Seq<char>) -> ArgumentReading
    decreases s.len(),
{
    if s.len() == 0 {
        argument_reading_start()
    } else {
        argument_step(argument_scan(s.drop_last()), s.last())
    }
}

/// The single argument that `s` stands for under the Windows argument rules, or `None` when `s`
/// is empty, splits into several arguments or leaves a quoted part open.
pub open spec fn windows_single_argument(s: Seq<char>) -> Option<Seq<char>> {
    let r = argument_scan(s);
    if s.len() == 0 || r.split || r.in_quotes {
        None
    } else {
        Some(r.text + repeated('\\', r.backslashes))
    }
}

proof fn lemma_argument_scan_push(s: Seq<char>, c: char)
    ensures
        argument_scan(s.push(c)) == argument_step(argument_scan(s), c),
{
    assert(s.push(c).drop_last() =~= s);
}

proof fn lemma_argument_scan_backslashes(s: Seq<char>, n: nat)
    requires
        !argument_scan(s).split,
    ensures
        argument_scan(s + repeated('\\', n)) == (ArgumentReading {
            text: argument_scan(s).text,
            backslashes: argument_scan(s).backslashes + n,
            in_quotes: argument_scan(s).in_quotes,
            split: false,
        }),
    decreases n,
{
    if n == 0 {
        assert(s + repeated('\\', 0) =~= s);
    } else {
        let m = (n - 1) as nat;
        lemma_argument_scan_backslashes(s, m);
        assert(s + repeated('\\', n) =~= (s + repeated('\\', m)).push('\\'));
        lemma_argument_scan_push(s + repeated('\\', m), '\\');
    }
}

proof fn lemma_quoted_body(u: Seq<char>)
    ensures
        quote_scan(u).1 <= u.len(),
        u.subrange(u.len() - quote_scan(u).1, u.len() as int) == repeated('\\', quote_scan(u).1),
        argument_scan(seq!['"'] + quote_scan(u).0) == (ArgumentReading {
            text: u.take(u.len() - quote_scan(u).1),
            backslashes: 0,
            in_quotes: true,
            split: false,
        }),
    decreases u.len(),
{
    let (w, p) = quote_scan(u);
    if u.len() == 0 {
        assert(seq!['"'] + w =~= seq![].push('"'));
        lemma_argument_scan_push(seq![], '"');
        assert(repeated('\\', 0) =~= Seq::<char>::empty());
        assert(u.take(0) =~= Seq::<char>::empty());
        assert(u.subrange(0, 0) =~= repeated('\\', 0));
    } else {
        let v = u.drop_last();
        let c = u.last();
        lemma_quoted_body(v);
        let (w0, p0) = quote_scan(v);
        let start = seq!['"'] + w0;
        let before = argument_scan(start);
        assert(v.take(v.len() - p0) + repeated('\\', p0) =~= v) by {
            assert(v =~= v.take(v.len() - p0) + v.subrange(v.len() - p0, v.len() as int));
        }
        if c == '\\' {
            assert(u.take(u.len() - p) =~= v.take(v.len() - p0));
            assert(u.subrange(u.len() - p, u.len() as int) =~= v.subrange(
                v.len() - p0,
                v.len() as int,
            ).push('\\'));
            assert(repeated('\\', p0).push('\\') =~= repeated('\\', p));
        } else if c == '"' {
            let k = 2 * p0 + 1;
            lemma_argument_scan_backslashes(start, k);
            assert(seq!['"'] + w =~= (start + repeated('\\', k)).push('"'));
            lemma_argument_scan_push(start + repeated('\\', k), '"');
            assert(k / 2 == p0);
            assert(u.take(u.len() - p) =~= u);
            assert(v.take(v.len() - p0) + repeated('\\', p0) + seq!['"'] =~= u);
            assert(u.subrange(u.len() - p, u.len() as int) =~= repeated('\\', p));
        } else {
            lemma_argument_scan_backslashes(start, p0);
            assert(seq!['"'] + w =~= (start + repeated('\\', p0)).push(c));
            lemma_argument_scan_push(start + repeated('\\', p0), c);
            assert(u.take(u.len() - p) =~= u);
            assert(v.take(v.len() - p0) + repeated('\\', p0) + seq![c] =~= u);
            assert(u.subrange(u.len() - p, u.len() as int) =~= repeated('\\', p));
        }
    }
}

proof fn lemma_plain_argument(v: Seq<char>)
    requires
        forall|i: int| 0 <= i < v.len() ==> !needs_windows_quote(#[trigger] v[i]),
    ensures
        !argument_scan(v).split,
        !argument_scan(v).in_quotes,
        argument_scan(v).text + repeated('\\', argument_scan(v).backslashes) == v,
    decreases v.len(),
{
    if v.len() == 0 {
        assert(Seq::<char>::empty() + repeated('\\', 0) =~= v);
    } else {
        let u = v.drop_last();
        let c = v.last();
        assert(forall|i: int| 0 <= i < u.len() ==> u[i] == v[i]);
        lemma_plain_argument(u);
        assert(!needs_windows_quote(v[v.len() - 1]));
        let r = argument_scan(u);
        if c == '\\' {
            assert(r.text + repeated('\\', r.backslashes + 1) =~= (r.text + repeated(
                '\\',
                r.backslashes,
            )).push('\\'));
        } else {
            assert(r.text + repeated('\\', r.backslashes) + seq![c] + repeated('\\', 0)
                =~= u.push(c));
        }
        assert(u.push(c) =~= v);
    }
}

/// A value quoted by `windows_quoted` is read back by the Windows argument rules as exactly one
/// argument, equal to the value.
pub proof fn quoted_argument_reads_back(value: Seq<char>)
    ensures
        windows_single_argument(windows_quoted(value)) == Some(value),
{
    let q = windows_quoted(value);
    if value.len() == 0 {
        assert(q =~= seq![].push('"').push('"'));
        lemma_argument_scan_push(seq![], '"');
        lemma_argument_scan_push(seq!['"'], '"');
        assert(seq![].push('"') =~= seq!['"']);
        assert(Seq::<char>::empty() + repeated('\\', 0) + repeated('\\', 0) =~= value);
    } else if forall|i: int| 0 <= i < value.len() ==> !needs_windows_quote(#[trigger] value[i]) {
        lemma_plain_argument(value);
    } else {
        let (w, p) = quote_scan(value);
        lemma_quoted_body(value);
        let start = seq!['"'] + w;
        lemma_argument_scan_backslashes(start, 2 * p);
        assert(q =~= (start + repeated('\\', 2 * p)).push('"'));
        lemma_argument_scan_push(start + repeated('\\', 2 * p), '"');
        assert((2 * p) / 2 == p);
        assert(value =~= value.take(value.len() - p) + value.subrange(
            value.len() - p,
            value.len() as int,
        ));
        assert(value.take(value.len() - p) + repeated('\\', p) + repeated('\\', 0) =~= value);
    }
}

/// Characters that the command processor treats specially inside a command line.
pub open spec fn needs_cmd_escape(c: char) -> bool {
    c == '"' || c == '%' || c == '!' || c == '&' || c == '|' || c == '<' || c == '>' || c == '('
        || c == ')' || c == '^'
}

/// Whether `c` must be escaped with `^` for `cmd.exe`.
pub fn requires_cmd_escape(c: char) -> (escape: bool)
    ensures
        escape == needs_cmd_escape(c),
{
    c == '"' || c == '%' || c == '!' || c == '&' || c == '|' || c == '<' || c == '>' || c == '('
        || c == ')' || c == '^'
}

/// `s` with a `^` before every character that `escape` selects.
pub open spec fn caret_escaped(s: Seq<char>, escape: spec_fn(char) -> bool) -> Seq<char>
    decreases s.len(),
{
    if s.len() == 0 {
        Seq::empty()
    } else {
        let head = caret_escaped(s.drop_last(), escape);
        if escape(s.last()) {
            head.push('^').push(s.last())
        } else {
            head.push(s.last())
        }
    }
}

/// Whether `c` is `%`.
pub open spec fn is_percent(c: char) -> bool {
    c == '%'
}

/// What the Windows argument rules have read of a whole command line so far: the arguments
/// finished, the argument being read, and whether one is being read.
pub struct CommandLineReading {
    pub arguments: Seq<Seq<char>>,
    pub current: ArgumentReading,
    pub started: bool,
}

/// The text of an argument once it ends: what was read, and the backslashes still pending.
pub open spec fn finished_argument(r: ArgumentReading) -> Seq<char> {
    r.text + repeated('\\', r.backslashes)
}

/// Reads one more character of a command line: a space or tab outside a quoted part ends the
/// argument being read (several in a row end nothing more); every other character is read into
/// the current argument by the Windows argument rules.
pub open spec fn command_line_step(r: CommandLineReading, c: char) -> CommandLineReading {
    if (c == ' ' || c == '\t') && !r.current.in_quotes {
        if r.started {
            CommandLineReading {
                arguments: r.arguments.push(finished_argument(r.current)),
                current: argument_reading_start(),
                started: false,
            }
        } else {
            r
        }
    } else {
        CommandLineReading {
            arguments: r.arguments,
            current: argument_step(r.current, c),
            started: true,
        }
    }
}

/// Reads a command line left to right.
pub open spec fn command_line_scan(s: Seq<char>) -> CommandLineReading
    decreases s.len(),
{
    if s.len() == 0 {
        CommandLineReading {
            arguments: Seq::empty(),
            current: argument_reading_start(),
            started: false,
        }
    } else {
        command_line_step(command_line_scan(s.drop_last()), s.last())
    }
}

/// The arguments that the Windows argument rules split a command line into.
pub open spec fn windows_arguments(s: Seq<char>) -> Seq<Seq<char>> {
    let r = command_line_scan(s);
    if r.started {
        r.arguments.push(finished_argument(r.current))
    } else {
        r.arguments
    }
}

proof fn lemma_command_line_reads_argument(a: Seq<char>, t: Seq<char>)
    requires
        command_line_scan(a).current == argument_reading_start(),
        !command_line_scan(a).started,
        !argument_scan(t).split,
        t.len() > 0,
    ensures
        command_line_scan(a + t) == (CommandLineReading {
            arguments: command_line_scan(a).arguments,
            current: argument_scan(t),
            started: true,
        }),
    decreases t.len(),
{
    let u = t.drop_last();
    let c = t.last();
    assert((a + t).drop_last() =~= a + u);
    assert((a + t).last() == c);
    if u.len() == 0 {
        assert(a + u =~= a);
        assert(t.drop_last() =~= u);
        assert(argument_scan(u) == argument_reading_start());
    } else {
        if argument_scan(u).split {
            assert(argument_scan(t).split);
        }
        lemma_command_line_reads_argument(a, u);
    }
}

/// A program name that needs no quoting, a space, and a value quoted by `windows_quoted` split
/// back, under the Windows argument rules, into exactly the program name and the value; a
/// non-empty value that needs no quoting is passed as it is.
pub proof fn quoted_argument_follows_program(program: Seq<char>, value: Seq<char>)
    requires
        program.len() > 0,
        forall|i: int| 0 <= i < program.len() ==> !needs_windows_quote(#[trigger] program[i]),
    ensures
        windows_arguments(program + seq![' '] + windows_quoted(value)) == seq![program, value],
        value.len() > 0 && (forall|i: int|
            0 <= i < value.len() ==> !needs_windows_quote(#[trigger] value[i])) ==> windows_quoted(
            value,
        ) == value,
{
    let empty = Seq::<char>::empty();
    lemma_plain_argument(program);
    assert(empty + program =~= program);
    lemma_command_line_reads_argument(empty, program);
    let head = program + seq![' '];
    assert(head.drop_last() =~= program);
    assert(head.last() == ' ');
    let after_head = command_line_scan(head);
    assert(after_head.arguments =~= seq![program]);
    assert(after_head.current == argument_reading_start());
    assert(!after_head.started);
    let quoted = windows_quoted(value);
    quoted_argument_reads_back(value);
    lemma_command_line_reads_argument(head, quoted);
    assert(seq![program].push(value) =~= seq![program, value]);
}

/// The text that the command processor reads from `s` outside double quotes: a `^` is dropped
/// and the character after it is taken literally.
pub open spec fn caret_read(s: Seq<char>) -> Seq<char>
    decreases s.len(),
{
    if s.len() == 0 {
        Seq::empty()
    } else if s[0] == '^' && s.len() >= 2 {
        seq![s[1]] + caret_read(s.skip(2))
    } else {
        seq![s[0]] + caret_read(s.skip(1))
    }
}

proof fn lemma_caret_escaped_append(a: Seq<char>, b: Seq<char>, escape: spec_fn(char) -> bool)
    ensures
        caret_escaped(a + b, escape) == caret_escaped(a, escape) + caret_escaped(b, escape),
    decreases b.len(),
{
    if b.len() == 0 {
        assert(a + b =~= a);
        assert(caret_escaped(a, escape) + Seq::<char>::empty() =~= caret_escaped(a, escape));
    } else {
        let b0 = b.drop_last();
        lemma_caret_escaped_append(a, b0, escape);
        assert((a + b).drop_last() =~= a + b0);
        assert((a + b).last() == b.last());
        let head = caret_escaped(a, escape);
        let tail = caret_escaped(b0, escape);
        if escape(b.last()) {
            assert((head + tail).push('^').push(b.last()) =~= head + tail.push('^').push(
                b.last(),
            ));
        } else {
            assert((head + tail).push(b.last()) =~= head + tail.push(b.last()));
        }
    }
}

/// Escaping every character that the command processor treats specially, `^` included, is
/// undone by the command processor's reading: it gets back exactly the text that was escaped.
pub proof fn caret_escape_reads_back(s: Seq<char>)
    ensures
        caret_read(caret_escaped(s, |c: char| needs_cmd_escape(c))) == s,
    decreases s.len(),
{
    let escape = |c: char| needs_cmd_escape(c);
    if s.len() == 0 {
        assert(caret_read(caret_escaped(s, escape)) =~= s);
    } else {
        let first = seq![s[0]];
        let rest = s.skip(1);
        assert(s =~= first + rest);
        lemma_caret_escaped_append(first, rest, escape);
        caret_escape_reads_back(rest);
        let tail = caret_escaped(rest, escape);
        assert(first.drop_last() =~= Seq::<char>::empty());
        assert(caret_escaped(first.drop_last(), escape) =~= Seq::<char>::empty());
        assert(first.last() == s[0]);
        if needs_cmd_escape(s[0]) {
            assert(caret_escaped(first, escape) =~= seq!['^', s[0]]);
            let e = seq!['^', s[0]] + tail;
            assert(e.skip(2) =~= tail);
            assert(caret_read(e) == seq![s[0]] + caret_read(tail));
        } else {
            assert(caret_escaped(first, escape) =~= seq![s[0]]);
            let e = seq![s[0]] + tail;
            assert(e.skip(1) =~= tail);
            assert(caret_read(e) == seq![s[0]] + caret_read(tail));
        }
        assert(caret_escaped(s, escape) == caret_escaped(first, escape) + tail);
    }
}

/// An argument value prepared for `cmd.exe` comes back, once the command processor has read
/// its carets and the Windows argument rules have read the result, as exactly one argument equal
/// to the value.
pub proof fn terminal_argument_reads_back(value: Seq<char>)
    ensures
        windows_single_argument(caret_read(cmd_quoted_argument(value))) == Some(value),
{
    caret_escape_reads_back(windows_quoted(value));
    quoted_argument_reads_back(value);
}

/// Escapes every `%` of an executable path with `^`, so that `cmd.exe` does not expand
/// environment variables in it.
pub fn escape_cmd_executable_path(value: &str) -> (escaped: String)
    ensures
        escaped@ == caret_escaped(value@, |c: char| is_percent(c)),
{
    let mut escaped = String::new();
    for c in it: value.chars()
        invariant
            it.seq() == value@,
            escaped@ == caret_escaped(value@.take(it.index()), |c: char| is_percent(c)),
    {
        proof {
            assert(value@.take(it.index() + 1).drop_last() =~= value@.take(it.index()));
        }
        if c == '%' {
            push_char(&mut escaped, '^');
        }
        push_char(&mut escaped, c);
    }
    assert(value@.take(value@.len() as int) =~= value@);
    escaped
}

/// Escapes every character that `cmd.exe` treats specially with `^`.
pub fn escape_cmd_command_token(value: &str) -> (escaped: String)
    ensures
        escaped@ == caret_escaped(value@, |c: char| needs_cmd_escape(c)),
{
    let mut escaped = String::new();
    for c in it: value.chars()
        invariant
            it.seq() == value@,
            escaped@ == caret_escaped(value@.take(it.index()), |c: char| needs_cmd_escape(c)),
    {
        proof {
            assert(value@.take(it.index() + 1).drop_last() =~= value@.take(it.index()));
        }
        if requires_cmd_escape(c) {
            push_char(&mut escaped, '^');
        }
        push_char(&mut escaped, c);
    }
    assert(value@.take(value@.len() as int) =~= value@);
    escaped
}

/// An argument for a command run through `cmd.exe`: Windows-quoted, then caret-escaped.
pub open spec fn cmd_quoted_argument(value: Seq<char>) -> Seq<char> {
    caret_escaped(windows_quoted(value), |c: char| needs_cmd_escape(c))
}

/// An executable path for a command run through `cmd.exe`: Windows-quoted, then `%` escaped.
pub open spec fn cmd_quoted_executable(value: Seq<char>) -> Seq<char> {
    caret_escaped(windows_quoted(value), |c: char| is_percent(c))
}

/// Quotes and escapes a substituted argument value for `cmd.exe`.
pub fn quote_cmd_command_argument(value: &str) -> (quoted: String)
    ensures
        quoted@ == cmd_quoted_argument(value@),
{
    let windows_argument = quote_windows_command_argument(value);
    escape_cmd_command_token(windows_argument.as_str())
}

/// Quotes an executable path and escapes its `%` for `cmd.exe`.
pub fn quote_cmd_executable_path(value: &str) -> (quoted: String)
    ensures
        quoted@ == cmd_quoted_executable(value@),
{
    let windows_argument = quote_windows_command_argument(value);
    escape_cmd_executable_path(windows_argument.as_str())
}

/// The text that replaces an argument token: the value quoted for the way the button runs.
pub open spec fn token_execution_value(execution_type: ExecutionType, value: Seq<char>) -> Seq<char> {
    match execution_type {
        ExecutionType::ShellApi => windows_quoted(value),
        ExecutionType::ExternalTerminal => cmd_quoted_argument(value),
    }
}

/// Quotes the value substituted for `token` so that it stays one argument when the button runs.
pub fn argument_token_execution_value(
    execution_type: ExecutionType,
    token: ArgumentToken,
    value: String,
) -> (execution_value: String)
    ensures
        execution_value@ == token_execution_value(execution_type, value@),
{
    match execution_type {
        ExecutionType::ShellApi => quote_windows_command_argument(value.as_str()),
        ExecutionType::ExternalTerminal => quote_cmd_command_argument(value.as_str()),
    }
}

/// The command line that `cmd.exe` runs for an external-terminal button: the escaped executable,
/// then a space and the arguments when there are any.
pub open spec fn terminal_command_line(executable: Seq<char>, arguments: Seq<char>) -> Seq<char> {
    if arguments.len() == 0 {
        cmd_quoted_executable(executable)
    } else {
        cmd_quoted_executable(executable) + seq![' '] + arguments
    }
}

/// Joins the quoted executable path and the already prepared arguments.
pub fn command_line_from_executable_and_arguments(
    executable_path: &str,
    arguments: &str,
) -> (command_line: String)
    ensures
        command_line@ == terminal_command_line(executable_path@, arguments@),
{
    let mut command_line = quote_cmd_executable_path(executable_path);
    if !arguments.is_empty() {
        push_char(&mut command_line, ' ');
        push_str(&mut command_line, arguments);
    }
    command_line
}

/// The prefix of the `cmd.exe` parameters: no AutoRun, delayed expansion off, keep the window.
pub open spec fn terminal_parameters_prefix() -> Seq<char> {
    seq!['/', 'D', ' ', '/', 'V', ':', 'O', 'F', 'F', ' ', '/', 'S', ' ', '/', 'K', ' ', '"']
}

/// The parameters handed to `cmd.exe`: `/D /V:OFF /S /K "<command line>"`.
pub open spec fn terminal_parameters(command_line: Seq<char>) -> Seq<char> {
    terminal_parameters_prefix() + command_line + seq!['"']
}

/// Wraps a command line in the `cmd.exe` switches that run it in a kept-open window.
pub fn external_terminal_parameters_for_command(command_line: &str) -> (parameters: String)
    ensures
        parameters@ == terminal_parameters(command_line@),
{
    let mut parameters = String::new();
    push_char(&mut parameters, '/');
    push_char(&mut parameters, 'D');
    push_char(&mut parameters, ' ');
    push_char(&mut parameters, '/');
    push_char(&mut parameters, 'V');
    push_char(&mut parameters, ':');
    push_char(&mut parameters, 'O');
    push_char(&mut parameters, 'F');
    push_char(&mut parameters, 'F');
    push_char(&mut parameters, ' ');
    push_char(&mut parameters, '/');
    push_char(&mut parameters, 'S');
    push_char(&mut parameters, ' ');
    push_char(&mut parameters, '/');
    push_char(&mut parameters, 'K');
    push_char(&mut parameters, ' ');
    push_char(&mut parameters, '"');
    assert(parameters@ =~= terminal_parameters_prefix());
    push_str(&mut parameters, command_line);
    push_char(&mut parameters, '"');
    parameters
}

} // verus!
