//! Character-level helpers shared by the rest of the library.

use vstd::prelude::*;

verus! {

/// Appends one character to a string (`String::push`).
#[verifier::external_body]
pub(crate) fn push_char(text: &mut String, c: char)
    ensures
        final(text)@ == old(text)@.push(c),
{
    text.push(c);
}

/// `count` copies of `c`.
pub open spec fn repeated(c: char, count: nat) -> Seq<char> {
    Seq::new(count, |_i: int| c)
}

/// Appends `count` copies of `c` to `text`.
pub fn push_repeated(text: &mut String, c: char, count: usize)
    ensures
        final(text)@ == old(text)@ + repeated(c, count as nat),
{
    let mut pushed: usize = 0;
    while pushed < count
        invariant
            pushed <= count,
            text@ == old(text)@ + repeated(c, pushed as nat),
        decreases count - pushed,
    {
        push_char(text, c);
        pushed = pushed + 1;
        assert(text@ =~= old(text)@ + repeated(c, pushed as nat));
    }
}

/// Appends the characters of `tail` to `text`.
pub fn push_str(text: &mut String, tail: &str)
    ensures
        final(text)@ == old(text)@ + tail@,
{
    for c in it: tail.chars()
        invariant
            it.seq() == tail@,
            text@ == old(text)@ + tail@.take(it.index()),
    {
        proof {
            assert(tail@.take(it.index() + 1) =~= tail@.take(it.index()).push(c));
        }
        push_char(text, c);
        assert(text@ =~= old(text)@ + tail@.take(it.index() + 1));
    }
    assert(tail@.take(tail@.len() as int) =~= tail@);
}

/// A new string holding the characters of `value`.
pub fn string_of(value: &str) -> (copy: String)
    ensures
        copy@ == value@,
{
    let mut copy = String::new();
    push_str(&mut copy, value);
    assert(copy@ =~= value@);
    copy
}

/// Unicode `White_Space` property, the set that `char::is_whitespace` tests.
pub open spec fn is_unicode_whitespace(c: char) -> bool {
    let v = c as u32;
    ||| 0x9 <= v <= 0xd
    ||| v == 0x20
    ||| v == 0x85
    ||| v == 0xa0
    ||| v == 0x1680
    ||| 0x2000 <= v <= 0x200a
    ||| v == 0x2028
    ||| v == 0x2029
    ||| v == 0x202f
    ||| v == 0x205f
    ||| v == 0x3000
}

/// Whether `c` has the Unicode `White_Space` property.
pub fn char_is_whitespace(c: char) -> (whitespace: bool)
    ensures
        whitespace == is_unicode_whitespace(c),
{
    let v = c as u32;
    (0x9 <= v && v <= 0xd) || v == 0x20 || v == 0x85 || v == 0xa0 || v == 0x1680 || (0x2000 <= v
        && v <= 0x200a) || v == 0x2028 || v == 0x2029 || v == 0x202f || v == 0x205f || v == 0x3000
}

/// Whether some character of `s` satisfies the Unicode whitespace property.
pub open spec fn has_whitespace_only(s: Seq<char>) -> bool {
    forall|i: int| 0 <= i < s.len() ==> is_unicode_whitespace(#[trigger] s[i])
}

/// Whether `value` is empty or made of whitespace only (`value.trim().is_empty()`).
pub fn is_blank(value: &str) -> (blank: bool)
    ensures
        blank == has_whitespace_only(value@),
{
    let mut blank = true;
    for c in it: value.chars()
        invariant
            it.seq() == value@,
            blank == has_whitespace_only(value@.take(it.index())),
    {
        proof {
            assert(value@.take(it.index() + 1) =~= value@.take(it.index()).push(c));
        }
        if !char_is_whitespace(c) {
            blank = false;
        }
        proof {
            let next = value@.take(it.index() + 1);
            if blank {
                assert forall|i: int| 0 <= i < next.len() implies is_unicode_whitespace(
                    #[trigger] next[i],
                ) by {
                    if i < next.len() - 1 {
                        assert(next[i] == value@.take(it.index())[i]);
                    }
                }
            } else {
                if is_unicode_whitespace(c) {
                    let prev = value@.take(it.index());
                    let k = choose|k: int| 0 <= k < prev.len() && !is_unicode_whitespace(prev[k]);
                    assert(next[k] == prev[k]);
                } else {
                    assert(next[next.len() - 1] == c);
                }
            }
        }
    }
    assert(value@.take(value@.len() as int) =~= value@);
    blank
}

/// The decimal digits of `n`, most significant first.
pub open spec fn decimal_digits(n: nat) -> Seq<char>
    decreases n,
{
    if n < 10 {
        seq![digit_char(n)]
    } else {
        decimal_digits(n / 10).push(digit_char(n % 10))
    }
}

/// The ASCII digit for `d` (below ten).
pub open spec fn digit_char(d: nat) -> char {
    (d + 48) as char
}

/// `n` written in decimal with a leading `-` when negative, as `Display` writes integers.
pub open spec fn decimal_text(n: int) -> Seq<char> {
    if n < 0 {
        seq!['-'] + decimal_digits((-n) as nat)
    } else {
        decimal_digits(n as nat)
    }
}

fn digit(d: u64) -> (c: char)
    requires
        d < 10,
    ensures
        c == digit_char(d as nat),
{
    let v = d as u8 + 48;
    (v as char)
}

/// Decimal text of an unsigned value.
pub fn unsigned_decimal(n: u64) -> (text: String)
    ensures
        text@ == decimal_digits(n as nat),
{
    let mut digits: Vec<char> = Vec::new();
    let mut rest = n;
    // `digits` holds the low digits in reverse order.
    loop
        invariant_except_break
            decimal_digits(n as nat) == decimal_digits(rest as nat) + digits@.reverse(),
        ensures
            decimal_digits(n as nat) == digits@.reverse(),
        decreases rest,
    {
        let d = rest % 10;
        let c = digit(d);
        if rest < 10 {
            digits.push(c);
            proof {
                assert(decimal_digits(rest as nat) == seq![c]);
                assert(digits@.reverse() =~= seq![c] + digits@.drop_last().reverse());
            }
            break;
        }
        proof {
            assert(decimal_digits(rest as nat) == decimal_digits((rest / 10) as nat).push(c));
        }
        digits.push(c);
        proof {
            assert(digits@.reverse() =~= seq![c] + digits@.drop_last().reverse());
        }
        rest = rest / 10;
    }
    let mut text = String::new();
    let mut i = digits.len();
    while i > 0
        invariant
            i <= digits.len(),
            text@ == digits@.reverse().take((digits.len() - i) as int),
            decimal_digits(n as nat) == digits@.reverse(),
        decreases i,
    {
        i = i - 1;
        push_char(&mut text, digits[i]);
        assert(text@ =~= digits@.reverse().take((digits.len() - i) as int));
    }
    assert(text@ =~= digits@.reverse());
    text
}

/// Decimal text of a signed value.
pub fn signed_decimal(n: i64) -> (text: String)
    ensures
        text@ == decimal_text(n as int),
{
    if n < 0 {
        let magnitude: u64 = if n == i64::MIN {
            0x8000_0000_0000_0000u64
        } else {
            (-n) as u64
        };
        let digits = unsigned_decimal(magnitude);
        let mut text = String::new();
        push_char(&mut text, '-');
        push_str(&mut text, digits.as_str());
        assert(text@ =~= seq!['-'] + decimal_digits(magnitude as nat));
        text
    } else {
        unsigned_decimal(n as u64)
    }
}

/// The characters of `value` in a vector.
pub fn chars_of(value: &str) -> (chars: Vec<char>)
    ensures
        chars@ == value@,
{
    let mut chars: Vec<char> = Vec::new();
    for c in it: value.chars()
        invariant
            it.seq() == value@,
            chars@ == value@.take(it.index()),
    {
        chars.push(c);
        assert(chars@ =~= value@.take(it.index() + 1));
    }
    assert(value@.take(value@.len() as int) =~= value@);
    chars
}

/// A string made of `chars[start..end]`.
pub fn string_from_chars(chars: &Vec<char>, start: usize, end: usize) -> (text: String)
    requires
        start <= end <= chars.len(),
    ensures
        text@ == chars@.subrange(start as int, end as int),
{
    let mut text = String::new();
    let mut i = start;
    while i < end
        invariant
            start <= i <= end <= chars.len(),
            text@ == chars@.subrange(start as int, i as int),
        decreases end - i,
    {
        push_char(&mut text, chars[i]);
        i = i + 1;
        assert(text@ =~= chars@.subrange(start as int, i as int));
    }
    text
}

/// `s` without its leading whitespace.
pub open spec fn trim_start_chars(s: Seq<char>) -> Seq<char>
    decreases s.len(),
{
    if s.len() > 0 && is_unicode_whitespace(s[0]) {
        trim_start_chars(s.drop_first())
    } else {
        s
    }
}

/// `s` without its trailing whitespace.
pub open spec fn trim_end_chars(s: Seq<char>) -> Seq<char>
    decreases s.len(),
{
    if s.len() > 0 && is_unicode_whitespace(s.last()) {
        trim_end_chars(s.drop_last())
    } else {
        s
    }
}

/// `s` without leading and trailing whitespace, as `str::trim` leaves it.
pub open spec fn trimmed(s: Seq<char>) -> Seq<char> {
    trim_end_chars(trim_start_chars(s))
}

proof fn lemma_trim_start_skip(s: Seq<char>, i: int)
    requires
        0 <= i <= s.len(),
        forall|j: int| 0 <= j < i ==> is_unicode_whitespace(#[trigger] s[j]),
    ensures
        trim_start_chars(s) == trim_start_chars(s.subrange(i, s.len() as int)),
    decreases i,
{
    if i > 0 {
        assert(is_unicode_whitespace(s[0]));
        let rest = s.drop_first();
        assert forall|j: int| 0 <= j < i - 1 implies is_unicode_whitespace(#[trigger] rest[j]) by {
            assert(rest[j] == s[j + 1]);
        }
        lemma_trim_start_skip(rest, i - 1);
        assert(rest.subrange(i - 1, rest.len() as int) =~= s.subrange(i, s.len() as int));
    } else {
        assert(s.subrange(0, s.len() as int) =~= s);
    }
}

proof fn lemma_trim_end_drop(s: Seq<char>, k: int)
    requires
        0 <= k <= s.len(),
        forall|j: int| k <= j < s.len() ==> is_unicode_whitespace(#[trigger] s[j]),
    ensures
        trim_end_chars(s) == trim_end_chars(s.subrange(0, k)),
    decreases s.len() - k,
{
    if k < s.len() {
        assert(is_unicode_whitespace(s.last()));
        let rest = s.drop_last();
        lemma_trim_end_drop(rest, k);
        assert(rest.subrange(0, k) =~= s.subrange(0, k));
    } else {
        assert(s.subrange(0, k) =~= s);
    }
}

/// `value` without leading and trailing whitespace.
pub fn trim_text(value: &str) -> (trimmed_text: String)
    ensures
        trimmed_text@ == trimmed(value@),
{
    let chars = chars_of(value);
    let mut start: usize = 0;
    while start < chars.len() && char_is_whitespace(chars[start])
        invariant
            start <= chars.len(),
            chars@ == value@,
            forall|j: int| 0 <= j < start ==> is_unicode_whitespace(#[trigger] chars@[j]),
        decreases chars.len() - start,
    {
        start = start + 1;
    }
    proof {
        lemma_trim_start_skip(value@, start as int);
        let rest = value@.subrange(start as int, value@.len() as int);
        if rest.len() > 0 {
            assert(rest[0] == chars@[start as int]);
        }
    }
    let mut end: usize = chars.len();
    while end > start && char_is_whitespace(chars[end - 1])
        invariant
            start <= end <= chars.len(),
            chars@ == value@,
            forall|j: int| end <= j < chars.len() ==> is_unicode_whitespace(#[trigger] chars@[j]),
        decreases end,
    {
        end = end - 1;
    }
    proof {
        let rest = value@.subrange(start as int, value@.len() as int);
        let k = end - start;
        assert forall|j: int| k <= j < rest.len() implies is_unicode_whitespace(#[trigger] rest[j]) by {
            assert(rest[j] == chars@[j + start]);
        }
        lemma_trim_end_drop(rest, k);
        assert(rest.subrange(0, k) =~= value@.subrange(start as int, end as int));
        let kept = rest.subrange(0, k);
        if kept.len() > 0 {
            assert(kept.last() == chars@[end - 1]);
        }
    }
    string_from_chars(&chars, start, end)
}

/// Whether `s` contains `c`.
pub fn contains_char(value: &str, c: char) -> (found: bool)
    ensures
        found == value@.contains(c),
{
    let mut found = false;
    for x in it: value.chars()
        invariant
            it.seq() == value@,
            found == value@.take(it.index()).contains(c),
    {
        proof {
            assert(value@.take(it.index() + 1) =~= value@.take(it.index()).push(x));
            if value@.take(it.index()).contains(c) {
                let k = choose|k: int| 0 <= k < value@.take(it.index()).len() && value@.take(it.index())[k] == c;
                assert(value@.take(it.index() + 1)[k] == c);
            }
            if x == c {
                assert(value@.take(it.index() + 1)[it.index()] == c);
            }
        }
        if x == c {
            found = true;
        }
    }
    assert(value@.take(value@.len() as int) =~= value@);
    found
}

/// Whether `needle` occurs in `haystack` at position `at`.
pub open spec fn occurs_at(haystack: Seq<char>, needle: Seq<char>, at: int) -> bool {
    0 <= at && at + needle.len() <= haystack.len() && haystack.subrange(at, at + needle.len())
        == needle
}

/// Whether `needle` occurs somewhere in `haystack`.
pub open spec fn contains_text(haystack: Seq<char>, needle: Seq<char>) -> bool {
    exists|at: int| occurs_at(haystack, needle, at)
}

/// Whether `needle` occurs in `haystack`.
pub fn find_text(haystack: &Vec<char>, needle: &str) -> (found: bool)
    ensures
        found == contains_text(haystack@, needle@),
{
    let pattern = chars_of(needle);
    if pattern.len() > haystack.len() {
        proof {
            assert forall|at: int| !occurs_at(haystack@, needle@, at) by {}
        }
        return false;
    }
    let last = haystack.len() - pattern.len();
    let mut at: usize = 0;
    while at <= last
        invariant
            last + pattern.len() == haystack.len(),
            pattern@ == needle@,
            forall|k: int| 0 <= k < at ==> !occurs_at(haystack@, needle@, k),
        decreases last + 1 - at,
    {
        let mut j: usize = 0;
        let mut matched = true;
        while j < pattern.len()
            invariant
                at <= last,
                last + pattern.len() == haystack.len(),
                j <= pattern.len(),
                matched == (forall|m: int| 0 <= m < j ==> haystack@[at + m] == pattern@[m]),
            decreases pattern.len() - j,
        {
            if haystack[at + j] != pattern[j] {
                matched = false;
            }
            j = j + 1;
        }
        if matched {
            assert(haystack@.subrange(at as int, at + needle@.len()) =~= needle@);
            assert(occurs_at(haystack@, needle@, at as int));
            return true;
        }
        proof {
            if occurs_at(haystack@, needle@, at as int) {
                let m = choose|m: int| 0 <= m < j && haystack@[at + m] != pattern@[m];
                assert(haystack@.subrange(at as int, at + needle@.len())[m] == haystack@[at + m]);
            }
        }
        at = at + 1;
    }
    proof {
        assert forall|k: int| !occurs_at(haystack@, needle@, k) by {
            if 0 <= k && k + needle@.len() <= haystack@.len() {
                assert(k < at);
            }
        }
    }
    false
}

/// The pieces of `list` joined with `separator` between them.
pub open spec fn joined(list: Seq<Seq<char>>, separator: Seq<char>) -> Seq<char>
    decreases list.len(),
{
    if list.len() == 0 {
        Seq::empty()
    } else if list.len() == 1 {
        list[0]
    } else {
        joined(list.drop_last(), separator) + separator + list.last()
    }
}

/// The views of a list of strings.
pub open spec fn views(list: Seq<String>) -> Seq<Seq<char>> {
    list.map_values(|s: String| s@)
}

/// Joins `list` with `separator` between its items.
pub fn join_strings(list: &Vec<String>, separator: &str) -> (text: String)
    ensures
        text@ == joined(views(list@), separator@),
{
    let mut text = String::new();
    let mut i: usize = 0;
    while i < list.len()
        invariant
            i <= list.len(),
            text@ == joined(views(list@).take(i as int), separator@),
        decreases list.len() - i,
    {
        proof {
            assert(views(list@).take(i + 1).drop_last() =~= views(list@).take(i as int));
        }
        if i != 0 {
            push_str(&mut text, separator);
        }
        push_str(&mut text, list[i].as_str());
        i = i + 1;
        proof {
            if i == 1 {
                assert(text@ =~= views(list@).take(1)[0]);
            }
        }
    }
    assert(views(list@).take(list.len() as int) =~= views(list@));
    text
}

} // verus!

verus! {

/// Whether two texts hold the same characters.
pub fn text_equals(left: &str, right: &str) -> (equal: bool)
    ensures
        equal == (left@ == right@),
{
    let a = chars_of(left);
    let b = chars_of(right);
    if a.len() != b.len() {
        return false;
    }
    let mut i: usize = 0;
    while i < a.len()
        invariant
            a.len() == b.len(),
            a@ == left@,
            b@ == right@,
            i <= a.len(),
            forall|j: int| 0 <= j < i ==> a@[j] == b@[j],
        decreases a.len() - i,
    {
        if a[i] != b[i] {
            return false;
        }
        i = i + 1;
    }
    assert(a@ =~= b@);
    true
}

/// The text that `format!("{:?}", value)` writes for a string: quoted, with escapes.
pub uninterp spec fn debug_quoted_text(value: Seq<char>) -> Seq<char>;

/// The `Debug` rendering of a string (`format!("{:?}", value)`).
#[verifier::external_body]
pub(crate) fn debug_quoted(value: &str) -> (quoted: String)
    ensures
        quoted@ == debug_quoted_text(value@),
{
    format!("{:?}", value)
}


/// The ASCII lowercase of a character; other characters are kept.
pub open spec fn ascii_lower(c: char) -> char {
    if 'A' <= c <= 'Z' {
        ((c as u32) + 32) as char
    } else {
        c
    }
}

/// Whether two texts are equal when ASCII letters are compared without case.
pub open spec fn equal_ignoring_ascii_case(left: Seq<char>, right: Seq<char>) -> bool {
    &&& left.len() == right.len()
    &&& forall|i: int| 0 <= i < left.len() ==> ascii_lower(#[trigger] left[i]) == ascii_lower(right[i])
}

/// The ASCII lowercase of a character.
pub fn to_ascii_lower(c: char) -> (lower: char)
    ensures
        lower == ascii_lower(c),
{
    if c >= 'A' && c <= 'Z' {
        let code = (c as u8) + 32;
        code as char
    } else {
        c
    }
}

/// Compares two texts with ASCII letters taken without case (`str::eq_ignore_ascii_case`).
pub fn eq_ignore_ascii_case(left: &str, right: &str) -> (equal: bool)
    ensures
        equal == equal_ignoring_ascii_case(left@, right@),
{
    let a = chars_of(left);
    let b = chars_of(right);
    if a.len() != b.len() {
        return false;
    }
    let mut i: usize = 0;
    while i < a.len()
        invariant
            a.len() == b.len(),
            a@ == left@,
            b@ == right@,
            i <= a.len(),
            forall|j: int| 0 <= j < i ==> ascii_lower(#[trigger] a@[j]) == ascii_lower(b@[j]),
        decreases a.len() - i,
    {
        if to_ascii_lower(a[i]) != to_ascii_lower(b[i]) {
            return false;
        }
        i = i + 1;
    }
    true
}

} // verus!
