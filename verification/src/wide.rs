//! NUL-terminated UTF-16 text, as the Win32 API takes and returns it.

use vstd::prelude::*;

use crate::text::{chars_of, push_char};

verus! {

/// The UTF-16 code units of one character: itself below `U+10000`, else a surrogate pair.
pub open spec fn utf16_units(c: char) -> Seq<u16> {
    let code = c as u32;
    if code < 0x1_0000 {
        seq![code as u16]
    } else {
        let offset = code - 0x1_0000;
        seq![(0xD800 + offset / 0x400) as u16, (0xDC00 + offset % 0x400) as u16]
    }
}

/// The UTF-16 encoding of a text.
pub open spec fn utf16_of(text: Seq<char>) -> Seq<u16>
    decreases text.len(),
{
    if text.len() == 0 {
        Seq::empty()
    } else {
        utf16_of(text.drop_last()) + utf16_units(text.last())
    }
}

/// Whether a code unit is a surrogate (half of a pair).
pub open spec fn is_surrogate(unit: u16) -> bool {
    0xD800 <= unit <= 0xDFFF
}

/// Whether a code unit is the first half of a surrogate pair.
pub open spec fn is_high_surrogate(unit: u16) -> bool {
    0xD800 <= unit <= 0xDBFF
}

/// Whether a code unit is the second half of a surrogate pair.
pub open spec fn is_low_surrogate(unit: u16) -> bool {
    0xDC00 <= unit <= 0xDFFF
}

/// The code point that a surrogate pair stands for.
pub open spec fn pair_code(high: u16, low: u16) -> int {
    0x1_0000 + (high - 0xD800) * 0x400 + (low - 0xDC00)
}

/// The text that UTF-16 code units decode to, read from the front: a unit that is no surrogate is
/// its own character, a high surrogate followed by a low one is the character of the pair, and
/// any other surrogate is the replacement character `U+FFFD` (what `String::from_utf16_lossy`
/// gives).
pub open spec fn utf16_decoded(units: Seq<u16>) -> Seq<char>
    decreases units.len(),
{
    if units.len() == 0 {
        Seq::empty()
    } else if !is_surrogate(units[0]) {
        seq![units[0] as char] + utf16_decoded(units.skip(1))
    } else if is_high_surrogate(units[0]) && units.len() >= 2 && is_low_surrogate(units[1]) {
        seq![pair_code(units[0], units[1]) as char] + utf16_decoded(units.skip(2))
    } else {
        seq!['\u{FFFD}'] + utf16_decoded(units.skip(1))
    }
}

/// The character with code point `code` (`char::from_u32`), which is a valid one.
#[verifier::external_body]
fn char_from_code(code: u32) -> (c: Option<char>)
    requires
        code < 0xD800 || 0xDFFF < code <= 0x10_FFFF,
    ensures
        c == Some(code as char),
{
    char::from_u32(code)
}

/// Decodes UTF-16 code units, replacing unpaired surrogates with `U+FFFD`.
fn string_from_utf16_lossy(units: &[u16]) -> (text: String)
    ensures
        text@ == utf16_decoded(units@),
{
    let mut text = String::new();
    let mut i: usize = 0;
    assert(units@.skip(0) =~= units@);
    assert(text@ + utf16_decoded(units@) =~= utf16_decoded(units@));
    while i < units.len()
        invariant
            i <= units.len(),
            text@ + utf16_decoded(units@.skip(i as int)) == utf16_decoded(units@),
        decreases units.len() - i,
    {
        let ghost rest = units@.skip(i as int);
        let unit = units[i];
        assert(rest[0] == unit);
        if unit < 0xD800 || unit > 0xDFFF {
            let c = match char_from_code(unit as u32) {
                Some(c) => c,
                None => '\u{FFFD}',
            };
            assert(rest.skip(1) =~= units@.skip(i + 1));
            assert(c == (unit as char));
            push_char(&mut text, c);
            i = i + 1;
            assert(text@ + utf16_decoded(units@.skip(i as int)) =~= utf16_decoded(units@));
        } else if unit <= 0xDBFF && i + 1 < units.len() && units[i + 1] >= 0xDC00 && units[
            i + 1
        ] <= 0xDFFF {
            let low = units[i + 1];
            assert(rest[1] == low);
            let code: u32 = 0x1_0000 + ((unit - 0xD800) as u32) * 0x400 + ((low - 0xDC00) as u32);
            assert(code == pair_code(unit, low));
            let c = match char_from_code(code) {
                Some(c) => c,
                None => '\u{FFFD}',
            };
            assert(rest.skip(2) =~= units@.skip(i + 2));
            assert(c == (pair_code(unit, low) as char));
            push_char(&mut text, c);
            i = i + 2;
            assert(text@ + utf16_decoded(units@.skip(i as int)) =~= utf16_decoded(units@));
        } else {
            assert(rest.skip(1) =~= units@.skip(i + 1));
            push_char(&mut text, '\u{FFFD}');
            i = i + 1;
            assert(text@ + utf16_decoded(units@.skip(i as int)) =~= utf16_decoded(units@));
        }
    }
    assert(units@.skip(units.len() as int) =~= Seq::<u16>::empty());
    assert(text@ + Seq::<char>::empty() =~= text@);
    text
}

fn push_utf16(buffer: &mut Vec<u16>, c: char)
    ensures
        final(buffer)@ == old(buffer)@ + utf16_units(c),
{
    let code = c as u32;
    if code < 0x1_0000 {
        buffer.push(code as u16);
        assert(final(buffer)@ =~= old(buffer)@ + utf16_units(c)) by {
            assert(buffer@ == old(buffer)@.push(code as u16));
        }
    } else {
        let offset = code - 0x1_0000;
        assert(offset <= 0x10_FFFF - 0x1_0000);
        buffer.push((0xD800 + offset / 0x400) as u16);
        buffer.push((0xDC00 + offset % 0x400) as u16);
    }
}

fn append_utf16(buffer: &mut Vec<u16>, value: &str)
    ensures
        final(buffer)@ == old(buffer)@ + utf16_of(value@),
{
    let chars = chars_of(value);
    let mut i: usize = 0;
    while i < chars.len()
        invariant
            i <= chars.len(),
            chars@ == value@,
            buffer@ == old(buffer)@ + utf16_of(value@.take(i as int)),
        decreases chars.len() - i,
    {
        push_utf16(buffer, chars[i]);
        proof {
            assert(value@.take(i + 1).drop_last() =~= value@.take(i as int));
        }
        i = i + 1;
        assert(buffer@ =~= old(buffer)@ + utf16_of(value@.take(i as int)));
    }
    assert(value@.take(chars.len() as int) =~= value@);
}

/// The UTF-16 encoding of `value` followed by a terminating NUL.
pub fn wide_null(value: &str) -> (wide: Vec<u16>)
    ensures
        wide@ == utf16_of(value@).push(0),
{
    let mut wide: Vec<u16> = Vec::new();
    append_utf16(&mut wide, value);
    wide.push(0);
    assert(wide@ =~= utf16_of(value@).push(0));
    wide
}

/// The file-dialog filter encoding of `parts`: each part NUL-terminated, and a final NUL after
/// the last.
pub open spec fn filter_units(parts: Seq<Seq<char>>) -> Seq<u16>
    decreases parts.len(),
{
    if parts.len() == 0 {
        Seq::empty()
    } else {
        filter_units(parts.drop_last()) + utf16_of(parts.last()).push(0)
    }
}

/// Encodes the pattern pairs of a file dialog's filter.
pub fn wide_filter(parts: &Vec<&str>) -> (wide: Vec<u16>)
    ensures
        wide@ == filter_units(parts@.map_values(|p: &str| p@)).push(0),
{
    let ghost texts = parts@.map_values(|p: &str| p@);
    let mut wide: Vec<u16> = Vec::new();
    let mut i: usize = 0;
    while i < parts.len()
        invariant
            i <= parts.len(),
            texts == parts@.map_values(|p: &str| p@),
            wide@ == filter_units(texts.take(i as int)),
        decreases parts.len() - i,
    {
        append_utf16(&mut wide, parts[i]);
        wide.push(0);
        proof {
            assert(texts.take(i + 1).drop_last() =~= texts.take(i as int));
            assert(texts.take(i + 1).last() == parts@[i as int]@);
        }
        i = i + 1;
        assert(wide@ =~= filter_units(texts.take(i as int)));
    }
    assert(texts.take(parts.len() as int) =~= texts);
    wide.push(0);
    wide
}

/// The code units of a NUL-terminated buffer up to its first NUL (the whole buffer without one).
pub open spec fn before_first_nul(buffer: Seq<u16>) -> Seq<u16> {
    if exists|i: int| 0 <= i < buffer.len() && buffer[i] == 0 {
        buffer.take(
            choose|i: int|
                0 <= i < buffer.len() && buffer[i] == 0 && forall|k: int|
                    0 <= k < i ==> #[trigger] buffer[k] != 0,
        )
    } else {
        buffer
    }
}

/// The text of a NUL-terminated UTF-16 buffer filled by a Win32 call.
pub fn wide_null_buffer_to_string(buffer: &Vec<u16>) -> (text: String)
    ensures
        text@ == utf16_decoded(before_first_nul(buffer@)),
{
    let mut len: usize = 0;
    while len < buffer.len() && buffer[len] != 0
        invariant
            len <= buffer.len(),
            forall|k: int| 0 <= k < len ==> #[trigger] buffer@[k] != 0,
        decreases buffer.len() - len,
    {
        len = len + 1;
    }
    proof {
        if len < buffer.len() {
            let chosen = choose|i: int|
                0 <= i < buffer@.len() && buffer@[i] == 0 && forall|k: int|
                    0 <= k < i ==> #[trigger] buffer@[k] != 0;
            assert(0 <= len < buffer@.len() && buffer@[len as int] == 0);
            if chosen < len {
                assert(buffer@[chosen] != 0);
            } else if chosen > len {
                assert(buffer@[len as int] != 0);
            }
        } else {
            assert forall|i: int| 0 <= i < buffer@.len() implies buffer@[i] != 0 by {
                assert(buffer@[i] != 0);
            }
            assert(buffer@.take(len as int) =~= buffer@);
        }
    }
    let prefix = vstd::slice::slice_subrange(buffer.as_slice(), 0, len);
    string_from_utf16_lossy(prefix)
}

proof fn lemma_utf16_of_front(s: Seq<char>)
    requires
        s.len() > 0,
    ensures
        utf16_of(s) == utf16_units(s[0]) + utf16_of(s.skip(1)),
    decreases s.len(),
{
    if s.len() == 1 {
        assert(s.drop_last() =~= Seq::<char>::empty());
        assert(s.skip(1) =~= Seq::<char>::empty());
        assert(utf16_of(s.skip(1)) =~= Seq::<u16>::empty());
        assert(utf16_units(s[0]) + Seq::<u16>::empty() =~= utf16_units(s[0]));
        assert(Seq::<u16>::empty() + utf16_units(s.last()) =~= utf16_units(s.last()));
    } else {
        let d = s.drop_last();
        lemma_utf16_of_front(d);
        assert(d[0] == s[0]);
        assert(s.skip(1).drop_last() =~= d.skip(1));
        assert(s.skip(1).last() == s.last());
        assert(utf16_of(s.skip(1)) == utf16_of(d.skip(1)) + utf16_units(s.last()));
        assert(utf16_units(s[0]) + utf16_of(d.skip(1)) + utf16_units(s.last()) =~= utf16_units(
            s[0],
        ) + (utf16_of(d.skip(1)) + utf16_units(s.last())));
    }
}

proof fn lemma_decode_units(c: char, rest: Seq<u16>)
    ensures
        utf16_decoded(utf16_units(c) + rest) == seq![c] + utf16_decoded(rest),
{
    let code = c as u32;
    let units = utf16_units(c) + rest;
    if code < 0x1_0000 {
        assert(units[0] == code as u16);
        assert(!is_surrogate(units[0]));
        assert(units.skip(1) =~= rest);
        assert((units[0] as char) == c);
    } else {
        let offset = code - 0x1_0000;
        let high = (0xD800 + offset / 0x400) as u16;
        let low = (0xDC00 + offset % 0x400) as u16;
        assert(offset / 0x400 < 0x400);
        assert(units[0] == high);
        assert(units[1] == low);
        assert(is_high_surrogate(high));
        assert(is_low_surrogate(low));
        assert(units.skip(2) =~= rest);
        assert(offset == 0x400 * (offset / 0x400) + offset % 0x400) by (nonlinear_arith);
        assert(pair_code(high, low) == code);
        assert((pair_code(high, low) as char) == c);
    }
}

proof fn lemma_decode_utf16(s: Seq<char>)
    ensures
        utf16_decoded(utf16_of(s)) == s,
    decreases s.len(),
{
    if s.len() == 0 {
        assert(utf16_of(s) =~= Seq::<u16>::empty());
    } else {
        lemma_utf16_of_front(s);
        lemma_decode_units(s[0], utf16_of(s.skip(1)));
        lemma_decode_utf16(s.skip(1));
        assert(seq![s[0]] + s.skip(1) =~= s);
    }
}

proof fn lemma_char_code(c: char)
    ensures
        (c as u32) <= 0x10_FFFF,
        !(0xD800 <= (c as u32) <= 0xDFFF),
        ((c as u32) as char) == c,
        c == '\0' <==> (c as u32) == 0,
{
}

proof fn lemma_utf16_has_no_nul(s: Seq<char>)
    requires
        forall|i: int| 0 <= i < s.len() ==> s[i] != '\0',
    ensures
        forall|k: int| 0 <= k < utf16_of(s).len() ==> #[trigger] utf16_of(s)[k] != 0,
    decreases s.len(),
{
    if s.len() > 0 {
        let d = s.drop_last();
        assert forall|i: int| 0 <= i < d.len() implies d[i] != '\0' by {
            assert(d[i] == s[i]);
        }
        lemma_utf16_has_no_nul(d);
        let c = s.last();
        assert(c != '\0');
        let code = c as u32;
        lemma_char_code(c);
        lemma_char_code('\0');
        assert(code != 0);
        let whole = utf16_of(s);
        assert(whole == utf16_of(d) + utf16_units(c));
        assert forall|k: int| 0 <= k < whole.len() implies #[trigger] whole[k] != 0 by {
            if k >= utf16_of(d).len() {
                if code >= 0x1_0000 {
                    let offset = code - 0x1_0000;
                    assert(offset < 0x10_0000);
                    assert(offset / 0x400 < 0x400);
                    assert(utf16_units(c)[0] == (0xD800 + offset / 0x400) as u16);
                    assert(utf16_units(c)[1] == (0xDC00 + offset % 0x400) as u16);
                }
            } else {
                assert(whole[k] == utf16_of(d)[k]);
            }
        }
    }
}

/// A text without NUL characters, written by `wide_null` and read back by
/// `wide_null_buffer_to_string`, is the same text.
pub proof fn wide_text_round_trip(text: Seq<char>)
    requires
        forall|i: int| 0 <= i < text.len() ==> text[i] != '\0',
    ensures
        utf16_decoded(before_first_nul(utf16_of(text).push(0))) == text,
{
    let units = utf16_of(text);
    let buffer = units.push(0);
    lemma_utf16_has_no_nul(text);
    let n = units.len() as int;
    assert(buffer[n] == 0);
    assert(forall|k: int| 0 <= k < n ==> #[trigger] buffer[k] == units[k]);
    let chosen = choose|i: int|
        0 <= i < buffer.len() && buffer[i] == 0 && forall|k: int|
            0 <= k < i ==> #[trigger] buffer[k] != 0;
    assert(0 <= n < buffer.len() && buffer[n] == 0 && forall|k: int|
        0 <= k < n ==> #[trigger] buffer[k] != 0);
    if chosen < n {
        assert(buffer[chosen] == units[chosen]);
    } else if chosen > n {
        assert(buffer[n] != 0);
    }
    assert(buffer.take(n) =~= units);
    lemma_decode_utf16(text);
}

} // verus!
