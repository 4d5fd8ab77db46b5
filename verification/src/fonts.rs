//! The list of interface fonts offered to the user: sorted without case, one entry per name
//! that differs only in ASCII case, and never empty.

use vstd::prelude::*;

use crate::layout::DEFAULT_FONT_FAMILY;
use crate::text::{
    ascii_lower, chars_of, eq_ignore_ascii_case, equal_ignoring_ascii_case, string_of, trim_text, trimmed,
    views,
};

verus! {

/// The characters that `char::to_lowercase` yields for `c` (its Unicode lowercase mapping).
pub uninterp spec fn lowercase_mapping(c: char) -> Seq<char>;

/// The Unicode lowercase mapping of one character (`char::to_lowercase`). Of the mapping only the
/// ASCII part is stated: `A` to `Z` map to `a` to `z`, and every other ASCII character maps to
/// itself.
#[verifier::external_body]
fn char_to_lowercase(c: char) -> (lower: Vec<char>)
    ensures
        lower@ == lowercase_mapping(c),
        (c as u32) < 128 ==> lower@ == seq![ascii_lower(c)],
{
    c.to_lowercase().collect()
}

/// The lowercase mapping of one character: `A` to `Z` become `a` to `z`, other ASCII characters
/// stay, and every other character has its Unicode mapping.
pub open spec fn char_lowercase(c: char) -> Seq<char> {
    if (c as u32) < 128 {
        seq![ascii_lower(c)]
    } else {
        lowercase_mapping(c)
    }
}

/// A text with each character replaced by its lowercase mapping.
pub open spec fn lowered(text: Seq<char>) -> Seq<char>
    decreases text.len(),
{
    if text.len() == 0 {
        Seq::empty()
    } else {
        lowered(text.drop_last()) + char_lowercase(text.last())
    }
}

/// The lowercase mapping of a text.
fn lowered_chars(text: &str) -> (lower: Vec<char>)
    ensures
        lower@ == lowered(text@),
{
    let chars = chars_of(text);
    let mut lower: Vec<char> = Vec::new();
    let mut i: usize = 0;
    while i < chars.len()
        invariant
            i <= chars.len(),
            chars@ == text@,
            lower@ == lowered(text@.take(i as int)),
        decreases chars.len() - i,
    {
        let mapped = char_to_lowercase(chars[i]);
        assert(mapped@ == char_lowercase(chars@[i as int]));
        let mut k: usize = 0;
        let ghost before = lower@;
        while k < mapped.len()
            invariant
                k <= mapped.len(),
                lower@ == before + mapped@.take(k as int),
            decreases mapped.len() - k,
        {
            lower.push(mapped[k]);
            assert(mapped@.take(k + 1) =~= mapped@.take(k as int).push(mapped@[k as int]));
            k = k + 1;
        }
        assert(mapped@.take(mapped.len() as int) =~= mapped@);
        assert(text@.take(i + 1).drop_last() =~= text@.take(i as int));
        i = i + 1;
    }
    assert(text@.take(chars.len() as int) =~= text@);
    lower
}

/// Whether character `a` comes before `b` by code point.
pub open spec fn char_before(a: char, b: char) -> bool {
    (a as u32) < (b as u32)
}

fn code_point_before(a: char, b: char) -> (before: bool)
    ensures
        before == char_before(a, b),
{
    (a as u32) < (b as u32)
}

/// The lexicographic order of two character sequences by code point: -1, 0 or 1.
pub open spec fn lex_order(a: Seq<char>, b: Seq<char>) -> int
    decreases a.len(),
{
    if a.len() == 0 {
        if b.len() == 0 {
            0
        } else {
            -1
        }
    } else if b.len() == 0 {
        1
    } else if char_before(a[0], b[0]) {
        -1
    } else if char_before(b[0], a[0]) {
        1
    } else {
        lex_order(a.drop_first(), b.drop_first())
    }
}

proof fn lemma_lex_order_range(a: Seq<char>, b: Seq<char>)
    ensures
        -1 <= lex_order(a, b) <= 1,
    decreases a.len(),
{
    if a.len() > 0 && b.len() > 0 && !char_before(a[0], b[0]) && !char_before(b[0], a[0]) {
        lemma_lex_order_range(a.drop_first(), b.drop_first());
    }
}

/// The order of two font names: by their lowercase mappings (for ASCII names, by their ASCII
/// lowercase forms).
pub open spec fn font_order(a: Seq<char>, b: Seq<char>) -> int {
    lex_order(lowered(a), lowered(b))
}

/// The lexicographic order of two character vectors, as -1, 0 or 1.
fn lex_order_of(a: &Vec<char>, b: &Vec<char>) -> (order: i8)
    ensures
        order == lex_order(a@, b@),
{
    assert(a@.skip(0) =~= a@);
    assert(b@.skip(0) =~= b@);
    let mut i: usize = 0;
    while i < a.len() && i < b.len()
        invariant
            i <= a.len(),
            i <= b.len(),
            lex_order(a@, b@) == lex_order(a@.skip(i as int), b@.skip(i as int)),
        decreases a.len() - i,
    {
        proof {
            assert(a@.skip(i as int).drop_first() =~= a@.skip(i + 1));
            assert(b@.skip(i as int).drop_first() =~= b@.skip(i + 1));
        }
        if code_point_before(a[i], b[i]) {
            return -1;
        }
        if code_point_before(b[i], a[i]) {
            return 1;
        }
        i = i + 1;
    }
    if i < a.len() {
        1
    } else if i < b.len() {
        -1
    } else {
        0
    }
}

/// The order of two font names by their lowercase mappings, as -1, 0 or 1.
fn font_order_of(left: &str, right: &str) -> (order: i8)
    ensures
        order == font_order(left@, right@),
{
    let a = lowered_chars(left);
    let b = lowered_chars(right);
    lex_order_of(&a, &b)
}

/// Compares two font names without case: by their lowercase mappings, character by character.
pub fn compare_font_family_case_insensitive(left: &str, right: &str) -> (order: std::cmp::Ordering)
    ensures
        order == std::cmp::Ordering::Less <==> font_order(left@, right@) == -1,
        order == std::cmp::Ordering::Equal <==> font_order(left@, right@) == 0,
        order == std::cmp::Ordering::Greater <==> font_order(left@, right@) == 1,
{
    let order = font_order_of(left, right);
    proof {
        lemma_lex_order_range(lowered(left@), lowered(right@));
    }
    if order < 0 {
        std::cmp::Ordering::Less
    } else if order > 0 {
        std::cmp::Ordering::Greater
    } else {
        std::cmp::Ordering::Equal
    }
}

/// Whether font name `a` sorts after `b`.
pub open spec fn sorts_after(a: Seq<char>, b: Seq<char>) -> bool {
    font_order(a, b) > 0
}

/// Where `name` goes in a sorted list: before the first entry that sorts after it, so that
/// entries that sort alike keep their order.
pub open spec fn insertion_point(list: Seq<Seq<char>>, name: Seq<char>) -> int
    decreases list.len(),
{
    if list.len() == 0 {
        0
    } else if sorts_after(list[0], name) {
        0
    } else {
        1 + insertion_point(list.drop_first(), name)
    }
}

/// The names sorted without case by a stable insertion: each name goes after every earlier name
/// that does not sort after it.
pub open spec fn sorted_names(names: Seq<Seq<char>>) -> Seq<Seq<char>>
    decreases names.len(),
{
    if names.len() == 0 {
        Seq::empty()
    } else {
        let rest = sorted_names(names.drop_last());
        rest.insert(insertion_point(rest, names.last()), names.last())
    }
}

/// The names with each run of entries equal without ASCII case reduced to its first entry.
pub open spec fn deduplicated_names(names: Seq<Seq<char>>) -> Seq<Seq<char>>
    decreases names.len(),
{
    if names.len() == 0 {
        Seq::empty()
    } else {
        let rest = deduplicated_names(names.drop_last());
        if rest.len() > 0 && equal_ignoring_ascii_case(names.last(), rest.last()) {
            rest
        } else {
            rest.push(names.last())
        }
    }
}

/// The font list offered to the user: sorted, deduplicated, and the default font when nothing is
/// left.
pub open spec fn normalized_font_names(names: Seq<Seq<char>>) -> Seq<Seq<char>> {
    let unique = deduplicated_names(sorted_names(names));
    if unique.len() == 0 {
        seq![DEFAULT_FONT_FAMILY@]
    } else {
        unique
    }
}

proof fn lemma_insertion_point_bounds(list: Seq<Seq<char>>, name: Seq<char>)
    ensures
        0 <= insertion_point(list, name) <= list.len(),
    decreases list.len(),
{
    if list.len() > 0 && !sorts_after(list[0], name) {
        lemma_insertion_point_bounds(list.drop_first(), name);
    }
}

proof fn lemma_sorted_names_len(names: Seq<Seq<char>>)
    ensures
        sorted_names(names).len() == names.len(),
    decreases names.len(),
{
    if names.len() > 0 {
        let rest = sorted_names(names.drop_last());
        lemma_sorted_names_len(names.drop_last());
        lemma_insertion_point_bounds(rest, names.last());
    }
}

fn insertion_position(sorted: &Vec<String>, name: &str) -> (position: usize)
    ensures
        position == insertion_point(views(sorted@), name@),
        position <= sorted@.len(),
{
    let ghost current = views(sorted@);
    assert(current.skip(0) =~= current);
    let mut position: usize = 0;
    while position < sorted.len() && !font_sorts_after(sorted[position].as_str(), name)
        invariant
            position <= sorted.len(),
            current == views(sorted@),
            insertion_point(current, name@) == position + insertion_point(
                current.skip(position as int),
                name@,
            ),
        decreases sorted.len() - position,
    {
        proof {
            assert(current.skip(position as int).drop_first() =~= current.skip(position + 1));
            assert(current.skip(position as int)[0] == sorted@[position as int]@);
        }
        position = position + 1;
    }
    proof {
        if position < sorted.len() {
            assert(current.skip(position as int)[0] == sorted@[position as int]@);
        } else {
            assert(current.skip(position as int).len() == 0);
        }
    }
    position
}

fn sort_names(fonts: &Vec<String>) -> (sorted: Vec<String>)
    ensures
        views(sorted@) == sorted_names(views(fonts@)),
{
    let ghost names = views(fonts@);
    let mut sorted: Vec<String> = Vec::new();
    let mut i: usize = 0;
    while i < fonts.len()
        invariant
            i <= fonts.len(),
            names == views(fonts@),
            views(sorted@) == sorted_names(names.take(i as int)),
        decreases fonts.len() - i,
    {
        let ghost current = views(sorted@);
        let position = insertion_position(&sorted, fonts[i].as_str());
        proof {
            assert(names.take(i + 1).drop_last() =~= names.take(i as int));
            assert(names.take(i + 1).last() == fonts@[i as int]@);
        }
        sorted.insert(position, string_of(fonts[i].as_str()));
        proof {
            assert(views(sorted@) =~= current.insert(position as int, fonts@[i as int]@));
        }
        i = i + 1;
    }
    assert(names.take(fonts.len() as int) =~= names);
    sorted
}

fn deduplicate_names(sorted: &Vec<String>) -> (unique: Vec<String>)
    ensures
        views(unique@) == deduplicated_names(views(sorted@)),
{
    let ghost ordered = views(sorted@);
    let mut unique: Vec<String> = Vec::new();
    let mut k: usize = 0;
    while k < sorted.len()
        invariant
            k <= sorted.len(),
            ordered == views(sorted@),
            views(unique@) == deduplicated_names(ordered.take(k as int)),
        decreases sorted.len() - k,
    {
        proof {
            assert(ordered.take(k + 1).drop_last() =~= ordered.take(k as int));
            assert(ordered.take(k + 1).last() == sorted@[k as int]@);
        }
        let keep = if unique.len() == 0 {
            true
        } else {
            let last = unique.len() - 1;
            !eq_ignore_ascii_case(sorted[k].as_str(), unique[last].as_str())
        };
        if keep {
            let ghost before = views(unique@);
            unique.push(string_of(sorted[k].as_str()));
            assert(views(unique@) =~= before.push(sorted@[k as int]@));
        }
        k = k + 1;
    }
    assert(ordered.take(sorted.len() as int) =~= ordered);
    unique
}

/// Sorts and deduplicates the installed font names, falling back to the default font.
pub fn normalize_font_family_list(fonts: Vec<String>) -> (normalized: Vec<String>)
    ensures
        views(normalized@) == normalized_font_names(views(fonts@)),
{
    let sorted = sort_names(&fonts);
    let mut unique = deduplicate_names(&sorted);
    if unique.len() == 0 {
        unique.push(string_of(DEFAULT_FONT_FAMILY));
        assert(views(unique@) =~= seq![DEFAULT_FONT_FAMILY@]);
    }
    unique
}

/// Whether font name `a` sorts after `b`.
fn font_sorts_after(a: &str, b: &str) -> (after: bool)
    ensures
        after == sorts_after(a@, b@),
{
    match compare_font_family_case_insensitive(a, b) {
        std::cmp::Ordering::Greater => true,
        _ => false,
    }
}

/// Whether `font_family` is in the list, compared without ASCII case.
pub fn font_family_available(fonts: &Vec<String>, font_family: &str) -> (available: bool)
    ensures
        available == exists|i: int|
            0 <= i < fonts@.len() && equal_ignoring_ascii_case(
                #[trigger] fonts@[i]@,
                font_family@,
            ),
{
    let mut i: usize = 0;
    while i < fonts.len()
        invariant
            i <= fonts.len(),
            forall|j: int|
                0 <= j < i ==> !equal_ignoring_ascii_case(#[trigger] fonts@[j]@, font_family@),
        decreases fonts.len() - i,
    {
        if eq_ignore_ascii_case(fonts[i].as_str(), font_family) {
            return true;
        }
        i = i + 1;
    }
    false
}


/// Whether each font name of the list sorts no later than every name after it.
pub open spec fn names_in_order(names: Seq<Seq<char>>) -> bool {
    forall|i: int, j: int|
        0 <= i < j < names.len() ==> font_order(#[trigger] names[i], #[trigger] names[j]) <= 0
}

/// Whether no two neighboring names are equal without ASCII case.
pub open spec fn neighbors_differ(names: Seq<Seq<char>>) -> bool {
    forall|i: int|
        0 <= i < names.len() - 1 ==> !equal_ignoring_ascii_case(
            #[trigger] names[i + 1],
            names[i],
        )
}

proof fn lemma_lex_order_antisymmetric(a: Seq<char>, b: Seq<char>)
    ensures
        lex_order(a, b) == -lex_order(b, a),
    decreases a.len(),
{
    if a.len() > 0 && b.len() > 0 && !char_before(a[0], b[0]) && !char_before(b[0], a[0]) {
        lemma_lex_order_antisymmetric(a.drop_first(), b.drop_first());
    }
}

proof fn lemma_lex_order_transitive(a: Seq<char>, b: Seq<char>, c: Seq<char>)
    requires
        lex_order(a, b) <= 0,
        lex_order(b, c) <= 0,
    ensures
        lex_order(a, c) <= 0,
    decreases a.len(),
{
    if a.len() > 0 && b.len() > 0 && c.len() > 0 {
        if !char_before(a[0], b[0]) && !char_before(b[0], c[0]) {
            lemma_lex_order_transitive(a.drop_first(), b.drop_first(), c.drop_first());
        }
    }
}

proof fn lemma_insertion_point_splits(list: Seq<Seq<char>>, name: Seq<char>)
    ensures
        forall|k: int|
            0 <= k < insertion_point(list, name) ==> !sorts_after(#[trigger] list[k], name),
        insertion_point(list, name) < list.len() ==> sorts_after(
            list[insertion_point(list, name)],
            name,
        ),
    decreases list.len(),
{
    lemma_insertion_point_bounds(list, name);
    if list.len() > 0 && !sorts_after(list[0], name) {
        let tail = list.drop_first();
        lemma_insertion_point_splits(tail, name);
        let p = insertion_point(list, name);
        lemma_insertion_point_bounds(tail, name);
        assert(p == 1 + insertion_point(tail, name));
        if p < list.len() {
            assert(list[p] == tail[p - 1]);
        }
        assert forall|k: int|
            0 <= k < insertion_point(list, name) implies !sorts_after(#[trigger] list[k], name) by {
            if k > 0 {
                assert(list[k] == tail[k - 1]);
            }
        }
    }
}

/// The stable insertion sort orders the names by their lowercase mappings.
pub proof fn sorted_names_are_in_order(names: Seq<Seq<char>>)
    ensures
        names_in_order(sorted_names(names)),
    decreases names.len(),
{
    if names.len() > 0 {
        let rest = sorted_names(names.drop_last());
        let name = names.last();
        let p = insertion_point(rest, name);
        sorted_names_are_in_order(names.drop_last());
        lemma_insertion_point_bounds(rest, name);
        lemma_insertion_point_splits(rest, name);
        let result = rest.insert(p, name);
        rest.insert_ensures(p, name);
        assert forall|i: int, j: int|
            0 <= i < j < result.len() implies font_order(
                #[trigger] result[i],
                #[trigger] result[j],
            ) <= 0 by {
            if i < p && j < p {
                assert(font_order(rest[i], rest[j]) <= 0);
            } else if i < p && j == p {
                assert(!sorts_after(rest[i], name));
            } else if i < p {
                assert(result[j] == rest[j - 1]);
                assert(font_order(rest[i], rest[j - 1]) <= 0);
            } else if i == p {
                assert(result[j] == rest[j - 1]);
                lemma_lex_order_antisymmetric(lowered(rest[p]), lowered(name));
                if j - 1 > p {
                    assert(font_order(rest[p], rest[j - 1]) <= 0);
                    lemma_lex_order_transitive(lowered(name), lowered(rest[p]), lowered(rest[j - 1]));
                }
            } else {
                assert(result[i] == rest[i - 1]);
                assert(result[j] == rest[j - 1]);
                assert(font_order(rest[i - 1], rest[j - 1]) <= 0);
            }
        }
    }
}

/// The stable insertion sort keeps every name, as many times as it was given.
pub proof fn sorted_names_keep_every_name(names: Seq<Seq<char>>)
    ensures
        sorted_names(names).to_multiset() == names.to_multiset(),
    decreases names.len(),
{
    broadcast use vstd::seq_lib::to_multiset_insert, vstd::seq_lib::to_multiset_build;

    if names.len() == 0 {
        assert(sorted_names(names) =~= names);
    } else {
        let rest = sorted_names(names.drop_last());
        sorted_names_keep_every_name(names.drop_last());
        lemma_insertion_point_bounds(rest, names.last());
        assert(names =~= names.drop_last().push(names.last()));
    }
}

proof fn lemma_deduplicated_from(names: Seq<Seq<char>>)
    ensures
        forall|k: int|
            0 <= k < deduplicated_names(names).len() ==> exists|j: int|
                0 <= j < names.len() && #[trigger] deduplicated_names(names)[k] == names[j],
        deduplicated_names(names).len() <= names.len(),
        names.len() > 0 ==> deduplicated_names(names).len() > 0,
    decreases names.len(),
{
    if names.len() > 0 {
        let init = names.drop_last();
        lemma_deduplicated_from(init);
        let rest = deduplicated_names(init);
        assert forall|k: int|
            0 <= k < deduplicated_names(names).len() implies exists|j: int|
                0 <= j < names.len() && #[trigger] deduplicated_names(names)[k] == names[j] by {
            if k < rest.len() {
                let j = choose|j: int| 0 <= j < init.len() && rest[k] == init[j];
                assert(names[j] == init[j]);
            } else {
                assert(deduplicated_names(names)[k] == names[names.len() - 1]);
            }
        }
    }
}

/// Deduplicating keeps an ordered list ordered and leaves no neighbors equal without ASCII case.
pub proof fn deduplicated_names_differ_and_stay_in_order(names: Seq<Seq<char>>)
    ensures
        neighbors_differ(deduplicated_names(names)),
        names_in_order(names) ==> names_in_order(deduplicated_names(names)),
    decreases names.len(),
{
    if names.len() > 0 {
        let init = names.drop_last();
        let name = names.last();
        deduplicated_names_differ_and_stay_in_order(init);
        lemma_deduplicated_from(init);
        let rest = deduplicated_names(init);
        if !(rest.len() > 0 && equal_ignoring_ascii_case(name, rest.last())) {
            let result = rest.push(name);
            assert forall|i: int| 0 <= i < result.len() - 1 implies !equal_ignoring_ascii_case(
                #[trigger] result[i + 1],
                result[i],
            ) by {
                if i + 1 < rest.len() {
                    assert(result[i + 1] == rest[i + 1]);
                }
            }
            if names_in_order(names) {
                assert(names_in_order(init)) by {
                    assert forall|i: int, j: int|
                        0 <= i < j < init.len() implies font_order(
                            #[trigger] init[i],
                            #[trigger] init[j],
                        ) <= 0 by {
                        assert(init[i] == names[i] && init[j] == names[j]);
                    }
                }
                assert forall|i: int, j: int|
                    0 <= i < j < result.len() implies font_order(
                        #[trigger] result[i],
                        #[trigger] result[j],
                    ) <= 0 by {
                    if j < rest.len() {
                        assert(font_order(rest[i], rest[j]) <= 0);
                    } else {
                        let w = choose|w: int| 0 <= w < init.len() && rest[i] == init[w];
                        assert(names[w] == init[w]);
                        assert(font_order(names[w], names[names.len() - 1]) <= 0);
                    }
                }
            }
        }
    }
}

/// The offered font list is never empty, is sorted without case, and holds no two neighbors that
/// differ only in ASCII case.
pub proof fn normalized_font_list_is_sorted_and_unique(names: Seq<Seq<char>>)
    ensures
        normalized_font_names(names).len() >= 1,
        names_in_order(normalized_font_names(names)),
        neighbors_differ(normalized_font_names(names)),
{
    sorted_names_are_in_order(names);
    deduplicated_names_differ_and_stay_in_order(sorted_names(names));
}


proof fn lemma_deduplicated_covers(names: Seq<Seq<char>>)
    ensures
        forall|k: int|
            0 <= k < names.len() ==> exists|j: int|
                0 <= j < deduplicated_names(names).len() && equal_ignoring_ascii_case(
                    #[trigger] names[k],
                    deduplicated_names(names)[j],
                ),
    decreases names.len(),
{
    if names.len() > 0 {
        let init = names.drop_last();
        let name = names.last();
        lemma_deduplicated_covers(init);
        let rest = deduplicated_names(init);
        let result = deduplicated_names(names);
        assert forall|k: int| 0 <= k < names.len() implies exists|j: int|
            0 <= j < result.len() && equal_ignoring_ascii_case(#[trigger] names[k], result[j]) by {
            if k < names.len() - 1 {
                assert(names[k] == init[k]);
                let j = choose|j: int|
                    0 <= j < rest.len() && equal_ignoring_ascii_case(init[k], rest[j]);
                assert(result[j] == rest[j]);
            } else if rest.len() > 0 && equal_ignoring_ascii_case(name, rest.last()) {
                assert(result[rest.len() - 1] == rest.last());
            } else {
                assert(result[rest.len() as int] == name);
                assert(equal_ignoring_ascii_case(name, name));
            }
        }
    }
}

/// Every offered name covers the names it stands for: each given name is in the normalized list
/// up to ASCII case.
pub proof fn normalized_font_list_covers_every_name(names: Seq<Seq<char>>)
    ensures
        forall|i: int|
            0 <= i < names.len() ==> exists|j: int|
                0 <= j < normalized_font_names(names).len() && equal_ignoring_ascii_case(
                    #[trigger] names[i],
                    normalized_font_names(names)[j],
                ),
{
    broadcast use vstd::seq_lib::to_multiset_contains;

    let sorted = sorted_names(names);
    sorted_names_keep_every_name(names);
    lemma_deduplicated_covers(sorted);
    assert forall|i: int| 0 <= i < names.len() implies exists|j: int|
        0 <= j < normalized_font_names(names).len() && equal_ignoring_ascii_case(
            #[trigger] names[i],
            normalized_font_names(names)[j],
        ) by {
        let x = names[i];
        assert(names.contains(x));
        assert(names.to_multiset().count(x) > 0);
        assert(sorted.to_multiset().count(x) > 0);
        assert(sorted.contains(x));
        let k = choose|k: int| 0 <= k < sorted.len() && sorted[k] == x;
        let unique = deduplicated_names(sorted);
        let j = choose|j: int|
            0 <= j < unique.len() && equal_ignoring_ascii_case(#[trigger] sorted[k], unique[j]);
        assert(0 <= j < unique.len() && equal_ignoring_ascii_case(sorted[k], unique[j]));
        assert(normalized_font_names(names) == unique);
        assert(equal_ignoring_ascii_case(names[i], normalized_font_names(names)[j]));
    }
}

proof fn lemma_equal_ignoring_case_transitive(a: Seq<char>, b: Seq<char>, c: Seq<char>)
    requires
        equal_ignoring_ascii_case(a, b),
        equal_ignoring_ascii_case(b, c),
    ensures
        equal_ignoring_ascii_case(a, c),
{
    assert forall|i: int| 0 <= i < a.len() implies ascii_lower(#[trigger] a[i]) == ascii_lower(
        c[i],
    ) by {
        assert(ascii_lower(a[i]) == ascii_lower(b[i]));
        assert(ascii_lower(b[i]) == ascii_lower(c[i]));
    }
}

proof fn lemma_deduplicated_last(names: Seq<Seq<char>>)
    requires
        names.len() > 0,
    ensures
        deduplicated_names(names).len() > 0,
        equal_ignoring_ascii_case(names.last(), deduplicated_names(names).last()),
    decreases names.len(),
{
    let init = names.drop_last();
    let rest = deduplicated_names(init);
    if !(rest.len() > 0 && equal_ignoring_ascii_case(names.last(), rest.last())) {
        assert(deduplicated_names(names).last() == names.last());
        assert(equal_ignoring_ascii_case(names.last(), names.last()));
    }
}

proof fn lemma_deduplicated_starts_runs(names: Seq<Seq<char>>)
    ensures
        forall|j: int|
            #![trigger deduplicated_names(names)[j]]
            0 <= j < deduplicated_names(names).len() ==> exists|k: int|
                #![trigger names[k]]
                0 <= k < names.len() && deduplicated_names(names)[j] == names[k] && (k == 0
                    || !equal_ignoring_ascii_case(names[k], names[k - 1])),
    decreases names.len(),
{
    if names.len() > 0 {
        let init = names.drop_last();
        let name = names.last();
        let n = names.len() - 1;
        lemma_deduplicated_starts_runs(init);
        let rest = deduplicated_names(init);
        let result = deduplicated_names(names);
        let kept = !(rest.len() > 0 && equal_ignoring_ascii_case(name, rest.last()));
        if kept && n > 0 {
            lemma_deduplicated_last(init);
            if equal_ignoring_ascii_case(name, init.last()) {
                lemma_equal_ignoring_case_transitive(name, init.last(), rest.last());
            }
            assert(names[n - 1] == init.last());
        }
        assert forall|j: int| #![trigger result[j]] 0 <= j < result.len() implies exists|k: int|
            #![trigger names[k]]
            0 <= k < names.len() && result[j] == names[k] && (k == 0
                || !equal_ignoring_ascii_case(names[k], names[k - 1])) by {
            if j < rest.len() {
                assert(result[j] == rest[j]);
                let k = choose|k: int|
                    #![trigger init[k]]
                    0 <= k < init.len() && rest[j] == init[k] && (k == 0
                        || !equal_ignoring_ascii_case(init[k], init[k - 1]));
                assert(names[k] == init[k]);
                if k > 0 {
                    assert(names[k - 1] == init[k - 1]);
                }
            } else {
                assert(result[j] == names[n]);
            }
        }
    }
}

/// Every offered name comes from the given names, and it is the first of its run: in the sorted
/// names it stands first or after a name that differs from it in more than ASCII case. Only
/// without any names is the default font offered instead.
pub proof fn normalized_font_list_keeps_the_first_of_each_run(names: Seq<Seq<char>>)
    ensures
        names.len() == 0 ==> normalized_font_names(names) == seq![DEFAULT_FONT_FAMILY@],
        names.len() > 0 ==> forall|j: int|
            0 <= j < normalized_font_names(names).len() ==> {
                &&& names.contains(#[trigger] normalized_font_names(names)[j])
                &&& exists|k: int|
                    #![trigger sorted_names(names)[k]]
                    0 <= k < sorted_names(names).len() && normalized_font_names(names)[j]
                        == sorted_names(names)[k] && (k == 0 || !equal_ignoring_ascii_case(
                        sorted_names(names)[k],
                        sorted_names(names)[k - 1],
                    ))
            },
{
    broadcast use vstd::seq_lib::to_multiset_contains;

    let sorted = sorted_names(names);
    if names.len() == 0 {
        assert(sorted =~= Seq::<Seq<char>>::empty());
        assert(deduplicated_names(sorted) =~= Seq::<Seq<char>>::empty());
    } else {
        lemma_sorted_names_len(names);
        sorted_names_keep_every_name(names);
        lemma_deduplicated_last(sorted);
        lemma_deduplicated_starts_runs(sorted);
        let unique = deduplicated_names(sorted);
        assert(normalized_font_names(names) == unique);
        assert forall|j: int| 0 <= j < unique.len() implies {
            &&& names.contains(#[trigger] unique[j])
            &&& exists|k: int|
                #![trigger sorted[k]]
                0 <= k < sorted.len() && unique[j] == sorted[k] && (k == 0
                    || !equal_ignoring_ascii_case(sorted[k], sorted[k - 1]))
        } by {
            let k = choose|k: int|
                #![trigger sorted[k]]
                0 <= k < sorted.len() && unique[j] == sorted[k] && (k == 0
                    || !equal_ignoring_ascii_case(sorted[k], sorted[k - 1]));
            let x = sorted[k];
            assert(sorted.contains(x));
            assert(sorted.to_multiset().count(x) > 0);
            assert(names.to_multiset().count(x) > 0);
        }
    }
}

/// The family name kept from a font enumeration entry: trimmed, and dropped when it is empty or
/// names a vertical font (a name starting with `@`).
pub open spec fn kept_family(face_name: Seq<char>) -> Option<Seq<char>> {
    let family = trimmed(face_name);
    if family.len() == 0 || family[0] == '@' {
        None
    } else {
        Some(family)
    }
}

/// The family name to record for one enumerated font face.
pub fn enumerated_font_family(face_name: &str) -> (family: Option<String>)
    ensures
        match family {
            Some(name) => kept_family(face_name@) == Some(name@),
            None => kept_family(face_name@) is None,
        },
{
    let family = trim_text(face_name);
    let chars = chars_of(family.as_str());
    if chars.len() == 0 || chars[0] == '@' {
        None
    } else {
        Some(family)
    }
}

/// The family to look for when checking whether a configured font is installed: the trimmed
/// name, or the default font for a blank name; a vertical font (`@`) is never looked for.
pub open spec fn family_to_look_for(font_family: Seq<char>) -> Option<Seq<char>> {
    let family = trimmed(font_family);
    if family.len() == 0 {
        Some(DEFAULT_FONT_FAMILY@)
    } else if family[0] == '@' {
        None
    } else {
        Some(family)
    }
}

/// The family to look for when checking whether a configured font is installed.
pub fn requested_font_family(font_family: &str) -> (requested: Option<String>)
    ensures
        match requested {
            Some(name) => family_to_look_for(font_family@) == Some(name@),
            None => family_to_look_for(font_family@) is None,
        },
{
    let family = trim_text(font_family);
    let chars = chars_of(family.as_str());
    if chars.len() == 0 {
        Some(string_of(DEFAULT_FONT_FAMILY))
    } else if chars[0] == '@' {
        None
    } else {
        Some(family)
    }
}

} // verus!
