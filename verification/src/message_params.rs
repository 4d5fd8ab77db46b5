//! Reading the packed `WPARAM` and `LPARAM` values of window messages.
//!
//! A message parameter packs two 16-bit words: the low word in bits 0..16 and the high word in
//! bits 16..32. Mouse positions are signed words, so a point left of or above the client area
//! comes out negative.

use vstd::prelude::*;

use crate::geometry::Point;

verus! {

/// The 16-bit word read as a two's-complement signed value.
pub open spec fn signed_word(word: int) -> int {
    if word >= 32768 {
        word - 65536
    } else {
        word
    }
}

/// The low word of a message parameter, as the integer it denotes in two's complement.
pub open spec fn low_word_of(value: int) -> int {
    value % 65536
}

/// The high word of a message parameter, as the integer it denotes in two's complement.
pub open spec fn high_word_of(value: int) -> int {
    (value / 65536) % 65536
}

/// Bits 0..16 of a `WPARAM`.
pub fn low_word(value: usize) -> (word: u32)
    ensures
        word == low_word_of(value as int),
{
    let masked = value & 0xffff;
    assert(value & 0xffff == value % 65536) by (bit_vector);
    masked as u32
}

/// Bits 16..32 of a `WPARAM`.
pub fn high_word(value: usize) -> (word: u32)
    ensures
        word == high_word_of(value as int),
{
    let masked = (value >> 16) & 0xffff;
    assert((value >> 16) & 0xffff == (value / 65536) % 65536) by (bit_vector);
    masked as u32
}

/// Widens a 16-bit word to the signed value it holds.
fn signed_from_word(word: u32) -> (value: i32)
    requires
        word < 65536,
    ensures
        value == signed_word(word as int),
{
    let wide = word as i32;
    if wide >= 32768 {
        wide - 65536
    } else {
        wide
    }
}

/// Bits 16..32 of a `WPARAM` as a signed value (the wheel delta of `WM_MOUSEWHEEL`).
pub fn signed_high_word_from_wparam(value: usize) -> (word: i32)
    ensures
        word == signed_word(high_word_of(value as int)),
{
    signed_from_word(high_word(value))
}

/// Bits 0..16 of an `LPARAM` as a signed value.
pub fn signed_low_word(value: isize) -> (word: i32)
    ensures
        word == signed_word(low_word_of(value as int)),
{
    let masked = value & 0xffff;
    assert(value & 0xffff == value % 65536) by (bit_vector);
    signed_from_word(masked as u32)
}

/// Bits 16..32 of an `LPARAM` as a signed value.
pub fn signed_high_word(value: isize) -> (word: i32)
    ensures
        word == signed_word(high_word_of(value as int)),
{
    let masked = (value >> 16) & 0xffff;
    assert((value >> 16) & 0xffff == (value / 65536) % 65536) by (bit_vector);
    signed_from_word(masked as u32)
}

/// The client point that a mouse message carries in its `LPARAM`.
pub fn point_from_lparam(value: isize) -> (point: Point)
    ensures
        point.x == signed_word(low_word_of(value as int)),
        point.y == signed_word(high_word_of(value as int)),
{
    Point { x: signed_low_word(value), y: signed_high_word(value) }
}

} // verus!
