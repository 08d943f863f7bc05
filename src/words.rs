//! Splitting packed message parameters into their 16-bit halves.

use vstd::prelude::*;

verus! {

/// The low 16 bits of a 32-bit value.
pub open spec fn lo_word_of(x: u32) -> u16 {
    (x % 0x1_0000) as u16
}

/// The high 16 bits of a 32-bit value.
pub open spec fn hi_word_of(x: u32) -> u16 {
    (x / 0x1_0000) as u16
}

/// A 16-bit word read as a two's-complement signed value.
pub open spec fn signed_word(w: u16) -> i32 {
    if w < 0x8000 {
        w as i32
    } else {
        (w as int - 0x1_0000) as i32
    }
}

pub fn lo_word(x: u32) -> (r: u16)
    ensures
        r == lo_word_of(x),
{
    (x % 0x1_0000) as u16
}

pub fn hi_word(x: u32) -> (r: u16)
    ensures
        r == hi_word_of(x),
{
    (x / 0x1_0000) as u16
}

/// The horizontal coordinate packed in the low word of a parameter, signed.
pub fn x_of_lparam(l: isize) -> (r: i32)
    ensures
        r == signed_word(lo_word_of(#[verifier::truncate] (l as u32))),
{
    let w = lo_word(#[verifier::truncate] (l as u32));
    if w < 0x8000 {
        w as i32
    } else {
        w as i32 - 0x1_0000
    }
}

/// The vertical coordinate packed in the high word of a parameter, signed.
pub fn y_of_lparam(l: isize) -> (r: i32)
    ensures
        r == signed_word(hi_word_of(#[verifier::truncate] (l as u32))),
{
    let w = hi_word(#[verifier::truncate] (l as u32));
    if w < 0x8000 {
        w as i32
    } else {
        w as i32 - 0x1_0000
    }
}

} // verus!
