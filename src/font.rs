//! The font template: which decorations the requested font carries.

use vstd::prelude::*;

use crate::defs::{FONT_DECO_ITALIC, FONT_DECO_STRIKEOUT, FONT_DECO_UNDERLINE};

verus! {

/// A template that creates a font resource.
#[derive(Clone, Debug)]
pub struct FontT {
    pub family: String,
    /// Height of the character cell, in logical units; 0 for the default.
    pub size: i32,
    /// Weight from 0 to 1000 (400 is normal, 700 bold).
    pub weight: i32,
    /// A combination of the `FONT_DECO_*` flags.
    pub decoration: u32,
}

/// The italic, underline and strike-out switches passed to font creation,
/// each 1 or 0.
#[derive(Clone, Copy, Debug, PartialEq, Eq, Structural)]
pub struct FontFlags {
    pub italic: u32,
    pub underline: u32,
    pub strikeout: u32,
}

/// 1 when `flag` is set in `decoration`, else 0.
pub open spec fn switch_of(decoration: u32, flag: u32) -> u32 {
    if decoration & flag != 0 {
        1
    } else {
        0
    }
}

fn switch(decoration: u32, flag: u32) -> (r: u32)
    ensures
        r == switch_of(decoration, flag),
{
    if decoration & flag != 0 {
        1
    } else {
        0
    }
}

impl FontT {
    /// The decoration switches of the font to create.
    pub fn flags(&self) -> (r: FontFlags)
        ensures
            r.italic == switch_of(self.decoration, FONT_DECO_ITALIC),
            r.underline == switch_of(self.decoration, FONT_DECO_UNDERLINE),
            r.strikeout == switch_of(self.decoration, FONT_DECO_STRIKEOUT),
    {
        FontFlags {
            italic: switch(self.decoration, FONT_DECO_ITALIC),
            underline: switch(self.decoration, FONT_DECO_UNDERLINE),
            strikeout: switch(self.decoration, FONT_DECO_STRIKEOUT),
        }
    }
}

} // verus!
