//! The list-view template and the rows a list view is filled with.

use vstd::prelude::*;

use crate::defs::{
    LVS_EX_DOUBLEBUFFER, LVS_EX_FULLROWSELECT, LVS_EX_GRIDLINES, LVS_EX_HEADERDRAGDROP,
    LVS_REPORT, LVS_SHOWSELALWAYS, WS_CHILD, WS_DISABLED, WS_EX_CLIENTEDGE, WS_TABSTOP,
    WS_VISIBLE, WS_VSCROLL,
};
use crate::error::Error;
use crate::handles::AnyHandle;
use crate::registry::{lookup_handle, Registry};

verus! {

/// How a list view lays out its items.
#[derive(Clone, Copy, Debug, PartialEq, Eq, Structural)]
pub enum ViewMode {
    Report,
    Tile,
    IconSmall,
    List,
    Icon,
}

/// Horizontal alignment of text.
#[derive(Clone, Copy, Debug, PartialEq, Eq, Structural)]
pub enum HTextAlign {
    Left,
    Center,
    Right,
}

/// A template that creates a list view in report mode.
#[derive(Debug)]
pub struct ListViewT {
    pub column: Vec<String>,
    pub view_mode: ViewMode,
    pub position: (i32, i32),
    pub size: (u32, u32),
    pub visible: bool,
    pub disabled: bool,
    pub align: HTextAlign,
    /// The parent window, by logical identifier.
    pub parent: u64,
    /// The font resource, by logical identifier; the system font when `None`.
    pub font: Option<u64>,
}

/// As `ListViewT`, for a list view whose items the application supplies on
/// demand (a style that cannot be switched on after creation).
#[derive(Debug)]
pub struct VitualListViewT {
    pub column: Vec<String>,
    pub view_mode: ViewMode,
    pub position: (i32, i32),
    pub size: (u32, u32),
    pub visible: bool,
    pub disabled: bool,
    pub align: HTextAlign,
    pub parent: u64,
    pub font: Option<u64>,
}

/// Style bits every list view is created with.
pub const LIST_VIEW_BASE_STYLE: u32 = WS_CHILD | WS_VSCROLL | WS_TABSTOP | LVS_SHOWSELALWAYS
    | LVS_REPORT;

/// Extended window style of a list view.
pub const LIST_VIEW_EX_STYLE: u32 = WS_EX_CLIENTEDGE;

/// Extended list-view style: grid lines, draggable headers, full-row
/// selection, double buffering.
pub const LIST_VIEW_EXTENDED_STYLE: u32 = LVS_EX_GRIDLINES | LVS_EX_HEADERDRAGDROP
    | LVS_EX_FULLROWSELECT | LVS_EX_DOUBLEBUFFER;

/// The style bits of a list view.
pub open spec fn list_view_style(visible: bool, disabled: bool) -> u32 {
    LIST_VIEW_BASE_STYLE | (if visible {
        WS_VISIBLE
    } else {
        0
    }) | (if disabled {
        WS_DISABLED
    } else {
        0
    })
}

/// The native handles a list view is built from: its parent window and,
/// if one was given, its font.
pub open spec fn placement_of(parent: Result<AnyHandle, Error>, font: Option<
    Result<AnyHandle, Error>,
>) -> Result<(usize, Option<usize>), Error> {
    match parent {
        Err(e) => Err(e),
        Ok(AnyHandle::Hwnd(p)) => match font {
            None => Ok((p, None)),
            Some(Ok(AnyHandle::Hfont(f))) => Ok((p, Some(f))),
            Some(Ok(_)) => Err(Error::BadResource),
            Some(Err(e)) => Err(e),
        },
        Ok(_) => Err(Error::BadParent),
    }
}

impl ListViewT {
    /// The style bits the list view is created with.
    pub fn style(&self) -> (r: u32)
        ensures
            r == list_view_style(self.visible, self.disabled),
    {
        let visible = if self.visible {
            WS_VISIBLE
        } else {
            0
        };
        let disabled = if self.disabled {
            WS_DISABLED
        } else {
            0
        };
        LIST_VIEW_BASE_STYLE | visible | disabled
    }

    /// The parent window handle and font handle to build with, looked up in
    /// `reg`: the parent must be a window, the font a font.
    pub fn placement(&self, reg: &Registry) -> (r: Result<(usize, Option<usize>), Error>)
        requires
            reg.wf(),
        ensures
            r == placement_of(
                lookup_handle(reg@.entries, self.parent),
                match self.font {
                    Some(f) => Some(lookup_handle(reg@.entries, f)),
                    None => None,
                },
            ),
    {
        let parent = match reg.handle_of(self.parent) {
            Err(e) => return Err(e),
            Ok(AnyHandle::Hwnd(p)) => p,
            Ok(_) => return Err(Error::BadParent),
        };
        match self.font {
            None => Ok((parent, None)),
            Some(f) => match reg.handle_of(f) {
                Ok(AnyHandle::Hfont(h)) => Ok((parent, Some(h))),
                Ok(_) => Err(Error::BadResource),
                Err(e) => Err(e),
            },
        }
    }
}

/// The extended-style update that adds `extra` to a list view whose
/// extended style is `current`: the mask of bits to change, and their values.
pub fn set_lv_ex_style(current: u32, extra: u32) -> (r: (u32, u32))
    ensures
        r == (current | extra, extra),
{
    (current | extra, extra)
}

/// One text to place in a list view: the row, the column (0 for the item
/// itself, else the sub-item), and the text.
#[derive(Clone, Debug)]
pub struct ItemText {
    pub row: i32,
    pub column: i32,
    pub text: String,
}

/// The texts that inserting `data` as row `index` places: the last element
/// of `data` becomes the item, and the others, in order, its sub-items 1, 2...
pub open spec fn row_texts_ok(index: i32, data: Seq<String>, r: Seq<ItemText>) -> bool {
    &&& r.len() == data.len()
    &&& data.len() > 0 ==> r[0].row == index && r[0].column == 0 && r[0].text == data.last()
    &&& forall|k: int|
        1 <= k < r.len() ==> (#[trigger] r[k]).row == index && r[k].column == k && r[k].text
            == data[k - 1]
}

/// A list view, by its native handle.
#[derive(Clone, Copy, Debug, PartialEq, Eq, Structural)]
pub struct ListView {
    pub handle: usize,
}

/// An image list of a list view.
#[derive(Clone, Copy, Debug, PartialEq, Eq, Structural)]
pub struct ImageList {}

impl ListView {
    pub fn handle(&self) -> (r: AnyHandle)
        ensures
            r == AnyHandle::Hwnd(self.handle),
    {
        AnyHandle::Hwnd(self.handle)
    }

    /// The texts to send to insert `data` as row `index`; none for no data.
    pub fn insert_texts(index: isize, data: Vec<String>) -> (r: Vec<ItemText>)
        requires
            data@.len() < i32::MAX,
        ensures
            row_texts_ok(#[verifier::truncate] (index as i32), data@, r@),
    {
        let row = #[verifier::truncate] (index as i32);
        let mut r: Vec<ItemText> = Vec::new();
        let n = data.len();
        if n == 0 {
            return r;
        }
        r.push(ItemText { row, column: 0, text: data[n - 1].clone() });
        let mut i: usize = 0;
        while i + 1 < n
            invariant
                n == data@.len(),
                n < i32::MAX,
                0 < n,
                i + 1 <= n,
                r@.len() == i + 1,
                r@[0].row == row && r@[0].column == 0 && r@[0].text == data@.last(),
                forall|k: int|
                    1 <= k < r@.len() ==> (#[trigger] r@[k]).row == row && r@[k].column == k
                        && r@[k].text == data@[k - 1],
            decreases n - i,
        {
            r.push(ItemText { row, column: (i + 1) as i32, text: data[i].clone() });
            i = i + 1;
        }
        r
    }
}

} // verus!
