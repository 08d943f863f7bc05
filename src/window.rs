//! The window template and the decisions a top-level window makes: its style
//! bits, its icon, and what its procedure does with a message.

use vstd::prelude::*;

use crate::defs::{
    WM_CLOSE, WM_CREATE, WM_NOTIFY, WS_CAPTION, WS_CLIPCHILDREN, WS_DISABLED, WS_MAXIMIZEBOX,
    WS_MINIMIZEBOX, WS_OVERLAPPED, WS_OVERLAPPEDWINDOW, WS_SYSMENU, WS_VISIBLE,
};
use crate::error::Error;
use crate::handles::{id_of, AnyHandle, has_handle};
use crate::registry::{lookup_handle, Registry};

verus! {

/// Style of a window the user cannot resize.
pub const FIXED_WINDOW: u32 = WS_CLIPCHILDREN | WS_SYSMENU | WS_CAPTION | WS_OVERLAPPED
    | WS_MINIMIZEBOX | WS_MAXIMIZEBOX;

/// A template that creates a top-level window.
#[derive(Debug)]
pub struct WindowT {
    pub title: String,
    pub position: (i32, i32),
    pub size: (u32, u32),
    /// Whether the user can resize the window.
    pub resizable: bool,
    pub visible: bool,
    /// A disabled window processes no input.
    pub disabled: bool,
    /// Whether closing this window ends the event loop.
    pub exit_on_close: bool,
    /// The icon resource, by logical identifier.
    pub icon: Option<u64>,
}

/// The style bits of a window.
pub open spec fn window_style(resizable: bool, visible: bool, disabled: bool) -> u32 {
    (if visible {
        WS_VISIBLE
    } else {
        0
    }) | (if disabled {
        WS_DISABLED
    } else {
        0
    }) | (if resizable {
        WS_OVERLAPPEDWINDOW
    } else {
        FIXED_WINDOW
    })
}

/// The native icon handle that a window shows, from the lookup of its icon
/// resource: the resource must be an icon.
pub open spec fn icon_from(r: Result<AnyHandle, Error>) -> Result<usize, Error> {
    match r {
        Ok(AnyHandle::Hicon(h)) => Ok(h),
        Ok(_) => Err(Error::BadResource),
        Err(e) => Err(e),
    }
}

fn icon_handle_of(reg: &Registry, id: u64) -> (r: Result<usize, Error>)
    requires
        reg.wf(),
    ensures
        r == icon_from(lookup_handle(reg@.entries, id)),
{
    match reg.handle_of(id) {
        Ok(AnyHandle::Hicon(h)) => Ok(h),
        Ok(_) => Err(Error::BadResource),
        Err(e) => Err(e),
    }
}

impl WindowT {
    /// The style bits the window is created with.
    pub fn style(&self) -> (r: u32)
        ensures
            r == window_style(self.resizable, self.visible, self.disabled),
    {
        let visible = if self.visible {
            WS_VISIBLE
        } else {
            0
        };
        let disabled = if self.disabled {
            WS_DISABLED
        } else {
            0
        };
        let frame = if self.resizable {
            WS_OVERLAPPEDWINDOW
        } else {
            FIXED_WINDOW
        };
        visible | disabled | frame
    }

    /// The per-window data the procedure reads: the low bit says whether
    /// closing the window ends the event loop.
    pub fn user_data(&self) -> (r: usize)
        ensures
            r == (if self.exit_on_close {
                1usize
            } else {
                0usize
            }),
    {
        if self.exit_on_close {
            1
        } else {
            0
        }
    }

    /// The native icon handle to give the new window, 0 for none.
    pub fn icon_handle(&self, reg: &Registry) -> (r: Result<usize, Error>)
        requires
            reg.wf(),
        ensures
            self.icon is None ==> r == Ok::<usize, Error>(0),
            self.icon matches Some(id) ==> r == icon_from(lookup_handle(reg@.entries, id)),
    {
        match self.icon {
            None => Ok(0),
            Some(id) => icon_handle_of(reg, id),
        }
    }
}

/// A top-level window, by its native handle.
#[derive(Clone, Copy, Debug, PartialEq, Eq, Structural)]
pub struct Window {
    pub handle: usize,
}

impl Window {
    pub fn handle(&self) -> (r: AnyHandle)
        ensures
            r == AnyHandle::Hwnd(self.handle),
    {
        AnyHandle::Hwnd(self.handle)
    }

    /// The native icon handle to set on this window (0 removes the icon):
    /// `BadUi` when the window does not belong to `reg`, else the icon
    /// resource looked up in `reg`.
    pub fn set_icon(&self, reg: &Registry, icon: Option<u64>) -> (r: Result<usize, Error>)
        requires
            reg.wf(),
        ensures
            !has_handle(reg@.entries, AnyHandle::Hwnd(self.handle)) ==> r == Err::<usize, Error>(
                Error::BadUi,
            ),
            has_handle(reg@.entries, AnyHandle::Hwnd(self.handle)) ==> match icon {
                None => r == Ok::<usize, Error>(0),
                Some(id) => r == icon_from(lookup_handle(reg@.entries, id)),
            },
    {
        if !reg.has_handle(AnyHandle::Hwnd(self.handle)) {
            return Err(Error::BadUi);
        }
        match icon {
            None => Ok(0),
            Some(id) => icon_handle_of(reg, id),
        }
    }

    /// The identifier of the icon resource the window shows, given the native
    /// icon handle it reports (0 for none).
    pub fn get_icon(&self, reg: &Registry, current: usize) -> (r: Option<u64>)
        requires
            reg.wf(),
        ensures
            current == 0 ==> r is None,
            current != 0 ==> r == id_of(reg@.entries, AnyHandle::Hicon(current)),
    {
        if current == 0 {
            return None;
        }
        reg.inner_id_from_handle(AnyHandle::Hicon(current))
    }
}

/// What a window's own procedure does with a message.
#[derive(Clone, Copy, Debug, PartialEq, Eq, Structural)]
pub struct WindowProcAction {
    /// The message is consumed here; otherwise it goes to default processing.
    pub handled: bool,
    /// Hide the window.
    pub hide: bool,
    /// End the event loop.
    pub quit: bool,
}

/// The procedure of a top-level window, given the message selector and the
/// window's data: creation and notifications are consumed; closing hides the
/// window, and ends the event loop when the data's low bit is set; anything
/// else goes to default processing.
pub fn window_sysproc(msg: u32, user_data: usize) -> (r: WindowProcAction)
    ensures
        r.handled == (msg == WM_CREATE || msg == WM_CLOSE || msg == WM_NOTIFY),
        r.hide == (msg == WM_CLOSE),
        r.quit == (msg == WM_CLOSE && user_data % 2 == 1),
{
    if msg == WM_CREATE || msg == WM_NOTIFY {
        WindowProcAction { handled: true, hide: false, quit: false }
    } else if msg == WM_CLOSE {
        WindowProcAction { handled: true, hide: true, quit: user_data % 2 == 1 }
    } else {
        WindowProcAction { handled: false, hide: false, quit: false }
    }
}

} // verus!
