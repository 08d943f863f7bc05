//! Native message selectors, notification codes and style bits used by the
//! event catalog and the control templates, plus the reserved private band of
//! message identifiers.

use vstd::prelude::*;

verus! {

pub const WM_CREATE: u32 = 0x0001;
pub const WM_MOVE: u32 = 0x0003;
pub const WM_SIZE: u32 = 0x0005;
pub const WM_PAINT: u32 = 0x000F;
pub const WM_CLOSE: u32 = 0x0010;
pub const WM_QUIT: u32 = 0x0012;
pub const WM_NOTIFY: u32 = 0x004E;
pub const WM_GETICON: u32 = 0x007F;
pub const WM_SETICON: u32 = 0x0080;
pub const WM_KEYDOWN: u32 = 0x0100;
pub const WM_KEYUP: u32 = 0x0101;
pub const WM_CHAR: u32 = 0x0102;
pub const WM_UNICHAR: u32 = 0x0109;
pub const WM_COMMAND: u32 = 0x0111;
pub const WM_TIMER: u32 = 0x0113;
pub const WM_MENUCOMMAND: u32 = 0x0126;
pub const WM_MOUSEMOVE: u32 = 0x0200;
pub const WM_LBUTTONDOWN: u32 = 0x0201;
pub const WM_LBUTTONUP: u32 = 0x0202;
pub const WM_RBUTTONDOWN: u32 = 0x0204;
pub const WM_RBUTTONUP: u32 = 0x0205;
pub const WM_MBUTTONDOWN: u32 = 0x0207;
pub const WM_MBUTTONUP: u32 = 0x0208;
pub const WM_SIZING: u32 = 0x0214;
pub const WM_EXITSIZEMOVE: u32 = 0x0232;
pub const WM_USER: u32 = 0x0400;

/// Marker that a `WM_UNICHAR` message carries in place of a character.
pub const UNICODE_NOCHAR: usize = 0xFFFF;

// Notification codes carried in the high word of a `WM_COMMAND` parameter.
pub const BN_CLICKED: u16 = 0;
pub const BN_DBLCLK: u16 = 5;
pub const BN_SETFOCUS: u16 = 6;
pub const BN_KILLFOCUS: u16 = 7;
pub const CBN_SELCHANGE: u16 = 1;
pub const CBN_SETFOCUS: u16 = 3;
pub const CBN_KILLFOCUS: u16 = 4;
pub const STN_CLICKED: u16 = 0;
pub const STN_DBLCLK: u16 = 1;
pub const LBN_SELCHANGE: u16 = 1;
pub const LBN_DBLCLK: u16 = 2;
pub const LBN_SETFOCUS: u16 = 4;
pub const LBN_KILLFOCUS: u16 = 5;
pub const EN_SETFOCUS: u16 = 0x0100;
pub const EN_KILLFOCUS: u16 = 0x0200;
pub const EN_UPDATE: u16 = 0x0400;
pub const EN_MAXTEXT: u16 = 0x0501;

// Notification codes carried in the header of a `WM_NOTIFY` message
// (negative offsets from the common-control bases, as unsigned values).
pub const NM_CLICK: u32 = 0xFFFF_FFFE;
pub const NM_DBLCLK: u32 = 0xFFFF_FFFD;
pub const NM_SETFOCUS: u32 = 0xFFFF_FFF9;
pub const NM_KILLFOCUS: u32 = 0xFFFF_FFF8;
pub const NM_CUSTOMDRAW: u32 = 0xFFFF_FFF4;
pub const TVN_ITEMCHANGINGW: u32 = 0xFFFF_FE5F;
pub const TVN_ITEMCHANGEDW: u32 = 0xFFFF_FE5D;
pub const TVN_SELCHANGEDW: u32 = 0xFFFF_FE3D;
pub const TVN_ITEMEXPANDINGW: u32 = 0xFFFF_FE3A;
pub const TVN_ITEMEXPANDEDW: u32 = 0xFFFF_FE39;
pub const TVN_DELETEITEMW: u32 = 0xFFFF_FE36;
pub const DTN_CLOSEUP: u32 = 0xFFFF_FD0F;

/// First identifier of the private message band reserved for this library.
pub const NWG_CUSTOM_MIN: u32 = WM_USER + 100;
/// Message sent to a control when it is being destroyed.
pub const NWG_DESTROY: u32 = WM_USER + 101;
/// Last identifier of the private message band reserved for this library.
pub const NWG_CUSTOM_MAX: u32 = WM_USER + 200;

// Window style bits.
pub const WS_OVERLAPPED: u32 = 0x0000_0000;
pub const WS_CHILD: u32 = 0x4000_0000;
pub const WS_VISIBLE: u32 = 0x1000_0000;
pub const WS_DISABLED: u32 = 0x0800_0000;
pub const WS_CLIPCHILDREN: u32 = 0x0200_0000;
pub const WS_CAPTION: u32 = 0x00C0_0000;
pub const WS_VSCROLL: u32 = 0x0020_0000;
pub const WS_SYSMENU: u32 = 0x0008_0000;
pub const WS_THICKFRAME: u32 = 0x0004_0000;
pub const WS_MINIMIZEBOX: u32 = 0x0002_0000;
pub const WS_MAXIMIZEBOX: u32 = 0x0001_0000;
pub const WS_TABSTOP: u32 = 0x0001_0000;
pub const WS_OVERLAPPEDWINDOW: u32 = 0x00CF_0000;
pub const WS_EX_CLIENTEDGE: u32 = 0x0000_0200;

// List-view style bits.
pub const LVS_REPORT: u32 = 0x0001;
pub const LVS_SHOWSELALWAYS: u32 = 0x0008;
pub const LVS_EX_GRIDLINES: u32 = 0x0000_0001;
pub const LVS_EX_HEADERDRAGDROP: u32 = 0x0000_0010;
pub const LVS_EX_FULLROWSELECT: u32 = 0x0000_0020;
pub const LVS_EX_DOUBLEBUFFER: u32 = 0x0001_0000;

// Font decoration flags.
pub const FONT_DECO_NORMAL: u32 = 0;
pub const FONT_DECO_ITALIC: u32 = 0x01;
pub const FONT_DECO_UNDERLINE: u32 = 0x02;
pub const FONT_DECO_STRIKEOUT: u32 = 0x04;

} // verus!
