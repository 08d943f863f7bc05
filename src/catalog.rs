//! The catalog of predefined events. Control-specific events that share a
//! selector are told apart by a classifier that also checks the notification
//! code the message carries.

use vstd::prelude::*;

use crate::defs::{
    BN_CLICKED, BN_DBLCLK, BN_KILLFOCUS, BN_SETFOCUS, CBN_KILLFOCUS, CBN_SELCHANGE, CBN_SETFOCUS, DTN_CLOSEUP, EN_KILLFOCUS, EN_MAXTEXT, EN_SETFOCUS, EN_UPDATE, LBN_DBLCLK, LBN_KILLFOCUS, LBN_SELCHANGE, LBN_SETFOCUS, NM_CLICK, NM_CUSTOMDRAW, NM_DBLCLK, NM_KILLFOCUS, NM_SETFOCUS, NWG_DESTROY, STN_CLICKED, STN_DBLCLK, TVN_DELETEITEMW, TVN_ITEMCHANGEDW, TVN_ITEMCHANGINGW, TVN_ITEMEXPANDEDW, TVN_ITEMEXPANDINGW, TVN_SELCHANGEDW, WM_CHAR, WM_CLOSE, WM_COMMAND, WM_EXITSIZEMOVE, WM_KEYDOWN, WM_KEYUP, WM_LBUTTONDOWN, WM_LBUTTONUP, WM_MBUTTONDOWN, WM_MBUTTONUP, WM_MENUCOMMAND, WM_MOUSEMOVE, WM_MOVE, WM_NOTIFY, WM_PAINT, WM_RBUTTONDOWN, WM_RBUTTONUP, WM_SIZE, WM_SIZING, WM_TIMER, WM_UNICHAR,
};
use crate::events::{Classifier, Event, EventView, Extractor};

verus! {

/// A control is being destroyed.
pub fn destroyed() -> (e: Event)
    ensures
        e@ == EventView::Single(NWG_DESTROY, Extractor::NoArgs, Classifier::Window),
{
    Event::Single(NWG_DESTROY, Extractor::NoArgs, Classifier::Window)
}

/// A window must be painted.
pub fn paint() -> (e: Event)
    ensures
        e@ == EventView::Single(WM_PAINT, Extractor::NoArgs, Classifier::Window),
{
    Event::Single(WM_PAINT, Extractor::NoArgs, Classifier::Window)
}

/// The user asked to close a window.
pub fn closed() -> (e: Event)
    ensures
        e@ == EventView::Single(WM_CLOSE, Extractor::NoArgs, Classifier::Window),
{
    Event::Single(WM_CLOSE, Extractor::NoArgs, Classifier::Window)
}

/// A window moved; the payload is its new position.
pub fn moved() -> (e: Event)
    ensures
        e@ == EventView::Single(WM_MOVE, Extractor::Move, Classifier::Window),
{
    Event::Single(WM_MOVE, Extractor::Move, Classifier::Window)
}

/// A key was pressed; the payload is its virtual-key code.
pub fn key_down() -> (e: Event)
    ensures
        e@ == EventView::Single(WM_KEYDOWN, Extractor::Key, Classifier::Window),
{
    Event::Single(WM_KEYDOWN, Extractor::Key, Classifier::Window)
}

/// A key was released; the payload is its virtual-key code.
pub fn key_up() -> (e: Event)
    ensures
        e@ == EventView::Single(WM_KEYUP, Extractor::Key, Classifier::Window),
{
    Event::Single(WM_KEYUP, Extractor::Key, Classifier::Window)
}

/// The mouse moved over a window; the payload is its position.
pub fn mouse_move() -> (e: Event)
    ensures
        e@ == EventView::Single(WM_MOUSEMOVE, Extractor::MouseMove, Classifier::Window),
{
    Event::Single(WM_MOUSEMOVE, Extractor::MouseMove, Classifier::Window)
}

/// A button was clicked.
pub fn btn_click() -> (e: Event)
    ensures
        e@ == EventView::Single(WM_COMMAND, Extractor::NoArgs, Classifier::Command(BN_CLICKED)),
{
    Event::Single(WM_COMMAND, Extractor::NoArgs, Classifier::Command(BN_CLICKED))
}

/// A button was double-clicked.
pub fn btn_double_click() -> (e: Event)
    ensures
        e@ == EventView::Single(WM_COMMAND, Extractor::NoArgs, Classifier::Command(BN_DBLCLK)),
{
    Event::Single(WM_COMMAND, Extractor::NoArgs, Classifier::Command(BN_DBLCLK))
}

/// A button gained or lost focus.
pub fn btn_focus() -> (e: Event)
    ensures
        e@ == EventView::Single(WM_COMMAND, Extractor::CommandFocus(BN_SETFOCUS), Classifier::Command2(BN_SETFOCUS, BN_KILLFOCUS)),
{
    Event::Single(WM_COMMAND, Extractor::CommandFocus(BN_SETFOCUS), Classifier::Command2(BN_SETFOCUS, BN_KILLFOCUS))
}

/// A combo box gained or lost focus.
pub fn cbn_focus() -> (e: Event)
    ensures
        e@ == EventView::Single(WM_COMMAND, Extractor::CommandFocus(CBN_SETFOCUS), Classifier::Command2(CBN_SETFOCUS, CBN_KILLFOCUS)),
{
    Event::Single(WM_COMMAND, Extractor::CommandFocus(CBN_SETFOCUS), Classifier::Command2(CBN_SETFOCUS, CBN_KILLFOCUS))
}

/// The selection of a combo box changed.
pub fn cbn_selection_changed() -> (e: Event)
    ensures
        e@ == EventView::Single(WM_COMMAND, Extractor::NoArgs, Classifier::Command(CBN_SELCHANGE)),
{
    Event::Single(WM_COMMAND, Extractor::NoArgs, Classifier::Command(CBN_SELCHANGE))
}

/// A static control was clicked.
pub fn stn_click() -> (e: Event)
    ensures
        e@ == EventView::Single(WM_COMMAND, Extractor::NoArgs, Classifier::Command(STN_CLICKED)),
{
    Event::Single(WM_COMMAND, Extractor::NoArgs, Classifier::Command(STN_CLICKED))
}

/// A static control was double-clicked.
pub fn stn_double_click() -> (e: Event)
    ensures
        e@ == EventView::Single(WM_COMMAND, Extractor::NoArgs, Classifier::Command(STN_DBLCLK)),
{
    Event::Single(WM_COMMAND, Extractor::NoArgs, Classifier::Command(STN_DBLCLK))
}

/// A date picker closed its calendar.
pub fn date_changed() -> (e: Event)
    ensures
        e@ == EventView::Single(WM_NOTIFY, Extractor::NoArgs, Classifier::Notify(DTN_CLOSEUP)),
{
    Event::Single(WM_NOTIFY, Extractor::NoArgs, Classifier::Notify(DTN_CLOSEUP))
}

/// The selection of a list box changed.
pub fn lbn_selection_changed() -> (e: Event)
    ensures
        e@ == EventView::Single(WM_COMMAND, Extractor::NoArgs, Classifier::Command(LBN_SELCHANGE)),
{
    Event::Single(WM_COMMAND, Extractor::NoArgs, Classifier::Command(LBN_SELCHANGE))
}

/// An item of a list box was double-clicked.
pub fn lbn_double_click() -> (e: Event)
    ensures
        e@ == EventView::Single(WM_COMMAND, Extractor::NoArgs, Classifier::Command(LBN_DBLCLK)),
{
    Event::Single(WM_COMMAND, Extractor::NoArgs, Classifier::Command(LBN_DBLCLK))
}

/// A list box gained or lost focus.
pub fn lbn_focus() -> (e: Event)
    ensures
        e@ == EventView::Single(WM_COMMAND, Extractor::CommandFocus(LBN_SETFOCUS), Classifier::Command2(LBN_SETFOCUS, LBN_KILLFOCUS)),
{
    Event::Single(WM_COMMAND, Extractor::CommandFocus(LBN_SETFOCUS), Classifier::Command2(LBN_SETFOCUS, LBN_KILLFOCUS))
}

/// The text of an edit control changed.
pub fn en_value_changed() -> (e: Event)
    ensures
        e@ == EventView::Single(WM_COMMAND, Extractor::NoArgs, Classifier::Command(EN_UPDATE)),
{
    Event::Single(WM_COMMAND, Extractor::NoArgs, Classifier::Command(EN_UPDATE))
}

/// An edit control reached its text limit.
pub fn en_limit() -> (e: Event)
    ensures
        e@ == EventView::Single(WM_COMMAND, Extractor::NoArgs, Classifier::Command(EN_MAXTEXT)),
{
    Event::Single(WM_COMMAND, Extractor::NoArgs, Classifier::Command(EN_MAXTEXT))
}

/// An edit control gained or lost focus.
pub fn en_focus() -> (e: Event)
    ensures
        e@ == EventView::Single(WM_COMMAND, Extractor::CommandFocus(EN_SETFOCUS), Classifier::Command2(EN_SETFOCUS, EN_KILLFOCUS)),
{
    Event::Single(WM_COMMAND, Extractor::CommandFocus(EN_SETFOCUS), Classifier::Command2(EN_SETFOCUS, EN_KILLFOCUS))
}

/// A timer elapsed.
pub fn timer_tick() -> (e: Event)
    ensures
        e@ == EventView::Single(WM_TIMER, Extractor::NoArgs, Classifier::Timer),
{
    Event::Single(WM_TIMER, Extractor::NoArgs, Classifier::Timer)
}

/// A menu item was chosen.
pub fn menu_trigger() -> (e: Event)
    ensures
        e@ == EventView::Single(WM_MENUCOMMAND, Extractor::NoArgs, Classifier::MenuItem),
{
    Event::Single(WM_MENUCOMMAND, Extractor::NoArgs, Classifier::MenuItem)
}

/// The selection of a tree view changed.
pub fn tree_view_selection_changed() -> (e: Event)
    ensures
        e@ == EventView::Single(WM_NOTIFY, Extractor::NoArgs, Classifier::Notify(TVN_SELCHANGEDW)),
{
    Event::Single(WM_NOTIFY, Extractor::NoArgs, Classifier::Notify(TVN_SELCHANGEDW))
}

/// A tree view was clicked.
pub fn tree_view_click() -> (e: Event)
    ensures
        e@ == EventView::Single(WM_NOTIFY, Extractor::NoArgs, Classifier::Notify(NM_CLICK)),
{
    Event::Single(WM_NOTIFY, Extractor::NoArgs, Classifier::Notify(NM_CLICK))
}

/// A tree view was double-clicked.
pub fn tree_view_double_click() -> (e: Event)
    ensures
        e@ == EventView::Single(WM_NOTIFY, Extractor::NoArgs, Classifier::Notify(NM_DBLCLK)),
{
    Event::Single(WM_NOTIFY, Extractor::NoArgs, Classifier::Notify(NM_DBLCLK))
}

/// A tree view gained or lost focus.
pub fn tree_view_focus() -> (e: Event)
    ensures
        e@ == EventView::Single(WM_NOTIFY, Extractor::NotifyFocus, Classifier::Notify2(NM_KILLFOCUS, NM_SETFOCUS)),
{
    Event::Single(WM_NOTIFY, Extractor::NotifyFocus, Classifier::Notify2(NM_KILLFOCUS, NM_SETFOCUS))
}

/// An item of a tree view is being deleted.
pub fn tree_view_delete_item() -> (e: Event)
    ensures
        e@ == EventView::Single(WM_NOTIFY, Extractor::NotifyFocus, Classifier::Notify(TVN_DELETEITEMW)),
{
    Event::Single(WM_NOTIFY, Extractor::NotifyFocus, Classifier::Notify(TVN_DELETEITEMW))
}

/// An item of a tree view changed.
pub fn tree_view_item_changed() -> (e: Event)
    ensures
        e@ == EventView::Single(WM_NOTIFY, Extractor::NotifyFocus, Classifier::Notify(TVN_ITEMCHANGEDW)),
{
    Event::Single(WM_NOTIFY, Extractor::NotifyFocus, Classifier::Notify(TVN_ITEMCHANGEDW))
}

/// An item of a tree view is about to change.
pub fn tree_view_item_changing() -> (e: Event)
    ensures
        e@ == EventView::Single(WM_NOTIFY, Extractor::NotifyFocus, Classifier::Notify(TVN_ITEMCHANGINGW)),
{
    Event::Single(WM_NOTIFY, Extractor::NotifyFocus, Classifier::Notify(TVN_ITEMCHANGINGW))
}

/// An item of a tree view was expanded or collapsed.
pub fn tree_view_item_expanded() -> (e: Event)
    ensures
        e@ == EventView::Single(WM_NOTIFY, Extractor::NotifyFocus, Classifier::Notify(TVN_ITEMEXPANDEDW)),
{
    Event::Single(WM_NOTIFY, Extractor::NotifyFocus, Classifier::Notify(TVN_ITEMEXPANDEDW))
}

/// An item of a tree view is about to expand or collapse.
pub fn tree_view_item_expanding() -> (e: Event)
    ensures
        e@ == EventView::Single(WM_NOTIFY, Extractor::NotifyFocus, Classifier::Notify(TVN_ITEMEXPANDINGW)),
{
    Event::Single(WM_NOTIFY, Extractor::NotifyFocus, Classifier::Notify(TVN_ITEMEXPANDINGW))
}

/// A list view asks its parent to draw an item; the payload is the raw message.
pub fn list_view_custom_draw() -> (e: Event)
    ensures
        e@ == EventView::Single(WM_NOTIFY, Extractor::Raw, Classifier::Notify(NM_CUSTOMDRAW)),
{
    Event::Single(WM_NOTIFY, Extractor::Raw, Classifier::Notify(NM_CUSTOMDRAW))
}

/// A window was resized; the payload is its client size.
pub fn resized() -> (e: Event)
    ensures
        e@ == EventView::Group(seq![WM_SIZING, WM_SIZE, WM_EXITSIZEMOVE], Extractor::Size, Classifier::Window),
{
    let sels: Vec<u32> = vec![WM_SIZING, WM_SIZE, WM_EXITSIZEMOVE];
    assert(sels@ =~= seq![WM_SIZING, WM_SIZE, WM_EXITSIZEMOVE]);
    Event::Group(sels, Extractor::Size, Classifier::Window)
}

/// A character was typed; the payload is the character.
pub fn char_input() -> (e: Event)
    ensures
        e@ == EventView::Group(seq![WM_UNICHAR, WM_CHAR], Extractor::Char, Classifier::Window),
{
    let sels: Vec<u32> = vec![WM_UNICHAR, WM_CHAR];
    assert(sels@ =~= seq![WM_UNICHAR, WM_CHAR]);
    Event::Group(sels, Extractor::Char, Classifier::Window)
}

/// A mouse button was released; the payload is the button and position.
pub fn mouse_up() -> (e: Event)
    ensures
        e@ == EventView::Group(seq![WM_LBUTTONUP, WM_RBUTTONUP, WM_MBUTTONUP], Extractor::MouseClick, Classifier::Window),
{
    let sels: Vec<u32> = vec![WM_LBUTTONUP, WM_RBUTTONUP, WM_MBUTTONUP];
    assert(sels@ =~= seq![WM_LBUTTONUP, WM_RBUTTONUP, WM_MBUTTONUP]);
    Event::Group(sels, Extractor::MouseClick, Classifier::Window)
}

/// A mouse button was pressed; the payload is the button and position.
pub fn mouse_down() -> (e: Event)
    ensures
        e@ == EventView::Group(seq![WM_LBUTTONDOWN, WM_RBUTTONDOWN, WM_MBUTTONDOWN], Extractor::MouseClick, Classifier::Window),
{
    let sels: Vec<u32> = vec![WM_LBUTTONDOWN, WM_RBUTTONDOWN, WM_MBUTTONDOWN];
    assert(sels@ =~= seq![WM_LBUTTONDOWN, WM_RBUTTONDOWN, WM_MBUTTONDOWN]);
    Event::Group(sels, Extractor::MouseClick, Classifier::Window)
}

} // verus!
