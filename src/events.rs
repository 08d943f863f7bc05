//! Events: what a native message means to the application. An event is named
//! by the selector(s) of the messages it listens to, a classifier that says
//! which object raised it, and an extractor that builds its payload. Both are
//! drawn from closed sets, so two events are equal exactly when they would
//! behave identically.

use vstd::prelude::*;

use crate::defs::{
    BN_CLICKED, BN_DBLCLK, BN_KILLFOCUS, BN_SETFOCUS, CBN_KILLFOCUS, CBN_SELCHANGE, CBN_SETFOCUS,
    DTN_CLOSEUP, EN_KILLFOCUS, EN_MAXTEXT, EN_SETFOCUS, EN_UPDATE, LBN_DBLCLK, LBN_KILLFOCUS,
    LBN_SELCHANGE, LBN_SETFOCUS, NM_CLICK, NM_CUSTOMDRAW, NM_DBLCLK, NM_KILLFOCUS, NM_SETFOCUS,
    NWG_DESTROY, STN_CLICKED, STN_DBLCLK, TVN_DELETEITEMW, TVN_ITEMCHANGEDW, TVN_ITEMCHANGINGW,
    TVN_ITEMEXPANDEDW, TVN_ITEMEXPANDINGW, TVN_SELCHANGEDW, UNICODE_NOCHAR, WM_CHAR, WM_CLOSE,
    WM_COMMAND, WM_EXITSIZEMOVE, WM_KEYDOWN, WM_KEYUP, WM_LBUTTONDOWN, WM_LBUTTONUP,
    WM_MBUTTONDOWN, WM_MBUTTONUP, WM_MENUCOMMAND, WM_MOUSEMOVE, WM_MOVE, WM_NOTIFY, WM_PAINT,
    WM_RBUTTONDOWN, WM_RBUTTONUP, WM_SIZE, WM_SIZING, WM_TIMER, WM_UNICHAR,
};
use crate::handles::{AnyHandle, TIMER_HANDLE_KIND};
use vstd::utf8::char_u32_cast;
use crate::words::{hi_word, hi_word_of, lo_word, lo_word_of, signed_word, x_of_lparam, y_of_lparam};

verus! {

/// A mouse button.
#[derive(Clone, Copy, Debug, PartialEq, Eq, Structural)]
pub enum MouseButton {
    Left,
    Right,
    Middle,
}

/// The typed payload handed to application callbacks.
#[derive(Clone, Copy, Debug, PartialEq, Eq, Structural)]
pub enum EventArgs {
    /// The event carries no data.
    NoArgs,
    /// The raw message: selector and both parameters.
    Raw(u32, usize, isize),
    Position(i32, i32),
    Size(u32, u32),
    Char(char),
    MouseClick { btn: MouseButton, x: i32, y: i32 },
    Key(u32),
    /// `true` when focus was gained, `false` when it was lost.
    Focus(bool),
}

/// The header a `WM_NOTIFY` message points to: the control that sent it and
/// the notification code.
#[derive(Clone, Copy, Debug, PartialEq, Eq, Structural)]
pub struct NotifyHeader {
    pub from: usize,
    pub code: u32,
}

/// A native message as the dispatcher sees it: the window that received it,
/// the selector, both parameters, and what the native side read on its behalf
/// (the notification header a `WM_NOTIFY` points to, the command identifier of
/// the menu item a `WM_MENUCOMMAND` names, the width and height of the
/// window's client area).
#[derive(Clone, Copy, Debug, PartialEq, Eq, Structural)]
pub struct NativeMessage {
    pub hwnd: usize,
    pub msg: u32,
    pub w: usize,
    pub l: isize,
    pub notify: Option<NotifyHeader>,
    pub menu_item: u32,
    pub client_width: u32,
    pub client_height: u32,
}

/// Decides which object raised an event.
#[derive(Clone, Copy, Debug, PartialEq, Eq, Structural, Hash)]
pub enum Classifier {
    /// The window that received the message.
    Window,
    /// The child named by a `WM_COMMAND` whose notification code is the one given.
    Command(u16),
    /// As `Command`, for either of two codes.
    Command2(u16, u16),
    /// The control named by a `WM_NOTIFY` header whose code is the one given.
    Notify(u32),
    /// As `Notify`, for either of two codes.
    Notify2(u32, u32),
    /// The menu item a `WM_MENUCOMMAND` names.
    MenuItem,
    /// The timer a `WM_TIMER` names.
    Timer,
}

/// Builds the payload of an event.
#[derive(Clone, Copy, Debug, PartialEq, Eq, Structural, Hash)]
pub enum Extractor {
    NoArgs,
    Raw,
    Move,
    Size,
    Char,
    MouseMove,
    MouseClick,
    Key,
    /// Gained or lost focus, from a `WM_NOTIFY` header.
    NotifyFocus,
    /// Gained focus when the `WM_COMMAND` code is the one given.
    CommandFocus(u16),
}

/// Whether `c` is a Unicode scalar value.
pub open spec fn is_scalar(c: u32) -> bool {
    c < 0xD800 || (0xE000 <= c && c <= 0x10FFFF)
}

/// Relies on `char::from_u32`: `Some` exactly for a Unicode scalar value,
/// holding the character with that code.
#[verifier::external_body]
fn char_from_code(c: u32) -> (r: Option<char>)
    ensures
        r is Some <==> is_scalar(c),
        r matches Some(ch) ==> ch as u32 == c,
{
    char::from_u32(c)
}

/// The character whose code is `c`.
pub open spec fn char_of(c: u32) -> char {
    c as char
}

/// The button a mouse-click message refers to.
pub open spec fn button_of(msg: u32) -> MouseButton {
    if msg == WM_RBUTTONUP || msg == WM_RBUTTONDOWN {
        MouseButton::Right
    } else if msg == WM_MBUTTONUP || msg == WM_MBUTTONDOWN {
        MouseButton::Middle
    } else {
        MouseButton::Left
    }
}

/// The object that raised the event, by classifier `c`.
pub open spec fn classify(c: Classifier, m: NativeMessage) -> Option<AnyHandle> {
    let code = hi_word_of(#[verifier::truncate] (m.w as u32));
    match c {
        Classifier::Window => Some(AnyHandle::Hwnd(m.hwnd)),
        Classifier::Command(a) => if code == a {
            Some(AnyHandle::Hwnd(#[verifier::truncate] (m.l as usize)))
        } else {
            None
        },
        Classifier::Command2(a, b) => if code == a || code == b {
            Some(AnyHandle::Hwnd(#[verifier::truncate] (m.l as usize)))
        } else {
            None
        },
        Classifier::Notify(a) => match m.notify {
            Some(h) => if h.code == a {
                Some(AnyHandle::Hwnd(h.from))
            } else {
                None
            },
            None => None,
        },
        Classifier::Notify2(a, b) => match m.notify {
            Some(h) => if h.code == a || h.code == b {
                Some(AnyHandle::Hwnd(h.from))
            } else {
                None
            },
            None => None,
        },
        Classifier::MenuItem => Some(AnyHandle::MenuItem(#[verifier::truncate] (m.l as usize), m.menu_item)),
        Classifier::Timer => Some(AnyHandle::Custom(TIMER_HANDLE_KIND, m.w)),
    }
}

/// The payload of the event, by extractor `x`.
pub open spec fn extract(x: Extractor, m: NativeMessage) -> Option<EventArgs> {
    let l = #[verifier::truncate] (m.l as u32);
    match x {
        Extractor::NoArgs => Some(EventArgs::NoArgs),
        Extractor::Raw => Some(EventArgs::Raw(m.msg, m.w, m.l)),
        Extractor::Move => Some(EventArgs::Position(lo_word_of(l) as i32, hi_word_of(l) as i32)),
        Extractor::Size => Some(EventArgs::Size(m.client_width, m.client_height)),
        Extractor::Char => if m.w != UNICODE_NOCHAR && is_scalar(#[verifier::truncate] (m.w as u32)) {
            Some(EventArgs::Char(char_of(#[verifier::truncate] (m.w as u32))))
        } else {
            None
        },
        Extractor::MouseMove => Some(
            EventArgs::Position(signed_word(lo_word_of(l)), signed_word(hi_word_of(l))),
        ),
        Extractor::MouseClick => Some(
            EventArgs::MouseClick {
                btn: button_of(m.msg),
                x: signed_word(lo_word_of(l)),
                y: signed_word(hi_word_of(l)),
            },
        ),
        Extractor::Key => Some(EventArgs::Key(#[verifier::truncate] (m.w as u32))),
        Extractor::NotifyFocus => match m.notify {
            Some(h) => Some(EventArgs::Focus(h.code == NM_SETFOCUS)),
            None => None,
        },
        Extractor::CommandFocus(a) => Some(EventArgs::Focus(hi_word_of(#[verifier::truncate] (m.w as u32)) == a)),
    }
}

/// Classifier of events that the receiving window raises.
pub fn hwnd_handle(m: &NativeMessage) -> (r: Option<AnyHandle>)
    ensures
        r == classify(Classifier::Window, *m),
{
    Some(AnyHandle::Hwnd(m.hwnd))
}

/// Classifier of `WM_COMMAND` events: the child control named by the second
/// parameter, when the notification code in the high word of the first is `cmd`.
pub fn command_handle(m: &NativeMessage, cmd: u16) -> (r: Option<AnyHandle>)
    ensures
        r == classify(Classifier::Command(cmd), *m),
{
    if hi_word(#[verifier::truncate] (m.w as u32)) == cmd {
        Some(AnyHandle::Hwnd(#[verifier::truncate] (m.l as usize)))
    } else {
        None
    }
}

/// As `command_handle`, for either of two notification codes.
pub fn command_2_handle(m: &NativeMessage, cmd1: u16, cmd2: u16) -> (r: Option<AnyHandle>)
    ensures
        r == classify(Classifier::Command2(cmd1, cmd2), *m),
{
    let code = hi_word(#[verifier::truncate] (m.w as u32));
    if code == cmd1 || code == cmd2 {
        Some(AnyHandle::Hwnd(#[verifier::truncate] (m.l as usize)))
    } else {
        None
    }
}

/// Classifier of `WM_NOTIFY` events: the control that sent the notification,
/// when its code is `code`.
pub fn notify_handle(m: &NativeMessage, code: u32) -> (r: Option<AnyHandle>)
    ensures
        r == classify(Classifier::Notify(code), *m),
{
    match m.notify {
        Some(h) => if h.code == code {
            Some(AnyHandle::Hwnd(h.from))
        } else {
            None
        },
        None => None,
    }
}

/// As `notify_handle`, for either of two codes.
pub fn notify_2_handle(m: &NativeMessage, code1: u32, code2: u32) -> (r: Option<AnyHandle>)
    ensures
        r == classify(Classifier::Notify2(code1, code2), *m),
{
    match m.notify {
        Some(h) => if h.code == code1 || h.code == code2 {
            Some(AnyHandle::Hwnd(h.from))
        } else {
            None
        },
        None => None,
    }
}

/// Runs classifier `c` on `m`.
pub fn run_classifier(c: Classifier, m: &NativeMessage) -> (r: Option<AnyHandle>)
    ensures
        r == classify(c, *m),
{
    match c {
        Classifier::Window => hwnd_handle(m),
        Classifier::Command(a) => command_handle(m, a),
        Classifier::Command2(a, b) => command_2_handle(m, a, b),
        Classifier::Notify(a) => notify_handle(m, a),
        Classifier::Notify2(a, b) => notify_2_handle(m, a, b),
        Classifier::MenuItem => Some(
            AnyHandle::MenuItem(#[verifier::truncate] (m.l as usize), m.menu_item),
        ),
        Classifier::Timer => Some(AnyHandle::Custom(TIMER_HANDLE_KIND, m.w)),
    }
}

/// Extractor of events that carry no data.
pub fn event_unpack_no_args(m: &NativeMessage) -> (r: Option<EventArgs>)
    ensures
        r == extract(Extractor::NoArgs, *m),
{
    Some(EventArgs::NoArgs)
}

/// Runs extractor `x` on `m`.
pub fn run_extractor(x: Extractor, m: &NativeMessage) -> (r: Option<EventArgs>)
    ensures
        r == extract(x, *m),
{
    let l = #[verifier::truncate] (m.l as u32);
    match x {
        Extractor::NoArgs => event_unpack_no_args(m),
        Extractor::Raw => Some(EventArgs::Raw(m.msg, m.w, m.l)),
        Extractor::Move => Some(EventArgs::Position(lo_word(l) as i32, hi_word(l) as i32)),
        Extractor::Size => Some(EventArgs::Size(m.client_width, m.client_height)),
        Extractor::Char => {
            if m.w == UNICODE_NOCHAR {
                return None;
            }
            match char_from_code(#[verifier::truncate] (m.w as u32)) {
                Some(ch) => {
                    proof {
                        let c = #[verifier::truncate] (m.w as u32);
                        char_u32_cast(ch, c);
                    }
                    Some(EventArgs::Char(ch))
                },
                None => None,
            }
        },
        Extractor::MouseMove => Some(EventArgs::Position(x_of_lparam(m.l), y_of_lparam(m.l))),
        Extractor::MouseClick => {
            let btn = if m.msg == WM_RBUTTONUP || m.msg == WM_RBUTTONDOWN {
                MouseButton::Right
            } else if m.msg == WM_MBUTTONUP || m.msg == WM_MBUTTONDOWN {
                MouseButton::Middle
            } else {
                MouseButton::Left
            };
            Some(EventArgs::MouseClick { btn, x: x_of_lparam(m.l), y: y_of_lparam(m.l) })
        },
        Extractor::Key => Some(EventArgs::Key(#[verifier::truncate] (m.w as u32))),
        Extractor::NotifyFocus => match m.notify {
            Some(h) => Some(EventArgs::Focus(h.code == NM_SETFOCUS)),
            None => None,
        },
        Extractor::CommandFocus(a) => Some(EventArgs::Focus(hi_word(#[verifier::truncate] (m.w as u32)) == a)),
    }
}

/// The mathematical value of an [`Event`].
pub enum EventView {
    Any,
    Single(u32, Extractor, Classifier),
    Group(Seq<u32>, Extractor, Classifier),
}

/// An event: `Any` matches every message and is the raw passthrough
/// subscription; `Single` listens to one selector, `Group` to several.
#[derive(Debug, Hash)]
pub enum Event {
    Any,
    Single(u32, Extractor, Classifier),
    Group(Vec<u32>, Extractor, Classifier),
}

impl View for Event {
    type V = EventView;

    open spec fn view(&self) -> EventView {
        match self {
            Event::Any => EventView::Any,
            Event::Single(s, x, c) => EventView::Single(*s, *x, *c),
            Event::Group(v, x, c) => EventView::Group(v@, *x, *c),
        }
    }
}

/// Whether event `e` listens to messages with selector `msg`.
pub open spec fn selects(e: EventView, msg: u32) -> bool {
    match e {
        EventView::Any => true,
        EventView::Single(s, _, _) => s == msg,
        EventView::Group(sels, _, _) => sels.contains(msg),
    }
}

fn same_selectors(a: &Vec<u32>, b: &Vec<u32>) -> (r: bool)
    ensures
        r == (a@ == b@),
{
    if a.len() != b.len() {
        return false;
    }
    let mut i: usize = 0;
    while i < a.len()
        invariant
            i <= a@.len(),
            a@.len() == b@.len(),
            forall|k: int| 0 <= k < i ==> a@[k] == b@[k],
        decreases a@.len() - i,
    {
        if a[i] != b[i] {
            return false;
        }
        i = i + 1;
    }
    assert(a@ =~= b@);
    true
}

impl Event {
    /// Whether this event listens to messages with selector `msg`.
    pub fn selects(&self, msg: u32) -> (r: bool)
        ensures
            r == selects(self@, msg),
    {
        match self {
            Event::Any => true,
            Event::Single(s, _, _) => *s == msg,
            Event::Group(sels, _, _) => {
                let mut i: usize = 0;
                while i < sels.len()
                    invariant
                        i <= sels@.len(),
                        self@ is Group && self@->Group_0 == sels@,
                        forall|k: int| 0 <= k < i ==> sels@[k] != msg,
                    decreases sels@.len() - i,
                {
                    if sels[i] == msg {
                        assert(sels@[i as int] == msg);
                        return true;
                    }
                    i = i + 1;
                }
                false
            },
        }
    }

    /// The same event.
    pub fn duplicate(&self) -> (r: Event)
        ensures
            r@ == self@,
    {
        match self {
            Event::Any => Event::Any,
            Event::Single(s, x, c) => Event::Single(*s, *x, *c),
            Event::Group(sels, x, c) => {
                let copy = sels.clone();
                assert(copy@ =~= sels@);
                Event::Group(copy, *x, *c)
            },
        }
    }
}

impl Clone for Event {
    fn clone(&self) -> (r: Self)
        ensures
            r@ == self@,
    {
        self.duplicate()
    }
}

impl PartialEq for Event {
    fn eq(&self, other: &Event) -> (r: bool)
        ensures
            r == (self@ == other@),
    {
        match (self, other) {
            (Event::Any, Event::Any) => true,
            (Event::Single(s1, x1, c1), Event::Single(s2, x2, c2)) => *s1 == *s2 && *x1 == *x2 && *c1
                == *c2,
            (Event::Group(s1, x1, c1), Event::Group(s2, x2, c2)) => *x1 == *x2 && *c1 == *c2
                && same_selectors(s1, s2),
            _ => false,
        }
    }
}

impl vstd::std_specs::cmp::PartialEqSpecImpl for Event {
    open spec fn obeys_eq_spec() -> bool {
        true
    }

    open spec fn eq_spec(&self, other: &Event) -> bool {
        self@ == other@
    }
}

impl Eq for Event {

}

/// Two events built from the same selector, extractor and classifier are the
/// same event; built from different classifiers (or extractors) they differ,
/// even over the same selector.
pub proof fn lemma_event_identity(
    s: u32,
    x1: Extractor,
    c1: Classifier,
    x2: Extractor,
    c2: Classifier,
)
    ensures
        (EventView::Single(s, x1, c1) == EventView::Single(s, x2, c2)) <==> (x1 == x2 && c1
            == c2),
{
}

/// As `lemma_event_identity`, for events over a group of selectors.
pub proof fn lemma_group_identity(
    sels: Seq<u32>,
    x1: Extractor,
    c1: Classifier,
    x2: Extractor,
    c2: Classifier,
)
    ensures
        (EventView::Group(sels, x1, c1) == EventView::Group(sels, x2, c2)) <==> (x1 == x2 && c1
            == c2),
{
}

} // verus!
