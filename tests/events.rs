use native_windows_gui::catalog::{btn_click, btn_focus, char_input, mouse_down, moved, resized};
use native_windows_gui::defs::{
    BN_CLICKED, BN_KILLFOCUS, BN_SETFOCUS, NM_SETFOCUS, WM_CHAR, WM_COMMAND, WM_MOUSEMOVE,
    WM_NOTIFY, WM_RBUTTONDOWN, WM_SIZE, WM_TIMER,
};
use native_windows_gui::events::{
    command_2_handle, command_handle, event_unpack_no_args, hwnd_handle, notify_2_handle,
    notify_handle, run_classifier, run_extractor, Classifier, Event, EventArgs, Extractor,
    MouseButton, NativeMessage, NotifyHeader,
};
use native_windows_gui::handles::{AnyHandle, TIMER_HANDLE_KIND};
use native_windows_gui::words::{hi_word, lo_word, x_of_lparam, y_of_lparam};

fn message(hwnd: usize, msg: u32, w: usize, l: isize) -> NativeMessage {
    NativeMessage {
        hwnd,
        msg,
        w,
        l,
        notify: None,
        menu_item: 0,
        client_width: 0,
        client_height: 0,
    }
}

#[test]
fn words_split_parameters() {
    assert_eq!(lo_word(0x1234_5678), 0x5678);
    assert_eq!(hi_word(0x1234_5678), 0x1234);
    assert_eq!(x_of_lparam(0x0002_FFFF), -1);
    assert_eq!(y_of_lparam(0x0002_FFFF), 2);
    assert_eq!(x_of_lparam(0x8000), -32768);
    assert_eq!(y_of_lparam(0x7FFF_0000), 32767);
}

#[test]
fn command_classifier_checks_the_notification_code() {
    let m = message(10, WM_COMMAND, ((BN_CLICKED as usize) << 16) | 42, 77);
    assert_eq!(command_handle(&m, BN_CLICKED), Some(AnyHandle::Hwnd(77)));
    let other = message(10, WM_COMMAND, (5usize << 16) | 42, 77);
    assert_eq!(command_handle(&other, BN_CLICKED), None);
    let focus = message(10, WM_COMMAND, (BN_KILLFOCUS as usize) << 16, 78);
    assert_eq!(command_2_handle(&focus, BN_SETFOCUS, BN_KILLFOCUS), Some(AnyHandle::Hwnd(78)));
    assert_eq!(command_2_handle(&focus, 1, 2), None);
}

#[test]
fn notify_classifier_reads_the_header() {
    let mut m = message(10, WM_NOTIFY, 0, 0);
    assert_eq!(notify_handle(&m, 5), None);
    m.notify = Some(NotifyHeader { from: 99, code: 5 });
    assert_eq!(notify_handle(&m, 5), Some(AnyHandle::Hwnd(99)));
    assert_eq!(notify_handle(&m, 6), None);
    assert_eq!(notify_2_handle(&m, 6, 5), Some(AnyHandle::Hwnd(99)));
    assert_eq!(hwnd_handle(&m), Some(AnyHandle::Hwnd(10)));
}

#[test]
fn timer_and_menu_classifiers() {
    let t = message(10, WM_TIMER, 3, 0);
    assert_eq!(run_classifier(Classifier::Timer, &t), Some(AnyHandle::Custom(TIMER_HANDLE_KIND, 3)));
    let mut menu = message(10, 0x0126, 1, 500);
    menu.menu_item = 9;
    assert_eq!(run_classifier(Classifier::MenuItem, &menu), Some(AnyHandle::MenuItem(500, 9)));
}

#[test]
fn char_extractor_filters_non_characters() {
    let a = message(1, WM_CHAR, 'A' as usize, 0);
    assert_eq!(run_extractor(Extractor::Char, &a), Some(EventArgs::Char('A')));
    let e = message(1, WM_CHAR, 0xE9, 0);
    assert_eq!(run_extractor(Extractor::Char, &e), Some(EventArgs::Char('\u{e9}')));
    let nochar = message(1, WM_CHAR, 0xFFFF, 0);
    assert_eq!(run_extractor(Extractor::Char, &nochar), None);
    let surrogate = message(1, WM_CHAR, 0xD800, 0);
    assert_eq!(run_extractor(Extractor::Char, &surrogate), None);
    let too_big = message(1, WM_CHAR, 0x11_0000, 0);
    assert_eq!(run_extractor(Extractor::Char, &too_big), None);
}

#[test]
fn position_extractors() {
    let m = message(1, 0x0003, 0, 0x0014_FFF6);
    assert_eq!(run_extractor(Extractor::Move, &m), Some(EventArgs::Position(0xFFF6, 0x14)));
    let mm = message(1, WM_MOUSEMOVE, 0, 0x0014_FFF6);
    assert_eq!(run_extractor(Extractor::MouseMove, &mm), Some(EventArgs::Position(-10, 20)));
    let click = message(1, WM_RBUTTONDOWN, 0, 0x0005_0007);
    assert_eq!(
        run_extractor(Extractor::MouseClick, &click),
        Some(EventArgs::MouseClick { btn: MouseButton::Right, x: 7, y: 5 })
    );
}

#[test]
fn size_key_focus_and_raw_extractors() {
    let mut m = message(1, WM_SIZE, 65, -3);
    m.client_width = 640;
    m.client_height = 480;
    assert_eq!(run_extractor(Extractor::Size, &m), Some(EventArgs::Size(640, 480)));
    assert_eq!(run_extractor(Extractor::Key, &m), Some(EventArgs::Key(65)));
    assert_eq!(run_extractor(Extractor::Raw, &m), Some(EventArgs::Raw(WM_SIZE, 65, -3)));
    assert_eq!(event_unpack_no_args(&m), Some(EventArgs::NoArgs));
    let gained = message(1, WM_COMMAND, (BN_SETFOCUS as usize) << 16, 0);
    assert_eq!(run_extractor(Extractor::CommandFocus(BN_SETFOCUS), &gained), Some(EventArgs::Focus(true)));
    let lost = message(1, WM_COMMAND, (BN_KILLFOCUS as usize) << 16, 0);
    assert_eq!(run_extractor(Extractor::CommandFocus(BN_SETFOCUS), &lost), Some(EventArgs::Focus(false)));
    let mut n = message(1, WM_NOTIFY, 0, 0);
    assert_eq!(run_extractor(Extractor::NotifyFocus, &n), None);
    n.notify = Some(NotifyHeader { from: 2, code: NM_SETFOCUS });
    assert_eq!(run_extractor(Extractor::NotifyFocus, &n), Some(EventArgs::Focus(true)));
}

#[test]
fn events_with_same_parts_are_equal() {
    let a = Event::Single(WM_COMMAND, Extractor::NoArgs, Classifier::Command(BN_CLICKED));
    let b = Event::Single(WM_COMMAND, Extractor::NoArgs, Classifier::Command(BN_CLICKED));
    assert!(a == b);
    assert!(btn_click() == a);
    assert!(resized() == resized());
    assert!(a.clone() == a);
    assert!(resized().clone() == resized());
}

#[test]
fn events_with_different_classifiers_differ() {
    let a = Event::Single(WM_COMMAND, Extractor::NoArgs, Classifier::Command(BN_CLICKED));
    let b = Event::Single(WM_COMMAND, Extractor::NoArgs, Classifier::Command(5));
    assert!(a != b);
    let c = Event::Single(WM_COMMAND, Extractor::Key, Classifier::Command(BN_CLICKED));
    assert!(a != c);
    assert!(btn_click() != btn_focus());
    let g1 = Event::Group(vec![1, 2], Extractor::NoArgs, Classifier::Window);
    let g2 = Event::Group(vec![1, 2], Extractor::NoArgs, Classifier::Command(0));
    let g3 = Event::Group(vec![1, 3], Extractor::NoArgs, Classifier::Window);
    assert!(g1 != g2);
    assert!(g1 != g3);
    assert!(Event::Any == Event::Any);
    assert!(Event::Any != a);
    assert!(char_input() != mouse_down());
    assert!(moved() != resized());
}

#[test]
fn events_select_their_messages() {
    let r = resized();
    assert!(r.selects(0x0214));
    assert!(r.selects(WM_SIZE));
    assert!(r.selects(0x0232));
    assert!(!r.selects(WM_CHAR));
    assert!(Event::Any.selects(12345));
    assert!(btn_click().selects(WM_COMMAND));
    assert!(!btn_click().selects(WM_NOTIFY));
}
