use native_windows_gui::catalog::{btn_click, closed, mouse_up, resized};
use native_windows_gui::defs::{
    BN_CLICKED, NWG_DESTROY, WM_COMMAND, WM_EXITSIZEMOVE, WM_LBUTTONUP, WM_MBUTTONUP, WM_PAINT,
    WM_RBUTTONUP, WM_SIZE, WM_SIZING,
};
use native_windows_gui::dispatch::{dispatch, process_events};
use native_windows_gui::events::{Event, EventArgs, MouseButton, NativeMessage};
use native_windows_gui::handles::AnyHandle;
use native_windows_gui::hooks::{hook_window_events, unhook_window_events, SubclassTracker};
use native_windows_gui::registry::{Firing, Registry};

fn message(hwnd: usize, msg: u32, w: usize, l: isize) -> NativeMessage {
    NativeMessage {
        hwnd,
        msg,
        w,
        l,
        notify: None,
        menu_item: 0,
        client_width: 300,
        client_height: 200,
    }
}

fn window_registry() -> Registry {
    let mut reg = Registry::new();
    reg.pack_control(1, AnyHandle::Hwnd(100)).unwrap();
    reg.pack_control(2, AnyHandle::Hwnd(200)).unwrap();
    reg
}

#[test]
fn unbound_selector_fires_no_typed_event() {
    let mut reg = window_registry();
    reg.bind(1, closed(), 7).unwrap();
    reg.bind(1, resized(), 8).unwrap();
    let d = dispatch(&reg, &message(100, WM_PAINT, 0, 0));
    assert!(d.typed.is_empty());
    assert!(d.raw.is_empty());
    assert!(d.forward);
}

#[test]
fn unbound_selector_still_reaches_any() {
    let mut reg = window_registry();
    reg.bind(1, closed(), 7).unwrap();
    reg.bind(1, Event::Any, 9).unwrap();
    let d = dispatch(&reg, &message(100, WM_PAINT, 3, 4));
    assert!(d.typed.is_empty());
    assert_eq!(d.raw, vec![Firing { callback: 9, id: 1, args: EventArgs::Raw(WM_PAINT, 3, 4) }]);
    assert!(d.forward);
}

#[test]
fn private_band_skips_any() {
    let mut reg = window_registry();
    reg.bind(1, Event::Any, 9).unwrap();
    let d = dispatch(&reg, &message(100, NWG_DESTROY, 0, 0));
    assert!(d.raw.is_empty());
}

#[test]
fn typed_callbacks_fire_in_registration_order() {
    let mut reg = window_registry();
    reg.bind(1, closed(), 5).unwrap();
    reg.bind(2, closed(), 6).unwrap();
    reg.bind(1, closed(), 4).unwrap();
    let d = dispatch(&reg, &message(100, 0x0010, 0, 0));
    assert_eq!(
        d.typed,
        vec![
            Firing { callback: 5, id: 1, args: EventArgs::NoArgs },
            Firing { callback: 4, id: 1, args: EventArgs::NoArgs },
        ]
    );
}

#[test]
fn command_event_goes_to_the_child() {
    let mut reg = window_registry();
    reg.bind(2, btn_click(), 11).unwrap();
    reg.bind(1, btn_click(), 12).unwrap();
    let d = dispatch(&reg, &message(100, WM_COMMAND, (BN_CLICKED as usize) << 16, 200));
    assert_eq!(d.typed, vec![Firing { callback: 11, id: 2, args: EventArgs::NoArgs }]);
}

#[test]
fn group_fires_same_callbacks_for_each_selector() {
    let mut reg = window_registry();
    reg.bind(1, resized(), 21).unwrap();
    reg.bind(1, resized(), 22).unwrap();
    let expected = vec![
        Firing { callback: 21, id: 1, args: EventArgs::Size(300, 200) },
        Firing { callback: 22, id: 1, args: EventArgs::Size(300, 200) },
    ];
    for sel in [WM_SIZING, WM_SIZE, WM_EXITSIZEMOVE] {
        let d = dispatch(&reg, &message(100, sel, 0, 0));
        assert_eq!(d.typed, expected);
    }
}

#[test]
fn group_payload_depends_on_which_selector_fired() {
    let mut reg = window_registry();
    reg.bind(1, mouse_up(), 31).unwrap();
    let buttons = [
        (WM_LBUTTONUP, MouseButton::Left),
        (WM_RBUTTONUP, MouseButton::Right),
        (WM_MBUTTONUP, MouseButton::Middle),
    ];
    for (sel, btn) in buttons {
        let d = dispatch(&reg, &message(100, sel, 0, 0x0002_0001));
        assert_eq!(
            d.typed,
            vec![Firing { callback: 31, id: 1, args: EventArgs::MouseClick { btn, x: 1, y: 2 } }]
        );
    }
}

#[test]
fn hooking_twice_installs_one_layer() {
    let mut tracker = SubclassTracker::new();
    assert!(hook_window_events(&mut tracker, 100));
    assert!(!hook_window_events(&mut tracker, 100));
    assert_eq!(tracker.hooked, vec![100]);
    let mut reg = window_registry();
    reg.bind(1, closed(), 5).unwrap();
    let m = message(100, 0x0010, 0, 0);
    assert_eq!(process_events(&tracker, &reg, &m).typed.len(), 1);
    assert!(unhook_window_events(&mut tracker, 100));
    assert!(!tracker.is_hooked(100));
    let d = process_events(&tracker, &reg, &m);
    assert!(d.typed.is_empty());
    assert!(d.raw.is_empty());
    assert!(d.forward);
    assert!(!unhook_window_events(&mut tracker, 100));
}

#[test]
fn unhooking_keeps_other_windows() {
    let mut tracker = SubclassTracker::new();
    hook_window_events(&mut tracker, 1);
    hook_window_events(&mut tracker, 2);
    hook_window_events(&mut tracker, 3);
    unhook_window_events(&mut tracker, 2);
    assert!(tracker.is_hooked(1));
    assert!(!tracker.is_hooked(2));
    assert!(tracker.is_hooked(3));
}

#[test]
fn removed_identifier_is_skipped() {
    let mut reg = window_registry();
    reg.bind(1, closed(), 5).unwrap();
    reg.bind(1, Event::Any, 6).unwrap();
    let m = message(100, 0x0010, 0, 0);
    assert_eq!(dispatch(&reg, &m).typed.len(), 1);
    let removed = reg.objects.remove(1);
    assert_eq!(removed.map(|e| e.id), Some(1));
    let d = dispatch(&reg, &m);
    assert!(d.typed.is_empty());
    assert!(d.raw.is_empty());
    assert!(d.forward);
}

#[test]
fn unknown_window_is_skipped() {
    let mut reg = window_registry();
    reg.bind(1, closed(), 5).unwrap();
    let d = dispatch(&reg, &message(555, 0x0010, 0, 0));
    assert!(d.typed.is_empty());
    assert!(d.raw.is_empty());
}
