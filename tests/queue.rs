use native_windows_gui::catalog::{btn_click, closed};
use native_windows_gui::error::{Error, SystemError};
use native_windows_gui::events::{Event, EventArgs};
use native_windows_gui::handles::{AnyHandle, ObjectKind};
use native_windows_gui::message_handler::{class_name, MessageHandler};
use native_windows_gui::registry::{Command, Firing, Registry};

fn handler() -> MessageHandler {
    MessageHandler::new(Ok(77)).unwrap()
}

#[test]
fn new_reports_system_error() {
    assert_eq!(handler().hwnd(), 77);
    assert_eq!(handler().pending_len(), 0);
    match MessageHandler::new(Err(SystemError::UiCreation)) {
        Err(e) => assert_eq!(e, Error::System(SystemError::UiCreation)),
        Ok(_) => panic!("creation should fail"),
    }
}

#[test]
fn post_then_commit_runs_one_bind() {
    let mut reg = Registry::new();
    reg.pack_control(1, AnyHandle::Hwnd(10)).unwrap();
    let mut mh = handler();
    mh.post(Command::Bind { id: 1, event: btn_click(), callback: 42 });
    assert_eq!(mh.pending_len(), 1);
    assert_eq!(reg.bindings.len(), 0);
    assert_eq!(mh.commit(&mut reg), Ok(()));
    assert_eq!(mh.pending_len(), 0);
    assert_eq!(reg.bindings.len(), 1);
    assert_eq!(reg.bindings[0].id, 1);
    assert!(reg.bindings[0].event == btn_click());
    assert_eq!(reg.bindings[0].callback, 42);
}

#[test]
fn commit_runs_all_in_post_order() {
    let mut reg = Registry::new();
    let mut mh = handler();
    mh.post(Command::PackControl { id: 1, handle: AnyHandle::Hwnd(10) });
    mh.post(Command::Bind { id: 1, event: closed(), callback: 1 });
    mh.post(Command::Bind { id: 1, event: closed(), callback: 2 });
    mh.post(Command::Trigger { id: 1, event: closed(), args: EventArgs::Key(3) });
    assert_eq!(mh.commit(&mut reg), Ok(()));
    assert_eq!(mh.pending_len(), 0);
    assert_eq!(
        reg.take_fired(),
        vec![
            Firing { callback: 1, id: 1, args: EventArgs::Key(3) },
            Firing { callback: 2, id: 1, args: EventArgs::Key(3) },
        ]
    );
    assert!(reg.fired.is_empty());
}

#[test]
fn commit_stops_at_first_failure() {
    let mut reg = Registry::new();
    let mut mh = handler();
    mh.post(Command::PackUserValue { id: 1 });
    mh.post(Command::PackUserValue { id: 2 });
    mh.post(Command::Bind { id: 9, event: closed(), callback: 1 });
    mh.post(Command::PackUserValue { id: 3 });
    mh.post(Command::PackUserValue { id: 4 });
    assert_eq!(mh.commit(&mut reg), Err(Error::KeyNotFound));
    assert!(reg.has_id(1));
    assert!(reg.has_id(2));
    assert!(!reg.has_id(3));
    assert_eq!(mh.pending_len(), 2);
    assert_eq!(mh.commit(&mut reg), Ok(()));
    assert!(reg.has_id(3));
    assert!(reg.has_id(4));
    assert_eq!(mh.pending_len(), 0);
}

#[test]
fn commit_on_empty_queue_succeeds() {
    let mut reg = Registry::new();
    let mut mh = handler();
    assert_eq!(mh.commit(&mut reg), Ok(()));
    assert_eq!(mh.free(), 77);
}

#[test]
fn pack_errors() {
    let mut reg = Registry::new();
    assert_eq!(reg.pack_control(1, AnyHandle::Hwnd(10)), Ok(()));
    assert_eq!(reg.pack_user_value(1), Err(Error::KeyExists));
    assert_eq!(reg.pack_resource(2, AnyHandle::Hwnd(10)), Err(Error::HandleInUse));
    assert_eq!(reg.pack_resource(2, AnyHandle::Hfont(10)), Ok(()));
    assert_eq!(reg.inner_id_from_handle(AnyHandle::Hfont(10)), Some(2));
    assert_eq!(reg.objects.entries.len(), 2);
}

#[test]
fn handle_lookup_errors() {
    let mut reg = Registry::new();
    reg.pack_user_value(1).unwrap();
    reg.pack_resource(2, AnyHandle::Hicon(5)).unwrap();
    assert_eq!(reg.handle_of(1), Err(Error::BadResource));
    assert_eq!(reg.handle_of(2), Ok(AnyHandle::Hicon(5)));
    assert_eq!(reg.handle_of(3), Err(Error::KeyNotFound));
}

#[test]
fn unpack_forgets_object_and_bindings() {
    let mut reg = Registry::new();
    reg.pack_control(1, AnyHandle::Hwnd(10)).unwrap();
    reg.pack_control(2, AnyHandle::Hwnd(20)).unwrap();
    reg.bind(1, closed(), 1).unwrap();
    reg.bind(2, closed(), 2).unwrap();
    reg.bind(1, Event::Any, 3).unwrap();
    assert_eq!(reg.unpack(1), Ok(()));
    assert!(!reg.has_id(1));
    assert!(!reg.has_handle(AnyHandle::Hwnd(10)));
    assert_eq!(reg.bindings.len(), 1);
    assert_eq!(reg.bindings[0].id, 2);
    let released = reg.take_released();
    assert_eq!(released.len(), 1);
    assert_eq!(released[0].kind, ObjectKind::Control);
    assert_eq!(released[0].handle, Some(AnyHandle::Hwnd(10)));
    assert_eq!(reg.unpack(1), Err(Error::KeyNotFound));
}

#[test]
fn unbind_removes_only_that_callback() {
    let mut reg = Registry::new();
    reg.pack_control(1, AnyHandle::Hwnd(10)).unwrap();
    reg.bind(1, closed(), 1).unwrap();
    reg.bind(1, closed(), 2).unwrap();
    reg.bind(1, btn_click(), 1).unwrap();
    assert_eq!(reg.unbind(1, closed(), 1), Ok(()));
    assert_eq!(reg.bindings.len(), 2);
    assert_eq!(reg.bindings[0].callback, 2);
    assert!(reg.bindings[1].event == btn_click());
    assert_eq!(reg.unbind(1, closed(), 1), Err(Error::CallbackNotFound));
    assert_eq!(reg.unbind(5, closed(), 2), Err(Error::KeyNotFound));
    assert_eq!(reg.bind(5, closed(), 2), Err(Error::KeyNotFound));
    assert_eq!(reg.trigger(5, closed(), EventArgs::NoArgs), Err(Error::KeyNotFound));
}

#[test]
fn trigger_matches_event_and_object() {
    let mut reg = Registry::new();
    reg.pack_control(1, AnyHandle::Hwnd(10)).unwrap();
    reg.pack_control(2, AnyHandle::Hwnd(20)).unwrap();
    reg.bind(1, closed(), 1).unwrap();
    reg.bind(2, closed(), 2).unwrap();
    reg.bind(1, btn_click(), 3).unwrap();
    assert_eq!(reg.trigger(1, closed(), EventArgs::Focus(true)), Ok(()));
    assert_eq!(reg.fired, vec![Firing { callback: 1, id: 1, args: EventArgs::Focus(true) }]);
}

#[test]
fn class_name_carries_discriminant() {
    assert_eq!(class_name("u64"), "NWG_MESSAGE-u64");
    assert_eq!(class_name(""), "NWG_MESSAGE-");
}
