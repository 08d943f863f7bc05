use native_windows_gui::defs::{
    FONT_DECO_ITALIC, FONT_DECO_STRIKEOUT, WM_CLOSE, WM_CREATE, WM_NOTIFY, WM_PAINT,
    WS_DISABLED, WS_OVERLAPPEDWINDOW, WS_VISIBLE,
};
use native_windows_gui::error::Error;
use native_windows_gui::font::{FontFlags, FontT};
use native_windows_gui::handles::AnyHandle;
use native_windows_gui::list_view::{set_lv_ex_style, HTextAlign, ListView, ListViewT, ViewMode};
use native_windows_gui::registry::Registry;
use native_windows_gui::window::{window_sysproc, Window, WindowProcAction, WindowT, FIXED_WINDOW};

fn window_template(resizable: bool, visible: bool, disabled: bool, icon: Option<u64>) -> WindowT {
    WindowT {
        title: "Main".to_string(),
        position: (10, 20),
        size: (300, 200),
        resizable,
        visible,
        disabled,
        exit_on_close: true,
        icon,
    }
}

#[test]
fn window_style_bits() {
    assert_eq!(window_template(true, true, false, None).style(), 0x10CF_0000);
    assert_eq!(window_template(false, false, true, None).style(), 0x0ACB_0000);
    assert_eq!(FIXED_WINDOW, 0x02CB_0000);
    assert_eq!(
        window_template(true, false, false, None).style(),
        WS_OVERLAPPEDWINDOW
    );
    assert_eq!(
        window_template(false, true, true, None).style(),
        WS_VISIBLE | WS_DISABLED | FIXED_WINDOW
    );
    assert_eq!(window_template(true, true, true, None).user_data(), 1);
}

#[test]
fn window_icon_lookup() {
    let mut reg = Registry::new();
    reg.pack_resource(1, AnyHandle::Hicon(0x44)).unwrap();
    reg.pack_resource(2, AnyHandle::Hfont(0x55)).unwrap();
    reg.pack_control(3, AnyHandle::Hwnd(0x66)).unwrap();
    assert_eq!(window_template(true, true, false, None).icon_handle(&reg), Ok(0));
    assert_eq!(window_template(true, true, false, Some(1)).icon_handle(&reg), Ok(0x44));
    assert_eq!(window_template(true, true, false, Some(2)).icon_handle(&reg), Err(Error::BadResource));
    assert_eq!(window_template(true, true, false, Some(9)).icon_handle(&reg), Err(Error::KeyNotFound));
    let w = Window { handle: 0x66 };
    assert_eq!(w.handle(), AnyHandle::Hwnd(0x66));
    assert_eq!(w.set_icon(&reg, Some(1)), Ok(0x44));
    assert_eq!(w.set_icon(&reg, None), Ok(0));
    assert_eq!(w.set_icon(&reg, Some(2)), Err(Error::BadResource));
    assert_eq!(Window { handle: 0x77 }.set_icon(&reg, Some(1)), Err(Error::BadUi));
    assert_eq!(w.get_icon(&reg, 0x44), Some(1));
    assert_eq!(w.get_icon(&reg, 0), None);
    assert_eq!(w.get_icon(&reg, 0x99), None);
}

#[test]
fn window_procedure_decisions() {
    assert_eq!(
        window_sysproc(WM_CLOSE, 1),
        WindowProcAction { handled: true, hide: true, quit: true }
    );
    assert_eq!(
        window_sysproc(WM_CLOSE, 2),
        WindowProcAction { handled: true, hide: true, quit: false }
    );
    assert_eq!(
        window_sysproc(WM_CREATE, 1),
        WindowProcAction { handled: true, hide: false, quit: false }
    );
    assert_eq!(
        window_sysproc(WM_NOTIFY, 0),
        WindowProcAction { handled: true, hide: false, quit: false }
    );
    assert_eq!(
        window_sysproc(WM_PAINT, 1),
        WindowProcAction { handled: false, hide: false, quit: false }
    );
}

#[test]
fn font_decorations() {
    let f = FontT { family: "Arial".to_string(), size: 12, weight: 400, decoration: FONT_DECO_ITALIC | FONT_DECO_STRIKEOUT };
    assert_eq!(f.flags(), FontFlags { italic: 1, underline: 0, strikeout: 1 });
    let plain = FontT { family: "Arial".to_string(), size: 0, weight: 700, decoration: 0 };
    assert_eq!(plain.flags(), FontFlags { italic: 0, underline: 0, strikeout: 0 });
    let all = FontT { family: String::new(), size: 0, weight: 0, decoration: 0x07 };
    assert_eq!(all.flags(), FontFlags { italic: 1, underline: 1, strikeout: 1 });
}

fn list_template(parent: u64, font: Option<u64>) -> ListViewT {
    ListViewT {
        column: vec!["a".to_string()],
        view_mode: ViewMode::Report,
        position: (0, 0),
        size: (100, 100),
        visible: true,
        disabled: false,
        align: HTextAlign::Left,
        parent,
        font,
    }
}

#[test]
fn list_view_style_and_placement() {
    assert_eq!(list_template(1, None).style(), 0x5021_0009);
    let mut hidden = list_template(1, None);
    hidden.visible = false;
    hidden.disabled = true;
    assert_eq!(hidden.style(), 0x4821_0009);
    let mut reg = Registry::new();
    reg.pack_control(1, AnyHandle::Hwnd(0x10)).unwrap();
    reg.pack_resource(2, AnyHandle::Hfont(0x20)).unwrap();
    reg.pack_resource(3, AnyHandle::Hicon(0x30)).unwrap();
    assert_eq!(list_template(1, None).placement(&reg), Ok((0x10, None)));
    assert_eq!(list_template(1, Some(2)).placement(&reg), Ok((0x10, Some(0x20))));
    assert_eq!(list_template(1, Some(3)).placement(&reg), Err(Error::BadResource));
    assert_eq!(list_template(2, None).placement(&reg), Err(Error::BadParent));
    assert_eq!(list_template(8, None).placement(&reg), Err(Error::KeyNotFound));
    assert_eq!(list_template(1, Some(8)).placement(&reg), Err(Error::KeyNotFound));
}

#[test]
fn list_view_extended_style_update() {
    assert_eq!(set_lv_ex_style(0x0100, 0x0021), (0x0121, 0x0021));
}

#[test]
fn list_view_row_texts() {
    let texts = ListView::insert_texts(3, vec!["a".to_string(), "b".to_string(), "c".to_string()]);
    let got: Vec<(i32, i32, String)> = texts.into_iter().map(|t| (t.row, t.column, t.text)).collect();
    assert_eq!(
        got,
        vec![(3, 0, "c".to_string()), (3, 1, "a".to_string()), (3, 2, "b".to_string())]
    );
    assert!(ListView::insert_texts(0, Vec::new()).is_empty());
    assert_eq!(ListView { handle: 5 }.handle(), AnyHandle::Hwnd(5));
}
