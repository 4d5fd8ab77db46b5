use j3devhelper::button_scroll::{
    SB_BOTTOM, SB_LINEDOWN, SB_LINEUP, SB_PAGEDOWN, SB_PAGEUP, SB_THUMBPOSITION, SB_THUMBTRACK,
    SB_TOP, WHEEL_DELTA,
};
use j3devhelper::theme::{CLR_DEFAULT_COLOR, DROPEFFECT_COPY, DROPEFFECT_NONE};
use windows_sys::Win32::System::Ole as ole;
use windows_sys::Win32::UI::Controls as controls;
use windows_sys::Win32::UI::WindowsAndMessaging as win;

#[test]
fn scroll_request_codes_match_windows() {
    assert_eq!(SB_LINEUP, win::SB_LINEUP as u32);
    assert_eq!(SB_LINEDOWN, win::SB_LINEDOWN as u32);
    assert_eq!(SB_PAGEUP, win::SB_PAGEUP as u32);
    assert_eq!(SB_PAGEDOWN, win::SB_PAGEDOWN as u32);
    assert_eq!(SB_THUMBPOSITION, win::SB_THUMBPOSITION as u32);
    assert_eq!(SB_THUMBTRACK, win::SB_THUMBTRACK as u32);
    assert_eq!(SB_TOP, win::SB_TOP as u32);
    assert_eq!(SB_BOTTOM, win::SB_BOTTOM as u32);
    assert_eq!(WHEEL_DELTA as u32, win::WHEEL_DELTA);
}

#[test]
fn drop_effects_and_default_color_match_windows() {
    assert_eq!(DROPEFFECT_COPY, ole::DROPEFFECT_COPY);
    assert_eq!(DROPEFFECT_NONE, ole::DROPEFFECT_NONE);
    assert_eq!(CLR_DEFAULT_COLOR, controls::CLR_DEFAULT as u32 as i64);
}
