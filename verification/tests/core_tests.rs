use std::num::NonZeroIsize;
use std::ptr::NonNull;

use blocking_dialog::engine::{select_engine, DialogEngine, Platform};
use blocking_dialog::handle::{classify_owner, WindowHandleKind};
use blocking_dialog::BlockingDialogError;
use raw_window_handle::{
    AppKitWindowHandle, RawWindowHandle, Win32WindowHandle, XlibWindowHandle,
};

#[test]
fn engine_selection_is_total_over_supported_platforms() {
    assert_eq!(select_engine(Platform::MacOs), Ok(DialogEngine::NativePanel));
    assert_eq!(select_engine(Platform::Linux), Ok(DialogEngine::Subprocess));
    assert_eq!(select_engine(Platform::Windows), Ok(DialogEngine::ShellDialog));
}

#[test]
fn unsupported_platform_fails_fast() {
    assert_eq!(
        select_engine(Platform::Other),
        Err(BlockingDialogError::UnsupportedWindowingSystem)
    );
}

#[test]
fn classify_reads_a_win32_handle() {
    let h = RawWindowHandle::Win32(Win32WindowHandle::new(NonZeroIsize::new(42).unwrap()));
    assert_eq!(
        classify_owner(&Some(h)),
        Some(WindowHandleKind::Win32 { hwnd: 42 })
    );
}

#[test]
fn classify_reads_an_appkit_handle() {
    let mut dummy: u8 = 0;
    let ptr = NonNull::from(&mut dummy).cast();
    let h = RawWindowHandle::AppKit(AppKitWindowHandle::new(ptr));
    let expected = ptr.as_ptr() as usize;
    assert_eq!(
        classify_owner(&Some(h)),
        Some(WindowHandleKind::AppKit { ns_view: expected })
    );
}

#[test]
fn classify_maps_foreign_handles_to_other() {
    let h = RawWindowHandle::Xlib(XlibWindowHandle::new(7));
    assert_eq!(classify_owner(&Some(h)), Some(WindowHandleKind::Other));
}

#[test]
fn classify_owner_keeps_absence() {
    assert_eq!(classify_owner(&None), None);
}

#[test]
fn error_messages_name_each_failure() {
    assert_eq!(
        BlockingDialogError::NotOnMainThread.message(),
        "the dialog is not running on the main thread"
    );
    assert_eq!(
        BlockingDialogError::ProcessSpawnFailure.message(),
        "the external dialog tool could not be launched"
    );
    assert_eq!(
        BlockingDialogError::PlatformApiFailure { code: -5 }.message(),
        "a native platform call failed"
    );
}
