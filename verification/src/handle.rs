//! The window-handle capability, as the engines read it.
//!
//! A caller proves ownership of a native window by supplying an opaque
//! handle; the library never constructs one. The engines only ever read
//! which platform family the handle belongs to and the one native value
//! they parent a dialog to, so that reading is modelled here as a plain
//! classification, and everything decided from it is verified.

use vstd::prelude::*;

verus! {

#[verifier::external_type_specification]
#[verifier::external_body]
pub struct ExRawWindowHandle(raw_window_handle::RawWindowHandle);

/// What an engine reads out of a raw window handle: the platform family it
/// belongs to, and the native value a dialog is parented to.
#[derive(Debug, Clone, Copy, PartialEq, Eq, Structural)]
pub enum WindowHandleKind {
    /// A Win32 window; `hwnd` is the native `HWND` value.
    Win32 { hwnd: isize },
    /// An AppKit view; `ns_view` is the address of the `NSView` object.
    AppKit { ns_view: usize },
    /// Any other windowing system.
    Other,
}

/// Relies on `raw_window_handle::RawWindowHandle`: its `Win32` variant
/// carries a `Win32WindowHandle` whose `hwnd` field is a `NonZeroIsize`,
/// and its `AppKit` variant carries an `AppKitWindowHandle` whose
/// `ns_view` field is a `NonNull` pointer to the `NSView`.
#[verifier::external_body]
pub(crate) fn classify_window_handle(h: &raw_window_handle::RawWindowHandle) -> (r:
    WindowHandleKind)
    ensures
        (r matches WindowHandleKind::Win32 { hwnd } ==> hwnd != 0),
        (r matches WindowHandleKind::AppKit { ns_view } ==> ns_view != 0),
{
    match h {
        raw_window_handle::RawWindowHandle::Win32(w) => {
            WindowHandleKind::Win32 { hwnd: w.hwnd.get() }
        },
        raw_window_handle::RawWindowHandle::AppKit(a) => {
            WindowHandleKind::AppKit { ns_view: a.ns_view.as_ptr() as usize }
        },
        _ => WindowHandleKind::Other,
    }
}

/// Classification of an optional owner handle, `None` meaning an unowned,
/// application-modal dialog.
pub fn classify_owner(w: &Option<raw_window_handle::RawWindowHandle>) -> (r: Option<
    WindowHandleKind,
>)
    ensures
        r is Some <==> w is Some,
{
    match w {
        Some(h) => Some(classify_window_handle(h)),
        None => None,
    }
}

} // verus!
