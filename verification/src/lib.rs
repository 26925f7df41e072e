//! Native, blocking dialog boxes behind one portable request model.
//!
//! A caller builds an immutable dialog request (alert, confirmation, file
//! picker, directory picker, or save dialog), an engine presents it through
//! the platform's own mechanism, and a normalizer turns the platform's raw
//! outcome back into a portable value. This crate holds the portable core:
//! the request and result model, the per-engine decision logic (which tool
//! or native style to use, which arguments or buffers to build), and the
//! normalizers that parse raw outcomes. The blocking platform calls
//! themselves live outside the library and exchange plain values with it.

use vstd::prelude::*;

pub mod engine;
pub mod text;
pub mod handle;
pub mod native_panel;
pub mod shell;
pub mod subprocess;
pub mod utf16;

verus! {

/// Semantic severity of an alert or confirmation dialog.
///
/// Every engine maps each level to a native style of its own; the mapping
/// is total, so no level ever reaches an engine undefined.
#[derive(Debug, Clone, Copy, PartialEq, Eq, Structural)]
pub enum BlockingDialogLevel {
    Info,
    Warning,
    Error,
}

/// An unrecoverable failure while presenting a dialog.
///
/// User cancellation is never an error: it surfaces as an empty or absent
/// outcome value. Only the conditions below are errors, and none of them is
/// retried inside the library.
#[derive(Debug, Clone, Copy, PartialEq, Eq, Structural)]
pub enum BlockingDialogError {
    /// The desktop-native engine was invoked off the platform's designated
    /// UI thread.
    NotOnMainThread,
    /// The supplied window handle is not of the kind the engine expects.
    HandleUnsupported,
    /// A usable parent window could not be resolved from the handle.
    HandleUnavailable,
    /// The subprocess engine could not launch the chosen external tool.
    ProcessSpawnFailure,
    /// A native platform call failed; the underlying platform code is kept
    /// for diagnostics.
    PlatformApiFailure { code: i64 },
    /// No engine exists for the present platform or windowing environment.
    UnsupportedWindowingSystem,
}

/// What `BlockingDialogError::message` returns for each variant.
pub open spec fn spec_error_message(e: BlockingDialogError) -> Seq<char> {
    match e {
        BlockingDialogError::NotOnMainThread => "the dialog is not running on the main thread"@,
        BlockingDialogError::HandleUnsupported => "the window handle is not supported on this platform"@,
        BlockingDialogError::HandleUnavailable => "no usable parent window could be resolved from the handle"@,
        BlockingDialogError::ProcessSpawnFailure => "the external dialog tool could not be launched"@,
        BlockingDialogError::PlatformApiFailure { .. } => "a native platform call failed"@,
        BlockingDialogError::UnsupportedWindowingSystem => "no dialog engine exists for this windowing system"@,
    }
}

impl BlockingDialogError {
    /// A short human-readable description of the error.
    pub fn message(&self) -> (r: String)
        ensures
            r@ == spec_error_message(*self),
    {
        match self {
            BlockingDialogError::NotOnMainThread => {
                String::from_str("the dialog is not running on the main thread")
            },
            BlockingDialogError::HandleUnsupported => {
                String::from_str("the window handle is not supported on this platform")
            },
            BlockingDialogError::HandleUnavailable => {
                String::from_str("no usable parent window could be resolved from the handle")
            },
            BlockingDialogError::ProcessSpawnFailure => {
                String::from_str("the external dialog tool could not be launched")
            },
            BlockingDialogError::PlatformApiFailure { .. } => {
                String::from_str("a native platform call failed")
            },
            BlockingDialogError::UnsupportedWindowingSystem => {
                String::from_str("no dialog engine exists for this windowing system")
            },
        }
    }
}

/// One entry of a file-type filter: a display name and the file extensions
/// it admits, in the order the caller supplied them.
#[derive(Debug, Clone, Copy)]
pub struct BlockingPickFilesDialogFilter<'a> {
    pub name: &'a str,
    pub extensions: &'a [&'a str],
}

/// The mathematical view of a filter entry: its name and its extensions as
/// character sequences, in the caller's order.
pub ghost struct FilterView {
    pub name: Seq<char>,
    pub extensions: Seq<Seq<char>>,
}

impl<'a> View for BlockingPickFilesDialogFilter<'a> {
    type V = FilterView;

    open spec fn view(&self) -> FilterView {
        FilterView { name: self.name@, extensions: crate::text::strs_view(self.extensions@) }
    }
}

/// The views of a sequence of filter entries.
pub open spec fn filters_view<'a>(fs: Seq<BlockingPickFilesDialogFilter<'a>>) -> Seq<FilterView> {
    fs.map_values(|f: BlockingPickFilesDialogFilter<'a>| f@)
}

/// Request for a plain alert with a dismiss button.
#[derive(Debug, Clone)]
pub struct BlockingAlertDialog<'a> {
    pub window: Option<raw_window_handle::RawWindowHandle>,
    pub title: &'a str,
    pub message: &'a str,
    pub level: BlockingDialogLevel,
}

/// Request for a confirmation with an affirmative and a negative button.
#[derive(Debug, Clone)]
pub struct BlockingConfirmDialog<'a> {
    pub window: Option<raw_window_handle::RawWindowHandle>,
    pub title: &'a str,
    pub message: &'a str,
    pub level: BlockingDialogLevel,
}

/// Request for a file picker; `multiple` allows more than one selection.
#[derive(Debug, Clone)]
pub struct BlockingPickFilesDialog<'a> {
    pub window: Option<raw_window_handle::RawWindowHandle>,
    pub title: &'a str,
    pub multiple: bool,
    pub filter: &'a [BlockingPickFilesDialogFilter<'a>],
}

/// Request for a directory picker.
#[derive(Debug, Clone)]
pub struct BlockingPickDirectoryDialog<'a> {
    pub window: Option<raw_window_handle::RawWindowHandle>,
    pub title: &'a str,
}

/// Request for a save dialog, optionally pre-filled with a default filename.
#[derive(Debug, Clone)]
pub struct BlockingSaveFileDialog<'a> {
    pub window: Option<raw_window_handle::RawWindowHandle>,
    pub title: &'a str,
    pub default_filename: Option<&'a str>,
    pub filter: &'a [BlockingPickFilesDialogFilter<'a>],
}

} // verus!
