//! The platform backend selector.
//!
//! Exactly one presentation engine services every request of a build;
//! selection is a total function of the platform, and an unsupported
//! platform fails fast rather than reaching a mismatched engine.

use vstd::prelude::*;

use crate::BlockingDialogError;

verus! {

/// The platform the program was built for, as far as dialog presentation
/// is concerned.
#[derive(Debug, Clone, Copy, PartialEq, Eq, Structural)]
pub enum Platform {
    /// A desktop with one blessed in-process dialog framework.
    MacOs,
    /// A Unix-like desktop without one, served by external tools.
    Linux,
    /// A desktop with legacy message-box and common-dialog system calls.
    Windows,
    /// Anything else: no engine exists.
    Other,
}

/// The three peer presentation engines.
#[derive(Debug, Clone, Copy, PartialEq, Eq, Structural)]
pub enum DialogEngine {
    /// Drives the in-process native alert and panel framework.
    NativePanel,
    /// Shells out to an external dialog tool and parses its output.
    Subprocess,
    /// Drives the legacy message-box and common-dialog calls directly.
    ShellDialog,
}

/// Which engine serves each platform.
pub open spec fn spec_engine_for(p: Platform) -> Option<DialogEngine> {
    match p {
        Platform::MacOs => Some(DialogEngine::NativePanel),
        Platform::Linux => Some(DialogEngine::Subprocess),
        Platform::Windows => Some(DialogEngine::ShellDialog),
        Platform::Other => None,
    }
}

/// Selects the single engine responsible for presenting dialogs on the
/// given platform; an unsupported platform is a distinct, fatal error.
pub fn select_engine(p: Platform) -> (r: Result<DialogEngine, BlockingDialogError>)
    ensures
        (r matches Ok(e) ==> spec_engine_for(p) == Some(e)),
        (r is Err <==> spec_engine_for(p) is None),
        (r matches Err(e) ==> e == BlockingDialogError::UnsupportedWindowingSystem),
{
    match p {
        Platform::MacOs => Ok(DialogEngine::NativePanel),
        Platform::Linux => Ok(DialogEngine::Subprocess),
        Platform::Windows => Ok(DialogEngine::ShellDialog),
        Platform::Other => Err(BlockingDialogError::UnsupportedWindowingSystem),
    }
}

} // verus!
