//! The desktop-native-framework engine.
//!
//! On the desktop with one blessed in-process dialog framework, a dialog is
//! an alert or panel object driven on the UI thread. This module holds that
//! engine's decisions: the precondition that the call runs on the
//! designated UI thread, the choice between a sheet attached to the owner
//! window and an application-modal panel, the alert style and icon each
//! severity maps to, the ordered list of filter extensions the panel's
//! allow-list is built from, and the reading of modal response codes. The
//! framework calls themselves happen outside the library and exchange
//! plain values with it.

use vstd::prelude::*;

use crate::BlockingDialogError;
use crate::BlockingDialogLevel;
use crate::BlockingPickFilesDialogFilter;
use crate::handle::WindowHandleKind;
use crate::text::strings_view;
use crate::text::lemma_strings_view_push;

verus! {

/// The native alert style that renders as a warning.
pub const NS_ALERT_STYLE_WARNING: u64 = 0;

/// The native alert style that renders as informational.
pub const NS_ALERT_STYLE_INFORMATIONAL: u64 = 1;

/// The modal response code of the panel's affirmative button.
pub const NS_MODAL_RESPONSE_OK: i64 = 1;

/// The modal response code of an alert's second button.
pub const NS_ALERT_SECOND_BUTTON_RETURN: i64 = 1001;

/// The native alert style each severity maps to. The framework has no
/// harsher everyday style than its warning, so the error level shares it
/// and is told apart by its icon.
pub open spec fn spec_ns_alert_style(level: BlockingDialogLevel) -> u64 {
    match level {
        BlockingDialogLevel::Info => NS_ALERT_STYLE_INFORMATIONAL,
        BlockingDialogLevel::Warning => NS_ALERT_STYLE_WARNING,
        BlockingDialogLevel::Error => NS_ALERT_STYLE_WARNING,
    }
}

/// The native alert style `level` presents with.
pub fn get_ns_alert_style(level: BlockingDialogLevel) -> (r: u64)
    ensures
        r == spec_ns_alert_style(level),
{
    match level {
        BlockingDialogLevel::Info => NS_ALERT_STYLE_INFORMATIONAL,
        BlockingDialogLevel::Warning => NS_ALERT_STYLE_WARNING,
        BlockingDialogLevel::Error => NS_ALERT_STYLE_WARNING,
    }
}

/// The system symbol name each severity's icon is looked up under.
pub open spec fn spec_ns_alert_icon_symbol(level: BlockingDialogLevel) -> Seq<char> {
    match level {
        BlockingDialogLevel::Info => "info.circle"@,
        BlockingDialogLevel::Warning => "exclamationmark.triangle"@,
        BlockingDialogLevel::Error => "multiply.circle"@,
    }
}

/// The accessibility description of each severity's icon.
pub open spec fn spec_ns_alert_icon_description(level: BlockingDialogLevel) -> Seq<char> {
    match level {
        BlockingDialogLevel::Info => "Info"@,
        BlockingDialogLevel::Warning => "Warning"@,
        BlockingDialogLevel::Error => "Error"@,
    }
}

/// The system symbol name and accessibility description of the icon
/// `level` presents with. Looking the symbol up natively may still fail;
/// icon failure is non-fatal and the dialog then presents without a custom
/// icon.
pub fn get_ns_alert_icon(level: BlockingDialogLevel) -> (r: (&'static str, &'static str))
    ensures
        r.0@ == spec_ns_alert_icon_symbol(level),
        r.1@ == spec_ns_alert_icon_description(level),
{
    match level {
        BlockingDialogLevel::Info => ("info.circle", "Info"),
        BlockingDialogLevel::Warning => ("exclamationmark.triangle", "Warning"),
        BlockingDialogLevel::Error => ("multiply.circle", "Error"),
    }
}

/// Law: the native style and icon mappings are total — every severity has
/// a defined style and a defined icon symbol.
pub proof fn lemma_ns_alert_mappings_total(level: BlockingDialogLevel)
    ensures
        spec_ns_alert_style(level) == NS_ALERT_STYLE_INFORMATIONAL || spec_ns_alert_style(level)
            == NS_ALERT_STYLE_WARNING,
        spec_ns_alert_icon_symbol(level) == "info.circle"@ || spec_ns_alert_icon_symbol(level)
            == "exclamationmark.triangle"@ || spec_ns_alert_icon_symbol(level)
            == "multiply.circle"@,
{
}

/// How a native dialog presents: attached to an owner window, or
/// application-modal on its own.
#[derive(Debug, Clone, Copy, PartialEq, Eq, Structural)]
pub enum PanelPresentation {
    /// A sheet attached to the owner window; `ns_view` is the address of
    /// the owner's view, whose window the sheet attaches to.
    Sheet { ns_view: usize },
    /// An application-modal panel, spinning the run loop itself.
    AppModal,
}

/// Decides how a native dialog presents. The engine must be on the
/// designated UI thread — off it, the call fails at once rather than
/// corrupting the framework's state. A supplied owner must be a view of
/// this framework; an absent owner presents application-modal.
pub fn plan_presentation(on_main_thread: bool, owner: &Option<WindowHandleKind>) -> (r: Result<
    PanelPresentation,
    BlockingDialogError,
>)
    ensures
        !on_main_thread ==> r == Result::<PanelPresentation, BlockingDialogError>::Err(
            BlockingDialogError::NotOnMainThread,
        ),
        on_main_thread && owner is None ==> r == Result::<
            PanelPresentation,
            BlockingDialogError,
        >::Ok(PanelPresentation::AppModal),
        on_main_thread ==> (*owner matches Some(k) ==> match k {
            WindowHandleKind::AppKit { ns_view } => r == Result::<
                PanelPresentation,
                BlockingDialogError,
            >::Ok(PanelPresentation::Sheet { ns_view }),
            _ => r == Result::<PanelPresentation, BlockingDialogError>::Err(
                BlockingDialogError::HandleUnsupported,
            ),
        }),
{
    if !on_main_thread {
        return Err(BlockingDialogError::NotOnMainThread);
    }
    match owner {
        None => Ok(PanelPresentation::AppModal),
        Some(WindowHandleKind::AppKit { ns_view }) => Ok(
            PanelPresentation::Sheet { ns_view: *ns_view },
        ),
        Some(_) => Err(BlockingDialogError::HandleUnsupported),
    }
}

/// Judges the native lookup of the owning window behind a sheet's view: a
/// view that belongs to no window cannot parent a sheet, which is the
/// distinct, fatal unavailable-handle error.
pub fn sheet_window_outcome(window_found: bool) -> (r: Result<(), BlockingDialogError>)
    ensures
        window_found ==> r is Ok,
        !window_found ==> r == Result::<(), BlockingDialogError>::Err(
            BlockingDialogError::HandleUnavailable,
        ),
{
    if window_found {
        Ok(())
    } else {
        Err(BlockingDialogError::HandleUnavailable)
    }
}

/// Interprets an alert's modal response as the confirmation's answer: the
/// affirmative button is the second one added, and any other response —
/// cancel, abort, an unexpected code — is the negative answer.
pub fn confirm_panel_affirmative(resp: i64) -> (r: bool)
    ensures
        r == (resp == NS_ALERT_SECOND_BUTTON_RETURN),
{
    resp == NS_ALERT_SECOND_BUTTON_RETURN
}

/// Normalizes a file panel's outcome: the selected paths are read only
/// when the modal response is the affirmative code — any other response is
/// the empty selection, never an error.
pub fn normalize_panel_urls(resp: i64, urls: Vec<String>) -> (r: Vec<String>)
    ensures
        resp == NS_MODAL_RESPONSE_OK ==> r@ == urls@,
        resp != NS_MODAL_RESPONSE_OK ==> r@ == Seq::<String>::empty(),
{
    if resp == NS_MODAL_RESPONSE_OK {
        urls
    } else {
        let r: Vec<String> = Vec::new();
        proof {
            assert(r@ =~= Seq::<String>::empty());
        }
        r
    }
}

/// Normalizes a directory panel's outcome: the last selected path, and
/// only when the response is the affirmative code — anything else is the
/// absent value, never an empty-string path.
pub fn normalize_directory_selection(resp: i64, mut urls: Vec<String>) -> (r: Option<String>)
    ensures
        (resp == NS_MODAL_RESPONSE_OK && urls@.len() > 0) ==> (r matches Some(p) && p@
            == urls@.last()@),
        (resp != NS_MODAL_RESPONSE_OK || urls@.len() == 0) ==> r is None,
{
    if resp == NS_MODAL_RESPONSE_OK {
        urls.pop()
    } else {
        None
    }
}

/// Normalizes a save panel's outcome: the chosen path only when the
/// response is the affirmative code, the absent value otherwise.
pub fn normalize_save_selection(resp: i64, url: Option<String>) -> (r: Option<String>)
    ensures
        resp == NS_MODAL_RESPONSE_OK ==> r == url,
        resp != NS_MODAL_RESPONSE_OK ==> r is None,
{
    if resp == NS_MODAL_RESPONSE_OK {
        url
    } else {
        None
    }
}

/// The filter's extensions, flattened in the caller's order: the list the
/// panel's allowed-content-types allow-list is built from.
pub open spec fn spec_all_extensions(fs: Seq<crate::FilterView>) -> Seq<Seq<char>>
    decreases fs.len(),
{
    if fs.len() == 0 {
        Seq::empty()
    } else {
        spec_all_extensions(fs.drop_last()) + fs.last().extensions
    }
}

/// Flattens the filter into its extensions, preserving the caller's order.
/// The native lookup of each extension's content type happens outside the
/// library; an extension the platform does not know is simply skipped
/// there, which only narrows the allow-list.
pub fn get_filter(filter: &[BlockingPickFilesDialogFilter]) -> (r: Vec<String>)
    ensures
        strings_view(r@) == spec_all_extensions(crate::filters_view(filter@)),
{
    let ghost fs = crate::filters_view(filter@);
    let mut out: Vec<String> = Vec::new();
    let mut i: usize = 0;
    proof {
        assert(fs.take(0) =~= Seq::<crate::FilterView>::empty());
        assert(strings_view(Seq::<String>::empty()) =~= Seq::<Seq<char>>::empty());
    }
    while i < filter.len()
        invariant
            0 <= i <= filter@.len(),
            fs == crate::filters_view(filter@),
            strings_view(out@) =~~= spec_all_extensions(fs.take(i as int)),
        decreases filter@.len() - i,
    {
        let exts = filter[i].extensions;
        let mut k: usize = 0;
        proof {
            assert(fs[i as int] == filter@[i as int]@);
            assert(fs[i as int].extensions.take(0) =~= Seq::<Seq<char>>::empty());
            assert(strings_view(out@) =~~= spec_all_extensions(fs.take(i as int)) + fs[
                i as int
            ].extensions.take(0));
        }
        while k < exts.len()
            invariant
                0 <= k <= exts@.len(),
                fs == crate::filters_view(filter@),
                0 <= i < filter@.len(),
                exts == filter@[i as int].extensions,
                fs[i as int].extensions == crate::text::strs_view(exts@),
                strings_view(out@) =~~= spec_all_extensions(fs.take(i as int)) + fs[
                    i as int
                ].extensions.take(k as int),
            decreases exts@.len() - k,
        {
            let ghost old_out = out@;
            out.push(exts[k].to_owned());
            proof {
                lemma_strings_view_push(old_out, out@[old_out.len() as int]);
                assert(fs[i as int].extensions.take(k as int + 1) =~= fs[
                    i as int
                ].extensions.take(k as int).push(exts@[k as int]@));
            }
            k = k + 1;
        }
        proof {
            assert(fs.take(i as int + 1).drop_last() =~= fs.take(i as int));
            assert(fs.take(i as int + 1).last() == fs[i as int]);
            assert(fs[i as int].extensions.take(exts@.len() as int) =~= fs[i as int].extensions);
            assert(strings_view(out@) =~~= spec_all_extensions(fs.take(i as int + 1)));
        }
        i = i + 1;
    }
    proof {
        assert(fs.take(filter@.len() as int) =~= fs);
    }
    out
}

} // verus!
