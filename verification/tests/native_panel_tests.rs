use blocking_dialog::handle::WindowHandleKind;
use blocking_dialog::native_panel::{
    confirm_panel_affirmative, get_filter, get_ns_alert_icon, get_ns_alert_style,
    normalize_directory_selection, normalize_panel_urls, normalize_save_selection,
    plan_presentation, sheet_window_outcome, PanelPresentation, NS_ALERT_SECOND_BUTTON_RETURN,
    NS_ALERT_STYLE_INFORMATIONAL, NS_ALERT_STYLE_WARNING, NS_MODAL_RESPONSE_OK,
};
use blocking_dialog::{BlockingDialogError, BlockingDialogLevel, BlockingPickFilesDialogFilter};

#[test]
fn alert_styles_are_total_and_errors_degrade_to_warning() {
    assert_eq!(get_ns_alert_style(BlockingDialogLevel::Info), NS_ALERT_STYLE_INFORMATIONAL);
    assert_eq!(get_ns_alert_style(BlockingDialogLevel::Warning), NS_ALERT_STYLE_WARNING);
    assert_eq!(get_ns_alert_style(BlockingDialogLevel::Error), NS_ALERT_STYLE_WARNING);
}

#[test]
fn icon_symbols_are_total() {
    assert_eq!(get_ns_alert_icon(BlockingDialogLevel::Info), ("info.circle", "Info"));
    assert_eq!(
        get_ns_alert_icon(BlockingDialogLevel::Warning),
        ("exclamationmark.triangle", "Warning")
    );
    assert_eq!(get_ns_alert_icon(BlockingDialogLevel::Error), ("multiply.circle", "Error"));
}

#[test]
fn off_the_main_thread_fails_immediately() {
    assert_eq!(
        plan_presentation(false, &None),
        Err(BlockingDialogError::NotOnMainThread)
    );
    assert_eq!(
        plan_presentation(false, &Some(WindowHandleKind::AppKit { ns_view: 8 })),
        Err(BlockingDialogError::NotOnMainThread)
    );
}

#[test]
fn absent_owner_presents_application_modal() {
    assert_eq!(plan_presentation(true, &None), Ok(PanelPresentation::AppModal));
}

#[test]
fn an_owner_view_presents_as_a_sheet() {
    assert_eq!(
        plan_presentation(true, &Some(WindowHandleKind::AppKit { ns_view: 8 })),
        Ok(PanelPresentation::Sheet { ns_view: 8 })
    );
}

#[test]
fn a_foreign_owner_handle_is_unsupported() {
    assert_eq!(
        plan_presentation(true, &Some(WindowHandleKind::Win32 { hwnd: 5 })),
        Err(BlockingDialogError::HandleUnsupported)
    );
}

#[test]
fn a_view_without_a_window_is_unavailable() {
    assert_eq!(sheet_window_outcome(true), Ok(()));
    assert_eq!(
        sheet_window_outcome(false),
        Err(BlockingDialogError::HandleUnavailable)
    );
}

#[test]
fn only_the_second_button_confirms() {
    assert!(confirm_panel_affirmative(NS_ALERT_SECOND_BUTTON_RETURN));
    assert!(!confirm_panel_affirmative(1000));
    assert!(!confirm_panel_affirmative(NS_MODAL_RESPONSE_OK));
    assert!(!confirm_panel_affirmative(0));
}

#[test]
fn urls_are_read_only_on_the_affirmative_response() {
    let urls = vec!["/a".to_string(), "/b".to_string()];
    assert_eq!(normalize_panel_urls(NS_MODAL_RESPONSE_OK, urls.clone()), urls);
    assert!(normalize_panel_urls(0, urls.clone()).is_empty());
    assert!(normalize_panel_urls(1001, urls).is_empty());
}

#[test]
fn directory_selection_is_the_last_url_or_absent() {
    let urls = vec!["/a".to_string(), "/b".to_string()];
    assert_eq!(
        normalize_directory_selection(NS_MODAL_RESPONSE_OK, urls.clone()),
        Some("/b".to_string())
    );
    assert_eq!(normalize_directory_selection(0, urls), None);
    assert_eq!(normalize_directory_selection(NS_MODAL_RESPONSE_OK, vec![]), None);
}

#[test]
fn save_selection_is_absent_unless_confirmed() {
    assert_eq!(
        normalize_save_selection(NS_MODAL_RESPONSE_OK, Some("/s".to_string())),
        Some("/s".to_string())
    );
    assert_eq!(normalize_save_selection(0, Some("/s".to_string())), None);
    assert_eq!(normalize_save_selection(NS_MODAL_RESPONSE_OK, None), None);
}

#[test]
fn filter_extensions_flatten_in_the_callers_order() {
    let filter = [
        BlockingPickFilesDialogFilter {
            name: "Images",
            extensions: &["png", "jpg"],
        },
        BlockingPickFilesDialogFilter {
            name: "Text",
            extensions: &["txt"],
        },
    ];
    assert_eq!(get_filter(&filter), vec!["png", "jpg", "txt"]);
}

#[test]
fn empty_filter_allows_everything() {
    assert!(get_filter(&[]).is_empty());
}
