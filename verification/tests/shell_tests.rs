use blocking_dialog::handle::WindowHandleKind;
use blocking_dialog::shell::{
    browse_folder_outcome, confirm_message_box_result, extract_buffer_path, get_filter_utf16,
    get_utype, open_file_outcome, parse_multi_select, prepare_save_buffer, resolve_win32_owner,
    save_dialog_outcome, unwiden, widen, ComInit, IDOK, MB_ICONERROR, MB_ICONINFORMATION,
    MB_ICONWARNING, MB_OK, MB_OKCANCEL,
};
use blocking_dialog::utf16::{utf16_decode, utf16_encode};
use blocking_dialog::{BlockingDialogError, BlockingDialogLevel, BlockingPickFilesDialogFilter};

#[test]
fn widen_terminates_with_one_zero_unit() {
    assert_eq!(widen("ab"), vec![97u16, 98, 0]);
    assert_eq!(widen(""), vec![0u16]);
}

#[test]
fn widen_encodes_supplementary_characters_as_pairs() {
    assert_eq!(widen("\u{1F600}"), vec![0xD83D, 0xDE00, 0]);
}

#[test]
fn unwiden_ignores_zero_padding_on_both_ends() {
    assert_eq!(unwiden(&[0, 104, 105, 0, 0]), "hi");
    assert_eq!(unwiden(&[0, 0]), "");
    assert_eq!(unwiden(&[]), "");
}

#[test]
fn utf16_round_trip_preserves_text() {
    let s = "path with spaces/\u{1F600}/x\u{00E9}.txt";
    let units = utf16_encode(s);
    assert_eq!(utf16_decode(&units), s);
}

#[test]
fn utf16_decode_replaces_unpaired_surrogates() {
    assert_eq!(utf16_decode(&[0xD800, 97]), "\u{FFFD}a");
    assert_eq!(utf16_decode(&[0xDC00]), "\u{FFFD}");
}

#[test]
fn message_box_styles_combine_buttons_and_icon() {
    assert_eq!(get_utype(BlockingDialogLevel::Info, false), MB_OK | MB_ICONINFORMATION);
    assert_eq!(get_utype(BlockingDialogLevel::Warning, false), MB_OK | MB_ICONWARNING);
    assert_eq!(get_utype(BlockingDialogLevel::Error, false), MB_OK | MB_ICONERROR);
    assert_eq!(get_utype(BlockingDialogLevel::Info, true), MB_OKCANCEL | MB_ICONINFORMATION);
    assert_eq!(get_utype(BlockingDialogLevel::Error, true), MB_OKCANCEL | MB_ICONERROR);
}

#[test]
fn only_the_affirmative_code_confirms() {
    assert!(confirm_message_box_result(IDOK));
    assert!(!confirm_message_box_result(2));
    assert!(!confirm_message_box_result(0));
    assert!(!confirm_message_box_result(-1));
}

#[test]
fn owner_resolution_allows_absence_and_rejects_foreign_handles() {
    assert_eq!(resolve_win32_owner(&None), Ok(0));
    assert_eq!(
        resolve_win32_owner(&Some(WindowHandleKind::Win32 { hwnd: 42 })),
        Ok(42)
    );
    assert_eq!(
        resolve_win32_owner(&Some(WindowHandleKind::AppKit { ns_view: 7 })),
        Err(BlockingDialogError::HandleUnsupported)
    );
    assert_eq!(
        resolve_win32_owner(&Some(WindowHandleKind::Other)),
        Err(BlockingDialogError::HandleUnsupported)
    );
}

#[test]
fn com_teardown_matches_this_calls_initialization() {
    assert!(ComInit::from_result(true).should_uninitialize());
    assert!(!ComInit::from_result(false).should_uninitialize());
}

#[test]
fn filter_wire_format_is_nul_separated() {
    let filter = [BlockingPickFilesDialogFilter {
        name: "Images",
        extensions: &["png", "jpg"],
    }];
    let expected: Vec<u16> = "Images\0*.png;*.jpg\0"
        .encode_utf16()
        .chain(std::iter::once(0))
        .collect();
    assert_eq!(get_filter_utf16(&filter), expected);
}

#[test]
fn save_buffer_round_trip_returns_the_filename_exactly() {
    let buf = prepare_save_buffer(Some("out.txt"), 16);
    assert_eq!(buf.len(), 16);
    assert_eq!(extract_buffer_path(&buf), "out.txt");
}

#[test]
fn save_buffer_without_default_is_zeroed() {
    let buf = prepare_save_buffer(None, 8);
    assert_eq!(buf, vec![0u16; 8]);
    assert_eq!(extract_buffer_path(&buf), "");
}

#[test]
fn multi_select_buffer_with_one_string_is_one_path() {
    let mut buf: Vec<u16> = "C:\\a.txt".encode_utf16().collect();
    buf.extend([0, 0]);
    assert_eq!(parse_multi_select(&buf), vec!["C:\\a.txt".to_string()]);
}

#[test]
fn multi_select_buffer_joins_filenames_to_the_directory() {
    let mut buf: Vec<u16> = Vec::new();
    for part in ["C:\\dir", "a.txt", "b.txt"] {
        buf.extend(part.encode_utf16());
        buf.push(0);
    }
    buf.push(0);
    assert_eq!(
        parse_multi_select(&buf),
        vec!["C:\\dir\\a.txt".to_string(), "C:\\dir\\b.txt".to_string()]
    );
}

#[test]
fn untouched_buffer_parses_to_no_selection() {
    let buf = vec![0u16; 32];
    assert!(parse_multi_select(&buf).is_empty());
}

#[test]
fn cancelled_open_dialog_never_reads_the_buffer() {
    let buf: Vec<u16> = widen("stale");
    assert!(open_file_outcome(false, &buf).is_empty());
    assert_eq!(open_file_outcome(true, &buf), vec!["stale".to_string()]);
}

#[test]
fn cancelled_save_dialog_is_absent() {
    let buf = prepare_save_buffer(Some("keep.txt"), 32);
    assert_eq!(save_dialog_outcome(false, &buf), None);
    assert_eq!(save_dialog_outcome(true, &buf), Some("keep.txt".to_string()));
}

#[test]
fn folder_browser_needs_both_the_item_and_its_path() {
    let buf: Vec<u16> = widen("C:\\chosen");
    assert_eq!(browse_folder_outcome(false, false, &buf), None);
    assert_eq!(browse_folder_outcome(true, false, &buf), None);
    assert_eq!(
        browse_folder_outcome(true, true, &buf),
        Some("C:\\chosen".to_string())
    );
}
