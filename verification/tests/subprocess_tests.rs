use blocking_dialog::subprocess::{
    alert_command, confirm_command, confirm_outcome, get_kdialog_filter, get_kdialog_level_flag,
    get_zenity_level_flag, parse_multi_select, pick_directory_command, pick_directory_outcome,
    pick_files_command, pick_files_outcome, save_file_command, save_file_outcome, tool_delimiter,
    tool_program, zenity_filter_entry, ProbeDecision, SubprocessTool, ToolProbe, ToolRun,
};
use blocking_dialog::{
    BlockingAlertDialog, BlockingConfirmDialog, BlockingDialogError, BlockingDialogLevel,
    BlockingPickDirectoryDialog, BlockingPickFilesDialog, BlockingPickFilesDialogFilter,
    BlockingSaveFileDialog,
};

fn completed(exit_success: bool, stdout: &str) -> ToolRun {
    ToolRun::Completed {
        exit_success,
        stdout: stdout.to_string(),
    }
}

#[test]
fn level_flags_are_total_on_both_tools() {
    assert_eq!(get_kdialog_level_flag(BlockingDialogLevel::Info), "--msgbox");
    assert_eq!(get_kdialog_level_flag(BlockingDialogLevel::Warning), "--sorry");
    assert_eq!(get_kdialog_level_flag(BlockingDialogLevel::Error), "--error");
    assert_eq!(get_zenity_level_flag(BlockingDialogLevel::Info), "--info");
    assert_eq!(get_zenity_level_flag(BlockingDialogLevel::Warning), "--warning");
    assert_eq!(get_zenity_level_flag(BlockingDialogLevel::Error), "--error");
}

#[test]
fn tool_names_and_delimiters() {
    assert_eq!(tool_program(SubprocessTool::Kdialog), "kdialog");
    assert_eq!(tool_program(SubprocessTool::Zenity), "zenity");
    assert_eq!(tool_delimiter(SubprocessTool::Kdialog), '\n');
    assert_eq!(tool_delimiter(SubprocessTool::Zenity), '|');
}

#[test]
fn parse_empty_output_is_no_selection() {
    assert!(parse_multi_select(SubprocessTool::Kdialog, "").is_empty());
    assert!(parse_multi_select(SubprocessTool::Zenity, "").is_empty());
    assert!(parse_multi_select(SubprocessTool::Kdialog, " \n ").is_empty());
}

#[test]
fn parse_two_paths_per_tool_delimiter() {
    assert_eq!(
        parse_multi_select(SubprocessTool::Kdialog, "a\nb"),
        vec!["a".to_string(), "b".to_string()]
    );
    assert_eq!(
        parse_multi_select(SubprocessTool::Zenity, "a|b"),
        vec!["a".to_string(), "b".to_string()]
    );
}

#[test]
fn parse_trims_the_trailing_newline_before_splitting() {
    assert_eq!(
        parse_multi_select(SubprocessTool::Kdialog, "/a/x.png\n/a/y.jpg\n"),
        vec!["/a/x.png".to_string(), "/a/y.jpg".to_string()]
    );
}

#[test]
fn parser_branches_by_the_tool_that_ran() {
    // A pipe is an ordinary path character to the tool that separates by
    // newlines, and the other way round.
    assert_eq!(
        parse_multi_select(SubprocessTool::Kdialog, "a|b"),
        vec!["a|b".to_string()]
    );
    assert_eq!(
        parse_multi_select(SubprocessTool::Zenity, "a b"),
        vec!["a b".to_string()]
    );
}

#[test]
fn probe_is_cached_after_one_record() {
    let mut probe = ToolProbe::new();
    assert_eq!(probe.decision(), ProbeDecision::ProbeNeeded);
    probe.record(false);
    for _ in 0..3 {
        assert_eq!(probe.decision(), ProbeDecision::UseCached { present: false });
        assert_eq!(probe.select_tool(), SubprocessTool::Zenity);
    }
}

#[test]
fn probe_present_selects_the_richer_tool() {
    let mut probe = ToolProbe::new();
    probe.record(true);
    assert_eq!(probe.decision(), ProbeDecision::UseCached { present: true });
    assert_eq!(probe.select_tool(), SubprocessTool::Kdialog);
}

#[test]
fn kdialog_filter_renders_names_and_globs_in_order() {
    let filter = [
        BlockingPickFilesDialogFilter {
            name: "Images",
            extensions: &["png", "jpg"],
        },
        BlockingPickFilesDialogFilter {
            name: "Text",
            extensions: &["txt"],
        },
    ];
    assert_eq!(get_kdialog_filter(&filter), "Images (*.png *.jpg) Text (*.txt)");
}

#[test]
fn zenity_filter_entry_renders_name_and_globs() {
    let entry = BlockingPickFilesDialogFilter {
        name: "Images",
        extensions: &["png", "jpg"],
    };
    assert_eq!(zenity_filter_entry(&entry), "Images | *.png *.jpg");
}

#[test]
fn alert_command_builds_each_tool_exactly() {
    let d = BlockingAlertDialog {
        window: None,
        title: "T",
        message: "M",
        level: BlockingDialogLevel::Warning,
    };
    let k = alert_command(SubprocessTool::Kdialog, &d);
    assert_eq!(k.program, "kdialog");
    assert_eq!(k.args, vec!["--title", "T", "--sorry", "M"]);
    let z = alert_command(SubprocessTool::Zenity, &d);
    assert_eq!(z.program, "zenity");
    assert_eq!(z.args, vec!["--warning", "--title", "T", "--text", "M"]);
}

#[test]
fn confirm_command_builds_each_tool_exactly() {
    let d = BlockingConfirmDialog {
        window: None,
        title: "T",
        message: "M",
        level: BlockingDialogLevel::Warning,
    };
    let k = confirm_command(SubprocessTool::Kdialog, &d);
    assert_eq!(k.args, vec!["--title", "T", "--yesno", "M"]);
    let z = confirm_command(SubprocessTool::Zenity, &d);
    assert_eq!(z.args, vec!["--question", "--title", "T", "--text", "M"]);
}

#[test]
fn pick_files_command_orders_filters_as_supplied() {
    let filter = [BlockingPickFilesDialogFilter {
        name: "Images",
        extensions: &["png", "jpg"],
    }];
    let d = BlockingPickFilesDialog {
        window: None,
        title: "Pick",
        multiple: true,
        filter: &filter,
    };
    let k = pick_files_command(SubprocessTool::Kdialog, &d);
    assert_eq!(
        k.args,
        vec![
            "--getopenfilename",
            "--title",
            "Pick",
            "--multiple",
            "--separate-output",
            ":label1",
            "Images (*.png *.jpg)",
        ]
    );
    let z = pick_files_command(SubprocessTool::Zenity, &d);
    assert_eq!(
        z.args,
        vec![
            "--file-selection",
            "--title",
            "Pick",
            "--multiple",
            "--file-filter",
            "Images | *.png *.jpg",
        ]
    );
}

#[test]
fn pick_directory_command_builds_each_tool_exactly() {
    let d = BlockingPickDirectoryDialog {
        window: None,
        title: "Where",
    };
    let k = pick_directory_command(SubprocessTool::Kdialog, &d);
    assert_eq!(k.args, vec!["--title", "Where", "--getexistingdirectory"]);
    let z = pick_directory_command(SubprocessTool::Zenity, &d);
    assert_eq!(
        z.args,
        vec!["--file-selection", "--directory", "--title", "Where"]
    );
}

#[test]
fn save_file_command_carries_the_default_filename() {
    let d = BlockingSaveFileDialog {
        window: None,
        title: "Save",
        default_filename: Some("out.txt"),
        filter: &[],
    };
    let k = save_file_command(SubprocessTool::Kdialog, &d);
    assert_eq!(k.args, vec!["--getsavefilename", "--title", "Save", "out.txt"]);
    let z = save_file_command(SubprocessTool::Zenity, &d);
    assert_eq!(
        z.args,
        vec!["--file-selection", "--save", "--title", "Save", "--filename", "out.txt"]
    );
}

#[test]
fn confirm_exit_zero_is_affirmative() {
    assert_eq!(confirm_outcome(&completed(true, "")), Ok(true));
}

#[test]
fn confirm_exit_nonzero_is_negative_not_an_error() {
    assert_eq!(confirm_outcome(&completed(false, "")), Ok(false));
}

#[test]
fn confirm_missing_tool_is_a_spawn_failure() {
    assert_eq!(
        confirm_outcome(&ToolRun::SpawnFailed),
        Err(BlockingDialogError::ProcessSpawnFailure)
    );
}

#[test]
fn pick_files_parses_simulated_tool_output() {
    let run = completed(true, "/a/x.png\n/a/y.jpg\n");
    assert_eq!(
        pick_files_outcome(SubprocessTool::Kdialog, true, &run),
        Ok(vec!["/a/x.png".to_string(), "/a/y.jpg".to_string()])
    );
}

#[test]
fn pick_files_cancellation_is_the_empty_selection() {
    let run = completed(false, "\n");
    assert_eq!(pick_files_outcome(SubprocessTool::Kdialog, true, &run), Ok(vec![]));
    assert_eq!(pick_files_outcome(SubprocessTool::Zenity, false, &run), Ok(vec![]));
}

#[test]
fn pick_files_single_selection_is_one_trimmed_path() {
    let run = completed(true, "/a/x.png\n");
    assert_eq!(
        pick_files_outcome(SubprocessTool::Zenity, false, &run),
        Ok(vec!["/a/x.png".to_string()])
    );
}

#[test]
fn pick_files_spawn_failure_is_fatal() {
    assert_eq!(
        pick_files_outcome(SubprocessTool::Kdialog, true, &ToolRun::SpawnFailed),
        Err(BlockingDialogError::ProcessSpawnFailure)
    );
}

#[test]
fn pick_directory_empty_output_is_none() {
    let run = completed(true, "");
    assert_eq!(pick_directory_outcome(&run), Ok(None));
    let run = completed(true, "\n");
    assert_eq!(pick_directory_outcome(&run), Ok(None));
}

#[test]
fn pick_directory_returns_the_trimmed_path() {
    let run = completed(true, "/home/me\n");
    assert_eq!(pick_directory_outcome(&run), Ok(Some("/home/me".to_string())));
}

#[test]
fn save_file_empty_output_is_none() {
    assert_eq!(save_file_outcome(&completed(true, " \n")), Ok(None));
}

#[test]
fn save_file_returns_the_trimmed_path() {
    assert_eq!(
        save_file_outcome(&completed(true, "/home/me/out.txt\n")),
        Ok(Some("/home/me/out.txt".to_string()))
    );
}
