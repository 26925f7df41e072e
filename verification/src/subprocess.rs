//! The external-tool-subprocess engine.
//!
//! On desktops without one blessed dialog toolkit, dialogs are shown by
//! spawning one of two well-known command-line tools. This module holds
//! everything about that engine that is a pure decision: which tool to use
//! (with the process-wide probe cache), which arguments each dialog kind
//! passes to each tool, and how each tool's standard output and exit status
//! are parsed into a portable outcome. The spawning itself happens outside
//! the library; it hands back a [`ToolRun`] and receives a [`ToolCommand`].
//!
//! The critical correctness surface is output parsing: the two tools
//! separate multi-selection results with different delimiters (one a
//! newline, one a pipe), both append a trailing newline that must be
//! trimmed before splitting, and an all-whitespace output means "nothing
//! selected", never a single empty path. The parser therefore branches on
//! which tool actually ran, not on which is preferred.

use vstd::prelude::*;

use crate::BlockingDialogError;
use crate::BlockingDialogLevel;
use crate::BlockingPickFilesDialogFilter;
use crate::text::spec_is_ws;
use crate::text::spec_join;
use crate::text::spec_split;
use crate::text::spec_star_patterns;
use crate::text::spec_trim;
use crate::text::strings_view;
use crate::text::join_patterns;
use crate::text::lemma_split_join;
use crate::text::lemma_join_unfold_first;
use crate::text::lemma_trim_of_trimmed;
use crate::text::split_str;
use crate::text::trim_str;

verus! {

/// The two external dialog tools, in order of preference.
#[derive(Debug, Clone, Copy, PartialEq, Eq, Structural)]
pub enum SubprocessTool {
    /// The richer tool, preferred whenever it is present.
    Kdialog,
    /// The baseline tool, assumed always available.
    Zenity,
}

/// The executable name each tool is looked up under.
pub open spec fn spec_tool_program(t: SubprocessTool) -> Seq<char> {
    match t {
        SubprocessTool::Kdialog => "kdialog"@,
        SubprocessTool::Zenity => "zenity"@,
    }
}

/// The executable name of `t`.
pub fn tool_program(t: SubprocessTool) -> (r: &'static str)
    ensures
        r@ == spec_tool_program(t),
{
    match t {
        SubprocessTool::Kdialog => "kdialog",
        SubprocessTool::Zenity => "zenity",
    }
}

/// The character each tool separates multi-selection output with: the
/// richer tool emits one path per line, the baseline tool joins paths with
/// a pipe.
pub open spec fn spec_tool_delimiter(t: SubprocessTool) -> char {
    match t {
        SubprocessTool::Kdialog => '\n',
        SubprocessTool::Zenity => '|',
    }
}

/// The multi-selection delimiter of `t`.
pub fn tool_delimiter(t: SubprocessTool) -> (r: char)
    ensures
        r == spec_tool_delimiter(t),
{
    match t {
        SubprocessTool::Kdialog => '\n',
        SubprocessTool::Zenity => '|',
    }
}

/// Which tool a probe result selects: the richer tool when present, the
/// baseline tool otherwise.
pub open spec fn spec_tool_for(richer_present: bool) -> SubprocessTool {
    if richer_present {
        SubprocessTool::Kdialog
    } else {
        SubprocessTool::Zenity
    }
}

/// The process-wide cache of the probe for the richer tool.
///
/// Probing costs a subprocess spawn, so it happens at most once per
/// process: `decision` asks for a probe only while nothing is cached, and
/// `record` fills the cache exactly once.
#[derive(Debug, Clone, Copy, PartialEq, Eq, Structural)]
pub struct ToolProbe {
    /// Whether the richer tool is present, once probed.
    pub probed: Option<bool>,
}

/// What the cache tells a caller to do next.
#[derive(Debug, Clone, Copy, PartialEq, Eq, Structural)]
pub enum ProbeDecision {
    /// The probe already ran; its result is cached.
    UseCached { present: bool },
    /// Nothing is cached yet: run the probe once and record it.
    ProbeNeeded,
}

/// The decision the cache state dictates.
pub open spec fn spec_probe_decision(p: ToolProbe) -> ProbeDecision {
    match p.probed {
        Some(present) => ProbeDecision::UseCached { present },
        None => ProbeDecision::ProbeNeeded,
    }
}

impl ToolProbe {
    /// A cache that has not probed yet.
    pub fn new() -> (r: Self)
        ensures
            r.probed is None,
    {
        ToolProbe { probed: None }
    }

    /// Whether to use the cached probe result or to run the probe.
    pub fn decision(&self) -> (r: ProbeDecision)
        ensures
            r == spec_probe_decision(*self),
    {
        match self.probed {
            Some(present) => ProbeDecision::UseCached { present },
            None => ProbeDecision::ProbeNeeded,
        }
    }

    /// Records the probe's result; only a cache that has not probed yet
    /// accepts one, so the result can never be overwritten.
    pub fn record(&mut self, present: bool)
        requires
            old(self).probed is None,
        ensures
            final(self).probed == Some(present),
    {
        self.probed = Some(present);
    }

    /// The tool the cached probe result selects.
    pub fn select_tool(&self) -> (r: SubprocessTool)
        requires
            self.probed is Some,
        ensures
            r == spec_tool_for(self.probed->0),
    {
        match self.probed {
            Some(true) => SubprocessTool::Kdialog,
            Some(false) => SubprocessTool::Zenity,
            None => SubprocessTool::Zenity,
        }
    }
}

/// Law: once the probe result is cached, no later call is told to probe
/// again — repeated dialogs in one process spawn the probe at most once.
pub proof fn lemma_probe_runs_at_most_once(p: ToolProbe)
    requires
        p.probed is Some,
    ensures
        spec_probe_decision(p) != ProbeDecision::ProbeNeeded,
{
}

/// Law: once the richer tool has been found absent, every later call
/// selects the baseline tool.
pub proof fn lemma_absent_tool_falls_back(p: ToolProbe)
    requires
        p.probed == Some(false),
    ensures
        spec_probe_decision(p) == (ProbeDecision::UseCached { present: false }),
        spec_tool_for(false) == SubprocessTool::Zenity,
{
}

/// The flag the richer tool renders each severity with.
pub open spec fn spec_kdialog_level_flag(level: BlockingDialogLevel) -> Seq<char> {
    match level {
        BlockingDialogLevel::Info => "--msgbox"@,
        BlockingDialogLevel::Warning => "--sorry"@,
        BlockingDialogLevel::Error => "--error"@,
    }
}

/// The richer tool's flag for `level`.
pub fn get_kdialog_level_flag(level: BlockingDialogLevel) -> (r: &'static str)
    ensures
        r@ == spec_kdialog_level_flag(level),
{
    match level {
        BlockingDialogLevel::Info => "--msgbox",
        BlockingDialogLevel::Warning => "--sorry",
        BlockingDialogLevel::Error => "--error",
    }
}

/// The flag the baseline tool renders each severity with.
pub open spec fn spec_zenity_level_flag(level: BlockingDialogLevel) -> Seq<char> {
    match level {
        BlockingDialogLevel::Info => "--info"@,
        BlockingDialogLevel::Warning => "--warning"@,
        BlockingDialogLevel::Error => "--error"@,
    }
}

/// The baseline tool's flag for `level`.
pub fn get_zenity_level_flag(level: BlockingDialogLevel) -> (r: &'static str)
    ensures
        r@ == spec_zenity_level_flag(level),
{
    match level {
        BlockingDialogLevel::Info => "--info",
        BlockingDialogLevel::Warning => "--warning",
        BlockingDialogLevel::Error => "--error",
    }
}

/// Law: both tools' severity mappings are total — every level has a
/// defined flag on each, so no level ever reaches a tool undefined.
pub proof fn lemma_subprocess_level_flags_total(level: BlockingDialogLevel)
    ensures
        spec_kdialog_level_flag(level) == "--msgbox"@ || spec_kdialog_level_flag(level)
            == "--sorry"@ || spec_kdialog_level_flag(level) == "--error"@,
        spec_zenity_level_flag(level) == "--info"@ || spec_zenity_level_flag(level) == "--warning"@
            || spec_zenity_level_flag(level) == "--error"@,
{
}

/// What a tool's multi-selection output parses to: trimmed of surrounding
/// whitespace, an empty remainder means no selection, and anything else is
/// cut at the tool's own delimiter.
pub open spec fn spec_multi_select(tool: SubprocessTool, raw: Seq<char>) -> Seq<Seq<char>> {
    let t = spec_trim(raw);
    if t.len() == 0 {
        Seq::empty()
    } else {
        spec_split(t, spec_tool_delimiter(tool))
    }
}

/// Parses a tool's multi-selection output by the delimiter of the tool
/// that actually ran: surrounding whitespace is trimmed first, a blank
/// output is no selection (never a single empty path), and otherwise the
/// paths appear in the tool's own order.
pub fn parse_multi_select(tool: SubprocessTool, raw: &str) -> (r: Vec<String>)
    ensures
        strings_view(r@) == spec_multi_select(tool, raw@),
{
    let trimmed = trim_str(raw);
    if trimmed.unicode_len() == 0 {
        let r: Vec<String> = Vec::new();
        proof {
            assert(strings_view(r@) =~= Seq::<Seq<char>>::empty());
        }
        r
    } else {
        split_str(trimmed, tool_delimiter(tool))
    }
}

/// Law: a blank output parses as "nothing selected" — the empty sequence,
/// not one empty path.
pub proof fn lemma_multi_select_blank(tool: SubprocessTool, raw: Seq<char>)
    requires
        spec_trim(raw).len() == 0,
    ensures
        spec_multi_select(tool, raw) == Seq::<Seq<char>>::empty(),
{
}

/// Law: parsing inverts joining. An output listing non-empty paths that
/// hold neither the tool's delimiter nor whitespace at the outer ends,
/// joined by the tool's delimiter, parses back to exactly those paths in
/// their original order.
pub proof fn lemma_multi_select_round_trip(tool: SubprocessTool, parts: Seq<Seq<char>>)
    requires
        parts.len() >= 1,
        forall|i: int| 0 <= i < parts.len() ==> #[trigger] parts[i].len() > 0,
        forall|i: int, j: int|
            0 <= i < parts.len() && 0 <= j < parts[i].len() ==> #[trigger] parts[i][j]
                != spec_tool_delimiter(tool),
        !spec_is_ws(parts[0][0]),
        !spec_is_ws(parts.last().last()),
    ensures
        spec_multi_select(tool, spec_join(parts, seq![spec_tool_delimiter(tool)])) == parts,
{
    let d = spec_tool_delimiter(tool);
    let s = spec_join(parts, seq![d]);
    lemma_join_first_last(parts, seq![d]);
    assert(s[0] == parts[0][0]);
    assert(s.last() == parts.last().last());
    lemma_trim_of_trimmed(s);
    lemma_split_join(parts, d);
}

/// The first and last characters of a join of non-empty parts are the
/// first character of the first part and the last character of the last.
pub proof fn lemma_join_first_last(parts: Seq<Seq<char>>, sep: Seq<char>)
    requires
        parts.len() >= 1,
        parts[0].len() > 0,
        parts.last().len() > 0,
    ensures
        spec_join(parts, sep).len() > 0,
        spec_join(parts, sep)[0] == parts[0][0],
        spec_join(parts, sep).last() == parts.last().last(),
    decreases parts.len(),
{
    if parts.len() == 1 {
    } else {
        lemma_join_unfold_first(parts, sep);
        let rest = spec_join(parts.drop_first(), sep);
        assert(spec_join(parts, sep) == parts[0] + sep + rest);
        lemma_join_last(parts, sep);
    }
}

/// The last characters of a join agree with the last part's.
proof fn lemma_join_last(parts: Seq<Seq<char>>, sep: Seq<char>)
    requires
        parts.len() >= 2,
        parts.last().len() > 0,
    ensures
        spec_join(parts, sep).len() > 0,
        spec_join(parts, sep).last() == parts.last().last(),
{
    let w = spec_join(parts.drop_last(), sep) + sep + parts.last();
    assert(spec_join(parts, sep) == w);
    assert(w.last() == parts.last().last());
}

/// One filter entry as the richer tool renders it: `Name (*.a *.b)`.
pub open spec fn spec_kdialog_filter_entry(f: crate::FilterView) -> Seq<char> {
    f.name + " ("@ + spec_join(spec_star_patterns(f.extensions), " "@) + ")"@
}

/// The whole filter as the richer tool takes it: the entries in the
/// caller's order, joined by blanks.
pub open spec fn spec_kdialog_filter(fs: Seq<crate::FilterView>) -> Seq<char> {
    spec_join(fs.map_values(|f: crate::FilterView| spec_kdialog_filter_entry(f)), " "@)
}

/// Renders the filter entries for the richer tool, preserving the caller's
/// order, since that order decides the rendered filter dropdown.
pub fn get_kdialog_filter(filter: &[BlockingPickFilesDialogFilter]) -> (r: String)
    ensures
        r@ == spec_kdialog_filter(crate::filters_view(filter@)),
{
    let ghost parts = crate::filters_view(filter@).map_values(
        |f: crate::FilterView| spec_kdialog_filter_entry(f),
    );
    let mut out = String::new();
    let mut i: usize = 0;
    proof {
        assert(parts.take(0) =~= Seq::<Seq<char>>::empty());
    }
    while i < filter.len()
        invariant
            0 <= i <= filter@.len(),
            parts == crate::filters_view(filter@).map_values(
                |f: crate::FilterView| spec_kdialog_filter_entry(f),
            ),
            out@ == spec_join(parts.take(i as int), " "@),
        decreases filter@.len() - i,
    {
        if i > 0 {
            out.append(" ");
        }
        out.append(filter[i].name);
        out.append(" (");
        let pats = join_patterns(filter[i].extensions, " ");
        out.append(pats.as_str());
        out.append(")");
        proof {
            assert(parts.take(i as int + 1).drop_last() =~= parts.take(i as int));
            assert(parts.take(i as int + 1).last() == parts[i as int]);
            assert(parts[i as int] == spec_kdialog_filter_entry(filter@[i as int]@));
            if i == 0 {
                assert(out@ =~= parts[0]);
                assert(spec_join(parts.take(1), " "@) == parts.take(1)[0]);
            } else {
                assert(out@ =~= spec_join(parts.take(i as int), " "@) + " "@ + parts[i as int]);
            }
        }
        i = i + 1;
    }
    proof {
        assert(parts.take(filter@.len() as int) =~= parts);
    }
    out
}

/// One filter entry as the baseline tool takes it: `Name | *.a *.b`.
pub open spec fn spec_zenity_filter_entry(f: crate::FilterView) -> Seq<char> {
    f.name + " | "@ + spec_join(spec_star_patterns(f.extensions), " "@)
}

/// Renders one filter entry for the baseline tool.
pub fn zenity_filter_entry(entry: &BlockingPickFilesDialogFilter) -> (r: String)
    ensures
        r@ == spec_zenity_filter_entry(entry@),
{
    let mut out = String::new();
    out.append(entry.name);
    out.append(" | ");
    let pats = join_patterns(entry.extensions, " ");
    out.append(pats.as_str());
    proof {
        assert(out@ =~= spec_zenity_filter_entry(entry@));
    }
    out
}

/// A fully decided subprocess invocation: the executable to look up on the
/// search path and its arguments, in order. The caller spawns it, blocks on
/// it, and hands the result back as a [`ToolRun`].
pub struct ToolCommand {
    pub program: String,
    pub args: Vec<String>,
}

/// How one spawned tool invocation ended.
pub enum ToolRun {
    /// The process ran to completion: whether it exited successfully, and
    /// everything it wrote to standard output.
    Completed { exit_success: bool, stdout: String },
    /// The process could not be launched at all (missing binary, exec
    /// permission). Never conflated with a cancelled dialog.
    SpawnFailed,
}

/// The arguments each tool takes to show a plain alert.
pub open spec fn spec_alert_args(
    tool: SubprocessTool,
    title: Seq<char>,
    message: Seq<char>,
    level: BlockingDialogLevel,
) -> Seq<Seq<char>> {
    match tool {
        SubprocessTool::Kdialog => seq![
            "--title"@,
            title,
            spec_kdialog_level_flag(level),
            message,
        ],
        SubprocessTool::Zenity => seq![
            spec_zenity_level_flag(level),
            "--title"@,
            title,
            "--text"@,
            message,
        ],
    }
}

/// The invocation that shows `d` as an alert through `tool`.
pub fn alert_command(tool: SubprocessTool, d: &crate::BlockingAlertDialog) -> (r: ToolCommand)
    ensures
        r.program@ == spec_tool_program(tool),
        strings_view(r.args@) == spec_alert_args(tool, d.title@, d.message@, d.level),
{
    let mut args: Vec<String> = Vec::new();
    match tool {
        SubprocessTool::Kdialog => {
            args.push("--title".to_owned());
            args.push(d.title.to_owned());
            args.push(get_kdialog_level_flag(d.level).to_owned());
            args.push(d.message.to_owned());
        },
        SubprocessTool::Zenity => {
            args.push(get_zenity_level_flag(d.level).to_owned());
            args.push("--title".to_owned());
            args.push(d.title.to_owned());
            args.push("--text".to_owned());
            args.push(d.message.to_owned());
        },
    }
    proof {
        assert(strings_view(args@) =~~= spec_alert_args(tool, d.title@, d.message@, d.level));
    }
    ToolCommand { program: tool_program(tool).to_owned(), args }
}

/// The arguments each tool takes to ask a yes-or-no question.
pub open spec fn spec_confirm_args(
    tool: SubprocessTool,
    title: Seq<char>,
    message: Seq<char>,
) -> Seq<Seq<char>> {
    match tool {
        SubprocessTool::Kdialog => seq!["--title"@, title, "--yesno"@, message],
        SubprocessTool::Zenity => seq!["--question"@, "--title"@, title, "--text"@, message],
    }
}

/// The invocation that shows `d` as a confirmation through `tool`; the
/// answer comes back in the exit status.
pub fn confirm_command(tool: SubprocessTool, d: &crate::BlockingConfirmDialog) -> (r: ToolCommand)
    ensures
        r.program@ == spec_tool_program(tool),
        strings_view(r.args@) == spec_confirm_args(tool, d.title@, d.message@),
{
    let mut args: Vec<String> = Vec::new();
    match tool {
        SubprocessTool::Kdialog => {
            args.push("--title".to_owned());
            args.push(d.title.to_owned());
            args.push("--yesno".to_owned());
            args.push(d.message.to_owned());
        },
        SubprocessTool::Zenity => {
            args.push("--question".to_owned());
            args.push("--title".to_owned());
            args.push(d.title.to_owned());
            args.push("--text".to_owned());
            args.push(d.message.to_owned());
        },
    }
    proof {
        assert(strings_view(args@) =~~= spec_confirm_args(tool, d.title@, d.message@));
    }
    ToolCommand { program: tool_program(tool).to_owned(), args }
}

/// The baseline tool's filter arguments: a `--file-filter` flag before
/// each rendered entry, in the caller's order.
pub open spec fn spec_zenity_filter_args(fs: Seq<crate::FilterView>) -> Seq<Seq<char>>
    decreases fs.len(),
{
    if fs.len() == 0 {
        Seq::empty()
    } else {
        spec_zenity_filter_args(fs.drop_last()) + seq![
            "--file-filter"@,
            spec_zenity_filter_entry(fs.last()),
        ]
    }
}

/// The arguments each tool takes to pick one or more files.
pub open spec fn spec_pick_files_args(
    tool: SubprocessTool,
    title: Seq<char>,
    multiple: bool,
    fs: Seq<crate::FilterView>,
) -> Seq<Seq<char>> {
    match tool {
        SubprocessTool::Kdialog => seq!["--getopenfilename"@, "--title"@, title] + (if multiple {
            seq!["--multiple"@, "--separate-output"@]
        } else {
            Seq::empty()
        }) + (if fs.len() > 0 {
            seq![":label1"@, spec_kdialog_filter(fs)]
        } else {
            Seq::empty()
        }),
        SubprocessTool::Zenity => seq!["--file-selection"@, "--title"@, title] + (if multiple {
            seq!["--multiple"@]
        } else {
            Seq::empty()
        }) + spec_zenity_filter_args(fs),
    }
}

/// The invocation that shows `d` as a file picker through `tool`.
pub fn pick_files_command(tool: SubprocessTool, d: &crate::BlockingPickFilesDialog) -> (r:
    ToolCommand)
    ensures
        r.program@ == spec_tool_program(tool),
        strings_view(r.args@) == spec_pick_files_args(
            tool,
            d.title@,
            d.multiple,
            crate::filters_view(d.filter@),
        ),
{
    let ghost fs = crate::filters_view(d.filter@);
    let mut args: Vec<String> = Vec::new();
    match tool {
        SubprocessTool::Kdialog => {
            args.push("--getopenfilename".to_owned());
            args.push("--title".to_owned());
            args.push(d.title.to_owned());
            if d.multiple {
                args.push("--multiple".to_owned());
                args.push("--separate-output".to_owned());
            }
            if d.filter.len() > 0 {
                args.push(":label1".to_owned());
                args.push(get_kdialog_filter(d.filter));
            }
            proof {
                assert(strings_view(args@) =~~= spec_pick_files_args(
                    tool,
                    d.title@,
                    d.multiple,
                    fs,
                ));
            }
        },
        SubprocessTool::Zenity => {
            args.push("--file-selection".to_owned());
            args.push("--title".to_owned());
            args.push(d.title.to_owned());
            if d.multiple {
                args.push("--multiple".to_owned());
            }
            let ghost base = strings_view(args@);
            proof {
                assert(fs.take(0) =~= Seq::<crate::FilterView>::empty());
                assert(base + spec_zenity_filter_args(fs.take(0)) =~~= base);
            }
            let mut i: usize = 0;
            while i < d.filter.len()
                invariant
                    0 <= i <= d.filter@.len(),
                    fs == crate::filters_view(d.filter@),
                    strings_view(args@) =~~= base + spec_zenity_filter_args(fs.take(i as int)),
                decreases d.filter@.len() - i,
            {
                let flag = "--file-filter".to_owned();
                let entry = zenity_filter_entry(&d.filter[i]);
                let ghost prev = args@;
                args.push(flag);
                let ghost mid = args@;
                args.push(entry);
                proof {
                    crate::text::lemma_strings_view_push(prev, mid.last());
                    crate::text::lemma_strings_view_push(mid, args@.last());
                    assert(strings_view(args@) =~~= strings_view(prev).push("--file-filter"@).push(
                        spec_zenity_filter_entry(d.filter@[i as int]@),
                    ));
                    assert(fs.take(i as int + 1).drop_last() =~= fs.take(i as int));
                    assert(fs.take(i as int + 1).last() == fs[i as int]);
                    assert(fs[i as int] == d.filter@[i as int]@);
                    assert(strings_view(args@) =~~= base + spec_zenity_filter_args(
                        fs.take(i as int + 1),
                    ));
                }
                i = i + 1;
            }
            proof {
                assert(fs.take(d.filter@.len() as int) =~= fs);
                assert(strings_view(args@) =~~= spec_pick_files_args(
                    tool,
                    d.title@,
                    d.multiple,
                    fs,
                ));
            }
        },
    }
    ToolCommand { program: tool_program(tool).to_owned(), args }
}

/// The arguments each tool takes to pick an existing directory.
pub open spec fn spec_pick_directory_args(tool: SubprocessTool, title: Seq<char>) -> Seq<
    Seq<char>,
> {
    match tool {
        SubprocessTool::Kdialog => seq!["--title"@, title, "--getexistingdirectory"@],
        SubprocessTool::Zenity => seq!["--file-selection"@, "--directory"@, "--title"@, title],
    }
}

/// The invocation that shows `d` as a directory picker through `tool`.
pub fn pick_directory_command(tool: SubprocessTool, d: &crate::BlockingPickDirectoryDialog) -> (r:
    ToolCommand)
    ensures
        r.program@ == spec_tool_program(tool),
        strings_view(r.args@) == spec_pick_directory_args(tool, d.title@),
{
    let mut args: Vec<String> = Vec::new();
    match tool {
        SubprocessTool::Kdialog => {
            args.push("--title".to_owned());
            args.push(d.title.to_owned());
            args.push("--getexistingdirectory".to_owned());
        },
        SubprocessTool::Zenity => {
            args.push("--file-selection".to_owned());
            args.push("--directory".to_owned());
            args.push("--title".to_owned());
            args.push(d.title.to_owned());
        },
    }
    proof {
        assert(strings_view(args@) =~~= spec_pick_directory_args(tool, d.title@));
    }
    ToolCommand { program: tool_program(tool).to_owned(), args }
}

/// The arguments each tool takes to ask for a save location.
pub open spec fn spec_save_file_args(
    tool: SubprocessTool,
    title: Seq<char>,
    default_filename: Option<Seq<char>>,
    fs: Seq<crate::FilterView>,
) -> Seq<Seq<char>> {
    match tool {
        SubprocessTool::Kdialog => seq!["--getsavefilename"@, "--title"@, title] + (
        match default_filename {
            Some(name) => seq![name],
            None => Seq::empty(),
        }) + (if fs.len() > 0 {
            seq![":label1"@, spec_kdialog_filter(fs)]
        } else {
            Seq::empty()
        }),
        SubprocessTool::Zenity => seq!["--file-selection"@, "--save"@, "--title"@, title] + (
        match default_filename {
            Some(name) => seq!["--filename"@, name],
            None => Seq::empty(),
        }) + spec_zenity_filter_args(fs),
    }
}

/// The optional default filename of `d`, viewed.
pub open spec fn spec_default_filename_view(d: Option<&str>) -> Option<Seq<char>> {
    match d {
        Some(name) => Some(name@),
        None => None,
    }
}

/// The invocation that shows `d` as a save dialog through `tool`.
pub fn save_file_command(tool: SubprocessTool, d: &crate::BlockingSaveFileDialog) -> (r:
    ToolCommand)
    ensures
        r.program@ == spec_tool_program(tool),
        strings_view(r.args@) == spec_save_file_args(
            tool,
            d.title@,
            spec_default_filename_view(d.default_filename),
            crate::filters_view(d.filter@),
        ),
{
    let ghost fs = crate::filters_view(d.filter@);
    let ghost dfn = spec_default_filename_view(d.default_filename);
    let mut args: Vec<String> = Vec::new();
    match tool {
        SubprocessTool::Kdialog => {
            args.push("--getsavefilename".to_owned());
            args.push("--title".to_owned());
            args.push(d.title.to_owned());
            if let Some(name) = d.default_filename {
                args.push(name.to_owned());
            }
            if d.filter.len() > 0 {
                args.push(":label1".to_owned());
                args.push(get_kdialog_filter(d.filter));
            }
            proof {
                assert(strings_view(args@) =~~= spec_save_file_args(tool, d.title@, dfn, fs));
            }
        },
        SubprocessTool::Zenity => {
            args.push("--file-selection".to_owned());
            args.push("--save".to_owned());
            args.push("--title".to_owned());
            args.push(d.title.to_owned());
            if let Some(name) = d.default_filename {
                args.push("--filename".to_owned());
                args.push(name.to_owned());
            }
            let ghost base = strings_view(args@);
            proof {
                assert(fs.take(0) =~= Seq::<crate::FilterView>::empty());
                assert(base + spec_zenity_filter_args(fs.take(0)) =~~= base);
            }
            let mut i: usize = 0;
            while i < d.filter.len()
                invariant
                    0 <= i <= d.filter@.len(),
                    fs == crate::filters_view(d.filter@),
                    strings_view(args@) =~~= base + spec_zenity_filter_args(fs.take(i as int)),
                decreases d.filter@.len() - i,
            {
                let flag = "--file-filter".to_owned();
                let entry = zenity_filter_entry(&d.filter[i]);
                let ghost prev = args@;
                args.push(flag);
                let ghost mid = args@;
                args.push(entry);
                proof {
                    crate::text::lemma_strings_view_push(prev, mid.last());
                    crate::text::lemma_strings_view_push(mid, args@.last());
                    assert(strings_view(args@) =~~= strings_view(prev).push("--file-filter"@).push(
                        spec_zenity_filter_entry(d.filter@[i as int]@),
                    ));
                    assert(fs.take(i as int + 1).drop_last() =~= fs.take(i as int));
                    assert(fs.take(i as int + 1).last() == fs[i as int]);
                    assert(fs[i as int] == d.filter@[i as int]@);
                    assert(strings_view(args@) =~~= base + spec_zenity_filter_args(
                        fs.take(i as int + 1),
                    ));
                }
                i = i + 1;
            }
            proof {
                assert(fs.take(d.filter@.len() as int) =~= fs);
                assert(strings_view(args@) =~~= spec_save_file_args(tool, d.title@, dfn, fs));
            }
        },
    }
    ToolCommand { program: tool_program(tool).to_owned(), args }
}

/// Normalizes an alert run: only a failure to launch the tool at all is an
/// error; however the user dismissed the alert, it was shown.
pub fn alert_outcome(run: &ToolRun) -> (r: Result<(), BlockingDialogError>)
    ensures
        (*run) is Completed ==> r is Ok,
        (*run) is SpawnFailed ==> r == Result::<(), BlockingDialogError>::Err(
            BlockingDialogError::ProcessSpawnFailure,
        ),
{
    match run {
        ToolRun::Completed { .. } => Ok(()),
        ToolRun::SpawnFailed => Err(BlockingDialogError::ProcessSpawnFailure),
    }
}

/// Normalizes a confirmation run: the exit status encodes the answer — a
/// successful exit is the affirmative, any other completed exit is the
/// negative, and only a failure to launch the tool is an error.
pub fn confirm_outcome(run: &ToolRun) -> (r: Result<bool, BlockingDialogError>)
    ensures
        ((*run) matches ToolRun::Completed { exit_success, .. } ==> r == Result::<
            bool,
            BlockingDialogError,
        >::Ok(exit_success)),
        (*run) is SpawnFailed ==> r == Result::<bool, BlockingDialogError>::Err(
            BlockingDialogError::ProcessSpawnFailure,
        ),
{
    match run {
        ToolRun::Completed { exit_success, .. } => Ok(*exit_success),
        ToolRun::SpawnFailed => Err(BlockingDialogError::ProcessSpawnFailure),
    }
}

/// What a file-picker run's output parses to once the run completed.
pub open spec fn spec_pick_files_parse(
    tool: SubprocessTool,
    multiple: bool,
    out: Seq<char>,
) -> Seq<Seq<char>> {
    if multiple {
        spec_multi_select(tool, out)
    } else {
        let t = spec_trim(out);
        if t.len() == 0 {
            Seq::empty()
        } else {
            seq![t]
        }
    }
}

/// Normalizes a file-picker run: a cancelled dialog shows as blank output
/// and parses to the empty selection, never to an empty path; the exit
/// status of a completed run is ignored, because cancellation is not an
/// error.
pub fn pick_files_outcome(tool: SubprocessTool, multiple: bool, run: &ToolRun) -> (r: Result<
    Vec<String>,
    BlockingDialogError,
>)
    ensures
        ((*run) matches ToolRun::Completed { stdout, .. } ==> (r matches Ok(v) && strings_view(v@)
            == spec_pick_files_parse(tool, multiple, stdout@))),
        (*run) is SpawnFailed ==> (r matches Err(e) && e
            == BlockingDialogError::ProcessSpawnFailure),
{
    match run {
        ToolRun::Completed { stdout, .. } => {
            if multiple {
                Ok(parse_multi_select(tool, stdout.as_str()))
            } else {
                let trimmed = trim_str(stdout.as_str());
                if trimmed.unicode_len() == 0 {
                    let v: Vec<String> = Vec::new();
                    proof {
                        assert(strings_view(v@) =~= Seq::<Seq<char>>::empty());
                    }
                    Ok(v)
                } else {
                    let mut v: Vec<String> = Vec::new();
                    v.push(trimmed.to_owned());
                    proof {
                        assert(strings_view(v@) =~~= seq![spec_trim(stdout@)]);
                    }
                    Ok(v)
                }
            }
        },
        ToolRun::SpawnFailed => Err(BlockingDialogError::ProcessSpawnFailure),
    }
}

/// What a single-selection run's output parses to: blank means the user
/// cancelled, anything else is the one chosen path, trimmed.
pub open spec fn spec_single_select(out: Seq<char>) -> Option<Seq<char>> {
    let t = spec_trim(out);
    if t.len() == 0 {
        None
    } else {
        Some(t)
    }
}

/// Normalizes a directory-picker run: cancellation is the absent value,
/// never an empty-string path, and only a failed launch is an error.
pub fn pick_directory_outcome(run: &ToolRun) -> (r: Result<Option<String>, BlockingDialogError>)
    ensures
        ((*run) matches ToolRun::Completed { stdout, .. } ==> (match spec_single_select(stdout@) {
            Option::None => r == Result::<Option<String>, BlockingDialogError>::Ok(None),
            Option::Some(p) => r matches Ok(Some(s)) && s@ == p,
        })),
        (*run) is SpawnFailed ==> (r matches Err(e) && e
            == BlockingDialogError::ProcessSpawnFailure),
{
    match run {
        ToolRun::Completed { stdout, .. } => {
            let trimmed = trim_str(stdout.as_str());
            if trimmed.unicode_len() == 0 {
                Ok(None)
            } else {
                Ok(Some(trimmed.to_owned()))
            }
        },
        ToolRun::SpawnFailed => Err(BlockingDialogError::ProcessSpawnFailure),
    }
}

/// Normalizes a save-dialog run, exactly as a directory-picker run: blank
/// output is the absent value, a path is returned trimmed.
pub fn save_file_outcome(run: &ToolRun) -> (r: Result<Option<String>, BlockingDialogError>)
    ensures
        ((*run) matches ToolRun::Completed { stdout, .. } ==> (match spec_single_select(stdout@) {
            Option::None => r == Result::<Option<String>, BlockingDialogError>::Ok(None),
            Option::Some(p) => r matches Ok(Some(s)) && s@ == p,
        })),
        (*run) is SpawnFailed ==> (r matches Err(e) && e
            == BlockingDialogError::ProcessSpawnFailure),
{
    match run {
        ToolRun::Completed { stdout, .. } => {
            let trimmed = trim_str(stdout.as_str());
            if trimmed.unicode_len() == 0 {
                Ok(None)
            } else {
                Ok(Some(trimmed.to_owned()))
            }
        },
        ToolRun::SpawnFailed => Err(BlockingDialogError::ProcessSpawnFailure),
    }
}

} // verus!
