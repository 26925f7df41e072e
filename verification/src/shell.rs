//! The system-shell-dialog engine.
//!
//! On the platform with legacy message-box and common-dialog system calls,
//! a dialog is one blocking native call. This module holds that engine's
//! decisions and wire formats: the message-box style each severity maps to,
//! the interpretation of the small integer result code, the resolution of
//! the owner handle, the COM apartment bookkeeping, the NUL-separated
//! wide-character filter format, and the fixed-capacity buffer protocol the
//! pick and save dialogs fill in place. The native calls themselves happen
//! outside the library and exchange plain buffers and codes with it.

use vstd::prelude::*;

use crate::BlockingDialogError;
use crate::BlockingDialogLevel;
use crate::BlockingPickFilesDialogFilter;
use crate::handle::WindowHandleKind;
use crate::text::spec_join;
use crate::text::spec_star_patterns;
use crate::text::strings_view;
use crate::text::join_patterns;
use crate::text::lemma_strings_view_push;
use crate::utf16::push_char;
use crate::utf16::spec_utf16_decode;
use crate::utf16::spec_utf16_encode;
use crate::utf16::utf16_decode;
use crate::utf16::utf16_encode;
use crate::utf16::lemma_utf16_decode_encode;
use crate::utf16::lemma_utf16_encode_no_zero_unit;

verus! {

/// The message-box style asking only for acknowledgement.
pub const MB_OK: u32 = 0x0;

/// The message-box style offering an affirmative and a negative button.
pub const MB_OKCANCEL: u32 = 0x1;

/// The stop-icon message-box style.
pub const MB_ICONERROR: u32 = 0x10;

/// The exclamation-icon message-box style.
pub const MB_ICONWARNING: u32 = 0x30;

/// The information-icon message-box style.
pub const MB_ICONINFORMATION: u32 = 0x40;

/// The result code of the affirmative button.
pub const IDOK: i32 = 1;

/// The icon style each severity maps to.
pub open spec fn spec_message_box_icon(level: BlockingDialogLevel) -> u32 {
    match level {
        BlockingDialogLevel::Info => MB_ICONINFORMATION,
        BlockingDialogLevel::Warning => MB_ICONWARNING,
        BlockingDialogLevel::Error => MB_ICONERROR,
    }
}

/// The full style word of a message box: the button set, chosen by whether
/// the dialog confirms or only alerts, combined with the severity's icon.
pub open spec fn spec_message_box_style(level: BlockingDialogLevel, ok_cancel: bool) -> u32 {
    (if ok_cancel {
        MB_OKCANCEL
    } else {
        MB_OK
    }) | spec_message_box_icon(level)
}

/// The style word the message box is called with.
pub fn get_utype(level: BlockingDialogLevel, ok_cancel: bool) -> (r: u32)
    ensures
        r == spec_message_box_style(level, ok_cancel),
{
    let base: u32 = if ok_cancel {
        MB_OKCANCEL
    } else {
        MB_OK
    };
    let icon: u32 = match level {
        BlockingDialogLevel::Info => MB_ICONINFORMATION,
        BlockingDialogLevel::Warning => MB_ICONWARNING,
        BlockingDialogLevel::Error => MB_ICONERROR,
    };
    base | icon
}

/// Law: the style mapping is total — every severity has a defined icon and
/// every dialog kind a defined button set, so no level reaches the native
/// call undefined.
pub proof fn lemma_message_box_style_total(level: BlockingDialogLevel, ok_cancel: bool)
    ensures
        spec_message_box_icon(level) == MB_ICONINFORMATION || spec_message_box_icon(level)
            == MB_ICONWARNING || spec_message_box_icon(level) == MB_ICONERROR,
        spec_message_box_style(level, ok_cancel) == spec_message_box_icon(level) || spec_message_box_style(
            level,
            ok_cancel,
        ) == MB_OKCANCEL | spec_message_box_icon(level),
{
    if ok_cancel {
        assert(spec_message_box_style(level, ok_cancel) == MB_OKCANCEL | spec_message_box_icon(
            level,
        ));
    } else {
        assert(MB_OK | spec_message_box_icon(level) == spec_message_box_icon(level))
            by (bit_vector);
        assert(spec_message_box_style(level, ok_cancel) == MB_OK | spec_message_box_icon(level));
    }
}

/// Interprets a message-box result code as the confirmation's answer: only
/// the affirmative code is the affirmative — a timeout, an error code or
/// any unexpected value is the negative answer, never a crash.
pub fn confirm_message_box_result(code: i32) -> (r: bool)
    ensures
        r == (code == IDOK),
{
    code == IDOK
}

/// Resolves the owner of a shell dialog: an absent handle is legal and
/// presents top-level (a null owner), a Win32 handle parents the dialog,
/// and any other handle kind is unsupported on this engine.
pub fn resolve_win32_owner(owner: &Option<WindowHandleKind>) -> (r: Result<
    isize,
    BlockingDialogError,
>)
    ensures
        owner is None ==> r == Result::<isize, BlockingDialogError>::Ok(0),
        (*owner matches Some(k) ==> match k {
            WindowHandleKind::Win32 { hwnd } => r == Result::<isize, BlockingDialogError>::Ok(
                hwnd,
            ),
            _ => r == Result::<isize, BlockingDialogError>::Err(
                BlockingDialogError::HandleUnsupported,
            ),
        }),
{
    match owner {
        None => Ok(0),
        Some(WindowHandleKind::Win32 { hwnd }) => Ok(*hwnd),
        Some(_) => Err(BlockingDialogError::HandleUnsupported),
    }
}

/// The COM apartment bookkeeping of one shell-dialog call: the call records
/// whether it was the one to initialize the apartment, and tears down
/// exactly what it initialized, on every exit path — another caller's
/// initialization is never torn down, and a failed initialization never is
/// either.
#[derive(Debug, Clone, Copy, PartialEq, Eq, Structural)]
pub struct ComInit {
    /// Whether this call's initialization attempt succeeded, making this
    /// call responsible for the teardown.
    pub this_call_initialized: bool,
}

impl ComInit {
    /// Records the outcome of this call's initialization attempt.
    pub fn from_result(initialized: bool) -> (r: Self)
        ensures
            r.this_call_initialized == initialized,
    {
        ComInit { this_call_initialized: initialized }
    }

    /// Whether this call must uninitialize on its way out: exactly when its
    /// own initialization succeeded.
    pub fn should_uninitialize(&self) -> (r: bool)
        ensures
            r == self.this_call_initialized,
    {
        self.this_call_initialized
    }
}

/// A string as the engine's wide-character calls take it: its UTF-16 units
/// with a terminating zero unit.
pub open spec fn spec_widen(s: Seq<char>) -> Seq<u16> {
    spec_utf16_encode(s).push(0u16)
}

/// Encodes `s` for a wide-character call, appending the terminating zero.
pub fn widen(s: &str) -> (r: Vec<u16>)
    ensures
        r@ == spec_widen(s@),
{
    let mut out = utf16_encode(s);
    out.push(0u16);
    out
}

/// `s` with zero units removed from both ends.
pub open spec fn spec_trim_zeros(s: Seq<u16>) -> Seq<u16> {
    spec_trim_end_zeros(spec_trim_start_zeros(s))
}

/// `s` with leading zero units removed.
pub open spec fn spec_trim_start_zeros(s: Seq<u16>) -> Seq<u16>
    decreases s.len(),
{
    if s.len() > 0 && s[0] == 0 {
        spec_trim_start_zeros(s.drop_first())
    } else {
        s
    }
}

/// `s` with trailing zero units removed.
pub open spec fn spec_trim_end_zeros(s: Seq<u16>) -> Seq<u16>
    decreases s.len(),
{
    if s.len() > 0 && s.last() == 0 {
        spec_trim_end_zeros(s.drop_last())
    } else {
        s
    }
}

/// Decodes a wide-character buffer back into text, ignoring the zero
/// padding around it.
pub fn unwiden(s: &[u16]) -> (r: String)
    ensures
        r@ == spec_utf16_decode(spec_trim_zeros(s@)),
{
    let n = s.len();
    proof {
        assert(s@.skip(0) =~= s@);
    }
    let mut a: usize = 0;
    while a < n && s[a] == 0
        invariant
            0 <= a <= n == s@.len(),
            spec_trim_start_zeros(s@) == spec_trim_start_zeros(s@.skip(a as int)),
        decreases n - a,
    {
        proof {
            let t = s@.skip(a as int);
            assert(t[0] == s@[a as int]);
            assert(t.drop_first() =~= s@.skip(a as int + 1));
        }
        a = a + 1;
    }
    proof {
        let t = s@.skip(a as int);
        if t.len() > 0 {
            assert(t[0] == s@[a as int]);
        }
        assert(spec_trim_start_zeros(s@) == t);
        assert(s@.skip(a as int) =~= s@.subrange(a as int, n as int));
    }
    let mut b: usize = n;
    while b > a && s[b - 1] == 0
        invariant
            0 <= a <= b <= n == s@.len(),
            spec_trim_start_zeros(s@) == s@.subrange(a as int, n as int),
            spec_trim_end_zeros(s@.subrange(a as int, n as int)) == spec_trim_end_zeros(
                s@.subrange(a as int, b as int),
            ),
        decreases b,
    {
        proof {
            let t = s@.subrange(a as int, b as int);
            assert(t.last() == s@[b as int - 1]);
            assert(t.drop_last() =~= s@.subrange(a as int, b as int - 1));
        }
        b = b - 1;
    }
    proof {
        let t = s@.subrange(a as int, b as int);
        if t.len() > 0 {
            assert(t.last() == s@[b as int - 1]);
        }
        assert(spec_trim_end_zeros(t) == t);
    }
    let trimmed = vstd::slice::slice_subrange(s, a, b);
    utf16_decode(trimmed)
}

/// One filter entry on this engine's wire: the name, a NUL, the `*.` globs
/// joined by semicolons, a NUL.
pub open spec fn spec_filter_utf16_entry(f: crate::FilterView) -> Seq<char> {
    f.name + seq!['\0'] + spec_join(spec_star_patterns(f.extensions), ";"@) + seq!['\0']
}

/// The whole filter string, entries in the caller's order.
pub open spec fn spec_filter_utf16_text(fs: Seq<crate::FilterView>) -> Seq<char>
    decreases fs.len(),
{
    if fs.len() == 0 {
        Seq::empty()
    } else {
        spec_filter_utf16_text(fs.drop_last()) + spec_filter_utf16_entry(fs.last())
    }
}

/// Renders the filter as the wide-character calls take it: each entry's
/// name and semicolon-joined globs, NUL-separated, in the caller's order,
/// with the whole string widened and zero-terminated.
pub fn get_filter_utf16(filter: &[BlockingPickFilesDialogFilter]) -> (r: Vec<u16>)
    ensures
        r@ == spec_widen(spec_filter_utf16_text(crate::filters_view(filter@))),
{
    let ghost fs = crate::filters_view(filter@);
    let mut s = String::new();
    let mut i: usize = 0;
    proof {
        assert(fs.take(0) =~= Seq::<crate::FilterView>::empty());
    }
    while i < filter.len()
        invariant
            0 <= i <= filter@.len(),
            fs == crate::filters_view(filter@),
            s@ == spec_filter_utf16_text(fs.take(i as int)),
        decreases filter@.len() - i,
    {
        s.append(filter[i].name);
        push_char(&mut s, '\0');
        let pats = join_patterns(filter[i].extensions, ";");
        s.append(pats.as_str());
        push_char(&mut s, '\0');
        proof {
            assert(fs.take(i as int + 1).drop_last() =~= fs.take(i as int));
            assert(fs.take(i as int + 1).last() == fs[i as int]);
            assert(fs[i as int] == filter@[i as int]@);
            assert(s@ =~= spec_filter_utf16_text(fs.take(i as int)) + spec_filter_utf16_entry(
                fs[i as int],
            ));
        }
        i = i + 1;
    }
    proof {
        assert(fs.take(filter@.len() as int) =~= fs);
    }
    widen(s.as_str())
}

/// The filled save buffer: the default filename's UTF-16 units, then zero
/// padding out to the buffer's capacity.
pub open spec fn spec_prepare_save_buffer(f: Seq<char>, capacity: nat) -> Seq<u16> {
    spec_utf16_encode(f) + Seq::new((capacity - spec_utf16_encode(f).len()) as nat, |i: int| 0u16)
}

/// Builds the pre-zeroed, fixed-capacity buffer a save dialog fills in
/// place, with the default filename written at the front. The filename must
/// fit strictly inside the capacity, leaving room for its terminator, and
/// pre-zeroing is what makes the terminator detectable afterwards.
pub fn prepare_save_buffer(default_filename: Option<&str>, capacity: usize) -> (r: Vec<u16>)
    requires
        (match default_filename {
            Some(name) => spec_utf16_encode(name@).len() < capacity as nat,
            None => capacity > 0,
        }),
    ensures
        r@ == spec_prepare_save_buffer(
            (match default_filename {
                Some(name) => name@,
                None => Seq::<char>::empty(),
            }),
            capacity as nat,
        ),
        r@.len() == capacity,
{
    let ghost f = match default_filename {
        Some(name) => name@,
        None => Seq::<char>::empty(),
    };
    let mut buf = match default_filename {
        Some(name) => utf16_encode(name),
        None => Vec::new(),
    };
    let ghost enc = spec_utf16_encode(f);
    proof {
        if default_filename is None {
            assert(spec_utf16_encode(Seq::<char>::empty()) =~= Seq::<u16>::empty());
        }
        assert(buf@ == enc);
    }
    while buf.len() < capacity
        invariant
            enc == spec_utf16_encode(f),
            enc.len() <= buf@.len() <= capacity,
            buf@.take(enc.len() as int) == enc,
            forall|j: int| enc.len() <= j < buf@.len() ==> buf@[j] == 0,
        decreases capacity - buf@.len(),
    {
        let ghost prev = buf@;
        buf.push(0u16);
        proof {
            assert(buf@.take(enc.len() as int) =~= prev.take(enc.len() as int));
        }
    }
    proof {
        assert(buf@ =~= spec_prepare_save_buffer(f, capacity as nat));
    }
    buf
}

/// The index of the first zero unit, or the length when there is none.
pub open spec fn spec_first_zero(b: Seq<u16>) -> int
    decreases b.len(),
{
    if b.len() == 0 {
        0
    } else if b[0] == 0 {
        0
    } else {
        1 + spec_first_zero(b.drop_first())
    }
}

/// The first zero unit sits right where the zero-free prefix ends.
pub proof fn lemma_first_zero_at(b: Seq<u16>, i: int)
    requires
        0 <= i <= b.len(),
        forall|j: int| 0 <= j < i ==> b[j] != 0,
        i < b.len() ==> b[i] == 0,
    ensures
        spec_first_zero(b) == i,
    decreases i,
{
    if i == 0 {
    } else {
        lemma_first_zero_at(b.drop_first(), i - 1);
    }
}

/// The text a filled buffer holds: everything before the first zero unit,
/// decoded.
pub open spec fn spec_extract_buffer_path(b: Seq<u16>) -> Seq<char> {
    spec_utf16_decode(b.take(spec_first_zero(b)))
}

/// Reads the path a native call left in a wide-character buffer: the units
/// up to the first zero terminator, decoded.
pub fn extract_buffer_path(buffer: &[u16]) -> (r: String)
    ensures
        r@ == spec_extract_buffer_path(buffer@),
{
    let n = buffer.len();
    let mut e: usize = 0;
    while e < n && buffer[e] != 0
        invariant
            0 <= e <= n == buffer@.len(),
            forall|j: int| 0 <= j < e ==> buffer@[j] != 0,
        decreases n - e,
    {
        e = e + 1;
    }
    proof {
        lemma_first_zero_at(buffer@, e as int);
    }
    let prefix = vstd::slice::slice_subrange(buffer, 0, e);
    utf16_decode(prefix)
}

/// Law: the fixed-buffer round trip is lossless. Writing a NUL-free
/// default filename that fits strictly inside the buffer, then extracting
/// the text up to the terminator, returns exactly that filename, with no
/// trailing buffer garbage.
pub proof fn lemma_save_buffer_round_trip(f: Seq<char>, capacity: nat)
    requires
        forall|i: int| 0 <= i < f.len() ==> f[i] != '\0',
        spec_utf16_encode(f).len() < capacity,
    ensures
        spec_extract_buffer_path(spec_prepare_save_buffer(f, capacity)) == f,
{
    let e = spec_utf16_encode(f);
    let b = spec_prepare_save_buffer(f, capacity);
    lemma_utf16_encode_no_zero_unit(f);
    assert(forall|j: int| 0 <= j < e.len() ==> b[j] == e[j] && b[j] != 0);
    assert(b[e.len() as int] == 0);
    lemma_first_zero_at(b, e.len() as int);
    assert(b.take(e.len() as int) =~= e);
    lemma_utf16_decode_encode(f);
}

/// Normalizes a folder-browser call: the shell hands back an item list
/// only when the user chose a folder, and the path lookup for it can still
/// fail; only when both succeeded is the buffer's content the result.
/// Cancellation and an unresolvable item are both the absent value, never
/// an error and never an empty-string path read from a stale buffer.
pub fn browse_folder_outcome(item_returned: bool, path_resolved: bool, buffer: &[u16]) -> (r:
    Option<String>)
    ensures
        !item_returned ==> r is None,
        item_returned && !path_resolved ==> r is None,
        item_returned && path_resolved ==> (r matches Some(p) && p@ == spec_utf16_decode(
            spec_trim_zeros(buffer@),
        )),
{
    if item_returned && path_resolved {
        Some(unwiden(buffer))
    } else {
        None
    }
}

/// Normalizes an open-file call: the buffer is read only when the call
/// reported acceptance — a cancelled dialog is the empty selection, never
/// whatever the buffer happens to hold.
pub fn open_file_outcome(accepted: bool, buffer: &[u16]) -> (r: Vec<String>)
    ensures
        accepted ==> strings_view(r@) == spec_buffer_multi_select(buffer@),
        !accepted ==> r@ == Seq::<String>::empty(),
{
    if accepted {
        parse_multi_select(buffer)
    } else {
        let r: Vec<String> = Vec::new();
        proof {
            assert(r@ =~= Seq::<String>::empty());
        }
        r
    }
}

/// Normalizes a save-file call: the buffer's terminated prefix is the
/// chosen path only when the call reported acceptance; a cancelled dialog
/// is the absent value.
pub fn save_dialog_outcome(accepted: bool, buffer: &[u16]) -> (r: Option<String>)
    ensures
        accepted ==> (r matches Some(p) && p@ == spec_extract_buffer_path(buffer@)),
        !accepted ==> r is None,
{
    if accepted {
        Some(extract_buffer_path(buffer))
    } else {
        None
    }
}

/// The units of `b` before the first zero, then the splits of what follows
/// it; one element per zero unit plus one.
pub open spec fn spec_split_units(b: Seq<u16>) -> Seq<Seq<u16>>
    decreases b.len(),
{
    if b.len() == 0 {
        seq![Seq::<u16>::empty()]
    } else if b[0] == 0 {
        seq![Seq::<u16>::empty()] + spec_split_units(b.drop_first())
    } else {
        let r = spec_split_units(b.drop_first());
        seq![seq![b[0]] + r[0]] + r.drop_first()
    }
}

/// A sequence free of zero units splits into exactly itself.
proof fn lemma_split_units_no_zero(b: Seq<u16>)
    requires
        forall|i: int| 0 <= i < b.len() ==> b[i] != 0,
    ensures
        spec_split_units(b) =~~= seq![b],
    decreases b.len(),
{
    if b.len() > 0 {
        lemma_split_units_no_zero(b.drop_first());
        assert(seq![b[0]] + b.drop_first() =~= b);
    }
}

/// Splitting `a + [0] + rest` where `a` is zero-free yields `a` followed by
/// the splits of `rest`.
proof fn lemma_split_units_append(a: Seq<u16>, rest: Seq<u16>)
    requires
        forall|i: int| 0 <= i < a.len() ==> a[i] != 0,
    ensures
        spec_split_units(a + seq![0u16] + rest) =~~= seq![a] + spec_split_units(rest),
    decreases a.len(),
{
    let s = a + seq![0u16] + rest;
    if a.len() == 0 {
        assert(s =~= seq![0u16] + rest);
        assert(s.drop_first() =~= rest);
    } else {
        lemma_split_units_append(a.drop_first(), rest);
        assert(s.drop_first() =~= a.drop_first() + seq![0u16] + rest);
        let r = spec_split_units(s.drop_first());
        assert(r[0] == a.drop_first());
        assert(seq![s[0]] + r[0] =~= a);
        assert(r.drop_first() =~= spec_split_units(rest));
    }
}

/// The views of a sequence of unit vectors.
pub open spec fn unit_vecs_view(v: Seq<Vec<u16>>) -> Seq<Seq<u16>> {
    v.map_values(|p: Vec<u16>| p@)
}

/// `b` cut at every zero unit, in order.
fn split_units(b: &[u16]) -> (r: Vec<Vec<u16>>)
    ensures
        unit_vecs_view(r@) == spec_split_units(b@),
{
    let n = b.len();
    proof {
        assert(b@.skip(0) =~= b@);
        assert(unit_vecs_view(Seq::<Vec<u16>>::empty()) =~= Seq::<Seq<u16>>::empty());
    }
    let mut parts: Vec<Vec<u16>> = Vec::new();
    let mut start: usize = 0;
    let mut i: usize = 0;
    while i < n
        invariant
            0 <= start <= i <= n == b@.len(),
            forall|j: int| start <= j < i ==> b@[j] != 0,
            unit_vecs_view(parts@) + spec_split_units(b@.skip(start as int)) =~~= spec_split_units(
                b@,
            ),
        decreases n - i,
    {
        if b[i] == 0 {
            let part = vstd::slice::slice_to_vec(vstd::slice::slice_subrange(b, start, i));
            let ghost old_parts = parts@;
            parts.push(part);
            proof {
                let a = b@.subrange(start as int, i as int);
                let rest = b@.skip(i as int + 1);
                assert(forall|k: int| 0 <= k < a.len() ==> a[k] == b@[start as int + k]);
                lemma_split_units_append(a, rest);
                assert(b@.skip(start as int) =~= a + seq![0u16] + rest);
                assert(unit_vecs_view(parts@) =~~= unit_vecs_view(old_parts).push(a));
            }
            start = i + 1;
        }
        i = i + 1;
    }
    let part = vstd::slice::slice_to_vec(vstd::slice::slice_subrange(b, start, n));
    let ghost old_parts = parts@;
    parts.push(part);
    proof {
        let a = b@.subrange(start as int, n as int);
        assert(b@.skip(start as int) =~= a);
        assert(forall|k: int| 0 <= k < a.len() ==> a[k] == b@[start as int + k]);
        lemma_split_units_no_zero(a);
        assert(unit_vecs_view(parts@) =~~= unit_vecs_view(old_parts).push(a));
        assert(unit_vecs_view(parts@) =~~= spec_split_units(b@));
    }
    parts
}

/// The non-empty unit runs, each decoded: the strings a NUL-separated
/// buffer holds, in order.
pub open spec fn spec_decoded_parts(ps: Seq<Seq<u16>>) -> Seq<Seq<char>>
    decreases ps.len(),
{
    if ps.len() == 0 {
        Seq::empty()
    } else {
        spec_decoded_parts(ps.drop_last()) + (if ps.last().len() > 0 {
            seq![spec_utf16_decode(ps.last())]
        } else {
            Seq::<Seq<char>>::empty()
        })
    }
}

/// What a multi-select buffer parses to. The legacy format concatenates
/// NUL-separated strings, ended by a double NUL: a single string is the one
/// chosen path; several are a common directory followed by filenames, each
/// joined to the directory; none is no selection.
pub open spec fn spec_buffer_multi_select(b: Seq<u16>) -> Seq<Seq<char>> {
    let parts = spec_decoded_parts(spec_split_units(b));
    if parts.len() <= 1 {
        parts
    } else {
        parts.drop_first().map_values(|f: Seq<char>| parts[0] + "\\"@ + f)
    }
}

/// Parses the buffer a multi-select dialog filled: the NUL-separated
/// strings up to the double-NUL terminator, with several strings read as a
/// directory followed by filenames joined to it. An untouched (all-zero)
/// buffer parses to no selection.
pub fn parse_multi_select(buffer: &[u16]) -> (r: Vec<String>)
    ensures
        strings_view(r@) == spec_buffer_multi_select(buffer@),
{
    let raw = split_units(buffer);
    let ghost rawv = unit_vecs_view(raw@);
    let mut parts: Vec<String> = Vec::new();
    let mut i: usize = 0;
    proof {
        assert(rawv.take(0) =~= Seq::<Seq<u16>>::empty());
        assert(strings_view(Seq::<String>::empty()) =~= Seq::<Seq<char>>::empty());
    }
    while i < raw.len()
        invariant
            0 <= i <= raw@.len(),
            rawv == unit_vecs_view(raw@),
            strings_view(parts@) =~~= spec_decoded_parts(rawv.take(i as int)),
        decreases raw@.len() - i,
    {
        proof {
            assert(rawv.take(i as int + 1).drop_last() =~= rawv.take(i as int));
            assert(rawv.take(i as int + 1).last() == rawv[i as int]);
            assert(rawv[i as int] == raw@[i as int]@);
        }
        if raw[i].len() > 0 {
            let ghost old_parts = parts@;
            parts.push(utf16_decode(raw[i].as_slice()));
            proof {
                lemma_strings_view_push(old_parts, parts@[old_parts.len() as int]);
            }
        }
        i = i + 1;
    }
    proof {
        assert(rawv.take(raw@.len() as int) =~= rawv);
    }
    if parts.len() <= 1 {
        parts
    } else {
        let ghost all = strings_view(parts@);
        let ghost expected = all.drop_first().map_values(|f: Seq<char>| all[0] + "\\"@ + f);
        let mut out: Vec<String> = Vec::new();
        let mut j: usize = 1;
        proof {
            assert(expected.take(0) =~= Seq::<Seq<char>>::empty());
            assert(strings_view(Seq::<String>::empty()) =~= Seq::<Seq<char>>::empty());
        }
        while j < parts.len()
            invariant
                1 <= j <= parts@.len(),
                all == strings_view(parts@),
                expected == all.drop_first().map_values(|f: Seq<char>| all[0] + "\\"@ + f),
                strings_view(out@) =~~= expected.take(j as int - 1),
            decreases parts@.len() - j,
        {
            let mut q = String::new();
            q.append(parts[0].as_str());
            q.append("\\");
            q.append(parts[j].as_str());
            let ghost old_out = out@;
            out.push(q);
            proof {
                lemma_strings_view_push(old_out, out@[old_out.len() as int]);
                assert(expected.take(j as int).drop_last() =~= expected.take(j as int - 1));
                assert(expected[j as int - 1] == all[0] + "\\"@ + all[j as int]);
                assert(strings_view(out@) =~~= expected.take(j as int));
            }
            j = j + 1;
        }
        proof {
            assert(expected.take(parts@.len() as int - 1) =~= expected);
        }
        out
    }
}

} // verus!
