//! Text utilities shared by the engines: whitespace trimming, delimiter
//! splitting and joining, over `Seq<char>` models of strings.
//!
//! The subprocess engine's whole correctness surface is how a tool's
//! standard output is cut into paths, so these functions carry exact
//! contracts: trimming and splitting are specified recursively, and the
//! lemmas here relate them to joining, which the round-trip law of the
//! multi-select parser rests on.

use vstd::prelude::*;

verus! {

/// The whitespace characters trimmed from tool output: the blank, tab,
/// newline and carriage return.
pub open spec fn spec_is_ws(c: char) -> bool {
    c == ' ' || c == '\n' || c == '\t' || c == '\r'
}

/// Whether `c` is trimmed as whitespace.
pub fn is_ws_char(c: char) -> (r: bool)
    ensures
        r == spec_is_ws(c),
{
    c == ' ' || c == '\n' || c == '\t' || c == '\r'
}

/// `s` with leading whitespace removed.
pub open spec fn spec_trim_start(s: Seq<char>) -> Seq<char>
    decreases s.len(),
{
    if s.len() > 0 && spec_is_ws(s[0]) {
        spec_trim_start(s.drop_first())
    } else {
        s
    }
}

/// `s` with trailing whitespace removed.
pub open spec fn spec_trim_end(s: Seq<char>) -> Seq<char>
    decreases s.len(),
{
    if s.len() > 0 && spec_is_ws(s.last()) {
        spec_trim_end(s.drop_last())
    } else {
        s
    }
}

/// `s` with whitespace removed from both ends.
pub open spec fn spec_trim(s: Seq<char>) -> Seq<char> {
    spec_trim_end(spec_trim_start(s))
}

/// A sequence without whitespace at either end is its own trim.
pub proof fn lemma_trim_of_trimmed(s: Seq<char>)
    requires
        s.len() > 0 ==> !spec_is_ws(s[0]) && !spec_is_ws(s.last()),
    ensures
        spec_trim(s) == s,
{
}

/// The characters of `s` before the first `d`, then the splits of what
/// follows it; one element per delimiter plus one, so never empty, and the
/// empty sequence splits into one empty element.
pub open spec fn spec_split(s: Seq<char>, d: char) -> Seq<Seq<char>>
    decreases s.len(),
{
    if s.len() == 0 {
        seq![Seq::<char>::empty()]
    } else if s[0] == d {
        seq![Seq::<char>::empty()] + spec_split(s.drop_first(), d)
    } else {
        let r = spec_split(s.drop_first(), d);
        seq![seq![s[0]] + r[0]] + r.drop_first()
    }
}

/// A sequence free of the delimiter splits into exactly itself.
pub proof fn lemma_split_no_delim(s: Seq<char>, d: char)
    requires
        forall|i: int| 0 <= i < s.len() ==> s[i] != d,
    ensures
        spec_split(s, d) =~~= seq![s],
    decreases s.len(),
{
    if s.len() > 0 {
        lemma_split_no_delim(s.drop_first(), d);
        assert(seq![s[0]] + s.drop_first() =~= s);
    }
}

/// Splitting `a + [d] + b` where `a` is free of the delimiter yields `a`
/// followed by the splits of `b`.
pub proof fn lemma_split_append_delim(a: Seq<char>, b: Seq<char>, d: char)
    requires
        forall|i: int| 0 <= i < a.len() ==> a[i] != d,
    ensures
        spec_split(a + seq![d] + b, d) =~~= seq![a] + spec_split(b, d),
    decreases a.len(),
{
    let s = a + seq![d] + b;
    if a.len() == 0 {
        assert(s =~= seq![d] + b);
        assert(s.drop_first() =~= b);
    } else {
        lemma_split_append_delim(a.drop_first(), b, d);
        assert(s.drop_first() =~= a.drop_first() + seq![d] + b);
        let r = spec_split(s.drop_first(), d);
        assert(r[0] == a.drop_first());
        assert(seq![s[0]] + r[0] =~= a);
        assert(r.drop_first() =~= spec_split(b, d));
    }
}

/// The elements of `parts` in order, separated by `sep`.
pub open spec fn spec_join(parts: Seq<Seq<char>>, sep: Seq<char>) -> Seq<char>
    decreases parts.len(),
{
    if parts.len() == 0 {
        Seq::empty()
    } else if parts.len() == 1 {
        parts[0]
    } else {
        spec_join(parts.drop_last(), sep) + sep + parts.last()
    }
}

/// Splitting a joined sequence recovers the parts, provided no part holds
/// the delimiter.
pub proof fn lemma_split_join(parts: Seq<Seq<char>>, d: char)
    requires
        parts.len() >= 1,
        forall|i: int, j: int|
            0 <= i < parts.len() && 0 <= j < parts[i].len() ==> #[trigger] parts[i][j] != d,
    ensures
        spec_split(spec_join(parts, seq![d]), d) =~~= parts,
    decreases parts.len(),
{
    if parts.len() == 1 {
        lemma_split_no_delim(parts[0], d);
        assert(spec_join(parts, seq![d]) == parts[0]);
        assert(seq![parts[0]] =~= parts);
    } else {
        lemma_split_join(parts.drop_first(), d);
        lemma_join_unfold_first(parts, seq![d]);
        lemma_split_append_delim(parts[0], spec_join(parts.drop_first(), seq![d]), d);
        assert(seq![parts[0]] + parts.drop_first() =~= parts);
    }
}

/// Joining also unfolds at the front: the first part, the separator, then
/// the join of the rest.
pub proof fn lemma_join_unfold_first(parts: Seq<Seq<char>>, sep: Seq<char>)
    requires
        parts.len() >= 2,
    ensures
        spec_join(parts, sep) =~= parts[0] + sep + spec_join(parts.drop_first(), sep),
    decreases parts.len(),
{
    let rest = parts.drop_first();
    if parts.len() == 2 {
        assert(parts.drop_last() =~= seq![parts[0]]);
        assert(rest =~= seq![parts[1]]);
        assert(spec_join(parts.drop_last(), sep) == parts[0]);
        assert(spec_join(rest, sep) == parts[1]);
    } else {
        lemma_join_unfold_first(parts.drop_last(), sep);
        assert(parts.drop_last().drop_first() =~= rest.drop_last());
        assert(parts.drop_last()[0] == parts[0]);
        assert(rest.last() == parts.last());
        let x = parts[0];
        let y = spec_join(rest.drop_last(), sep);
        let z = parts.last();
        assert(spec_join(parts.drop_last(), sep) == x + sep + y);
        assert(spec_join(parts, sep) == (x + sep + y) + sep + z);
        assert(spec_join(rest, sep) == y + sep + z);
        assert((x + sep + y) + sep + z =~= x + sep + (y + sep + z));
    }
}

/// The views of a sequence of strings.
pub open spec fn strings_view(v: Seq<String>) -> Seq<Seq<char>> {
    v.map_values(|s: String| s@)
}

/// The views of a sequence of string slices.
pub open spec fn strs_view(v: Seq<&str>) -> Seq<Seq<char>> {
    v.map_values(|s: &str| s@)
}

/// Each extension turned into a `*.` glob pattern.
pub open spec fn spec_star_patterns(exts: Seq<Seq<char>>) -> Seq<Seq<char>> {
    exts.map_values(|e: Seq<char>| "*."@ + e)
}

/// The extensions as `*.` glob patterns joined by `sep`, the shape every
/// engine renders a filter entry's extensions in.
pub fn join_patterns(extensions: &[&str], sep: &str) -> (r: String)
    ensures
        r@ == spec_join(spec_star_patterns(strs_view(extensions@)), sep@),
{
    let ghost parts = spec_star_patterns(strs_view(extensions@));
    let mut out = String::new();
    let mut i: usize = 0;
    proof {
        assert(parts.take(0) =~= Seq::<Seq<char>>::empty());
    }
    while i < extensions.len()
        invariant
            0 <= i <= extensions@.len(),
            parts == spec_star_patterns(strs_view(extensions@)),
            out@ == spec_join(parts.take(i as int), sep@),
        decreases extensions@.len() - i,
    {
        let ghost before = out@;
        if i > 0 {
            out.append(sep);
        }
        out.append("*.");
        out.append(extensions[i]);
        proof {
            assert(parts.take(i as int + 1).drop_last() =~= parts.take(i as int));
            assert(parts.take(i as int + 1).last() == parts[i as int]);
            assert(parts[i as int] == "*."@ + extensions@[i as int]@);
            if i == 0 {
                assert(out@ =~= parts[0]);
                assert(spec_join(parts.take(1), sep@) == parts.take(1)[0]);
            } else {
                assert(out@ =~= spec_join(parts.take(i as int), sep@) + sep@ + parts[i as int]);
            }
        }
        i = i + 1;
    }
    proof {
        assert(parts.take(extensions@.len() as int) =~= parts);
    }
    out
}

/// `s` with whitespace removed from both ends.
pub fn trim_str<'a>(s: &'a str) -> (r: &'a str)
    ensures
        r@ == spec_trim(s@),
{
    let n = s.unicode_len();
    proof {
        assert(s@.skip(0) =~= s@);
    }
    let mut a: usize = 0;
    while a < n && is_ws_char(s.get_char(a))
        invariant
            0 <= a <= n == s@.len(),
            spec_trim_start(s@) == spec_trim_start(s@.skip(a as int)),
        decreases n - a,
    {
        proof {
            let t = s@.skip(a as int);
            assert(t[0] == s@[a as int]);
            assert(t.drop_first() =~= s@.skip(a as int + 1));
        }
        a = a + 1;
    }
    proof {
        let t = s@.skip(a as int);
        if t.len() > 0 {
            assert(t[0] == s@[a as int]);
        }
        assert(spec_trim_start(s@) == t);
        assert(s@.skip(a as int) =~= s@.subrange(a as int, n as int));
    }
    let mut b: usize = n;
    while b > a && is_ws_char(s.get_char(b - 1))
        invariant
            0 <= a <= b <= n == s@.len(),
            spec_trim_start(s@) == s@.subrange(a as int, n as int),
            spec_trim_end(s@.subrange(a as int, n as int)) == spec_trim_end(
                s@.subrange(a as int, b as int),
            ),
        decreases b,
    {
        proof {
            let t = s@.subrange(a as int, b as int);
            assert(t.last() == s@[b as int - 1]);
            assert(t.drop_last() =~= s@.subrange(a as int, b as int - 1));
        }
        b = b - 1;
    }
    proof {
        let t = s@.subrange(a as int, b as int);
        if t.len() > 0 {
            assert(t.last() == s@[b as int - 1]);
        }
        assert(spec_trim_end(t) == t);
    }
    s.substring_char(a, b)
}

/// Appending a string to a vector appends its view to the views.
pub proof fn lemma_strings_view_push(v: Seq<String>, x: String)
    ensures
        strings_view(v.push(x)) =~= strings_view(v).push(x@),
{
}

/// `s` cut at every occurrence of `d`, in order; one part per delimiter
/// plus one, so the result is never empty.
pub fn split_str(s: &str, d: char) -> (r: Vec<String>)
    ensures
        strings_view(r@) == spec_split(s@, d),
{
    let n = s.unicode_len();
    proof {
        assert(s@.skip(0) =~= s@);
        assert(strings_view(Seq::<String>::empty()) =~= Seq::<Seq<char>>::empty());
    }
    let mut parts: Vec<String> = Vec::new();
    let mut start: usize = 0;
    let mut i: usize = 0;
    while i < n
        invariant
            0 <= start <= i <= n == s@.len(),
            forall|j: int| start <= j < i ==> s@[j] != d,
            strings_view(parts@) + spec_split(s@.skip(start as int), d) =~~= spec_split(s@, d),
        decreases n - i,
    {
        if s.get_char(i) == d {
            let part = s.substring_char(start, i);
            let ghost old_parts = parts@;
            parts.push(part.to_owned());
            proof {
                let a = s@.subrange(start as int, i as int);
                let b = s@.skip(i as int + 1);
                assert(forall|k: int| 0 <= k < a.len() ==> a[k] == s@[start as int + k]);
                lemma_split_append_delim(a, b, d);
                assert(s@.skip(start as int) =~= a + seq![d] + b);
                lemma_strings_view_push(old_parts, parts@[old_parts.len() as int]);
                assert(strings_view(parts@) =~~= strings_view(old_parts).push(a));
            }
            start = i + 1;
        }
        i = i + 1;
    }
    let part = s.substring_char(start, n);
    let ghost old_parts = parts@;
    parts.push(part.to_owned());
    proof {
        let a = s@.subrange(start as int, n as int);
        assert(s@.skip(start as int) =~= a);
        assert(forall|k: int| 0 <= k < a.len() ==> a[k] == s@[start as int + k]);
        lemma_split_no_delim(a, d);
        lemma_strings_view_push(old_parts, parts@[old_parts.len() as int]);
        assert(strings_view(parts@) =~~= strings_view(old_parts).push(a));
        assert(strings_view(parts@) =~~= spec_split(s@, d));
    }
    parts
}

} // verus!
