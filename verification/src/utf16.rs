//! A verified model of UTF-16, the wire format of the system-shell-dialog
//! engine's wide-character buffers.
//!
//! Encoding maps each character below `0x10000` to one unit and every other
//! character to a surrogate pair; decoding is total, replacing unpaired
//! surrogates with the replacement character, and inverts encoding — the
//! fixed-buffer round trip of the save dialog rests on that law.

use vstd::prelude::*;

use vstd::arithmetic::div_mod::lemma_fundamental_div_mod;
use vstd::utf8::char_is_scalar;
use vstd::utf8::char_u32_cast;
use vstd::utf8::is_scalar;

verus! {

/// Whether `u` is a high (leading) surrogate unit.
pub open spec fn spec_is_high_surrogate(u: u16) -> bool {
    0xD800 <= u < 0xDC00
}

/// Whether `u` is a low (trailing) surrogate unit.
pub open spec fn spec_is_low_surrogate(u: u16) -> bool {
    0xDC00 <= u < 0xE000
}

/// The UTF-16 units of the scalar value `v`: itself when it fits one unit,
/// else its surrogate pair.
pub open spec fn spec_utf16_encode_char(v: u32) -> Seq<u16>
    recommends
        is_scalar(v),
{
    if v < 0x10000 {
        seq![v as u16]
    } else {
        seq![
            ((0xD800 + (v - 0x10000) / 0x400) as u16),
            ((0xDC00 + (v - 0x10000) % 0x400) as u16),
        ]
    }
}

/// The UTF-16 encoding of a character sequence.
pub open spec fn spec_utf16_encode(s: Seq<char>) -> Seq<u16>
    decreases s.len(),
{
    if s.len() == 0 {
        Seq::empty()
    } else {
        spec_utf16_encode_char(s[0] as u32) + spec_utf16_encode(s.drop_first())
    }
}

/// The scalar value a surrogate pair stands for.
pub open spec fn spec_combine_surrogates(hi: u16, lo: u16) -> u32
    recommends
        spec_is_high_surrogate(hi),
        spec_is_low_surrogate(lo),
{
    ((0x10000 + (hi - 0xD800) * 0x400 + (lo - 0xDC00)) as u32)
}

/// The characters of a UTF-16 unit sequence: a non-surrogate unit is its
/// own character, a high surrogate followed by a low one is their combined
/// character, and any unpaired surrogate decodes to the replacement
/// character.
pub open spec fn spec_utf16_decode(s: Seq<u16>) -> Seq<char>
    decreases s.len(),
{
    if s.len() == 0 {
        Seq::empty()
    } else if !spec_is_high_surrogate(s[0]) && !spec_is_low_surrogate(s[0]) {
        seq![((s[0] as u32) as char)] + spec_utf16_decode(s.drop_first())
    } else if spec_is_high_surrogate(s[0]) && s.len() >= 2 && spec_is_low_surrogate(s[1]) {
        seq![(spec_combine_surrogates(s[0], s[1]) as char)] + spec_utf16_decode(s.skip(2))
    } else {
        seq!['\u{FFFD}'] + spec_utf16_decode(s.drop_first())
    }
}

/// The surrogate pair of a scalar value at or above `0x10000` is a high
/// surrogate followed by a low one, and combining recovers the value.
proof fn lemma_surrogate_pair(v: u32)
    requires
        is_scalar(v),
        v >= 0x10000,
    ensures
        spec_is_high_surrogate((0xD800 + (v - 0x10000) / 0x400) as u16),
        spec_is_low_surrogate((0xDC00 + (v - 0x10000) % 0x400) as u16),
        spec_combine_surrogates(
            (0xD800 + (v - 0x10000) / 0x400) as u16,
            (0xDC00 + (v - 0x10000) % 0x400) as u16,
        ) == v,
{
    let w = v - 0x10000;
    lemma_fundamental_div_mod(w as int, 0x400);
    assert(0 <= w % 0x400 < 0x400);
    assert(0x400 * (w / 0x400) == w - w % 0x400);
    assert(0 <= w / 0x400 <= 0x3FF);
}

/// Encoding distributes over concatenation.
pub proof fn lemma_utf16_encode_concat(a: Seq<char>, b: Seq<char>)
    ensures
        spec_utf16_encode(a + b) == spec_utf16_encode(a) + spec_utf16_encode(b),
    decreases a.len(),
{
    if a.len() == 0 {
        assert(a + b =~= b);
        assert(spec_utf16_encode(a) + spec_utf16_encode(b) =~= spec_utf16_encode(b));
    } else {
        lemma_utf16_encode_concat(a.drop_first(), b);
        assert((a + b).drop_first() =~= a.drop_first() + b);
        assert((a + b)[0] == a[0]);
        assert(spec_utf16_encode_char(a[0] as u32) + (spec_utf16_encode(a.drop_first())
            + spec_utf16_encode(b)) =~= (spec_utf16_encode_char(a[0] as u32) + spec_utf16_encode(
            a.drop_first(),
        )) + spec_utf16_encode(b));
    }
}

/// Law: decoding inverts encoding — every character sequence survives the
/// UTF-16 round trip unchanged.
pub proof fn lemma_utf16_decode_encode(s: Seq<char>)
    ensures
        spec_utf16_decode(spec_utf16_encode(s)) == s,
    decreases s.len(),
{
    if s.len() > 0 {
        let c = s[0];
        let v = c as u32;
        char_is_scalar(c);
        char_u32_cast(c, v);
        let e = spec_utf16_encode_char(v);
        let rest = spec_utf16_encode(s.drop_first());
        lemma_utf16_decode_encode(s.drop_first());
        assert(spec_utf16_encode(s) == e + rest);
        if v < 0x10000 {
            let u = (v as u16);
            assert((e + rest)[0] == u);
            assert((e + rest).drop_first() =~= rest);
            assert(u as u32 == v);
            assert(!spec_is_high_surrogate(u) && !spec_is_low_surrogate(u));
            assert(spec_utf16_decode(e + rest) == seq![c] + s.drop_first());
        } else {
            lemma_surrogate_pair(v);
            let hi = ((0xD800 + (v - 0x10000) / 0x400) as u16);
            let lo = ((0xDC00 + (v - 0x10000) % 0x400) as u16);
            assert((e + rest)[0] == hi);
            assert((e + rest)[1] == lo);
            assert((e + rest).skip(2) =~= rest);
            assert(spec_utf16_decode(e + rest) == seq![c] + s.drop_first());
        }
        assert(seq![c] + s.drop_first() =~= s);
    }
}

/// The encoding of text free of the NUL character holds no zero unit, so a
/// zero unit in a buffer always marks the end of the written text.
pub proof fn lemma_utf16_encode_no_zero_unit(s: Seq<char>)
    requires
        forall|i: int| 0 <= i < s.len() ==> s[i] != '\0',
    ensures
        forall|j: int|
            0 <= j < spec_utf16_encode(s).len() ==> #[trigger] spec_utf16_encode(s)[j] != 0,
    decreases s.len(),
{
    if s.len() > 0 {
        let c = s[0];
        let v = c as u32;
        char_is_scalar(c);
        char_u32_cast(c, v);
        assert('\0' as u32 == 0);
        assert(v != 0) by {
            if v == 0 {
                char_u32_cast('\0', 0);
            }
        }
        let e = spec_utf16_encode_char(v);
        let rest = spec_utf16_encode(s.drop_first());
        lemma_utf16_encode_no_zero_unit(s.drop_first());
        if v >= 0x10000 {
            lemma_surrogate_pair(v);
        }
        assert(forall|j: int| 0 <= j < e.len() ==> #[trigger] e[j] != 0);
        assert(spec_utf16_encode(s) == e + rest);
        assert(forall|j: int|
            0 <= j < spec_utf16_encode(s).len() ==> #[trigger] spec_utf16_encode(s)[j] != 0);
    }
}

/// Relies on `char::from_u32`: returns the character with the given code
/// exactly when the code is a Unicode scalar value (not a surrogate, at
/// most `0x10FFFF`), and `None` otherwise.
#[verifier::external_body]
fn char_from_u32(v: u32) -> (r: Option<char>)
    ensures
        r is Some <==> is_scalar(v),
        (r matches Some(c) ==> c as u32 == v),
{
    char::from_u32(v)
}

/// Relies on `String::push`: appends the given character to the end of the
/// string.
#[verifier::external_body]
pub(crate) fn push_char(s: &mut String, c: char)
    ensures
        final(s)@ == old(s)@.push(c),
{
    s.push(c);
}

/// Encodes `s` as UTF-16 units.
pub fn utf16_encode(s: &str) -> (r: Vec<u16>)
    ensures
        r@ == spec_utf16_encode(s@),
{
    let n = s.unicode_len();
    let mut out: Vec<u16> = Vec::new();
    let mut i: usize = 0;
    proof {
        assert(s@.take(0) =~= Seq::<char>::empty());
    }
    while i < n
        invariant
            0 <= i <= n == s@.len(),
            out@ == spec_utf16_encode(s@.take(i as int)),
        decreases n - i,
    {
        let c = s.get_char(i);
        let v = c as u32;
        let ghost before = out@;
        proof {
            char_is_scalar(c);
        }
        if v < 0x10000 {
            out.push(v as u16);
        } else {
            proof {
                lemma_surrogate_pair(v);
            }
            let hi: u32 = 0xD800 + (v - 0x10000) / 0x400;
            let lo: u32 = 0xDC00 + (v - 0x10000) % 0x400;
            out.push(hi as u16);
            out.push(lo as u16);
        }
        proof {
            assert(out@ =~= before + spec_utf16_encode_char(v));
            lemma_utf16_encode_concat(s@.take(i as int), seq![c]);
            assert(s@.take(i as int + 1) =~= s@.take(i as int) + seq![c]);
            assert(seq![c].drop_first() =~= Seq::<char>::empty());
            assert(spec_utf16_encode(Seq::<char>::empty()) =~= Seq::<u16>::empty());
            assert(spec_utf16_encode(seq![c]) =~= spec_utf16_encode_char(v));
        }
        i = i + 1;
    }
    proof {
        assert(s@.take(n as int) =~= s@);
    }
    out
}

/// Decodes UTF-16 units into text, replacing unpaired surrogates with the
/// replacement character.
pub fn utf16_decode(s: &[u16]) -> (r: String)
    ensures
        r@ == spec_utf16_decode(s@),
{
    let n = s.len();
    let mut out = String::new();
    let mut i: usize = 0;
    proof {
        assert(s@.skip(0) =~= s@);
    }
    while i < n
        invariant
            0 <= i <= n == s@.len(),
            out@ + spec_utf16_decode(s@.skip(i as int)) == spec_utf16_decode(s@),
        decreases n - i,
    {
        let u = s[i];
        let ghost t = s@.skip(i as int);
        proof {
            assert(t[0] == s@[i as int]);
            assert(t.drop_first() =~= s@.skip(i as int + 1));
        }
        if u < 0xD800 || u >= 0xE000 {
            match char_from_u32(u as u32) {
                Some(c) => {
                    push_char(&mut out, c);
                    proof {
                        char_u32_cast(c, u as u32);
                        assert(spec_utf16_decode(t) == seq![((t[0] as u32) as char)]
                            + spec_utf16_decode(t.drop_first()));
                        assert(out@ + spec_utf16_decode(s@.skip(i as int + 1)) =~= spec_utf16_decode(
                            s@,
                        ));
                    }
                },
                None => {
                    proof {
                        assert(false);
                    }
                },
            }
            i = i + 1;
        } else if u < 0xDC00 && i + 1 < n && s[i + 1] >= 0xDC00 && s[i + 1] < 0xE000 {
            let lo = s[i + 1];
            let v: u32 = 0x10000 + ((u - 0xD800) as u32) * 0x400 + ((lo - 0xDC00) as u32);
            proof {
                assert(t[1] == s@[i as int + 1]);
                assert(t.skip(2) =~= s@.skip(i as int + 2));
                assert(v == spec_combine_surrogates(u, lo));
            }
            match char_from_u32(v) {
                Some(c) => {
                    push_char(&mut out, c);
                    proof {
                        char_u32_cast(c, v);
                        assert(spec_utf16_decode(t) == seq![(spec_combine_surrogates(t[0], t[1])
                            as char)] + spec_utf16_decode(t.skip(2)));
                        assert(out@ + spec_utf16_decode(s@.skip(i as int + 2)) =~= spec_utf16_decode(
                            s@,
                        ));
                    }
                },
                None => {
                    proof {
                        assert(false);
                    }
                },
            }
            i = i + 2;
        } else {
            push_char(&mut out, '\u{FFFD}');
            proof {
                assert(spec_utf16_decode(t) == seq!['\u{FFFD}'] + spec_utf16_decode(
                    t.drop_first(),
                ));
                assert(out@ + spec_utf16_decode(s@.skip(i as int + 1)) =~= spec_utf16_decode(s@));
            }
            i = i + 1;
        }
    }
    proof {
        assert(s@.skip(n as int) =~= Seq::<u16>::empty());
        assert(out@ =~= spec_utf16_decode(s@));
    }
    out
}

} // verus!
