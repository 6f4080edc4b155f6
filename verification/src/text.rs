//! Strings as sequences of characters, and their UTF-16 form.

use vstd::prelude::*;

verus! {

/// The UTF-16 code units of one character: the character itself inside the
/// basic plane, a high and a low surrogate above it.
pub open spec fn utf16_of_char(c: char) -> Seq<u16> {
    let v = c as u32 as int;
    if v < 0x10000 {
        seq![v as u16]
    } else {
        seq![(0xD800 + (v - 0x10000) / 0x400) as u16, (0xDC00 + (v - 0x10000) % 0x400) as u16]
    }
}

/// The UTF-16 code units of a sequence of characters, in order.
pub open spec fn utf16_of(s: Seq<char>) -> Seq<u16>
    decreases s.len(),
{
    if s.len() == 0 {
        Seq::empty()
    } else {
        utf16_of(s.drop_last()) + utf16_of_char(s.last())
    }
}

/// Whether `units` is the UTF-16 form of some sequence of characters.
pub open spec fn is_utf16(units: Seq<u16>) -> bool {
    exists|s: Seq<char>| utf16_of(s) == units
}

/// The characters that `units` encodes. Meaningful where `is_utf16(units)`
/// holds; `lemma_utf16_injective` shows that there is only one such sequence.
pub open spec fn utf16_decoded(units: Seq<u16>) -> Seq<char> {
    choose|s: Seq<char>| utf16_of(s) == units
}

/// Whether `unit` is a low surrogate, the second unit of a pair.
pub open spec fn is_low_surrogate(unit: u16) -> bool {
    0xDC00 <= unit <= 0xDFFF
}

/// A character is encoded in one unit or in two, and its last unit is a low
/// surrogate exactly when it takes two.
pub proof fn lemma_utf16_of_char_shape(c: char)
    ensures
        utf16_of_char(c).len() == 1 || utf16_of_char(c).len() == 2,
        is_low_surrogate(utf16_of_char(c).last()) <==> utf16_of_char(c).len() == 2,
{
    let v = c as u32 as int;
    if v >= 0x10000 {
        assert(0 <= (v - 0x10000) % 0x400 < 0x400);
    }
}

/// Two characters with the same UTF-16 form are the same character.
pub proof fn lemma_utf16_of_char_injective(c: char, d: char)
    requires
        utf16_of_char(c) == utf16_of_char(d),
    ensures
        c == d,
{
    let v = c as u32 as int;
    let w = d as u32 as int;
    let x = utf16_of_char(c);
    let y = utf16_of_char(d);
    assert(x.len() == y.len());
    if v < 0x10000 {
        assert(x.len() == 1);
        assert(w < 0x10000) by {
            if w >= 0x10000 {
                assert(y.len() == 2);
            }
        }
        assert(x[0] == v as u16 && y[0] == w as u16);
        assert(v == w);
    } else {
        assert(x.len() == 2);
        assert(w >= 0x10000) by {
            if w < 0x10000 {
                assert(y.len() == 1);
            }
        }
        assert(x[0] == y[0]);
        assert(x[1] == y[1]);
        let h = v - 0x10000;
        let k = w - 0x10000;
        assert(0 <= h / 0x400 < 0x400 && 0 <= h % 0x400 < 0x400);
        assert(0 <= k / 0x400 < 0x400 && 0 <= k % 0x400 < 0x400);
        assert(h / 0x400 == k / 0x400);
        assert(h % 0x400 == k % 0x400);
        assert(h == 0x400 * (h / 0x400) + h % 0x400);
        assert(k == 0x400 * (k / 0x400) + k % 0x400);
        assert(v == w);
    }
    assert(c as u32 == d as u32);
}

/// Two sequences of characters with the same UTF-16 form are the same
/// sequence: the encoding loses nothing.
pub proof fn lemma_utf16_injective(a: Seq<char>, b: Seq<char>)
    requires
        utf16_of(a) == utf16_of(b),
    ensures
        a == b,
    decreases a.len(),
{
    if a.len() == 0 || b.len() == 0 {
        if a.len() > 0 {
            lemma_utf16_of_char_shape(a.last());
            assert(utf16_of(a) == utf16_of(a.drop_last()) + utf16_of_char(a.last()));
            assert(utf16_of(a).len() >= 1);
        }
        if b.len() > 0 {
            lemma_utf16_of_char_shape(b.last());
            assert(utf16_of(b) == utf16_of(b.drop_last()) + utf16_of_char(b.last()));
            assert(utf16_of(b).len() >= 1);
        }
        assert(a.len() == 0 ==> utf16_of(a).len() == 0);
        assert(b.len() == 0 ==> utf16_of(b).len() == 0);
        assert(a.len() == 0 && b.len() == 0);
        assert(a =~= b);
    } else {
        let units = utf16_of(a);
        let pa = utf16_of(a.drop_last());
        let pb = utf16_of(b.drop_last());
        let ca = utf16_of_char(a.last());
        let cb = utf16_of_char(b.last());
        lemma_utf16_of_char_shape(a.last());
        lemma_utf16_of_char_shape(b.last());
        assert(units == pa + ca);
        assert(units == pb + cb);
        let n = units.len() as int;
        assert(n == pa.len() + ca.len() && n == pb.len() + cb.len());
        assert(units[n - 1] == ca[ca.len() - 1]);
        assert(units[n - 1] == cb[cb.len() - 1]);
        assert(ca.last() == cb.last());
        assert(ca.len() == cb.len());
        let cut = n - ca.len();
        assert(pa =~= units.subrange(0, cut));
        assert(pb =~= units.subrange(0, cut));
        assert(ca =~= units.subrange(cut, n));
        assert(cb =~= units.subrange(cut, n));
        lemma_utf16_of_char_injective(a.last(), b.last());
        lemma_utf16_injective(a.drop_last(), b.drop_last());
        assert(a =~= a.drop_last().push(a.last()));
        assert(b =~= b.drop_last().push(b.last()));
    }
}

/// Decoding undoes encoding.
pub proof fn lemma_utf16_round_trip(s: Seq<char>)
    ensures
        is_utf16(utf16_of(s)),
        utf16_decoded(utf16_of(s)) == s,
{
    lemma_utf16_injective(utf16_decoded(utf16_of(s)), s);
}

/// Whether `part` stands in `text` at index `i`.
pub open spec fn occurs_at(text: Seq<char>, part: Seq<char>, i: int) -> bool {
    0 <= i && i + part.len() <= text.len() && text.subrange(i, i + part.len()) == part
}

/// Whether `part` stands somewhere in `text`. The empty sequence stands in
/// every text.
pub open spec fn contains(text: Seq<char>, part: Seq<char>) -> bool {
    exists|i: int| occurs_at(text, part, i)
}

/// The characters of `s`, in order.
pub fn chars_of(s: &str) -> (v: Vec<char>)
    ensures
        v@ == s@,
{
    let mut v: Vec<char> = Vec::new();
    for c in it: s.chars()
        invariant
            v@ == it.seq().take(it.index() as int),
    {
        v.push(c);
    }
    v
}

/// Tests whether `part` stands in `text` at index `at`. It does not where
/// it would reach beyond the end of `text`.
pub fn matches_at(text: &Vec<char>, part: &Vec<char>, at: usize) -> (b: bool)
    ensures
        b == occurs_at(text@, part@, at as int),
{
    if at > text.len() || part.len() > text.len() - at {
        return false;
    }
    let ghost window = text@.subrange(at as int, at + part.len());
    let mut k: usize = 0;
    while k < part.len()
        invariant
            at + part.len() <= text.len(),
            k <= part.len(),
            window == text@.subrange(at as int, at + part.len()),
            forall|m: int| 0 <= m < k ==> window[m] == part@[m],
        decreases part.len() - k,
    {
        if text[at + k] != part[k] {
            assert(window[k as int] != part@[k as int]);
            return false;
        }
        k += 1;
    }
    assert(window =~= part@);
    true
}

/// Finds the first index at which `part` stands in `text`.
pub fn find(text: &Vec<char>, part: &Vec<char>) -> (found: Option<usize>)
    ensures
        found is Some <==> contains(text@, part@),
        found matches Some(i) ==> occurs_at(text@, part@, i as int) && forall|k: int|
            0 <= k < i ==> !occurs_at(text@, part@, k),
{
    if part.len() > text.len() {
        return None;
    }
    let last: usize = text.len() - part.len();
    let mut i: usize = 0;
    while i < last
        invariant
            last == text.len() - part.len(),
            i <= last,
            forall|k: int| 0 <= k < i ==> !occurs_at(text@, part@, k),
        decreases last - i,
    {
        if matches_at(text, part, i) {
            return Some(i);
        }
        i += 1;
    }
    if matches_at(text, part, last) {
        Some(last)
    } else {
        None
    }
}

/// Calls `String::from_utf16` of the standard library, which decodes a slice
/// of UTF-16 code units and refuses a slice that holds invalid data. The
/// contract claims that a string comes back exactly when the units are the
/// UTF-16 form of some text, and that they are the form of the string that
/// comes back.
#[verifier::external_body]
fn string_from_utf16(units: &[u16]) -> (decoded: Option<String>)
    ensures
        decoded is Some <==> is_utf16(units@),
        decoded matches Some(s) ==> utf16_of(s@) == units@,
{
    String::from_utf16(units).ok()
}

/// Decodes UTF-16 code units. Units that are not the UTF-16 form of any
/// text, such as a surrogate without its partner, give `None`.
pub fn decode_utf16(units: &[u16]) -> (decoded: Option<String>)
    ensures
        is_utf16(units@) ==> (decoded matches Some(s) && s@ == utf16_decoded(units@)),
        !is_utf16(units@) ==> decoded is None,
{
    let decoded = string_from_utf16(units);
    proof {
        if decoded is Some {
            lemma_utf16_injective(utf16_decoded(units@), decoded->0@);
        }
    }
    decoded
}

/// Encodes `text` as UTF-16 and appends the terminating zero unit.
pub fn create_utf_string(text: &str) -> (units: Vec<u16>)
    ensures
        units@ == utf16_of(text@).push(0u16),
{
    let chars = chars_of(text);
    let mut units: Vec<u16> = Vec::new();
    let mut i: usize = 0;
    while i < chars.len()
        invariant
            i <= chars.len(),
            chars@ == text@,
            units@ == utf16_of(chars@.take(i as int)),
        decreases chars.len() - i,
    {
        let v: u32 = chars[i] as u32;
        proof {
            assert(chars@.take(i + 1).drop_last() == chars@.take(i as int));
        }
        if v < 0x10000 {
            units.push(v as u16);
        } else {
            let w: u32 = v - 0x10000;
            units.push((0xD800 + w / 0x400) as u16);
            units.push((0xDC00 + w % 0x400) as u16);
        }
        i += 1;
    }
    proof {
        assert(chars@.take(i as int) == chars@);
    }
    units.push(0);
    units
}

} // verus!
