//! Text as the native message lookups hand it over: UTF-16 code units from the wide-character
//! interface, NUL-terminated bytes from the C library.

use vstd::prelude::*;
use vstd::slice::slice_subrange;
use vstd::utf8::{decode_utf8, valid_utf8};

verus! {

/// Whether `c` is white space as Unicode defines it (`White_Space`).
pub open spec fn is_white_space(c: char) -> bool {
    let v = c as u32;
    ||| 0x0009 <= v <= 0x000D
    ||| v == 0x0020
    ||| v == 0x0085
    ||| v == 0x00A0
    ||| v == 0x1680
    ||| 0x2000 <= v <= 0x200A
    ||| v == 0x2028
    ||| v == 0x2029
    ||| v == 0x202F
    ||| v == 0x205F
    ||| v == 0x3000
}

/// `text` without the whitespace at its end.
pub open spec fn trimmed(text: Seq<char>) -> Seq<char>
    decreases text.len(),
{
    if text.len() > 0 && is_white_space(text.last()) {
        trimmed(text.drop_last())
    } else {
        text
    }
}

/// Whether `unit` is the first half of a surrogate pair.
pub open spec fn is_leading_surrogate(unit: u16) -> bool {
    0xD800 <= unit <= 0xDBFF
}

/// Whether `unit` is the second half of a surrogate pair.
pub open spec fn is_trailing_surrogate(unit: u16) -> bool {
    0xDC00 <= unit <= 0xDFFF
}

/// The scalar value that the surrogate pair `lead`, `trail` encodes.
pub open spec fn paired(lead: u16, trail: u16) -> u32
    recommends
        is_leading_surrogate(lead),
        is_trailing_surrogate(trail),
{
    (0x10000 + (lead - 0xD800) * 0x400 + (trail - 0xDC00)) as u32
}

/// The text that `units` encode in UTF-16, or `None` where a surrogate stands unpaired.
pub open spec fn utf16_text(units: Seq<u16>) -> Option<Seq<char>>
    decreases units.len(),
{
    if units.len() == 0 {
        Some(Seq::empty())
    } else if !is_leading_surrogate(units[0]) && !is_trailing_surrogate(units[0]) {
        match utf16_text(units.skip(1)) {
            Some(rest) => Some(seq![units[0] as char] + rest),
            None => None,
        }
    } else if is_leading_surrogate(units[0]) && units.len() >= 2 && is_trailing_surrogate(
        units[1],
    ) {
        match utf16_text(units.skip(2)) {
            Some(rest) => Some(seq![paired(units[0], units[1]) as char] + rest),
            None => None,
        }
    } else {
        None
    }
}

/// The number of bytes that stand before the first NUL of `bytes`, or its length where it
/// holds none.
pub open spec fn terminator(bytes: Seq<u8>) -> nat
    decreases bytes.len(),
{
    if bytes.len() == 0 || bytes[0] == 0 {
        0
    } else {
        1 + terminator(bytes.skip(1))
    }
}

/// The bytes of the C string that `bytes` begins with: all that stand before the first NUL.
pub open spec fn nul_terminated(bytes: Seq<u8>) -> Seq<u8> {
    bytes.take(terminator(bytes) as int)
}

/// Trailing whitespace is cut off and nothing else: what is kept is a prefix of `text`, every
/// character after it is whitespace, and the last character kept is not.
pub proof fn lemma_trimmed(text: Seq<char>)
    ensures
        trimmed(text).len() <= text.len(),
        trimmed(text) == text.take(trimmed(text).len() as int),
        forall|i: int| trimmed(text).len() <= i < text.len() ==> is_white_space(#[trigger] text[i]),
        trimmed(text).len() > 0 ==> !is_white_space(trimmed(text).last()),
    decreases text.len(),
{
    if text.len() > 0 && is_white_space(text.last()) {
        let shorter = text.drop_last();
        lemma_trimmed(shorter);
        assert(shorter.take(trimmed(shorter).len() as int) =~= text.take(
            trimmed(shorter).len() as int,
        ));
        assert forall|i: int| trimmed(text).len() <= i < text.len() implies is_white_space(
            #[trigger] text[i],
        ) by {
            if i < shorter.len() {
                assert(text[i] == shorter[i]);
            }
        }
    } else {
        assert(text.take(text.len() as int) =~= text);
    }
}

/// Returns how many characters of `text` stand before its trailing whitespace.
pub fn trimmed_len(text: &[char]) -> (kept: usize)
    ensures
        kept <= text.len(),
        text@.take(kept as int) == trimmed(text@),
{
    let mut kept: usize = text.len();
    assert(text@.take(kept as int) =~= text@);
    while kept > 0 && text[kept - 1].is_whitespace()
        invariant
            kept <= text.len(),
            trimmed(text@) == trimmed(text@.take(kept as int)),
        decreases kept,
    {
        assert(text@.take(kept as int).drop_last() =~= text@.take(kept - 1));
        kept -= 1;
    }
    kept
}

/// Returns how many bytes of `bytes` stand before its first NUL.
pub fn terminator_index(bytes: &[u8]) -> (end: usize)
    ensures
        end == terminator(bytes@),
        end <= bytes.len(),
{
    let mut end: usize = 0;
    assert(bytes@.skip(0) =~= bytes@);
    while end < bytes.len() && bytes[end] != 0
        invariant
            end <= bytes.len(),
            terminator(bytes@) == end + terminator(bytes@.skip(end as int)),
        decreases bytes.len() - end,
    {
        assert(bytes@.skip(end as int).skip(1) =~= bytes@.skip(end + 1));
        end += 1;
    }
    end
}

/// Returns the characters of `chars` as a string.
pub fn string_of(chars: &[char]) -> (text: String)
    ensures
        text@ == chars@,
{
    let mut text = String::new();
    let mut done: usize = 0;
    while done < chars.len()
        invariant
            done <= chars.len(),
            text@ == chars@.take(done as int),
        decreases chars.len() - done,
    {
        text.push(chars[done]);
        assert(chars@.take(done as int).push(chars@[done as int]) =~= chars@.take(done + 1));
        done += 1;
    }
    assert(chars@.take(done as int) =~= chars@);
    text
}

/// Decodes `units` as UTF-16; `None` where a surrogate stands unpaired.
pub fn decode_wide(units: &[u16]) -> (text: Option<Vec<char>>)
    ensures
        text is Some <==> utf16_text(units@) is Some,
        text matches Some(chars) ==> Some(chars@) == utf16_text(units@),
{
    let mut chars: Vec<char> = Vec::new();
    let mut at: usize = 0;
    assert(units@.skip(0) =~= units@);
    assert(Seq::<char>::empty() + utf16_text(units@).unwrap() =~= utf16_text(units@).unwrap());
    while at < units.len()
        invariant
            at <= units.len(),
            utf16_text(units@) == match utf16_text(units@.skip(at as int)) {
                Some(rest) => Some(chars@ + rest),
                None => None,
            },
        decreases units.len() - at,
    {
        let ghost ahead = units@.skip(at as int);
        let unit: u16 = units[at];
        let scalar: u32;
        let width: usize;
        if unit < 0xD800 || unit > 0xDFFF {
            scalar = unit as u32;
            width = 1;
        } else if unit <= 0xDBFF && at + 1 < units.len() && 0xDC00 <= units[at + 1] && units[at
            + 1] <= 0xDFFF {
            scalar = 0x10000 + (unit as u32 - 0xD800) * 0x400 + (units[at + 1] as u32 - 0xDC00);
            width = 2;
        } else {
            return None;
        }
        let c: char = char::from_u32(scalar).unwrap();
        proof {
            let rest = utf16_text(units@.skip(at + width));
            assert(ahead.skip(width as int) =~= units@.skip(at + width));
            if rest is Some {
                assert((chars@ + seq![c]) + rest.unwrap() =~= chars@ + (seq![c] + rest.unwrap()));
                assert(chars@.push(c) =~= chars@ + seq![c]);
            }
        }
        chars.push(c);
        at += width;
    }
    assert(chars@ + Seq::<char>::empty() =~= chars@);
    Some(chars)
}

/// Decodes `bytes` as UTF-8; `None` where they are not well-formed.
pub fn decode_narrow(bytes: &[u8]) -> (text: Option<String>)
    ensures
        text is Some <==> valid_utf8(bytes@),
        text matches Some(s) ==> s@ == decode_utf8(bytes@),
{
    match core::str::from_utf8(bytes) {
        Ok(s) => Some(s.to_owned()),
        Err(_) => None,
    }
}

/// Returns the bytes of the C string that `bytes` begins with.
pub fn c_string(bytes: &[u8]) -> (head: &[u8])
    ensures
        head@ == nul_terminated(bytes@),
{
    let end = terminator_index(bytes);
    slice_subrange(bytes, 0, end)
}

} // verus!
