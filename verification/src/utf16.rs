//! UTF-16, the encoding of the engine's strings.
//!
//! The engine keeps text as 16-bit code units. A scalar below `0x10000` that
//! is no surrogate is one unit; a scalar from `0x10000` up is a high surrogate
//! followed by a low one. A surrogate that stands alone or in the wrong place
//! makes the whole text ill-formed.

use vstd::prelude::*;
use crate::handle::Error;

verus! {

/// Whether `unit` is a high surrogate, the first unit of a pair.
pub open spec fn is_high_surrogate(unit: u16) -> bool {
    0xD800 <= unit <= 0xDBFF
}

/// Whether `unit` is a low surrogate, the second unit of a pair.
pub open spec fn is_low_surrogate(unit: u16) -> bool {
    0xDC00 <= unit <= 0xDFFF
}

/// Whether `unit` is a surrogate of either sort.
pub open spec fn is_surrogate(unit: u16) -> bool {
    0xD800 <= unit <= 0xDFFF
}

/// The scalar that the pair `high`, `low` stands for.
pub open spec fn pair_scalar(high: u16, low: u16) -> u32
    recommends
        is_high_surrogate(high),
        is_low_surrogate(low),
{
    (0x10000 + (high - 0xD800) * 0x400 + (low - 0xDC00)) as u32
}

/// The high surrogate of a scalar from `0x10000` up.
pub open spec fn high_surrogate(scalar: u32) -> u16
    recommends
        0x10000 <= scalar <= 0x10FFFF,
{
    (0xD800 + (scalar - 0x10000) / 0x400) as u16
}

/// The low surrogate of a scalar from `0x10000` up.
pub open spec fn low_surrogate(scalar: u32) -> u16
    recommends
        0x10000 <= scalar <= 0x10FFFF,
{
    (0xDC00 + (scalar - 0x10000) % 0x400) as u16
}

/// The code units of one character.
pub open spec fn encode_char(c: char) -> Seq<u16> {
    let scalar = c as u32;
    if scalar < 0x10000 {
        seq![scalar as u16]
    } else {
        seq![high_surrogate(scalar), low_surrogate(scalar)]
    }
}

/// The code units of a text.
pub open spec fn encode_utf16(chars: Seq<char>) -> Seq<u16>
    decreases chars.len(),
{
    if chars.len() == 0 {
        seq![]
    } else {
        encode_char(chars.first()) + encode_utf16(chars.drop_first())
    }
}

/// How many units the character at the start of `units` takes: 1 or 2, or 0
/// where `units` is empty or starts with a surrogate that is out of place.
pub open spec fn first_width(units: Seq<u16>) -> int {
    if units.len() == 0 {
        0
    } else if !is_surrogate(units[0]) {
        1
    } else if is_high_surrogate(units[0]) && units.len() >= 2 && is_low_surrogate(units[1]) {
        2
    } else {
        0
    }
}

/// The character at the start of `units`.
pub open spec fn first_char(units: Seq<u16>) -> char
    recommends
        first_width(units) > 0,
{
    if first_width(units) == 1 {
        (units[0] as u32) as char
    } else {
        pair_scalar(units[0], units[1]) as char
    }
}

/// The text that `units` encode, or `None` where they are ill-formed.
pub open spec fn decode_utf16(units: Seq<u16>) -> Option<Seq<char>>
    decreases units.len(),
{
    if units.len() == 0 {
        Some(seq![])
    } else if first_width(units) == 0 {
        None
    } else {
        match decode_utf16(units.skip(first_width(units))) {
            Some(rest) => Some(seq![first_char(units)] + rest),
            None => None,
        }
    }
}

/// A character's units are one unit that is no surrogate, or a high
/// surrogate and a low one; either way they decode to the character.
pub proof fn lemma_encode_char(c: char)
    ensures
        1 <= encode_char(c).len() <= 2,
        first_width(encode_char(c)) == encode_char(c).len(),
        first_char(encode_char(c)) == c,
{
    let scalar = c as u32;
    assert(scalar <= 0xD7FF || (0xE000 <= scalar && scalar <= 0x10FFFF));
    assert((scalar as char) == c);
    if scalar < 0x10000 {
        let unit = scalar as u16;
        assert(unit as u32 == scalar);
    } else {
        let high = high_surrogate(scalar);
        let low = low_surrogate(scalar);
        let offset = (scalar - 0x10000) as int;
        assert(0 <= offset < 0x100000);
        assert(0 <= offset / 0x400 < 0x400);
        assert(0 <= offset % 0x400 < 0x400);
        assert(offset == (offset / 0x400) * 0x400 + offset % 0x400);
        assert(high == 0xD800 + offset / 0x400);
        assert(low == 0xDC00 + offset % 0x400);
        assert(pair_scalar(high, low) == scalar);
    }
}

/// The character at the start of well-formed units encodes to those units.
pub proof fn lemma_first_char(units: Seq<u16>)
    requires
        first_width(units) > 0,
    ensures
        encode_char(first_char(units)) == units.take(first_width(units)),
{
    if first_width(units) == 1 {
        let scalar = units[0] as u32;
        assert(scalar <= 0xD7FF || (0xE000 <= scalar && scalar <= 0x10FFFF));
        assert(((scalar as char) as u32) == scalar);
        assert(encode_char(first_char(units)) =~= units.take(1));
    } else {
        let high = units[0];
        let low = units[1];
        let scalar = pair_scalar(high, low);
        let h = (high - 0xD800) as int;
        let l = (low - 0xDC00) as int;
        assert(0 <= h < 0x400 && 0 <= l < 0x400);
        assert(scalar == 0x10000 + h * 0x400 + l);
        assert(0x10000 <= scalar <= 0x10FFFF);
        assert(((scalar as char) as u32) == scalar);
        assert((h * 0x400 + l) / 0x400 == h);
        assert((h * 0x400 + l) % 0x400 == l);
        assert(high_surrogate(scalar) == high);
        assert(low_surrogate(scalar) == low);
        assert(encode_char(first_char(units)) =~= units.take(2));
    }
}

/// Encoding goes through concatenation.
pub proof fn lemma_encode_concat(a: Seq<char>, b: Seq<char>)
    ensures
        encode_utf16(a + b) == encode_utf16(a) + encode_utf16(b),
    decreases a.len(),
{
    if a.len() == 0 {
        assert(a + b =~= b);
        assert(encode_utf16(a) + encode_utf16(b) =~= encode_utf16(b));
    } else {
        lemma_encode_concat(a.drop_first(), b);
        assert((a + b).drop_first() =~= a.drop_first() + b);
        assert((a + b).first() == a.first());
        assert(encode_char(a.first()) + (encode_utf16(a.drop_first()) + encode_utf16(b))
            =~= (encode_char(a.first()) + encode_utf16(a.drop_first())) + encode_utf16(b));
    }
}

/// Encoding a text with one more character at its end.
pub proof fn lemma_encode_push(chars: Seq<char>, c: char)
    ensures
        encode_utf16(chars.push(c)) == encode_utf16(chars) + encode_char(c),
{
    lemma_encode_concat(chars, seq![c]);
    assert(chars.push(c) =~= chars + seq![c]);
    assert(seq![c].drop_first() =~= Seq::<char>::empty());
    assert(encode_utf16(seq![c]) =~= encode_char(c)) by {
        reveal_with_fuel(encode_utf16, 2);
    }
}

/// Text that went to the engine's encoding and back is the text it was.
pub proof fn law_encode_then_decode(chars: Seq<char>)
    ensures
        decode_utf16(encode_utf16(chars)) == Some(chars),
    decreases chars.len(),
{
    if chars.len() > 0 {
        let head = encode_char(chars.first());
        let tail = encode_utf16(chars.drop_first());
        let units = head + tail;
        lemma_encode_char(chars.first());
        law_encode_then_decode(chars.drop_first());
        assert(units[0] == head[0]);
        if head.len() == 2 {
            assert(units[1] == head[1]);
        }
        assert(first_width(units) == head.len());
        assert(first_char(units) == chars.first());
        assert(units.skip(first_width(units)) =~= tail);
        assert(seq![chars.first()] + chars.drop_first() =~= chars);
    }
}

/// Well-formed units that went to text and back are the units they were.
pub proof fn law_decode_then_encode(units: Seq<u16>)
    requires
        decode_utf16(units) is Some,
    ensures
        encode_utf16(decode_utf16(units)->Some_0) == units,
    decreases units.len(),
{
    if units.len() > 0 {
        let width = first_width(units);
        let rest = units.skip(width);
        law_decode_then_encode(rest);
        lemma_first_char(units);
        let chars = decode_utf16(units)->Some_0;
        let tail = decode_utf16(rest)->Some_0;
        assert(chars =~= seq![first_char(units)] + tail);
        assert(chars.first() == first_char(units));
        assert(chars.drop_first() =~= tail);
        assert(units.take(width) + rest =~= units);
    }
}

/// Two texts with the same units are the same text.
pub proof fn law_encode_injective(a: Seq<char>, b: Seq<char>)
    requires
        encode_utf16(a) == encode_utf16(b),
    ensures
        a == b,
{
    law_encode_then_decode(a);
    law_encode_then_decode(b);
}

/// Encodes a text as the engine keeps it.
pub fn encode(text: &str) -> (units: Vec<u16>)
    ensures
        units@ == encode_utf16(text@),
{
    let mut units: Vec<u16> = Vec::new();
    assert(text@.take(0) =~= Seq::<char>::empty());
    for c in it: text.chars()
        invariant
            it.seq() == text@,
            units@ == encode_utf16(text@.take(it.index())),
    {
        proof {
            lemma_encode_push(text@.take(it.index()), c);
            assert(text@.take(it.index() + 1) =~= text@.take(it.index()).push(c));
        }
        proof {
            vstd::utf8::char_is_scalar(c);
        }
        let scalar: u32 = c as u32;
        if scalar < 0x10000 {
            units.push(scalar as u16);
        } else {
            let offset: u32 = scalar - 0x10000;
            units.push((0xD800 + offset / 0x400) as u16);
            units.push((0xDC00 + offset % 0x400) as u16);
        }
        assert(units@ =~= encode_utf16(text@.take(it.index())) + encode_char(c));
    }
    assert(text@.take(text@.len() as int) =~= text@);
    units
}

/// Decodes the code units of an engine string.
///
/// Fails exactly where the units are ill-formed: where a surrogate stands
/// alone or a low one comes first.
pub fn decode(units: &[u16]) -> (r: Result<String, Error>)
    ensures
        match r {
            Ok(text) => decode_utf16(units@) == Some(text@),
            Err(e) => decode_utf16(units@) is None && e == Error::Encoding,
        },
{
    let mut text = String::new();
    let mut i: usize = 0;
    assert(units@.skip(0) =~= units@);
    while i < units.len()
        invariant
            i <= units.len(),
            decode_utf16(units@) == (match decode_utf16(units@.skip(i as int)) {
                Some(rest) => Some(text@ + rest),
                None => None,
            }),
        decreases units.len() - i,
    {
        let ghost rest = units@.skip(i as int);
        let ghost before = text@;
        let unit: u16 = units[i];
        assert(rest[0] == unit);
        let scalar: u32;
        let width: usize;
        if unit < 0xD800 || unit > 0xDFFF {
            scalar = unit as u32;
            width = 1;
        } else if unit <= 0xDBFF && i + 1 < units.len() && 0xDC00 <= units[i + 1] && units[i + 1]
            <= 0xDFFF {
            assert(rest[1] == units[i + 1]);
            scalar = 0x10000 + (unit as u32 - 0xD800) * 0x400 + (units[i + 1] as u32 - 0xDC00);
            width = 2;
        } else {
            assert(first_width(rest) == 0);
            return Err(Error::Encoding);
        }
        assert(first_width(rest) == width);
        assert(first_char(rest) == scalar as char);
        match char::from_u32(scalar) {
            Some(c) => {
                text.push(c);
            },
            None => {
                return Err(Error::Encoding);
            },
        }
        i = i + width;
        proof {
            assert(rest.skip(width as int) =~= units@.skip(i as int));
            assert(text@ == before.push(first_char(rest)));
            match decode_utf16(units@.skip(i as int)) {
                Some(tail) => {
                    assert(before + (seq![first_char(rest)] + tail) =~= text@ + tail);
                },
                None => {},
            }
        }
    }
    assert(units@.skip(i as int) =~= Seq::<u16>::empty());
    assert(text@ + Seq::<char>::empty() =~= text@);
    Ok(text)
}

} // verus!
