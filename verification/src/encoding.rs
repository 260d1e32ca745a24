//! The RFC 4648 encodings that second-factor secrets travel in: base64
//! without padding, and base32 without padding, both ways.

use vstd::prelude::*;
use vstd::utf8::is_ascii_chars;

verus! {

/// Byte `i` of `data` as a number, zero past its end.
pub open spec fn byte_at(data: Seq<u8>, i: int) -> u64 {
    if 0 <= i < data.len() {
        data[i] as u64
    } else {
        0
    }
}

/// The standard base64 symbol of the value `v` (below 64).
pub open spec fn base64_symbol(v: u64) -> char {
    if v < 26 {
        (v + 65) as char
    } else if v < 52 {
        (v + 71) as char
    } else if v < 62 {
        (v - 4) as char
    } else if v == 62 {
        '+'
    } else {
        '/'
    }
}

/// The four symbols of the 24-bit group of the first three bytes of `data`
/// (missing bytes zero).
pub open spec fn base64_group(data: Seq<u8>) -> Seq<char> {
    let n = (byte_at(data, 0) << 16u64) | (byte_at(data, 1) << 8u64) | byte_at(data, 2);
    seq![
        base64_symbol((n >> 18u64) & 63u64),
        base64_symbol((n >> 12u64) & 63u64),
        base64_symbol((n >> 6u64) & 63u64),
        base64_symbol(n & 63u64),
    ]
}

/// Standard base64 of `data` without padding: four symbols for each three
/// bytes, and two or three symbols for a tail of one or two bytes.
pub open spec fn base64_no_pad(data: Seq<u8>) -> Seq<char>
    decreases data.len(),
{
    if data.len() == 0 {
        Seq::empty()
    } else if data.len() < 3 {
        base64_group(data).take(data.len() + 1int)
    } else {
        base64_group(data.take(3)) + base64_no_pad(data.skip(3))
    }
}

/// The RFC 4648 base32 symbol of the value `v` (below 32): `A` to `Z`,
/// then `2` to `7`.
pub open spec fn base32_symbol(v: u64) -> char {
    if v < 26 {
        (v + 65) as char
    } else {
        (v + 24) as char
    }
}

/// The value of an RFC 4648 base32 symbol (upper case); `None` for any
/// other character.
pub open spec fn base32_value(c: char) -> Option<u64> {
    if 'A' <= c && c <= 'Z' {
        Some((c as u64 - 65) as u64)
    } else if '2' <= c && c <= '7' {
        Some((c as u64 - 24) as u64)
    } else {
        None
    }
}

/// The 40-bit group of the first five bytes of `data` (missing bytes zero).
pub open spec fn base32_group_number(data: Seq<u8>) -> u64 {
    (byte_at(data, 0) << 32u64) | (byte_at(data, 1) << 24u64) | (byte_at(data, 2) << 16u64) | (byte_at(data, 3)
        << 8u64) | byte_at(data, 4)
}

/// The eight symbols of a 40-bit group, five bits each, most significant
/// first.
pub open spec fn base32_group(n: u64) -> Seq<char> {
    seq![
        base32_symbol((n >> 35u64) & 31u64),
        base32_symbol((n >> 30u64) & 31u64),
        base32_symbol((n >> 25u64) & 31u64),
        base32_symbol((n >> 20u64) & 31u64),
        base32_symbol((n >> 15u64) & 31u64),
        base32_symbol((n >> 10u64) & 31u64),
        base32_symbol((n >> 5u64) & 31u64),
        base32_symbol(n & 31u64),
    ]
}

/// RFC 4648 base32 of `data` without padding: eight symbols for each five
/// bytes, and for a shorter tail the fewest symbols that hold its bits.
pub open spec fn base32_text(data: Seq<u8>) -> Seq<char>
    decreases data.len(),
{
    if data.len() == 0 {
        Seq::empty()
    } else if data.len() < 5 {
        base32_group(base32_group_number(data)).take(((8 * data.len() + 4) / 5) as int)
    } else {
        base32_group(base32_group_number(data.take(5))) + base32_text(data.skip(5))
    }
}

/// The value of symbol `j` of `text`, zero past its end or for a character
/// that is not a symbol.
pub open spec fn symbol_at(text: Seq<char>, j: int) -> u64 {
    if 0 <= j < text.len() {
        match base32_value(text[j]) {
            Some(v) => v,
            None => 0,
        }
    } else {
        0
    }
}

/// The 40-bit group of the first eight symbols of `text` (missing ones
/// zero).
pub open spec fn base32_symbols_number(text: Seq<char>) -> u64 {
    (symbol_at(text, 0) << 35u64) | (symbol_at(text, 1) << 30u64) | (symbol_at(text, 2) << 25u64) | (
    symbol_at(text, 3) << 20u64) | (symbol_at(text, 4) << 15u64) | (symbol_at(text, 5) << 10u64) | (
    symbol_at(text, 6) << 5u64) | symbol_at(text, 7)
}

/// The five bytes of a 40-bit group, most significant first.
pub open spec fn base32_group_bytes(m: u64) -> Seq<u8> {
    seq![
        ((m >> 32u64) & 255u64) as u8,
        ((m >> 24u64) & 255u64) as u8,
        ((m >> 16u64) & 255u64) as u8,
        ((m >> 8u64) & 255u64) as u8,
        (m & 255u64) as u8,
    ]
}

/// The bytes that `text`'s symbols stand for: five bytes for each eight
/// symbols, and for a shorter tail as many whole bytes as its bits hold.
pub open spec fn base32_decoded(text: Seq<char>) -> Seq<u8>
    decreases text.len(),
{
    if text.len() == 0 {
        Seq::empty()
    } else if text.len() < 8 {
        base32_group_bytes(base32_symbols_number(text)).take((text.len() * 5 / 8) as int)
    } else {
        base32_group_bytes(base32_symbols_number(text.take(8))) + base32_decoded(text.skip(8))
    }
}

/// RFC 4648 base32 decoding without padding of `text`: `None` where a
/// character is not an upper-case symbol of the alphabet.
pub open spec fn base32_bytes(text: Seq<char>) -> Option<Seq<u8>> {
    if forall|j: int| 0 <= j < text.len() ==> #[trigger] base32_value(text[j]) is Some {
        Some(base32_decoded(text))
    } else {
        None
    }
}

/// Each symbol reads back as its value.
pub proof fn lemma_symbol_value(v: u64)
    requires
        v < 32,
    ensures
        base32_value(base32_symbol(v)) == Some(v),
{
}

/// The bits of a 40-bit group survive being cut into symbols and read back,
/// as far as the `k` symbols kept reach (the rest read as zero): all five
/// bytes from eight symbols, one from two, two from four, three from five
/// and four from seven.
pub proof fn lemma_group_round_trip(b0: u64, b1: u64, b2: u64, b3: u64, b4: u64, k: u64)
    by (bit_vector)
    requires
        b0 < 256,
        b1 < 256,
        b2 < 256,
        b3 < 256,
        b4 < 256,
        k == 2 || k == 4 || k == 5 || k == 7 || k == 8,
    ensures
        ({
            let n = (b0 << 32u64) | (b1 << 24u64) | (b2 << 16u64) | (b3 << 8u64) | b4;
            let v0 = (n >> 35u64) & 31u64;
            let v1 = (n >> 30u64) & 31u64;
            let v2 = if k > 2 { (n >> 25u64) & 31u64 } else { 0u64 };
            let v3 = if k > 3 { (n >> 20u64) & 31u64 } else { 0u64 };
            let v4 = if k > 4 { (n >> 15u64) & 31u64 } else { 0u64 };
            let v5 = if k > 5 { (n >> 10u64) & 31u64 } else { 0u64 };
            let v6 = if k > 6 { (n >> 5u64) & 31u64 } else { 0u64 };
            let v7 = if k > 7 { n & 31u64 } else { 0u64 };
            let m = (v0 << 35u64) | (v1 << 30u64) | (v2 << 25u64) | (v3 << 20u64) | (v4 << 15u64) | (v5
                << 10u64) | (v6 << 5u64) | v7;
            &&& (m >> 32u64) & 255u64 == b0
            &&& k >= 4 ==> (m >> 24u64) & 255u64 == b1
            &&& k >= 5 ==> (m >> 16u64) & 255u64 == b2
            &&& k >= 7 ==> (m >> 8u64) & 255u64 == b3
            &&& k >= 8 ==> m & 255u64 == b4
        }),
{
}

/// The symbols kept of a group of up to five bytes read back as those bytes.
pub proof fn lemma_group_decodes(d: Seq<u8>)
    requires
        1 <= d.len() <= 5,
    ensures
        ({
            let kept = base32_group(base32_group_number(d)).take(((8 * d.len() + 4) / 5) as int);
            &&& forall|j: int| 0 <= j < kept.len() ==> #[trigger] base32_value(kept[j]) is Some
            &&& base32_group_bytes(base32_symbols_number(kept)).take(d.len() as int) == d
        }),
{
    let (b0, b1, b2, b3, b4) = (byte_at(d, 0), byte_at(d, 1), byte_at(d, 2), byte_at(d, 3), byte_at(d, 4));
    let k = ((8 * d.len() + 4) / 5) as u64;
    lemma_group_round_trip(b0, b1, b2, b3, b4, k);
    let n = base32_group_number(d);
    let g = base32_group(n);
    let kept = g.take(k as int);
    assert(n & 31u64 < 32 && (n >> 5u64) & 31u64 < 32 && (n >> 10u64) & 31u64 < 32 && (n >> 15u64) & 31u64 < 32
        && (n >> 20u64) & 31u64 < 32 && (n >> 25u64) & 31u64 < 32 && (n >> 30u64) & 31u64 < 32 && (n >> 35u64)
        & 31u64 < 32) by (bit_vector);
    lemma_symbol_value((n >> 35u64) & 31u64);
    lemma_symbol_value((n >> 30u64) & 31u64);
    lemma_symbol_value((n >> 25u64) & 31u64);
    lemma_symbol_value((n >> 20u64) & 31u64);
    lemma_symbol_value((n >> 15u64) & 31u64);
    lemma_symbol_value((n >> 10u64) & 31u64);
    lemma_symbol_value((n >> 5u64) & 31u64);
    lemma_symbol_value(n & 31u64);
    assert(symbol_at(kept, 0) == (n >> 35u64) & 31u64);
    assert(symbol_at(kept, 1) == (n >> 30u64) & 31u64);
    assert(symbol_at(kept, 2) == if k > 2 { (n >> 25u64) & 31u64 } else { 0u64 });
    assert(symbol_at(kept, 3) == if k > 3 { (n >> 20u64) & 31u64 } else { 0u64 });
    assert(symbol_at(kept, 4) == if k > 4 { (n >> 15u64) & 31u64 } else { 0u64 });
    assert(symbol_at(kept, 5) == if k > 5 { (n >> 10u64) & 31u64 } else { 0u64 });
    assert(symbol_at(kept, 6) == if k > 6 { (n >> 5u64) & 31u64 } else { 0u64 });
    assert(symbol_at(kept, 7) == if k > 7 { n & 31u64 } else { 0u64 });
    assert forall|j: int| 0 <= j < kept.len() implies #[trigger] base32_value(kept[j]) is Some by {
        assert(kept[j] == g[j]);
    }
    let bytes = base32_group_bytes(base32_symbols_number(kept));
    assert(bytes.take(d.len() as int) =~= d) by {
        assert forall|i: int| 0 <= i < d.len() implies bytes[i] == d[i] by {
            assert(byte_at(d, i) == d[i] as u64);
        }
    }
}

/// Decoding the base32 text of bytes gives the bytes back, and the text has
/// the fewest symbols that hold the bytes' bits.
pub proof fn lemma_base32_round_trip(d: Seq<u8>)
    ensures
        base32_bytes(base32_text(d)) == Some(d),
        base32_text(d).len() == (8 * d.len() + 4) / 5,
    decreases d.len(),
{
    let t = base32_text(d);
    if d.len() == 0 {
        assert(d =~= Seq::<u8>::empty());
    } else if d.len() < 5 {
        lemma_group_decodes(d);
        let k = ((8 * d.len() + 4) / 5) as int;
        assert(t.len() == k);
        assert(k * 5 / 8 == d.len());
    } else {
        let first = d.take(5);
        let rest = d.skip(5);
        lemma_base32_round_trip(rest);
        lemma_group_decodes(first);
        let g = base32_group(base32_group_number(first));
        let rt = base32_text(rest);
        assert(g.take(8) =~= g);
        assert(t == g + rt);
        assert(t.take(8) =~= g);
        assert(t.skip(8) =~= rt);
        assert forall|j: int| 0 <= j < t.len() implies #[trigger] base32_value(t[j]) is Some by {
            if j < 8 {
                assert(t[j] == g[j]);
            } else {
                assert(t[j] == rt[j - 8]);
                assert(base32_value(rt[j - 8]) is Some);
            }
        }
        assert(base32_group_bytes(base32_symbols_number(g)).take(5) =~= base32_group_bytes(
            base32_symbols_number(g),
        ));
        assert(d =~= first + rest);
    }
}

/// Standard base64 without padding writes ASCII symbols only, the fewest
/// that hold the bytes' bits.
pub proof fn lemma_base64_shape(d: Seq<u8>)
    ensures
        base64_no_pad(d).len() == (4 * d.len() + 2) / 3,
        is_ascii_chars(base64_no_pad(d)),
    decreases d.len(),
{
    let t = base64_no_pad(d);
    let n = (byte_at(d, 0) << 16u64) | (byte_at(d, 1) << 8u64) | byte_at(d, 2);
    assert((n >> 18u64) & 63u64 < 64 && (n >> 12u64) & 63u64 < 64 && (n >> 6u64) & 63u64 < 64 && n & 63u64
        < 64) by (bit_vector);
    if d.len() == 0 {
    } else if d.len() < 3 {
        assert(is_ascii_chars(base64_group(d)));
    } else {
        let first = d.take(3);
        let rest = d.skip(3);
        lemma_base64_shape(rest);
        let m = (byte_at(first, 0) << 16u64) | (byte_at(first, 1) << 8u64) | byte_at(first, 2);
        assert((m >> 18u64) & 63u64 < 64 && (m >> 12u64) & 63u64 < 64 && (m >> 6u64) & 63u64 < 64 && m & 63u64
            < 64) by (bit_vector);
        let g = base64_group(first);
        assert(is_ascii_chars(g));
        assert forall|i: int| 0 <= i < t.len() implies '\0' <= #[trigger] t[i] <= '\u{7f}' by {
            if i < 4 {
                assert(t[i] == g[i]);
            } else {
                assert(t[i] == base64_no_pad(rest)[i - 4]);
            }
        }
    }
}

} // verus!
