//! The standard base64 form of a byte string (RFC 4648, section 4): the
//! alphabet `A`-`Z`, `a`-`z`, `0`-`9`, `+`, `/`, and `=` padding to a
//! multiple of four symbols.
use vstd::prelude::*;

verus! {

/// The symbol for the six-bit value `v`.
pub open spec fn base64_symbol(v: int) -> char {
    if v < 26 {
        (65 + v) as char
    } else if v < 52 {
        (97 + (v - 26)) as char
    } else if v < 62 {
        (48 + (v - 52)) as char
    } else if v == 62 {
        '+'
    } else {
        '/'
    }
}

/// The standard base64 encoding of `bytes`, padded: each group of three
/// bytes gives four symbols, and a last group of one or two bytes gives two
/// or three symbols followed by `=` up to four.
pub open spec fn base64_encoding(bytes: Seq<u8>) -> Seq<char>
    decreases bytes.len(),
{
    if bytes.len() == 0 {
        Seq::empty()
    } else if bytes.len() == 1 {
        let b0 = bytes[0] as int;
        seq![base64_symbol(b0 / 4), base64_symbol((b0 % 4) * 16), '=', '=']
    } else if bytes.len() == 2 {
        let b0 = bytes[0] as int;
        let b1 = bytes[1] as int;
        seq![
            base64_symbol(b0 / 4),
            base64_symbol((b0 % 4) * 16 + b1 / 16),
            base64_symbol((b1 % 16) * 4),
            '=',
        ]
    } else {
        let b0 = bytes[0] as int;
        let b1 = bytes[1] as int;
        let b2 = bytes[2] as int;
        seq![
            base64_symbol(b0 / 4),
            base64_symbol((b0 % 4) * 16 + b1 / 16),
            base64_symbol((b1 % 16) * 4 + b2 / 64),
            base64_symbol(b2 % 64),
        ] + base64_encoding(bytes.skip(3))
    }
}

/// Distinct six-bit values have distinct symbols, and none is the padding
/// symbol.
proof fn lemma_symbol_injective(v: int, w: int)
    requires
        0 <= v < 64,
        0 <= w < 64,
    ensures
        base64_symbol(v) != '=',
        base64_symbol(v) == base64_symbol(w) ==> v == w,
{
    let cv = base64_symbol(v) as int;
    let cw = base64_symbol(w) as int;
    assert(cv == if v < 26 { 65 + v } else if v < 52 { 71 + v } else if v < 62 { v - 4 } else if v
        == 62 { 43 } else { 47 });
    assert(cw == if w < 26 { 65 + w } else if w < 52 { 71 + w } else if w < 62 { w - 4 } else if w
        == 62 { 43 } else { 47 });
}

/// Three bytes are determined by the four six-bit values cut from them.
proof fn lemma_sextets_determine_bytes(x0: int, x1: int, x2: int, y0: int, y1: int, y2: int)
    requires
        0 <= x0 < 256,
        0 <= x1 < 256,
        0 <= x2 < 256,
        0 <= y0 < 256,
        0 <= y1 < 256,
        0 <= y2 < 256,
        x0 / 4 == y0 / 4,
        (x0 % 4) * 16 + x1 / 16 == (y0 % 4) * 16 + y1 / 16,
        (x1 % 16) * 4 + x2 / 64 == (y1 % 16) * 4 + y2 / 64,
        x2 % 64 == y2 % 64,
    ensures
        x0 == y0,
        x1 == y1,
        x2 == y2,
{
}

/// The symbols of a non-empty encoding: its length, and where padding
/// stands in its first group.
proof fn lemma_encoding_shape(bytes: Seq<u8>)
    ensures
        bytes.len() == 0 <==> base64_encoding(bytes).len() == 0,
        bytes.len() >= 1 ==> base64_encoding(bytes).len() >= 4,
        bytes.len() == 1 ==> base64_encoding(bytes)[2] == '=',
        bytes.len() == 2 ==> base64_encoding(bytes)[2] != '=' && base64_encoding(bytes)[3] == '=',
        bytes.len() >= 3 ==> base64_encoding(bytes)[2] != '=' && base64_encoding(bytes)[3] != '='
            && base64_encoding(bytes).skip(4) == base64_encoding(bytes.skip(3)),
{
    if bytes.len() == 2 {
        let b1 = bytes[1] as int;
        lemma_symbol_injective((b1 % 16) * 4, 0);
    } else if bytes.len() >= 3 {
        let b1 = bytes[1] as int;
        let b2 = bytes[2] as int;
        lemma_symbol_injective((b1 % 16) * 4 + b2 / 64, 0);
        lemma_symbol_injective(b2 % 64, 0);
        let head = seq![
            base64_symbol(bytes[0] as int / 4),
            base64_symbol((bytes[0] as int % 4) * 16 + b1 / 16),
            base64_symbol((b1 % 16) * 4 + b2 / 64),
            base64_symbol(b2 % 64),
        ];
        assert((head + base64_encoding(bytes.skip(3))).skip(4) =~= base64_encoding(bytes.skip(3)));
    }
}

/// Distinct byte strings have distinct encodings.
pub proof fn lemma_base64_encoding_injective(a: Seq<u8>, b: Seq<u8>)
    requires
        base64_encoding(a) == base64_encoding(b),
    ensures
        a == b,
    decreases a.len(),
{
    lemma_encoding_shape(a);
    lemma_encoding_shape(b);
    if a.len() == 0 {
        assert(a =~= b);
        return;
    }
    let ea = base64_encoding(a);
    let a0 = a[0] as int;
    let b0 = b[0] as int;
    lemma_symbol_injective(a0 / 4, b0 / 4);
    assert(ea[0] == base64_symbol(a0 / 4));
    if a.len() == 1 {
        assert(b.len() == 1);
        lemma_symbol_injective((a0 % 4) * 16, (b0 % 4) * 16);
        assert(ea[1] == base64_symbol((a0 % 4) * 16));
        assert(a0 == b0);
        assert(a =~= b);
    } else if a.len() == 2 {
        assert(b.len() == 2);
        let a1 = a[1] as int;
        let b1 = b[1] as int;
        lemma_symbol_injective((a0 % 4) * 16 + a1 / 16, (b0 % 4) * 16 + b1 / 16);
        lemma_symbol_injective((a1 % 16) * 4, (b1 % 16) * 4);
        assert(ea[1] == base64_symbol((a0 % 4) * 16 + a1 / 16));
        assert(ea[2] == base64_symbol((a1 % 16) * 4));
        lemma_sextets_determine_bytes(a0, a1, 0, b0, b1, 0);
        assert(a =~= b);
    } else {
        assert(b.len() >= 3);
        let a1 = a[1] as int;
        let b1 = b[1] as int;
        let a2 = a[2] as int;
        let b2 = b[2] as int;
        lemma_symbol_injective((a0 % 4) * 16 + a1 / 16, (b0 % 4) * 16 + b1 / 16);
        lemma_symbol_injective((a1 % 16) * 4 + a2 / 64, (b1 % 16) * 4 + b2 / 64);
        lemma_symbol_injective(a2 % 64, b2 % 64);
        assert(ea[1] == base64_symbol((a0 % 4) * 16 + a1 / 16));
        assert(ea[2] == base64_symbol((a1 % 16) * 4 + a2 / 64));
        assert(ea[3] == base64_symbol(a2 % 64));
        lemma_sextets_determine_bytes(a0, a1, a2, b0, b1, b2);
        lemma_base64_encoding_injective(a.skip(3), b.skip(3));
        assert(a =~= b) by {
            assert forall|i: int| 0 <= i < a.len() implies a[i] == b[i] by {
                if i >= 3 {
                    assert(a[i] == a.skip(3)[i - 3]);
                    assert(b[i] == b.skip(3)[i - 3]);
                }
            }
        }
    }
}

} // verus!
