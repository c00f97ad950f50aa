//! Bit-exact codecs for the packed component formats: four logical fields in
//! one 32-bit word (2 + 10 + 10 + 10 bits) and three float bit patterns in
//! one word (10 + 11 + 11 bits). Encoding a tuple of in-range fields and
//! decoding the word again reproduces the tuple exactly, and decoding any
//! word and re-encoding its fields reproduces the word.

use vstd::prelude::*;

verus! {

/// The low 10-bit field of a 2+10+10+10 word.
pub open spec fn field_x_2_10_10_10(word: u32) -> u32 {
    word & 0x3ff
}

/// The second 10-bit field of a 2+10+10+10 word.
pub open spec fn field_y_2_10_10_10(word: u32) -> u32 {
    (word >> 10) & 0x3ff
}

/// The third 10-bit field of a 2+10+10+10 word.
pub open spec fn field_z_2_10_10_10(word: u32) -> u32 {
    (word >> 20) & 0x3ff
}

/// The top 2-bit field of a 2+10+10+10 word.
pub open spec fn field_w_2_10_10_10(word: u32) -> u32 {
    word >> 30
}

/// The 2+10+10+10 word built from four field bit patterns: `x` in the low
/// bits, then `y`, then `z`, and `w` in the top two bits.
pub open spec fn spec_pack_2_10_10_10(x: u32, y: u32, z: u32, w: u32) -> u32 {
    (w << 30) | (z << 20) | (y << 10) | x
}

/// The word that stores four signed values as two's-complement fields.
pub open spec fn spec_pack_signed_2_10_10_10(x: i16, y: i16, z: i16, w: i8) -> u32 {
    spec_pack_2_10_10_10((x as u32) & 0x3ff, (y as u32) & 0x3ff, (z as u32) & 0x3ff, (w as u32) & 0x3)
}

/// A 10-bit field read as a two's-complement value in [-512, 511].
pub open spec fn signed_10(f: u32) -> int {
    if f & 0x200 == 0 {
        (f & 0x3ff) as int
    } else {
        (f & 0x3ff) - 1024
    }
}

/// A 2-bit field read as a two's-complement value in [-2, 1].
pub open spec fn signed_2(f: u32) -> int {
    if f & 0x2 == 0 {
        (f & 0x3) as int
    } else {
        (f & 0x3) - 4
    }
}

/// Pack three unsigned 10-bit fields and one 2-bit field into one word:
/// `x` in the low bits, then `y`, then `z`, and `w` in the top two bits.
pub fn pack_unsigned_2_10_10_10(x: u16, y: u16, z: u16, w: u8) -> (r: u32)
    requires
        x < 1024,
        y < 1024,
        z < 1024,
        w < 4,
    ensures
        r == spec_pack_2_10_10_10(x as u32, y as u32, z as u32, w as u32),
        field_x_2_10_10_10(r) == x as u32,
        field_y_2_10_10_10(r) == y as u32,
        field_z_2_10_10_10(r) == z as u32,
        field_w_2_10_10_10(r) == w as u32,
{
    let r: u32 = ((w as u32) << 30) | ((z as u32) << 20) | ((y as u32) << 10) | (x as u32);
    proof {
        assert(field_x_2_10_10_10(r) == x as u32 && field_y_2_10_10_10(r) == y as u32
            && field_z_2_10_10_10(r) == z as u32 && field_w_2_10_10_10(r) == w as u32)
            by (bit_vector)
            requires
                x < 1024,
                y < 1024,
                z < 1024,
                w < 4,
                r == ((w as u32) << 30) | ((z as u32) << 20) | ((y as u32) << 10) | (x as u32),
        ;
    }
    r
}

/// Decode the four unsigned fields of a 2+10+10+10 word.
pub fn unpack_unsigned_2_10_10_10(word: u32) -> (r: (u16, u16, u16, u8))
    ensures
        r.0 as u32 == field_x_2_10_10_10(word),
        r.1 as u32 == field_y_2_10_10_10(word),
        r.2 as u32 == field_z_2_10_10_10(word),
        r.3 as u32 == field_w_2_10_10_10(word),
        r.0 < 1024,
        r.1 < 1024,
        r.2 < 1024,
        r.3 < 4,
{
    let x: u32 = word & 0x3ff;
    let y: u32 = (word >> 10) & 0x3ff;
    let z: u32 = (word >> 20) & 0x3ff;
    let w: u32 = word >> 30;
    proof {
        assert(word & 0x3ff < 1024 && (word >> 10) & 0x3ff < 1024 && (word >> 20) & 0x3ff < 1024
            && word >> 30 < 4) by (bit_vector);
    }
    (x as u16, y as u16, z as u16, w as u8)
}

/// Round trip, encoding first: packing four in-range fields and reading
/// them back reproduces each field exactly.
pub proof fn lemma_unsigned_2_10_10_10_roundtrip(x: u32, y: u32, z: u32, w: u32)
    requires
        x < 1024,
        y < 1024,
        z < 1024,
        w < 4,
    ensures
        field_x_2_10_10_10(spec_pack_2_10_10_10(x, y, z, w)) == x,
        field_y_2_10_10_10(spec_pack_2_10_10_10(x, y, z, w)) == y,
        field_z_2_10_10_10(spec_pack_2_10_10_10(x, y, z, w)) == z,
        field_w_2_10_10_10(spec_pack_2_10_10_10(x, y, z, w)) == w,
{
    assert(field_x_2_10_10_10(spec_pack_2_10_10_10(x, y, z, w)) == x && field_y_2_10_10_10(
        spec_pack_2_10_10_10(x, y, z, w),
    ) == y && field_z_2_10_10_10(spec_pack_2_10_10_10(x, y, z, w)) == z && field_w_2_10_10_10(
        spec_pack_2_10_10_10(x, y, z, w),
    ) == w) by (bit_vector)
        requires
            x < 1024,
            y < 1024,
            z < 1024,
            w < 4,
    ;
}

/// Round trip, decoding first: any word equals its own fields re-encoded.
pub proof fn lemma_unsigned_2_10_10_10_word_roundtrip(word: u32)
    ensures
        spec_pack_2_10_10_10(
            field_x_2_10_10_10(word),
            field_y_2_10_10_10(word),
            field_z_2_10_10_10(word),
            field_w_2_10_10_10(word),
        ) == word,
{
    assert((word >> 30) << 30 | ((word >> 20) & 0x3ff) << 20 | ((word >> 10) & 0x3ff) << 10 | (word
        & 0x3ff) == word) by (bit_vector);
}

/// Pack three signed 10-bit fields and one signed 2-bit field, each stored
/// as two's complement, into one word.
pub fn pack_signed_2_10_10_10(x: i16, y: i16, z: i16, w: i8) -> (r: u32)
    requires
        -512 <= x < 512,
        -512 <= y < 512,
        -512 <= z < 512,
        -2 <= w < 2,
    ensures
        r == spec_pack_signed_2_10_10_10(x, y, z, w),
        signed_10(field_x_2_10_10_10(r)) == x as int,
        signed_10(field_y_2_10_10_10(r)) == y as int,
        signed_10(field_z_2_10_10_10(r)) == z as int,
        signed_2(field_w_2_10_10_10(r)) == w as int,
{
    let xb: u32 = (x as u32) & 0x3ff;
    let yb: u32 = (y as u32) & 0x3ff;
    let zb: u32 = (z as u32) & 0x3ff;
    let wb: u32 = (w as u32) & 0x3;
    let r: u32 = (wb << 30) | (zb << 20) | (yb << 10) | xb;
    proof {
        assert(signed_10(field_x_2_10_10_10(r)) == x as int && signed_10(
            field_y_2_10_10_10(r),
        ) == y as int && signed_10(field_z_2_10_10_10(r)) == z as int && signed_2(
            field_w_2_10_10_10(r),
        ) == w as int) by (bit_vector)
            requires
                -512 <= x < 512,
                -512 <= y < 512,
                -512 <= z < 512,
                -2 <= w < 2,
                r == (((w as u32) & 0x3) << 30) | (((z as u32) & 0x3ff) << 20) | (((y as u32)
                    & 0x3ff) << 10) | ((x as u32) & 0x3ff),
        ;
    }
    r
}

/// Decode the four signed fields of a 2+10+10+10 word.
pub fn unpack_signed_2_10_10_10(word: u32) -> (r: (i16, i16, i16, i8))
    ensures
        r.0 as int == signed_10(field_x_2_10_10_10(word)),
        r.1 as int == signed_10(field_y_2_10_10_10(word)),
        r.2 as int == signed_10(field_z_2_10_10_10(word)),
        r.3 as int == signed_2(field_w_2_10_10_10(word)),
        -512 <= r.0 < 512,
        -512 <= r.1 < 512,
        -512 <= r.2 < 512,
        -2 <= r.3 < 2,
{
    let xf: u32 = word & 0x3ff;
    let yf: u32 = (word >> 10) & 0x3ff;
    let zf: u32 = (word >> 20) & 0x3ff;
    let wf: u32 = word >> 30;
    proof {
        assert(word & 0x3ff < 1024 && (word >> 10) & 0x3ff < 1024 && (word >> 20) & 0x3ff < 1024
            && word >> 30 < 4) by (bit_vector);
    }
    let x: i16 = if xf >= 512 {
        (xf as i32 - 1024) as i16
    } else {
        xf as i16
    };
    let y: i16 = if yf >= 512 {
        (yf as i32 - 1024) as i16
    } else {
        yf as i16
    };
    let z: i16 = if zf >= 512 {
        (zf as i32 - 1024) as i16
    } else {
        zf as i16
    };
    let w: i8 = if wf >= 2 {
        (wf as i32 - 4) as i8
    } else {
        wf as i8
    };
    proof {
        lemma_signed_field_reading(word);
    }
    (x, y, z, w)
}

/// A 10-bit field is negative exactly when it is 512 or more, and then its
/// two's-complement value is the field minus 1024; the 2-bit field behaves
/// the same way around 2 and 4.
proof fn lemma_signed_field_reading(word: u32)
    ensures
        signed_10(word & 0x3ff) == if (word & 0x3ff) >= 512 {
            (word & 0x3ff) - 1024
        } else {
            (word & 0x3ff) as int
        },
        signed_10((word >> 10) & 0x3ff) == if ((word >> 10) & 0x3ff) >= 512 {
            ((word >> 10) & 0x3ff) - 1024
        } else {
            ((word >> 10) & 0x3ff) as int
        },
        signed_10((word >> 20) & 0x3ff) == if ((word >> 20) & 0x3ff) >= 512 {
            ((word >> 20) & 0x3ff) - 1024
        } else {
            ((word >> 20) & 0x3ff) as int
        },
        signed_2(word >> 30) == if (word >> 30) >= 2 {
            (word >> 30) - 4
        } else {
            (word >> 30) as int
        },
{
    assert(signed_10(word & 0x3ff) == if (word & 0x3ff) >= 512 {
        (word & 0x3ff) - 1024
    } else {
        (word & 0x3ff) as int
    }) by (bit_vector);
    assert(signed_10((word >> 10) & 0x3ff) == if ((word >> 10) & 0x3ff) >= 512 {
        ((word >> 10) & 0x3ff) - 1024
    } else {
        ((word >> 10) & 0x3ff) as int
    }) by (bit_vector);
    assert(signed_10((word >> 20) & 0x3ff) == if ((word >> 20) & 0x3ff) >= 512 {
        ((word >> 20) & 0x3ff) - 1024
    } else {
        ((word >> 20) & 0x3ff) as int
    }) by (bit_vector);
    assert(signed_2(word >> 30) == if (word >> 30) >= 2 {
        (word >> 30) - 4
    } else {
        (word >> 30) as int
    }) by (bit_vector);
}

/// Round trip for the signed format: packing four in-range signed values
/// and reading the fields back as two's complement reproduces each value.
pub proof fn lemma_signed_2_10_10_10_roundtrip(x: i16, y: i16, z: i16, w: i8)
    requires
        -512 <= x < 512,
        -512 <= y < 512,
        -512 <= z < 512,
        -2 <= w < 2,
    ensures
        signed_10(field_x_2_10_10_10(spec_pack_signed_2_10_10_10(x, y, z, w))) == x as int,
        signed_10(field_y_2_10_10_10(spec_pack_signed_2_10_10_10(x, y, z, w))) == y as int,
        signed_10(field_z_2_10_10_10(spec_pack_signed_2_10_10_10(x, y, z, w))) == z as int,
        signed_2(field_w_2_10_10_10(spec_pack_signed_2_10_10_10(x, y, z, w))) == w as int,
{
    assert(signed_10(field_x_2_10_10_10(spec_pack_signed_2_10_10_10(x, y, z, w))) == x as int
        && signed_10(field_y_2_10_10_10(spec_pack_signed_2_10_10_10(x, y, z, w))) == y as int
        && signed_10(field_z_2_10_10_10(spec_pack_signed_2_10_10_10(x, y, z, w))) == z as int
        && signed_2(field_w_2_10_10_10(spec_pack_signed_2_10_10_10(x, y, z, w))) == w as int)
        by (bit_vector)
        requires
            -512 <= x < 512,
            -512 <= y < 512,
            -512 <= z < 512,
            -2 <= w < 2,
    ;
}

/// The 10+11+11 word built from three field bit patterns: `a` in the low
/// bits, then `b`, and `c` in the top ten bits.
pub open spec fn spec_pack_10_11_11(a: u32, b: u32, c: u32) -> u32 {
    (c << 22) | (b << 11) | a
}

/// The low 11-bit field of a 10+11+11 word.
pub open spec fn field_a_10_11_11(word: u32) -> u32 {
    word & 0x7ff
}

/// The middle 11-bit field of a 10+11+11 word.
pub open spec fn field_b_10_11_11(word: u32) -> u32 {
    (word >> 11) & 0x7ff
}

/// The top 10-bit field of a 10+11+11 word.
pub open spec fn field_c_10_11_11(word: u32) -> u32 {
    word >> 22
}

/// Pack two 11-bit float patterns and one 10-bit float pattern into one
/// word: `a` in the low bits, then `b`, and `c` in the top ten bits.
pub fn pack_10_11_11(a: u16, b: u16, c: u16) -> (r: u32)
    requires
        a < 2048,
        b < 2048,
        c < 1024,
    ensures
        r == spec_pack_10_11_11(a as u32, b as u32, c as u32),
        field_a_10_11_11(r) == a as u32,
        field_b_10_11_11(r) == b as u32,
        field_c_10_11_11(r) == c as u32,
{
    let r: u32 = ((c as u32) << 22) | ((b as u32) << 11) | (a as u32);
    proof {
        assert(field_a_10_11_11(r) == a as u32 && field_b_10_11_11(r) == b as u32
            && field_c_10_11_11(r) == c as u32) by (bit_vector)
            requires
                a < 2048,
                b < 2048,
                c < 1024,
                r == ((c as u32) << 22) | ((b as u32) << 11) | (a as u32),
        ;
    }
    r
}

/// Decode the three fields of a 10+11+11 word.
pub fn unpack_10_11_11(word: u32) -> (r: (u16, u16, u16))
    ensures
        r.0 as u32 == field_a_10_11_11(word),
        r.1 as u32 == field_b_10_11_11(word),
        r.2 as u32 == field_c_10_11_11(word),
        r.0 < 2048,
        r.1 < 2048,
        r.2 < 1024,
{
    let a: u32 = word & 0x7ff;
    let b: u32 = (word >> 11) & 0x7ff;
    let c: u32 = word >> 22;
    proof {
        assert(word & 0x7ff < 2048 && (word >> 11) & 0x7ff < 2048 && word >> 22 < 1024)
            by (bit_vector);
    }
    (a as u16, b as u16, c as u16)
}

/// Round trip, encoding first: packing three in-range fields and reading
/// them back reproduces each field exactly.
pub proof fn lemma_10_11_11_roundtrip(a: u32, b: u32, c: u32)
    requires
        a < 2048,
        b < 2048,
        c < 1024,
    ensures
        field_a_10_11_11(spec_pack_10_11_11(a, b, c)) == a,
        field_b_10_11_11(spec_pack_10_11_11(a, b, c)) == b,
        field_c_10_11_11(spec_pack_10_11_11(a, b, c)) == c,
{
    assert(field_a_10_11_11(spec_pack_10_11_11(a, b, c)) == a && field_b_10_11_11(
        spec_pack_10_11_11(a, b, c),
    ) == b && field_c_10_11_11(spec_pack_10_11_11(a, b, c)) == c) by (bit_vector)
        requires
            a < 2048,
            b < 2048,
            c < 1024,
    ;
}

/// Round trip, decoding first: any word equals its own fields re-encoded.
pub proof fn lemma_10_11_11_word_roundtrip(word: u32)
    ensures
        spec_pack_10_11_11(
            field_a_10_11_11(word),
            field_b_10_11_11(word),
            field_c_10_11_11(word),
        ) == word,
{
    assert((word >> 22) << 22 | ((word >> 11) & 0x7ff) << 11 | (word & 0x7ff) == word)
        by (bit_vector);
}

} // verus!
