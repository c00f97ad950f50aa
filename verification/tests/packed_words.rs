use render_gl::data::{
    i2_i10_i10_i10_rev, i2_i10_i10_i10_rev_float, u10_u11_u11_rev, u10_u11_u11_rev_float,
    u2_u10_u10_u10_rev, u2_u10_u10_u10_rev_float,
};
use render_gl::packed::{
    pack_10_11_11, pack_signed_2_10_10_10, pack_unsigned_2_10_10_10, unpack_10_11_11,
    unpack_signed_2_10_10_10, unpack_unsigned_2_10_10_10,
};

#[test]
fn unsigned_word_layout_is_exact() {
    // w in the top two bits, then z, y, and x in the low ten.
    assert_eq!(pack_unsigned_2_10_10_10(1, 0, 0, 0), 1);
    assert_eq!(pack_unsigned_2_10_10_10(0, 1, 0, 0), 1 << 10);
    assert_eq!(pack_unsigned_2_10_10_10(0, 0, 1, 0), 1 << 20);
    assert_eq!(pack_unsigned_2_10_10_10(0, 0, 0, 1), 1 << 30);
    assert_eq!(
        pack_unsigned_2_10_10_10(1023, 1023, 1023, 3),
        0xFFFF_FFFF
    );
    assert_eq!(pack_unsigned_2_10_10_10(0x155, 0x2AA, 0x155, 2), (2u32 << 30) | (0x155 << 20) | (0x2AA << 10) | 0x155);
}

#[test]
fn unsigned_round_trip() {
    let cases = [
        (0u16, 0u16, 0u16, 0u8),
        (1023, 0, 512, 3),
        (444, 555, 666, 1),
        (1, 2, 3, 2),
    ];
    for &(x, y, z, w) in cases.iter() {
        let word = pack_unsigned_2_10_10_10(x, y, z, w);
        assert_eq!(unpack_unsigned_2_10_10_10(word), (x, y, z, w));
    }
}

#[test]
fn signed_round_trip_covers_negative_values() {
    let cases = [
        (0i16, 0i16, 0i16, 0i8),
        (-512, 511, -1, -2),
        (511, -512, 256, 1),
        (-7, 8, -9, -1),
    ];
    for &(x, y, z, w) in cases.iter() {
        let word = pack_signed_2_10_10_10(x, y, z, w);
        assert_eq!(unpack_signed_2_10_10_10(word), (x, y, z, w));
    }
}

#[test]
fn signed_fields_are_twos_complement() {
    // -1 in a 10-bit field is all ones.
    let word = pack_signed_2_10_10_10(-1, 0, 0, 0);
    assert_eq!(word & 0x3FF, 0x3FF);
    // -2 in the 2-bit field is binary 10.
    let word = pack_signed_2_10_10_10(0, 0, 0, -2);
    assert_eq!(word >> 30, 0b10);
}

#[test]
fn ten_eleven_eleven_word_layout_is_exact() {
    assert_eq!(pack_10_11_11(1, 0, 0), 1);
    assert_eq!(pack_10_11_11(0, 1, 0), 1 << 11);
    assert_eq!(pack_10_11_11(0, 0, 1), 1 << 22);
    assert_eq!(pack_10_11_11(2047, 2047, 1023), 0xFFFF_FFFF);
    let word = pack_10_11_11(0x400, 0x201, 0x3FF);
    assert_eq!(unpack_10_11_11(word), (0x400, 0x201, 0x3FF));
}

#[test]
fn packed_components_encode_and_decode_their_word() {
    let v = u2_u10_u10_u10_rev::from_fields(454, 567, 681, 1);
    assert_eq!(v.fields(), (454, 567, 681, 1));
    assert_eq!(v.inner, (1 << 30) | (681 << 20) | (567 << 10) | 454);

    let v = u2_u10_u10_u10_rev_float::from_fields(1023, 0, 1, 3);
    assert_eq!(v.fields(), (1023, 0, 1, 3));

    let v = i2_i10_i10_i10_rev::from_fields(-300, 299, -1, 1);
    assert_eq!(v.fields(), (-300, 299, -1, 1));

    let v = i2_i10_i10_i10_rev_float::from_fields(-512, 511, 0, -2);
    assert_eq!(v.fields(), (-512, 511, 0, -2));

    let v = u10_u11_u11_rev::from_fields(2047, 1024, 512);
    assert_eq!(v.fields(), (2047, 1024, 512));

    let v = u10_u11_u11_rev_float::from_fields(7, 8, 9);
    assert_eq!(v.inner, (9 << 22) | (8 << 11) | 7);
    assert_eq!(v.fields(), (7, 8, 9));
}

#[test]
fn stored_words_decode_like_the_normalized_reading() {
    // The unsigned fields, divided by their maxima, are the normalized
    // values the driver reconstructs; check one against the expected floats.
    let v = u2_u10_u10_u10_rev_float::from_fields(454, 567, 681, 1);
    let (x, y, z, w) = v.fields();
    let xf = x as f32 / 1023.0;
    let yf = y as f32 / 1023.0;
    let zf = z as f32 / 1023.0;
    let wf = w as f32 / 3.0;
    assert!((xf - 0.444).abs() < 0.001);
    assert!((yf - 0.554).abs() < 0.001);
    assert!((zf - 0.666).abs() < 0.001);
    assert!((wf - 0.333).abs() < 0.001);
}
