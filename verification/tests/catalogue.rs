use render_gl::data::{
    f16_f16, f16_f16_f16_f16, i16_i16, i16_i16_i16, i16_i16_float, i2_i10_i10_i10_rev,
    i32_i32_i32_i32, i8_, i8_float, i8_i8_i8_i8_float, u10_u11_u11_rev, u16_u16_u16,
    u2_u10_u10_u10_rev_float, u32_, u32_u32_float, u8_u8, u8_u8_u8_u8, ComponentDescriptor,
    ComponentFormat, HalfBits, ScalarKind,
};

#[test]
fn integer_constructors_store_fields_exactly() {
    let a = i8_::new(-7);
    assert_eq!(a.d0, -7);

    let b = u8_u8::new(3, 255);
    assert_eq!((b.d0, b.d1), (3, 255));

    let c = i16_i16_i16::new(-32768, 0, 32767);
    assert_eq!((c.d0, c.d1, c.d2), (-32768, 0, 32767));

    let d = i32_i32_i32_i32::new(i32::MIN, -1, 1, i32::MAX);
    assert_eq!((d.d0, d.d1, d.d2, d.d3), (i32::MIN, -1, 1, i32::MAX));

    let e = u32_::new(4000000000);
    assert_eq!(e.d0, 4000000000);

    let f = i8_i8_i8_i8_float::new(1, -2, 3, -4);
    assert_eq!((f.d0, f.d1, f.d2, f.d3), (1, -2, 3, -4));
}

#[test]
fn half_float_constructors_store_bits_exactly() {
    let one_and_a_half = HalfBits { bits: 0x3E00 };
    let two = HalfBits { bits: 0x4000 };
    let v = f16_f16::new(one_and_a_half, two);
    assert_eq!(v.d0.bits, 0x3E00);
    assert_eq!(v.d1.bits, 0x4000);

    let q = f16_f16_f16_f16::new(
        HalfBits { bits: 0 },
        HalfBits { bits: 0x3C00 },
        HalfBits { bits: 0xBC00 },
        HalfBits { bits: 0x7BFF },
    );
    assert_eq!(q.d2.bits, 0xBC00);
    assert_eq!(q.d3.bits, 0x7BFF);
}

#[test]
fn half_float_bits_round_trip_through_the_half_crate() {
    // The stored bit patterns are exactly what the half-float crate
    // produces and consumes.
    let v = f16_f16::new(
        HalfBits { bits: half::f16::from_f32(1.5).to_bits() },
        HalfBits { bits: half::f16::from_f32(-0.25).to_bits() },
    );
    assert_eq!(v.d0.bits, 0x3E00);
    assert_eq!(half::f16::from_bits(v.d0.bits).to_f32(), 1.5);
    assert_eq!(half::f16::from_bits(v.d1.bits).to_f32(), -0.25);
}

#[test]
fn descriptor_counts_and_sizes() {
    let d = i16_i16_float::descriptor();
    assert_eq!(d.element_count(), 2);
    assert_eq!(d.byte_size(), 4);
    assert!(d.normalized);
    assert!(!d.uses_integer_path());
    assert!(!d.uses_long_path());

    let d = u16_u16_u16::descriptor();
    assert_eq!(d.element_count(), 3);
    assert_eq!(d.byte_size(), 6);
    assert!(!d.normalized);
    assert!(d.uses_integer_path());

    let d = u8_u8_u8_u8::descriptor();
    assert_eq!(d.byte_size(), 4);

    let d = f16_f16::descriptor();
    assert_eq!(d.element_count(), 2);
    assert_eq!(d.byte_size(), 4);
    assert!(!d.normalized);
    assert!(!d.uses_integer_path());

    let d = i2_i10_i10_i10_rev::descriptor();
    assert_eq!(d.element_count(), 4);
    assert_eq!(d.byte_size(), 4);
    assert!(!d.normalized);
    assert!(!d.uses_integer_path());

    let d = u10_u11_u11_rev::descriptor();
    assert_eq!(d.element_count(), 3);
    assert_eq!(d.byte_size(), 4);

    let d = u2_u10_u10_u10_rev_float::descriptor();
    assert_eq!(d.element_count(), 4);
    assert!(d.normalized);
}

#[test]
fn descriptor_type_codes_match_the_driver_registry() {
    assert_eq!(i8_::descriptor().gl_type_code(), gl::BYTE);
    assert_eq!(i8_float::descriptor().gl_type_code(), gl::BYTE);
    assert_eq!(u8_u8::descriptor().gl_type_code(), gl::UNSIGNED_BYTE);
    assert_eq!(i16_i16::descriptor().gl_type_code(), gl::SHORT);
    assert_eq!(u16_u16_u16::descriptor().gl_type_code(), gl::UNSIGNED_SHORT);
    assert_eq!(i32_i32_i32_i32::descriptor().gl_type_code(), gl::INT);
    assert_eq!(u32_u32_float::descriptor().gl_type_code(), gl::UNSIGNED_INT);
    assert_eq!(f16_f16::descriptor().gl_type_code(), gl::HALF_FLOAT);
    assert_eq!(
        i2_i10_i10_i10_rev::descriptor().gl_type_code(),
        gl::INT_2_10_10_10_REV
    );
    assert_eq!(
        u2_u10_u10_u10_rev_float::descriptor().gl_type_code(),
        gl::UNSIGNED_INT_2_10_10_10_REV
    );
    assert_eq!(
        u10_u11_u11_rev::descriptor().gl_type_code(),
        gl::UNSIGNED_INT_10F_11F_11F_REV
    );
}

#[test]
fn float_scalar_descriptors_for_outer_layers() {
    // The catalogue also describes the wide-float encodings whose values the
    // outer layer owns; their configuration is plain data.
    let pos = ComponentDescriptor {
        format: ComponentFormat::Scalar {
            kind: ScalarKind::F32,
            count: 3,
        },
        normalized: false,
    };
    assert_eq!(pos.byte_size(), 12);
    assert_eq!(pos.gl_type_code(), gl::FLOAT);
    assert!(!pos.uses_integer_path());
    assert!(!pos.uses_long_path());

    let dbl = ComponentDescriptor {
        format: ComponentFormat::Scalar {
            kind: ScalarKind::F64,
            count: 2,
        },
        normalized: false,
    };
    assert_eq!(dbl.byte_size(), 16);
    assert_eq!(dbl.gl_type_code(), gl::DOUBLE);
    assert!(dbl.uses_long_path());
}
