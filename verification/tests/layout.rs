use render_gl::data::{
    f16_f16_f16, i16_i16_i16, i8_i8_i8_i8_float, u2_u10_u10_u10_rev_float, ComponentDescriptor,
    ComponentFormat, ScalarKind, VertexLayout,
};

fn position_color_layout() -> VertexLayout {
    // Interleaved position (three 32-bit floats) and color (three 32-bit
    // floats), the layout the classic triangle draws with.
    let f32x3 = ComponentDescriptor {
        format: ComponentFormat::Scalar {
            kind: ScalarKind::F32,
            count: 3,
        },
        normalized: false,
    };
    VertexLayout {
        fields: vec![f32x3, f32x3],
    }
}

#[test]
fn stride_is_the_sum_of_field_sizes() {
    let l = position_color_layout();
    assert_eq!(l.stride(), 24);

    let mixed = VertexLayout {
        fields: vec![
            i16_i16_i16::descriptor(),
            i8_i8_i8_i8_float::descriptor(),
            u2_u10_u10_u10_rev_float::descriptor(),
            f16_f16_f16::descriptor(),
        ],
    };
    assert_eq!(mixed.stride(), 6 + 4 + 4 + 6);
}

#[test]
fn offsets_are_prefix_sums_of_field_sizes() {
    let mixed = VertexLayout {
        fields: vec![
            i16_i16_i16::descriptor(),
            i8_i8_i8_i8_float::descriptor(),
            u2_u10_u10_u10_rev_float::descriptor(),
            f16_f16_f16::descriptor(),
        ],
    };
    assert_eq!(mixed.offset(0), 0);
    assert_eq!(mixed.offset(1), 6);
    assert_eq!(mixed.offset(2), 10);
    assert_eq!(mixed.offset(3), 14);
}

#[test]
fn empty_layout_has_zero_stride() {
    let l = VertexLayout { fields: vec![] };
    assert_eq!(l.stride(), 0);
    assert_eq!(l.bind_all(0).len(), 0);
}

#[test]
fn bind_all_issues_one_binding_per_field() {
    let l = position_color_layout();
    let bindings = l.bind_all(0);
    assert_eq!(bindings.len(), 2);

    // Position at slot 0, byte offset 0; color at slot 1, byte offset 12;
    // both share the record's single 24-byte stride.
    assert_eq!(bindings[0].location, 0);
    assert_eq!(bindings[0].offset, 0);
    assert_eq!(bindings[0].stride, 24);
    assert_eq!(bindings[0].descriptor, l.fields[0]);

    assert_eq!(bindings[1].location, 1);
    assert_eq!(bindings[1].offset, 12);
    assert_eq!(bindings[1].stride, 24);
    assert_eq!(bindings[1].descriptor, l.fields[1]);
}

#[test]
fn bind_all_respects_the_base_location() {
    let mixed = VertexLayout {
        fields: vec![
            i16_i16_i16::descriptor(),
            u2_u10_u10_u10_rev_float::descriptor(),
            f16_f16_f16::descriptor(),
        ],
    };
    let bindings = mixed.bind_all(4);
    assert_eq!(bindings.len(), 3);
    let stride = mixed.stride();
    for (i, b) in bindings.iter().enumerate() {
        assert_eq!(b.location, 4 + i);
        assert_eq!(b.stride, stride);
        assert_eq!(b.offset, mixed.offset(i));
        assert_eq!(b.descriptor, mixed.fields[i]);
    }
}
