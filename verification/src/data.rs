//! The component descriptor catalogue: every scalar/vector encoding a vertex
//! field may use, paired with the exact attribute-pointer configuration the
//! GPU driver needs to interpret a raw byte range as that encoding.
//!
//! The catalogue is closed: each field type below carries one fixed
//! `ComponentDescriptor`, and a `VertexLayout` derives strides, offsets and
//! the full binding sequence from those descriptors alone.

use vstd::prelude::*;

use crate::packed::{
    field_a_10_11_11, field_b_10_11_11, field_c_10_11_11, field_w_2_10_10_10, field_x_2_10_10_10,
    field_y_2_10_10_10, field_z_2_10_10_10, pack_10_11_11, pack_signed_2_10_10_10,
    pack_unsigned_2_10_10_10, signed_10, signed_2, spec_pack_10_11_11, spec_pack_2_10_10_10,
    spec_pack_signed_2_10_10_10, unpack_10_11_11, unpack_signed_2_10_10_10,
    unpack_unsigned_2_10_10_10,
};

verus! {

/// A 16-bit float carried as its raw bit pattern. The catalogue stores the
/// bits and hands them back unchanged; converting to or from wider floats is
/// the outer layer's business.
#[derive(Clone, Copy, Debug, PartialEq, Eq, Structural)]
pub struct HalfBits {
    pub bits: u16,
}

/// The scalar kinds a non-packed component may be built from.
#[derive(Clone, Copy, Debug, PartialEq, Eq, Structural)]
pub enum ScalarKind {
    I8,
    U8,
    I16,
    U16,
    I32,
    U32,
    F16,
    F32,
    F64,
}

impl ScalarKind {
    /// Byte size of one scalar of this kind.
    pub open spec fn spec_byte_size(self) -> int {
        match self {
            ScalarKind::I8 => 1,
            ScalarKind::U8 => 1,
            ScalarKind::I16 => 2,
            ScalarKind::U16 => 2,
            ScalarKind::I32 => 4,
            ScalarKind::U32 => 4,
            ScalarKind::F16 => 2,
            ScalarKind::F32 => 4,
            ScalarKind::F64 => 8,
        }
    }

    /// The driver's type tag for this scalar kind, as the GL registry defines it.
    pub open spec fn spec_gl_type_code(self) -> u32 {
        match self {
            ScalarKind::I8 => GL_BYTE,
            ScalarKind::U8 => GL_UNSIGNED_BYTE,
            ScalarKind::I16 => GL_SHORT,
            ScalarKind::U16 => GL_UNSIGNED_SHORT,
            ScalarKind::I32 => GL_INT,
            ScalarKind::U32 => GL_UNSIGNED_INT,
            ScalarKind::F16 => GL_HALF_FLOAT,
            ScalarKind::F32 => GL_FLOAT,
            ScalarKind::F64 => GL_DOUBLE,
        }
    }

    pub open spec fn spec_is_integer(self) -> bool {
        match self {
            ScalarKind::I8 => true,
            ScalarKind::U8 => true,
            ScalarKind::I16 => true,
            ScalarKind::U16 => true,
            ScalarKind::I32 => true,
            ScalarKind::U32 => true,
            ScalarKind::F16 => false,
            ScalarKind::F32 => false,
            ScalarKind::F64 => false,
        }
    }
}

/// Driver type tags, as the GL registry assigns them.
pub const GL_BYTE: u32 = 0x1400;

pub const GL_UNSIGNED_BYTE: u32 = 0x1401;

pub const GL_SHORT: u32 = 0x1402;

pub const GL_UNSIGNED_SHORT: u32 = 0x1403;

pub const GL_INT: u32 = 0x1404;

pub const GL_UNSIGNED_INT: u32 = 0x1405;

pub const GL_FLOAT: u32 = 0x1406;

pub const GL_DOUBLE: u32 = 0x140A;

pub const GL_HALF_FLOAT: u32 = 0x140B;

pub const GL_INT_2_10_10_10_REV: u32 = 0x8D9F;

pub const GL_UNSIGNED_INT_2_10_10_10_REV: u32 = 0x8368;

pub const GL_UNSIGNED_INT_10F_11F_11F_REV: u32 = 0x8C3B;

/// How the bits of one component are arranged: a small vector of one scalar
/// kind, or one of the fixed packed 32-bit words.
#[derive(Clone, Copy, Debug, PartialEq, Eq, Structural)]
pub enum ComponentFormat {
    /// `count` consecutive scalars of one kind, `1 <= count <= 4`.
    Scalar { kind: ScalarKind, count: u8 },
    /// One 32-bit word: a 2-bit field in the top bits and three 10-bit
    /// two's-complement fields below it.
    PackedSigned2_10_10_10,
    /// One 32-bit word: a 2-bit field in the top bits and three unsigned
    /// 10-bit fields below it.
    PackedUnsigned2_10_10_10,
    /// One 32-bit word: a 10-bit unsigned float pattern in the top bits and
    /// two 11-bit unsigned float patterns below it.
    Packed10F11F11F,
}

/// One catalogue entry: a component format plus its normalization mode.
///
/// `normalized` selects whether the driver reinterprets narrow integer bits
/// as a float scaled into [0,1] or [-1,1]; a raw-integer entry passes the
/// integer through unchanged.
#[derive(Clone, Copy, Debug, PartialEq, Eq, Structural)]
pub struct ComponentDescriptor {
    pub format: ComponentFormat,
    pub normalized: bool,
}

impl ComponentDescriptor {
    /// A descriptor is well formed when its scalar count is 1 to 4 and
    /// normalization is only requested for bit patterns that have a
    /// normalized reading (floats are never normalized).
    pub open spec fn wf(self) -> bool {
        match self.format {
            ComponentFormat::Scalar { kind, count } => {
                1 <= count <= 4 && (self.normalized ==> kind.spec_is_integer())
            },
            _ => true,
        }
    }

    /// How many components the GPU attribute reads.
    pub open spec fn spec_element_count(self) -> int {
        match self.format {
            ComponentFormat::Scalar { kind: _, count } => count as int,
            ComponentFormat::PackedSigned2_10_10_10 => 4,
            ComponentFormat::PackedUnsigned2_10_10_10 => 4,
            ComponentFormat::Packed10F11F11F => 3,
        }
    }

    /// Total byte size of one component of this descriptor. Constant per
    /// descriptor; every packed word occupies four bytes.
    pub open spec fn spec_byte_size(self) -> int {
        match self.format {
            ComponentFormat::Scalar { kind, count } => kind.spec_byte_size() * count as int,
            ComponentFormat::PackedSigned2_10_10_10 => 4,
            ComponentFormat::PackedUnsigned2_10_10_10 => 4,
            ComponentFormat::Packed10F11F11F => 4,
        }
    }

    /// The driver scalar-type tag to register for this descriptor.
    pub open spec fn spec_gl_type_code(self) -> u32 {
        match self.format {
            ComponentFormat::Scalar { kind, count: _ } => kind.spec_gl_type_code(),
            ComponentFormat::PackedSigned2_10_10_10 => GL_INT_2_10_10_10_REV,
            ComponentFormat::PackedUnsigned2_10_10_10 => GL_UNSIGNED_INT_2_10_10_10_REV,
            ComponentFormat::Packed10F11F11F => GL_UNSIGNED_INT_10F_11F_11F_REV,
        }
    }

    /// True when binding must take the integer-attribute path (the raw
    /// integer reaches the shader), rather than the float/normalized path.
    pub open spec fn spec_uses_integer_path(self) -> bool {
        match self.format {
            ComponentFormat::Scalar { kind, count: _ } => {
                kind.spec_is_integer() && !self.normalized
            },
            _ => false,
        }
    }

    /// True when binding must take the 64-bit-float attribute path.
    pub open spec fn spec_uses_long_path(self) -> bool {
        match self.format {
            ComponentFormat::Scalar { kind, count: _ } => kind == ScalarKind::F64,
            _ => false,
        }
    }

    pub fn element_count(&self) -> (n: u8)
        ensures
            n as int == self.spec_element_count(),
    {
        match self.format {
            ComponentFormat::Scalar { kind: _, count } => count,
            ComponentFormat::PackedSigned2_10_10_10 => 4,
            ComponentFormat::PackedUnsigned2_10_10_10 => 4,
            ComponentFormat::Packed10F11F11F => 3,
        }
    }

    pub fn byte_size(&self) -> (n: u8)
        requires
            self.wf(),
        ensures
            n as int == self.spec_byte_size(),
    {
        match self.format {
            ComponentFormat::Scalar { kind, count } => {
                let scalar: u8 = match kind {
                    ScalarKind::I8 => 1,
                    ScalarKind::U8 => 1,
                    ScalarKind::I16 => 2,
                    ScalarKind::U16 => 2,
                    ScalarKind::I32 => 4,
                    ScalarKind::U32 => 4,
                    ScalarKind::F16 => 2,
                    ScalarKind::F32 => 4,
                    ScalarKind::F64 => 8,
                };
                scalar * count
            },
            ComponentFormat::PackedSigned2_10_10_10 => 4,
            ComponentFormat::PackedUnsigned2_10_10_10 => 4,
            ComponentFormat::Packed10F11F11F => 4,
        }
    }

    pub fn gl_type_code(&self) -> (c: u32)
        ensures
            c == self.spec_gl_type_code(),
    {
        match self.format {
            ComponentFormat::Scalar { kind, count: _ } => {
                match kind {
                    ScalarKind::I8 => GL_BYTE,
                    ScalarKind::U8 => GL_UNSIGNED_BYTE,
                    ScalarKind::I16 => GL_SHORT,
                    ScalarKind::U16 => GL_UNSIGNED_SHORT,
                    ScalarKind::I32 => GL_INT,
                    ScalarKind::U32 => GL_UNSIGNED_INT,
                    ScalarKind::F16 => GL_HALF_FLOAT,
                    ScalarKind::F32 => GL_FLOAT,
                    ScalarKind::F64 => GL_DOUBLE,
                }
            },
            ComponentFormat::PackedSigned2_10_10_10 => GL_INT_2_10_10_10_REV,
            ComponentFormat::PackedUnsigned2_10_10_10 => GL_UNSIGNED_INT_2_10_10_10_REV,
            ComponentFormat::Packed10F11F11F => GL_UNSIGNED_INT_10F_11F_11F_REV,
        }
    }

    pub fn uses_integer_path(&self) -> (b: bool)
        ensures
            b == self.spec_uses_integer_path(),
    {
        match self.format {
            ComponentFormat::Scalar { kind, count: _ } => {
                let is_int: bool = match kind {
                    ScalarKind::I8 => true,
                    ScalarKind::U8 => true,
                    ScalarKind::I16 => true,
                    ScalarKind::U16 => true,
                    ScalarKind::I32 => true,
                    ScalarKind::U32 => true,
                    ScalarKind::F16 => false,
                    ScalarKind::F32 => false,
                    ScalarKind::F64 => false,
                };
                is_int && !self.normalized
            },
            _ => false,
        }
    }

    pub fn uses_long_path(&self) -> (b: bool)
        ensures
            b == self.spec_uses_long_path(),
    {
        match self.format {
            ComponentFormat::Scalar { kind, count: _ } => {
                matches!(kind, ScalarKind::F64)
            },
            _ => false,
        }
    }
}

/// One attribute-binding configuration: everything the driver is told when a
/// field of a record is registered against the currently bound buffer.
#[derive(Clone, Copy, Debug, PartialEq, Eq, Structural)]
pub struct AttribBinding {
    /// The attribute slot the shader reads this field from.
    pub location: usize,
    /// The field's catalogue entry.
    pub descriptor: ComponentDescriptor,
    /// Byte distance from one record to the next; shared by all fields.
    pub stride: usize,
    /// Byte position of this field inside one record.
    pub offset: usize,
}

/// An ordered sequence of component descriptors: the layout of one vertex
/// record. Stride and per-field offsets are derived, never stored, so they
/// cannot fall out of step with the field list.
pub struct VertexLayout {
    pub fields: Vec<ComponentDescriptor>,
}

impl VertexLayout {
    pub open spec fn wf(self) -> bool {
        forall|i: int| 0 <= i < self.fields@.len() ==> (#[trigger] self.fields@[i]).wf()
    }

    /// Byte offset of field `i`: the sum of the byte sizes of the fields
    /// before it. `spec_offset(len)` is the record's total size.
    pub open spec fn spec_offset(self, i: int) -> int
        decreases i,
    {
        if i <= 0 {
            0
        } else {
            self.spec_offset(i - 1) + self.fields@[i - 1].spec_byte_size()
        }
    }

    /// Total byte size of one record: fields are packed with no padding.
    pub open spec fn spec_stride(self) -> int {
        self.spec_offset(self.fields@.len() as int)
    }

    pub fn len(&self) -> (n: usize)
        ensures
            n == self.fields@.len(),
    {
        self.fields.len()
    }

    /// Offsets grow with the field index; in particular every field offset
    /// is at most the stride.
    pub proof fn lemma_offset_monotonic(self, i: int, j: int)
        requires
            self.wf(),
            0 <= i <= j <= self.fields@.len(),
        ensures
            self.spec_offset(i) <= self.spec_offset(j),
        decreases j - i,
    {
        if i < j {
            self.lemma_offset_monotonic(i, j - 1);
            assert(self.fields@[j - 1].wf());
            assert(self.fields@[j - 1].spec_byte_size() >= 0);
        }
    }

    /// The layout law: the first field starts at byte zero, each field
    /// starts exactly where the one before it ends, and the stride is the
    /// sum of all field sizes.
    pub proof fn lemma_packed_layout(self, i: int)
        requires
            0 <= i < self.fields@.len(),
        ensures
            self.spec_offset(0) == 0,
            self.spec_offset(i + 1) == self.spec_offset(i) + self.fields@[i].spec_byte_size(),
            self.spec_stride() == self.spec_offset(self.fields@.len() as int),
    {
    }

    /// The record's stride.
    pub fn stride(&self) -> (s: usize)
        requires
            self.wf(),
            self.spec_stride() <= usize::MAX,
        ensures
            s as int == self.spec_stride(),
    {
        let n: usize = self.fields.len();
        let mut total: usize = 0;
        let mut i: usize = 0;
        while i < n
            invariant
                self.wf(),
                self.spec_stride() <= usize::MAX,
                n == self.fields@.len(),
                0 <= i <= n,
                total as int == self.spec_offset(i as int),
            decreases n - i,
        {
            proof {
                self.lemma_offset_monotonic(i + 1 as int, n as int);
            }
            let sz: u8 = self.fields[i].byte_size();
            total = total + sz as usize;
            i = i + 1;
        }
        total
    }

    /// Byte offset of field `i` inside one record.
    pub fn offset(&self, i: usize) -> (o: usize)
        requires
            self.wf(),
            i < self.fields@.len(),
            self.spec_stride() <= usize::MAX,
        ensures
            o as int == self.spec_offset(i as int),
    {
        let mut total: usize = 0;
        let mut k: usize = 0;
        while k < i
            invariant
                self.wf(),
                self.spec_stride() <= usize::MAX,
                i < self.fields@.len(),
                0 <= k <= i,
                total as int == self.spec_offset(k as int),
            decreases i - k,
        {
            proof {
                self.lemma_offset_monotonic(k + 1 as int, self.fields@.len() as int);
            }
            let sz: u8 = self.fields[k].byte_size();
            total = total + sz as usize;
            k = k + 1;
        }
        proof {
            self.lemma_offset_monotonic(i as int, self.fields@.len() as int);
        }
        total
    }

    /// Emit the full attribute-binding sequence for this record: one
    /// configuration per field, in declared order, each at its own derived
    /// offset and slot `base_location + index`, all sharing the record's
    /// single stride.
    pub fn bind_all(&self, base_location: usize) -> (v: Vec<AttribBinding>)
        requires
            self.wf(),
            self.spec_stride() <= usize::MAX,
            base_location + self.fields@.len() <= usize::MAX,
        ensures
            v@.len() == self.fields@.len(),
            forall|i: int|
                0 <= i < v@.len() ==> v@[i] == (AttribBinding {
                    location: (base_location + i) as usize,
                    descriptor: self.fields@[i],
                    stride: self.spec_stride() as usize,
                    offset: self.spec_offset(i) as usize,
                }),
    {
        let n: usize = self.fields.len();
        let stride: usize = self.stride();
        let mut v: Vec<AttribBinding> = Vec::new();
        let mut offset: usize = 0;
        let mut i: usize = 0;
        while i < n
            invariant
                self.wf(),
                self.spec_stride() <= usize::MAX,
                base_location + n <= usize::MAX,
                n == self.fields@.len(),
                stride as int == self.spec_stride(),
                0 <= i <= n,
                offset as int == self.spec_offset(i as int),
                v@.len() == i,
                forall|j: int|
                    0 <= j < i ==> v@[j] == (AttribBinding {
                        location: (base_location + j) as usize,
                        descriptor: self.fields@[j],
                        stride: stride,
                        offset: self.spec_offset(j) as usize,
                    }),
            decreases n - i,
        {
            proof {
                self.lemma_offset_monotonic(i as int, n as int);
                self.lemma_offset_monotonic(i + 1 as int, n as int);
            }
            let d: ComponentDescriptor = self.fields[i];
            v.push(AttribBinding { location: base_location + i, descriptor: d, stride, offset });
            let sz: u8 = d.byte_size();
            offset = offset + sz as usize;
            i = i + 1;
        }
        v
    }
}

/// One signed 8-bit scalar, handed to the shader as a raw integer.
#[allow(non_camel_case_types)]
#[derive(Clone, Copy, Debug)]
pub struct i8_ {
    pub d0: i8,
}

impl i8_ {
    pub fn new(d0: i8) -> (r: i8_)
        ensures
            r.d0 == d0,
    {
        i8_ { d0 }
    }

    /// This type's fixed catalogue entry.
    pub fn descriptor() -> (d: ComponentDescriptor)
        ensures
            d == (ComponentDescriptor {
                format: ComponentFormat::Scalar { kind: ScalarKind::I8, count: 1 },
                normalized: false,
            }),
            d.wf(),
    {
        ComponentDescriptor {
            format: ComponentFormat::Scalar { kind: ScalarKind::I8, count: 1 },
            normalized: false,
        }
    }
}

/// Three signed 8-bit scalars, handed to the shader as raw integers.
#[allow(non_camel_case_types)]
#[derive(Clone, Copy, Debug)]
pub struct i8_i8_i8 {
    pub d0: i8,
    pub d1: i8,
    pub d2: i8,
}

impl i8_i8_i8 {
    pub fn new(d0: i8, d1: i8, d2: i8) -> (r: i8_i8_i8)
        ensures
            r.d0 == d0,
            r.d1 == d1,
            r.d2 == d2,
    {
        i8_i8_i8 { d0, d1, d2 }
    }

    /// This type's fixed catalogue entry.
    pub fn descriptor() -> (d: ComponentDescriptor)
        ensures
            d == (ComponentDescriptor {
                format: ComponentFormat::Scalar { kind: ScalarKind::I8, count: 3 },
                normalized: false,
            }),
            d.wf(),
    {
        ComponentDescriptor {
            format: ComponentFormat::Scalar { kind: ScalarKind::I8, count: 3 },
            normalized: false,
        }
    }
}

/// Four signed 8-bit scalars, handed to the shader as raw integers.
#[allow(non_camel_case_types)]
#[derive(Clone, Copy, Debug)]
pub struct i8_i8_i8_i8 {
    pub d0: i8,
    pub d1: i8,
    pub d2: i8,
    pub d3: i8,
}

impl i8_i8_i8_i8 {
    pub fn new(d0: i8, d1: i8, d2: i8, d3: i8) -> (r: i8_i8_i8_i8)
        ensures
            r.d0 == d0,
            r.d1 == d1,
            r.d2 == d2,
            r.d3 == d3,
    {
        i8_i8_i8_i8 { d0, d1, d2, d3 }
    }

    /// This type's fixed catalogue entry.
    pub fn descriptor() -> (d: ComponentDescriptor)
        ensures
            d == (ComponentDescriptor {
                format: ComponentFormat::Scalar { kind: ScalarKind::I8, count: 4 },
                normalized: false,
            }),
            d.wf(),
    {
        ComponentDescriptor {
            format: ComponentFormat::Scalar { kind: ScalarKind::I8, count: 4 },
            normalized: false,
        }
    }
}

/// One signed 8-bit scalar, reinterpreted by the driver as a normalized float.
#[allow(non_camel_case_types)]
#[derive(Clone, Copy, Debug)]
pub struct i8_float {
    pub d0: i8,
}

impl i8_float {
    pub fn new(d0: i8) -> (r: i8_float)
        ensures
            r.d0 == d0,
    {
        i8_float { d0 }
    }

    /// This type's fixed catalogue entry.
    pub fn descriptor() -> (d: ComponentDescriptor)
        ensures
            d == (ComponentDescriptor {
                format: ComponentFormat::Scalar { kind: ScalarKind::I8, count: 1 },
                normalized: true,
            }),
            d.wf(),
    {
        ComponentDescriptor {
            format: ComponentFormat::Scalar { kind: ScalarKind::I8, count: 1 },
            normalized: true,
        }
    }
}

/// Two signed 8-bit scalars, reinterpreted by the driver as normalized floats.
#[allow(non_camel_case_types)]
#[derive(Clone, Copy, Debug)]
pub struct i8_i8_float {
    pub d0: i8,
    pub d1: i8,
}

impl i8_i8_float {
    pub fn new(d0: i8, d1: i8) -> (r: i8_i8_float)
        ensures
            r.d0 == d0,
            r.d1 == d1,
    {
        i8_i8_float { d0, d1 }
    }

    /// This type's fixed catalogue entry.
    pub fn descriptor() -> (d: ComponentDescriptor)
        ensures
            d == (ComponentDescriptor {
                format: ComponentFormat::Scalar { kind: ScalarKind::I8, count: 2 },
                normalized: true,
            }),
            d.wf(),
    {
        ComponentDescriptor {
            format: ComponentFormat::Scalar { kind: ScalarKind::I8, count: 2 },
            normalized: true,
        }
    }
}

/// Three signed 8-bit scalars, reinterpreted by the driver as normalized floats.
#[allow(non_camel_case_types)]
#[derive(Clone, Copy, Debug)]
pub struct i8_i8_i8_float {
    pub d0: i8,
    pub d1: i8,
    pub d2: i8,
}

impl i8_i8_i8_float {
    pub fn new(d0: i8, d1: i8, d2: i8) -> (r: i8_i8_i8_float)
        ensures
            r.d0 == d0,
            r.d1 == d1,
            r.d2 == d2,
    {
        i8_i8_i8_float { d0, d1, d2 }
    }

    /// This type's fixed catalogue entry.
    pub fn descriptor() -> (d: ComponentDescriptor)
        ensures
            d == (ComponentDescriptor {
                format: ComponentFormat::Scalar { kind: ScalarKind::I8, count: 3 },
                normalized: true,
            }),
            d.wf(),
    {
        ComponentDescriptor {
            format: ComponentFormat::Scalar { kind: ScalarKind::I8, count: 3 },
            normalized: true,
        }
    }
}

/// Four signed 8-bit scalars, reinterpreted by the driver as normalized floats.
#[allow(non_camel_case_types)]
#[derive(Clone, Copy, Debug)]
pub struct i8_i8_i8_i8_float {
    pub d0: i8,
    pub d1: i8,
    pub d2: i8,
    pub d3: i8,
}

impl i8_i8_i8_i8_float {
    pub fn new(d0: i8, d1: i8, d2: i8, d3: i8) -> (r: i8_i8_i8_i8_float)
        ensures
            r.d0 == d0,
            r.d1 == d1,
            r.d2 == d2,
            r.d3 == d3,
    {
        i8_i8_i8_i8_float { d0, d1, d2, d3 }
    }

    /// This type's fixed catalogue entry.
    pub fn descriptor() -> (d: ComponentDescriptor)
        ensures
            d == (ComponentDescriptor {
                format: ComponentFormat::Scalar { kind: ScalarKind::I8, count: 4 },
                normalized: true,
            }),
            d.wf(),
    {
        ComponentDescriptor {
            format: ComponentFormat::Scalar { kind: ScalarKind::I8, count: 4 },
            normalized: true,
        }
    }
}

/// One signed 16-bit scalar, handed to the shader as a raw integer.
#[allow(non_camel_case_types)]
#[derive(Clone, Copy, Debug)]
pub struct i16_ {
    pub d0: i16,
}

impl i16_ {
    pub fn new(d0: i16) -> (r: i16_)
        ensures
            r.d0 == d0,
    {
        i16_ { d0 }
    }

    /// This type's fixed catalogue entry.
    pub fn descriptor() -> (d: ComponentDescriptor)
        ensures
            d == (ComponentDescriptor {
                format: ComponentFormat::Scalar { kind: ScalarKind::I16, count: 1 },
                normalized: false,
            }),
            d.wf(),
    {
        ComponentDescriptor {
            format: ComponentFormat::Scalar { kind: ScalarKind::I16, count: 1 },
            normalized: false,
        }
    }
}

/// Two signed 16-bit scalars, handed to the shader as raw integers.
#[allow(non_camel_case_types)]
#[derive(Clone, Copy, Debug)]
pub struct i16_i16 {
    pub d0: i16,
    pub d1: i16,
}

impl i16_i16 {
    pub fn new(d0: i16, d1: i16) -> (r: i16_i16)
        ensures
            r.d0 == d0,
            r.d1 == d1,
    {
        i16_i16 { d0, d1 }
    }

    /// This type's fixed catalogue entry.
    pub fn descriptor() -> (d: ComponentDescriptor)
        ensures
            d == (ComponentDescriptor {
                format: ComponentFormat::Scalar { kind: ScalarKind::I16, count: 2 },
                normalized: false,
            }),
            d.wf(),
    {
        ComponentDescriptor {
            format: ComponentFormat::Scalar { kind: ScalarKind::I16, count: 2 },
            normalized: false,
        }
    }
}

/// Three signed 16-bit scalars, handed to the shader as raw integers.
#[allow(non_camel_case_types)]
#[derive(Clone, Copy, Debug)]
pub struct i16_i16_i16 {
    pub d0: i16,
    pub d1: i16,
    pub d2: i16,
}

impl i16_i16_i16 {
    pub fn new(d0: i16, d1: i16, d2: i16) -> (r: i16_i16_i16)
        ensures
            r.d0 == d0,
            r.d1 == d1,
            r.d2 == d2,
    {
        i16_i16_i16 { d0, d1, d2 }
    }

    /// This type's fixed catalogue entry.
    pub fn descriptor() -> (d: ComponentDescriptor)
        ensures
            d == (ComponentDescriptor {
                format: ComponentFormat::Scalar { kind: ScalarKind::I16, count: 3 },
                normalized: false,
            }),
            d.wf(),
    {
        ComponentDescriptor {
            format: ComponentFormat::Scalar { kind: ScalarKind::I16, count: 3 },
            normalized: false,
        }
    }
}

/// Four signed 16-bit scalars, handed to the shader as raw integers.
#[allow(non_camel_case_types)]
#[derive(Clone, Copy, Debug)]
pub struct i16_i16_i16_i16 {
    pub d0: i16,
    pub d1: i16,
    pub d2: i16,
    pub d3: i16,
}

impl i16_i16_i16_i16 {
    pub fn new(d0: i16, d1: i16, d2: i16, d3: i16) -> (r: i16_i16_i16_i16)
        ensures
            r.d0 == d0,
            r.d1 == d1,
            r.d2 == d2,
            r.d3 == d3,
    {
        i16_i16_i16_i16 { d0, d1, d2, d3 }
    }

    /// This type's fixed catalogue entry.
    pub fn descriptor() -> (d: ComponentDescriptor)
        ensures
            d == (ComponentDescriptor {
                format: ComponentFormat::Scalar { kind: ScalarKind::I16, count: 4 },
                normalized: false,
            }),
            d.wf(),
    {
        ComponentDescriptor {
            format: ComponentFormat::Scalar { kind: ScalarKind::I16, count: 4 },
            normalized: false,
        }
    }
}

/// One signed 16-bit scalar, reinterpreted by the driver as a normalized float.
#[allow(non_camel_case_types)]
#[derive(Clone, Copy, Debug)]
pub struct i16_float {
    pub d0: i16,
}

impl i16_float {
    pub fn new(d0: i16) -> (r: i16_float)
        ensures
            r.d0 == d0,
    {
        i16_float { d0 }
    }

    /// This type's fixed catalogue entry.
    pub fn descriptor() -> (d: ComponentDescriptor)
        ensures
            d == (ComponentDescriptor {
                format: ComponentFormat::Scalar { kind: ScalarKind::I16, count: 1 },
                normalized: true,
            }),
            d.wf(),
    {
        ComponentDescriptor {
            format: ComponentFormat::Scalar { kind: ScalarKind::I16, count: 1 },
            normalized: true,
        }
    }
}

/// Two signed 16-bit scalars, reinterpreted by the driver as normalized floats.
#[allow(non_camel_case_types)]
#[derive(Clone, Copy, Debug)]
pub struct i16_i16_float {
    pub d0: i16,
    pub d1: i16,
}

impl i16_i16_float {
    pub fn new(d0: i16, d1: i16) -> (r: i16_i16_float)
        ensures
            r.d0 == d0,
            r.d1 == d1,
    {
        i16_i16_float { d0, d1 }
    }

    /// This type's fixed catalogue entry.
    pub fn descriptor() -> (d: ComponentDescriptor)
        ensures
            d == (ComponentDescriptor {
                format: ComponentFormat::Scalar { kind: ScalarKind::I16, count: 2 },
                normalized: true,
            }),
            d.wf(),
    {
        ComponentDescriptor {
            format: ComponentFormat::Scalar { kind: ScalarKind::I16, count: 2 },
            normalized: true,
        }
    }
}

/// Three signed 16-bit scalars, reinterpreted by the driver as normalized floats.
#[allow(non_camel_case_types)]
#[derive(Clone, Copy, Debug)]
pub struct i16_i16_i16_float {
    pub d0: i16,
    pub d1: i16,
    pub d2: i16,
}

impl i16_i16_i16_float {
    pub fn new(d0: i16, d1: i16, d2: i16) -> (r: i16_i16_i16_float)
        ensures
            r.d0 == d0,
            r.d1 == d1,
            r.d2 == d2,
    {
        i16_i16_i16_float { d0, d1, d2 }
    }

    /// This type's fixed catalogue entry.
    pub fn descriptor() -> (d: ComponentDescriptor)
        ensures
            d == (ComponentDescriptor {
                format: ComponentFormat::Scalar { kind: ScalarKind::I16, count: 3 },
                normalized: true,
            }),
            d.wf(),
    {
        ComponentDescriptor {
            format: ComponentFormat::Scalar { kind: ScalarKind::I16, count: 3 },
            normalized: true,
        }
    }
}

/// Four signed 16-bit scalars, reinterpreted by the driver as normalized floats.
#[allow(non_camel_case_types)]
#[derive(Clone, Copy, Debug)]
pub struct i16_i16_i16_i16_float {
    pub d0: i16,
    pub d1: i16,
    pub d2: i16,
    pub d3: i16,
}

impl i16_i16_i16_i16_float {
    pub fn new(d0: i16, d1: i16, d2: i16, d3: i16) -> (r: i16_i16_i16_i16_float)
        ensures
            r.d0 == d0,
            r.d1 == d1,
            r.d2 == d2,
            r.d3 == d3,
    {
        i16_i16_i16_i16_float { d0, d1, d2, d3 }
    }

    /// This type's fixed catalogue entry.
    pub fn descriptor() -> (d: ComponentDescriptor)
        ensures
            d == (ComponentDescriptor {
                format: ComponentFormat::Scalar { kind: ScalarKind::I16, count: 4 },
                normalized: true,
            }),
            d.wf(),
    {
        ComponentDescriptor {
            format: ComponentFormat::Scalar { kind: ScalarKind::I16, count: 4 },
            normalized: true,
        }
    }
}

/// One signed 32-bit scalar, handed to the shader as a raw integer.
#[allow(non_camel_case_types)]
#[derive(Clone, Copy, Debug)]
pub struct i32_ {
    pub d0: i32,
}

impl i32_ {
    pub fn new(d0: i32) -> (r: i32_)
        ensures
            r.d0 == d0,
    {
        i32_ { d0 }
    }

    /// This type's fixed catalogue entry.
    pub fn descriptor() -> (d: ComponentDescriptor)
        ensures
            d == (ComponentDescriptor {
                format: ComponentFormat::Scalar { kind: ScalarKind::I32, count: 1 },
                normalized: false,
            }),
            d.wf(),
    {
        ComponentDescriptor {
            format: ComponentFormat::Scalar { kind: ScalarKind::I32, count: 1 },
            normalized: false,
        }
    }
}

/// Two signed 32-bit scalars, handed to the shader as raw integers.
#[allow(non_camel_case_types)]
#[derive(Clone, Copy, Debug)]
pub struct i32_i32 {
    pub d0: i32,
    pub d1: i32,
}

impl i32_i32 {
    pub fn new(d0: i32, d1: i32) -> (r: i32_i32)
        ensures
            r.d0 == d0,
            r.d1 == d1,
    {
        i32_i32 { d0, d1 }
    }

    /// This type's fixed catalogue entry.
    pub fn descriptor() -> (d: ComponentDescriptor)
        ensures
            d == (ComponentDescriptor {
                format: ComponentFormat::Scalar { kind: ScalarKind::I32, count: 2 },
                normalized: false,
            }),
            d.wf(),
    {
        ComponentDescriptor {
            format: ComponentFormat::Scalar { kind: ScalarKind::I32, count: 2 },
            normalized: false,
        }
    }
}

/// Three signed 32-bit scalars, handed to the shader as raw integers.
#[allow(non_camel_case_types)]
#[derive(Clone, Copy, Debug)]
pub struct i32_i32_i32 {
    pub d0: i32,
    pub d1: i32,
    pub d2: i32,
}

impl i32_i32_i32 {
    pub fn new(d0: i32, d1: i32, d2: i32) -> (r: i32_i32_i32)
        ensures
            r.d0 == d0,
            r.d1 == d1,
            r.d2 == d2,
    {
        i32_i32_i32 { d0, d1, d2 }
    }

    /// This type's fixed catalogue entry.
    pub fn descriptor() -> (d: ComponentDescriptor)
        ensures
            d == (ComponentDescriptor {
                format: ComponentFormat::Scalar { kind: ScalarKind::I32, count: 3 },
                normalized: false,
            }),
            d.wf(),
    {
        ComponentDescriptor {
            format: ComponentFormat::Scalar { kind: ScalarKind::I32, count: 3 },
            normalized: false,
        }
    }
}

/// Four signed 32-bit scalars, handed to the shader as raw integers.
#[allow(non_camel_case_types)]
#[derive(Clone, Copy, Debug)]
pub struct i32_i32_i32_i32 {
    pub d0: i32,
    pub d1: i32,
    pub d2: i32,
    pub d3: i32,
}

impl i32_i32_i32_i32 {
    pub fn new(d0: i32, d1: i32, d2: i32, d3: i32) -> (r: i32_i32_i32_i32)
        ensures
            r.d0 == d0,
            r.d1 == d1,
            r.d2 == d2,
            r.d3 == d3,
    {
        i32_i32_i32_i32 { d0, d1, d2, d3 }
    }

    /// This type's fixed catalogue entry.
    pub fn descriptor() -> (d: ComponentDescriptor)
        ensures
            d == (ComponentDescriptor {
                format: ComponentFormat::Scalar { kind: ScalarKind::I32, count: 4 },
                normalized: false,
            }),
            d.wf(),
    {
        ComponentDescriptor {
            format: ComponentFormat::Scalar { kind: ScalarKind::I32, count: 4 },
            normalized: false,
        }
    }
}

/// One signed 32-bit scalar, reinterpreted by the driver as a normalized float.
#[allow(non_camel_case_types)]
#[derive(Clone, Copy, Debug)]
pub struct i32_float {
    pub d0: i32,
}

impl i32_float {
    pub fn new(d0: i32) -> (r: i32_float)
        ensures
            r.d0 == d0,
    {
        i32_float { d0 }
    }

    /// This type's fixed catalogue entry.
    pub fn descriptor() -> (d: ComponentDescriptor)
        ensures
            d == (ComponentDescriptor {
                format: ComponentFormat::Scalar { kind: ScalarKind::I32, count: 1 },
                normalized: true,
            }),
            d.wf(),
    {
        ComponentDescriptor {
            format: ComponentFormat::Scalar { kind: ScalarKind::I32, count: 1 },
            normalized: true,
        }
    }
}

/// Two signed 32-bit scalars, reinterpreted by the driver as normalized floats.
#[allow(non_camel_case_types)]
#[derive(Clone, Copy, Debug)]
pub struct i32_i32_float {
    pub d0: i32,
    pub d1: i32,
}

impl i32_i32_float {
    pub fn new(d0: i32, d1: i32) -> (r: i32_i32_float)
        ensures
            r.d0 == d0,
            r.d1 == d1,
    {
        i32_i32_float { d0, d1 }
    }

    /// This type's fixed catalogue entry.
    pub fn descriptor() -> (d: ComponentDescriptor)
        ensures
            d == (ComponentDescriptor {
                format: ComponentFormat::Scalar { kind: ScalarKind::I32, count: 2 },
                normalized: true,
            }),
            d.wf(),
    {
        ComponentDescriptor {
            format: ComponentFormat::Scalar { kind: ScalarKind::I32, count: 2 },
            normalized: true,
        }
    }
}

/// Three signed 32-bit scalars, reinterpreted by the driver as normalized floats.
#[allow(non_camel_case_types)]
#[derive(Clone, Copy, Debug)]
pub struct i32_i32_i32_float {
    pub d0: i32,
    pub d1: i32,
    pub d2: i32,
}

impl i32_i32_i32_float {
    pub fn new(d0: i32, d1: i32, d2: i32) -> (r: i32_i32_i32_float)
        ensures
            r.d0 == d0,
            r.d1 == d1,
            r.d2 == d2,
    {
        i32_i32_i32_float { d0, d1, d2 }
    }

    /// This type's fixed catalogue entry.
    pub fn descriptor() -> (d: ComponentDescriptor)
        ensures
            d == (ComponentDescriptor {
                format: ComponentFormat::Scalar { kind: ScalarKind::I32, count: 3 },
                normalized: true,
            }),
            d.wf(),
    {
        ComponentDescriptor {
            format: ComponentFormat::Scalar { kind: ScalarKind::I32, count: 3 },
            normalized: true,
        }
    }
}

/// Four signed 32-bit scalars, reinterpreted by the driver as normalized floats.
#[allow(non_camel_case_types)]
#[derive(Clone, Copy, Debug)]
pub struct i32_i32_i32_i32_float {
    pub d0: i32,
    pub d1: i32,
    pub d2: i32,
    pub d3: i32,
}

impl i32_i32_i32_i32_float {
    pub fn new(d0: i32, d1: i32, d2: i32, d3: i32) -> (r: i32_i32_i32_i32_float)
        ensures
            r.d0 == d0,
            r.d1 == d1,
            r.d2 == d2,
            r.d3 == d3,
    {
        i32_i32_i32_i32_float { d0, d1, d2, d3 }
    }

    /// This type's fixed catalogue entry.
    pub fn descriptor() -> (d: ComponentDescriptor)
        ensures
            d == (ComponentDescriptor {
                format: ComponentFormat::Scalar { kind: ScalarKind::I32, count: 4 },
                normalized: true,
            }),
            d.wf(),
    {
        ComponentDescriptor {
            format: ComponentFormat::Scalar { kind: ScalarKind::I32, count: 4 },
            normalized: true,
        }
    }
}

/// One unsigned 8-bit scalar, handed to the shader as a raw integer.
#[allow(non_camel_case_types)]
#[derive(Clone, Copy, Debug)]
pub struct u8_ {
    pub d0: u8,
}

impl u8_ {
    pub fn new(d0: u8) -> (r: u8_)
        ensures
            r.d0 == d0,
    {
        u8_ { d0 }
    }

    /// This type's fixed catalogue entry.
    pub fn descriptor() -> (d: ComponentDescriptor)
        ensures
            d == (ComponentDescriptor {
                format: ComponentFormat::Scalar { kind: ScalarKind::U8, count: 1 },
                normalized: false,
            }),
            d.wf(),
    {
        ComponentDescriptor {
            format: ComponentFormat::Scalar { kind: ScalarKind::U8, count: 1 },
            normalized: false,
        }
    }
}

/// Two unsigned 8-bit scalars, handed to the shader as raw integers.
#[allow(non_camel_case_types)]
#[derive(Clone, Copy, Debug)]
pub struct u8_u8 {
    pub d0: u8,
    pub d1: u8,
}

impl u8_u8 {
    pub fn new(d0: u8, d1: u8) -> (r: u8_u8)
        ensures
            r.d0 == d0,
            r.d1 == d1,
    {
        u8_u8 { d0, d1 }
    }

    /// This type's fixed catalogue entry.
    pub fn descriptor() -> (d: ComponentDescriptor)
        ensures
            d == (ComponentDescriptor {
                format: ComponentFormat::Scalar { kind: ScalarKind::U8, count: 2 },
                normalized: false,
            }),
            d.wf(),
    {
        ComponentDescriptor {
            format: ComponentFormat::Scalar { kind: ScalarKind::U8, count: 2 },
            normalized: false,
        }
    }
}

/// Three unsigned 8-bit scalars, handed to the shader as raw integers.
#[allow(non_camel_case_types)]
#[derive(Clone, Copy, Debug)]
pub struct u8_u8_u8 {
    pub d0: u8,
    pub d1: u8,
    pub d2: u8,
}

impl u8_u8_u8 {
    pub fn new(d0: u8, d1: u8, d2: u8) -> (r: u8_u8_u8)
        ensures
            r.d0 == d0,
            r.d1 == d1,
            r.d2 == d2,
    {
        u8_u8_u8 { d0, d1, d2 }
    }

    /// This type's fixed catalogue entry.
    pub fn descriptor() -> (d: ComponentDescriptor)
        ensures
            d == (ComponentDescriptor {
                format: ComponentFormat::Scalar { kind: ScalarKind::U8, count: 3 },
                normalized: false,
            }),
            d.wf(),
    {
        ComponentDescriptor {
            format: ComponentFormat::Scalar { kind: ScalarKind::U8, count: 3 },
            normalized: false,
        }
    }
}

/// Four unsigned 8-bit scalars, handed to the shader as raw integers.
#[allow(non_camel_case_types)]
#[derive(Clone, Copy, Debug)]
pub struct u8_u8_u8_u8 {
    pub d0: u8,
    pub d1: u8,
    pub d2: u8,
    pub d3: u8,
}

impl u8_u8_u8_u8 {
    pub fn new(d0: u8, d1: u8, d2: u8, d3: u8) -> (r: u8_u8_u8_u8)
        ensures
            r.d0 == d0,
            r.d1 == d1,
            r.d2 == d2,
            r.d3 == d3,
    {
        u8_u8_u8_u8 { d0, d1, d2, d3 }
    }

    /// This type's fixed catalogue entry.
    pub fn descriptor() -> (d: ComponentDescriptor)
        ensures
            d == (ComponentDescriptor {
                format: ComponentFormat::Scalar { kind: ScalarKind::U8, count: 4 },
                normalized: false,
            }),
            d.wf(),
    {
        ComponentDescriptor {
            format: ComponentFormat::Scalar { kind: ScalarKind::U8, count: 4 },
            normalized: false,
        }
    }
}

/// One unsigned 8-bit scalar, reinterpreted by the driver as a normalized float.
#[allow(non_camel_case_types)]
#[derive(Clone, Copy, Debug)]
pub struct u8_float {
    pub d0: u8,
}

impl u8_float {
    pub fn new(d0: u8) -> (r: u8_float)
        ensures
            r.d0 == d0,
    {
        u8_float { d0 }
    }

    /// This type's fixed catalogue entry.
    pub fn descriptor() -> (d: ComponentDescriptor)
        ensures
            d == (ComponentDescriptor {
                format: ComponentFormat::Scalar { kind: ScalarKind::U8, count: 1 },
                normalized: true,
            }),
            d.wf(),
    {
        ComponentDescriptor {
            format: ComponentFormat::Scalar { kind: ScalarKind::U8, count: 1 },
            normalized: true,
        }
    }
}

/// Two unsigned 8-bit scalars, reinterpreted by the driver as normalized floats.
#[allow(non_camel_case_types)]
#[derive(Clone, Copy, Debug)]
pub struct u8_u8_float {
    pub d0: u8,
    pub d1: u8,
}

impl u8_u8_float {
    pub fn new(d0: u8, d1: u8) -> (r: u8_u8_float)
        ensures
            r.d0 == d0,
            r.d1 == d1,
    {
        u8_u8_float { d0, d1 }
    }

    /// This type's fixed catalogue entry.
    pub fn descriptor() -> (d: ComponentDescriptor)
        ensures
            d == (ComponentDescriptor {
                format: ComponentFormat::Scalar { kind: ScalarKind::U8, count: 2 },
                normalized: true,
            }),
            d.wf(),
    {
        ComponentDescriptor {
            format: ComponentFormat::Scalar { kind: ScalarKind::U8, count: 2 },
            normalized: true,
        }
    }
}

/// Three unsigned 8-bit scalars, reinterpreted by the driver as normalized floats.
#[allow(non_camel_case_types)]
#[derive(Clone, Copy, Debug)]
pub struct u8_u8_u8_float {
    pub d0: u8,
    pub d1: u8,
    pub d2: u8,
}

impl u8_u8_u8_float {
    pub fn new(d0: u8, d1: u8, d2: u8) -> (r: u8_u8_u8_float)
        ensures
            r.d0 == d0,
            r.d1 == d1,
            r.d2 == d2,
    {
        u8_u8_u8_float { d0, d1, d2 }
    }

    /// This type's fixed catalogue entry.
    pub fn descriptor() -> (d: ComponentDescriptor)
        ensures
            d == (ComponentDescriptor {
                format: ComponentFormat::Scalar { kind: ScalarKind::U8, count: 3 },
                normalized: true,
            }),
            d.wf(),
    {
        ComponentDescriptor {
            format: ComponentFormat::Scalar { kind: ScalarKind::U8, count: 3 },
            normalized: true,
        }
    }
}

/// Four unsigned 8-bit scalars, reinterpreted by the driver as normalized floats.
#[allow(non_camel_case_types)]
#[derive(Clone, Copy, Debug)]
pub struct u8_u8_u8_u8_float {
    pub d0: u8,
    pub d1: u8,
    pub d2: u8,
    pub d3: u8,
}

impl u8_u8_u8_u8_float {
    pub fn new(d0: u8, d1: u8, d2: u8, d3: u8) -> (r: u8_u8_u8_u8_float)
        ensures
            r.d0 == d0,
            r.d1 == d1,
            r.d2 == d2,
            r.d3 == d3,
    {
        u8_u8_u8_u8_float { d0, d1, d2, d3 }
    }

    /// This type's fixed catalogue entry.
    pub fn descriptor() -> (d: ComponentDescriptor)
        ensures
            d == (ComponentDescriptor {
                format: ComponentFormat::Scalar { kind: ScalarKind::U8, count: 4 },
                normalized: true,
            }),
            d.wf(),
    {
        ComponentDescriptor {
            format: ComponentFormat::Scalar { kind: ScalarKind::U8, count: 4 },
            normalized: true,
        }
    }
}

/// One unsigned 16-bit scalar, handed to the shader as a raw integer.
#[allow(non_camel_case_types)]
#[derive(Clone, Copy, Debug)]
pub struct u16_ {
    pub d0: u16,
}

impl u16_ {
    pub fn new(d0: u16) -> (r: u16_)
        ensures
            r.d0 == d0,
    {
        u16_ { d0 }
    }

    /// This type's fixed catalogue entry.
    pub fn descriptor() -> (d: ComponentDescriptor)
        ensures
            d == (ComponentDescriptor {
                format: ComponentFormat::Scalar { kind: ScalarKind::U16, count: 1 },
                normalized: false,
            }),
            d.wf(),
    {
        ComponentDescriptor {
            format: ComponentFormat::Scalar { kind: ScalarKind::U16, count: 1 },
            normalized: false,
        }
    }
}

/// Two unsigned 16-bit scalars, handed to the shader as raw integers.
#[allow(non_camel_case_types)]
#[derive(Clone, Copy, Debug)]
pub struct u16_u16 {
    pub d0: u16,
    pub d1: u16,
}

impl u16_u16 {
    pub fn new(d0: u16, d1: u16) -> (r: u16_u16)
        ensures
            r.d0 == d0,
            r.d1 == d1,
    {
        u16_u16 { d0, d1 }
    }

    /// This type's fixed catalogue entry.
    pub fn descriptor() -> (d: ComponentDescriptor)
        ensures
            d == (ComponentDescriptor {
                format: ComponentFormat::Scalar { kind: ScalarKind::U16, count: 2 },
                normalized: false,
            }),
            d.wf(),
    {
        ComponentDescriptor {
            format: ComponentFormat::Scalar { kind: ScalarKind::U16, count: 2 },
            normalized: false,
        }
    }
}

/// Three unsigned 16-bit scalars, handed to the shader as raw integers.
#[allow(non_camel_case_types)]
#[derive(Clone, Copy, Debug)]
pub struct u16_u16_u16 {
    pub d0: u16,
    pub d1: u16,
    pub d2: u16,
}

impl u16_u16_u16 {
    pub fn new(d0: u16, d1: u16, d2: u16) -> (r: u16_u16_u16)
        ensures
            r.d0 == d0,
            r.d1 == d1,
            r.d2 == d2,
    {
        u16_u16_u16 { d0, d1, d2 }
    }

    /// This type's fixed catalogue entry.
    pub fn descriptor() -> (d: ComponentDescriptor)
        ensures
            d == (ComponentDescriptor {
                format: ComponentFormat::Scalar { kind: ScalarKind::U16, count: 3 },
                normalized: false,
            }),
            d.wf(),
    {
        ComponentDescriptor {
            format: ComponentFormat::Scalar { kind: ScalarKind::U16, count: 3 },
            normalized: false,
        }
    }
}

/// Four unsigned 16-bit scalars, handed to the shader as raw integers.
#[allow(non_camel_case_types)]
#[derive(Clone, Copy, Debug)]
pub struct u16_u16_u16_u16 {
    pub d0: u16,
    pub d1: u16,
    pub d2: u16,
    pub d3: u16,
}

impl u16_u16_u16_u16 {
    pub fn new(d0: u16, d1: u16, d2: u16, d3: u16) -> (r: u16_u16_u16_u16)
        ensures
            r.d0 == d0,
            r.d1 == d1,
            r.d2 == d2,
            r.d3 == d3,
    {
        u16_u16_u16_u16 { d0, d1, d2, d3 }
    }

    /// This type's fixed catalogue entry.
    pub fn descriptor() -> (d: ComponentDescriptor)
        ensures
            d == (ComponentDescriptor {
                format: ComponentFormat::Scalar { kind: ScalarKind::U16, count: 4 },
                normalized: false,
            }),
            d.wf(),
    {
        ComponentDescriptor {
            format: ComponentFormat::Scalar { kind: ScalarKind::U16, count: 4 },
            normalized: false,
        }
    }
}

/// One unsigned 16-bit scalar, reinterpreted by the driver as a normalized float.
#[allow(non_camel_case_types)]
#[derive(Clone, Copy, Debug)]
pub struct u16_float {
    pub d0: u16,
}

impl u16_float {
    pub fn new(d0: u16) -> (r: u16_float)
        ensures
            r.d0 == d0,
    {
        u16_float { d0 }
    }

    /// This type's fixed catalogue entry.
    pub fn descriptor() -> (d: ComponentDescriptor)
        ensures
            d == (ComponentDescriptor {
                format: ComponentFormat::Scalar { kind: ScalarKind::U16, count: 1 },
                normalized: true,
            }),
            d.wf(),
    {
        ComponentDescriptor {
            format: ComponentFormat::Scalar { kind: ScalarKind::U16, count: 1 },
            normalized: true,
        }
    }
}

/// Two unsigned 16-bit scalars, reinterpreted by the driver as normalized floats.
#[allow(non_camel_case_types)]
#[derive(Clone, Copy, Debug)]
pub struct u16_u16_float {
    pub d0: u16,
    pub d1: u16,
}

impl u16_u16_float {
    pub fn new(d0: u16, d1: u16) -> (r: u16_u16_float)
        ensures
            r.d0 == d0,
            r.d1 == d1,
    {
        u16_u16_float { d0, d1 }
    }

    /// This type's fixed catalogue entry.
    pub fn descriptor() -> (d: ComponentDescriptor)
        ensures
            d == (ComponentDescriptor {
                format: ComponentFormat::Scalar { kind: ScalarKind::U16, count: 2 },
                normalized: true,
            }),
            d.wf(),
    {
        ComponentDescriptor {
            format: ComponentFormat::Scalar { kind: ScalarKind::U16, count: 2 },
            normalized: true,
        }
    }
}

/// Three unsigned 16-bit scalars, reinterpreted by the driver as normalized floats.
#[allow(non_camel_case_types)]
#[derive(Clone, Copy, Debug)]
pub struct u16_u16_u16_float {
    pub d0: u16,
    pub d1: u16,
    pub d2: u16,
}

impl u16_u16_u16_float {
    pub fn new(d0: u16, d1: u16, d2: u16) -> (r: u16_u16_u16_float)
        ensures
            r.d0 == d0,
            r.d1 == d1,
            r.d2 == d2,
    {
        u16_u16_u16_float { d0, d1, d2 }
    }

    /// This type's fixed catalogue entry.
    pub fn descriptor() -> (d: ComponentDescriptor)
        ensures
            d == (ComponentDescriptor {
                format: ComponentFormat::Scalar { kind: ScalarKind::U16, count: 3 },
                normalized: true,
            }),
            d.wf(),
    {
        ComponentDescriptor {
            format: ComponentFormat::Scalar { kind: ScalarKind::U16, count: 3 },
            normalized: true,
        }
    }
}

/// Four unsigned 16-bit scalars, reinterpreted by the driver as normalized floats.
#[allow(non_camel_case_types)]
#[derive(Clone, Copy, Debug)]
pub struct u16_u16_u16_u16_float {
    pub d0: u16,
    pub d1: u16,
    pub d2: u16,
    pub d3: u16,
}

impl u16_u16_u16_u16_float {
    pub fn new(d0: u16, d1: u16, d2: u16, d3: u16) -> (r: u16_u16_u16_u16_float)
        ensures
            r.d0 == d0,
            r.d1 == d1,
            r.d2 == d2,
            r.d3 == d3,
    {
        u16_u16_u16_u16_float { d0, d1, d2, d3 }
    }

    /// This type's fixed catalogue entry.
    pub fn descriptor() -> (d: ComponentDescriptor)
        ensures
            d == (ComponentDescriptor {
                format: ComponentFormat::Scalar { kind: ScalarKind::U16, count: 4 },
                normalized: true,
            }),
            d.wf(),
    {
        ComponentDescriptor {
            format: ComponentFormat::Scalar { kind: ScalarKind::U16, count: 4 },
            normalized: true,
        }
    }
}

/// One unsigned 32-bit scalar, handed to the shader as a raw integer.
#[allow(non_camel_case_types)]
#[derive(Clone, Copy, Debug)]
pub struct u32_ {
    pub d0: u32,
}

impl u32_ {
    pub fn new(d0: u32) -> (r: u32_)
        ensures
            r.d0 == d0,
    {
        u32_ { d0 }
    }

    /// This type's fixed catalogue entry.
    pub fn descriptor() -> (d: ComponentDescriptor)
        ensures
            d == (ComponentDescriptor {
                format: ComponentFormat::Scalar { kind: ScalarKind::U32, count: 1 },
                normalized: false,
            }),
            d.wf(),
    {
        ComponentDescriptor {
            format: ComponentFormat::Scalar { kind: ScalarKind::U32, count: 1 },
            normalized: false,
        }
    }
}

/// Two unsigned 32-bit scalars, handed to the shader as raw integers.
#[allow(non_camel_case_types)]
#[derive(Clone, Copy, Debug)]
pub struct u32_u32 {
    pub d0: u32,
    pub d1: u32,
}

impl u32_u32 {
    pub fn new(d0: u32, d1: u32) -> (r: u32_u32)
        ensures
            r.d0 == d0,
            r.d1 == d1,
    {
        u32_u32 { d0, d1 }
    }

    /// This type's fixed catalogue entry.
    pub fn descriptor() -> (d: ComponentDescriptor)
        ensures
            d == (ComponentDescriptor {
                format: ComponentFormat::Scalar { kind: ScalarKind::U32, count: 2 },
                normalized: false,
            }),
            d.wf(),
    {
        ComponentDescriptor {
            format: ComponentFormat::Scalar { kind: ScalarKind::U32, count: 2 },
            normalized: false,
        }
    }
}

/// Three unsigned 32-bit scalars, handed to the shader as raw integers.
#[allow(non_camel_case_types)]
#[derive(Clone, Copy, Debug)]
pub struct u32_u32_u32 {
    pub d0: u32,
    pub d1: u32,
    pub d2: u32,
}

impl u32_u32_u32 {
    pub fn new(d0: u32, d1: u32, d2: u32) -> (r: u32_u32_u32)
        ensures
            r.d0 == d0,
            r.d1 == d1,
            r.d2 == d2,
    {
        u32_u32_u32 { d0, d1, d2 }
    }

    /// This type's fixed catalogue entry.
    pub fn descriptor() -> (d: ComponentDescriptor)
        ensures
            d == (ComponentDescriptor {
                format: ComponentFormat::Scalar { kind: ScalarKind::U32, count: 3 },
                normalized: false,
            }),
            d.wf(),
    {
        ComponentDescriptor {
            format: ComponentFormat::Scalar { kind: ScalarKind::U32, count: 3 },
            normalized: false,
        }
    }
}

/// Four unsigned 32-bit scalars, handed to the shader as raw integers.
#[allow(non_camel_case_types)]
#[derive(Clone, Copy, Debug)]
pub struct u32_u32_u32_u32 {
    pub d0: u32,
    pub d1: u32,
    pub d2: u32,
    pub d3: u32,
}

impl u32_u32_u32_u32 {
    pub fn new(d0: u32, d1: u32, d2: u32, d3: u32) -> (r: u32_u32_u32_u32)
        ensures
            r.d0 == d0,
            r.d1 == d1,
            r.d2 == d2,
            r.d3 == d3,
    {
        u32_u32_u32_u32 { d0, d1, d2, d3 }
    }

    /// This type's fixed catalogue entry.
    pub fn descriptor() -> (d: ComponentDescriptor)
        ensures
            d == (ComponentDescriptor {
                format: ComponentFormat::Scalar { kind: ScalarKind::U32, count: 4 },
                normalized: false,
            }),
            d.wf(),
    {
        ComponentDescriptor {
            format: ComponentFormat::Scalar { kind: ScalarKind::U32, count: 4 },
            normalized: false,
        }
    }
}

/// One unsigned 32-bit scalar, reinterpreted by the driver as a normalized float.
#[allow(non_camel_case_types)]
#[derive(Clone, Copy, Debug)]
pub struct u32_float {
    pub d0: u32,
}

impl u32_float {
    pub fn new(d0: u32) -> (r: u32_float)
        ensures
            r.d0 == d0,
    {
        u32_float { d0 }
    }

    /// This type's fixed catalogue entry.
    pub fn descriptor() -> (d: ComponentDescriptor)
        ensures
            d == (ComponentDescriptor {
                format: ComponentFormat::Scalar { kind: ScalarKind::U32, count: 1 },
                normalized: true,
            }),
            d.wf(),
    {
        ComponentDescriptor {
            format: ComponentFormat::Scalar { kind: ScalarKind::U32, count: 1 },
            normalized: true,
        }
    }
}

/// Two unsigned 32-bit scalars, reinterpreted by the driver as normalized floats.
#[allow(non_camel_case_types)]
#[derive(Clone, Copy, Debug)]
pub struct u32_u32_float {
    pub d0: u32,
    pub d1: u32,
}

impl u32_u32_float {
    pub fn new(d0: u32, d1: u32) -> (r: u32_u32_float)
        ensures
            r.d0 == d0,
            r.d1 == d1,
    {
        u32_u32_float { d0, d1 }
    }

    /// This type's fixed catalogue entry.
    pub fn descriptor() -> (d: ComponentDescriptor)
        ensures
            d == (ComponentDescriptor {
                format: ComponentFormat::Scalar { kind: ScalarKind::U32, count: 2 },
                normalized: true,
            }),
            d.wf(),
    {
        ComponentDescriptor {
            format: ComponentFormat::Scalar { kind: ScalarKind::U32, count: 2 },
            normalized: true,
        }
    }
}

/// Three unsigned 32-bit scalars, reinterpreted by the driver as normalized floats.
#[allow(non_camel_case_types)]
#[derive(Clone, Copy, Debug)]
pub struct u32_u32_u32_float {
    pub d0: u32,
    pub d1: u32,
    pub d2: u32,
}

impl u32_u32_u32_float {
    pub fn new(d0: u32, d1: u32, d2: u32) -> (r: u32_u32_u32_float)
        ensures
            r.d0 == d0,
            r.d1 == d1,
            r.d2 == d2,
    {
        u32_u32_u32_float { d0, d1, d2 }
    }

    /// This type's fixed catalogue entry.
    pub fn descriptor() -> (d: ComponentDescriptor)
        ensures
            d == (ComponentDescriptor {
                format: ComponentFormat::Scalar { kind: ScalarKind::U32, count: 3 },
                normalized: true,
            }),
            d.wf(),
    {
        ComponentDescriptor {
            format: ComponentFormat::Scalar { kind: ScalarKind::U32, count: 3 },
            normalized: true,
        }
    }
}

/// Four unsigned 32-bit scalars, reinterpreted by the driver as normalized floats.
#[allow(non_camel_case_types)]
#[derive(Clone, Copy, Debug)]
pub struct u32_u32_u32_u32_float {
    pub d0: u32,
    pub d1: u32,
    pub d2: u32,
    pub d3: u32,
}

impl u32_u32_u32_u32_float {
    pub fn new(d0: u32, d1: u32, d2: u32, d3: u32) -> (r: u32_u32_u32_u32_float)
        ensures
            r.d0 == d0,
            r.d1 == d1,
            r.d2 == d2,
            r.d3 == d3,
    {
        u32_u32_u32_u32_float { d0, d1, d2, d3 }
    }

    /// This type's fixed catalogue entry.
    pub fn descriptor() -> (d: ComponentDescriptor)
        ensures
            d == (ComponentDescriptor {
                format: ComponentFormat::Scalar { kind: ScalarKind::U32, count: 4 },
                normalized: true,
            }),
            d.wf(),
    {
        ComponentDescriptor {
            format: ComponentFormat::Scalar { kind: ScalarKind::U32, count: 4 },
            normalized: true,
        }
    }
}

/// One 16-bit float, handed to the shader unchanged.
#[allow(non_camel_case_types)]
#[derive(Clone, Copy, Debug)]
pub struct f16_ {
    pub d0: HalfBits,
}

impl f16_ {
    pub fn new(d0: HalfBits) -> (r: f16_)
        ensures
            r.d0 == d0,
    {
        f16_ { d0 }
    }

    /// This type's fixed catalogue entry.
    pub fn descriptor() -> (d: ComponentDescriptor)
        ensures
            d == (ComponentDescriptor {
                format: ComponentFormat::Scalar { kind: ScalarKind::F16, count: 1 },
                normalized: false,
            }),
            d.wf(),
    {
        ComponentDescriptor {
            format: ComponentFormat::Scalar { kind: ScalarKind::F16, count: 1 },
            normalized: false,
        }
    }
}

/// Two 16-bit floats, handed to the shader unchanged.
#[allow(non_camel_case_types)]
#[derive(Clone, Copy, Debug)]
pub struct f16_f16 {
    pub d0: HalfBits,
    pub d1: HalfBits,
}

impl f16_f16 {
    pub fn new(d0: HalfBits, d1: HalfBits) -> (r: f16_f16)
        ensures
            r.d0 == d0,
            r.d1 == d1,
    {
        f16_f16 { d0, d1 }
    }

    /// This type's fixed catalogue entry.
    pub fn descriptor() -> (d: ComponentDescriptor)
        ensures
            d == (ComponentDescriptor {
                format: ComponentFormat::Scalar { kind: ScalarKind::F16, count: 2 },
                normalized: false,
            }),
            d.wf(),
    {
        ComponentDescriptor {
            format: ComponentFormat::Scalar { kind: ScalarKind::F16, count: 2 },
            normalized: false,
        }
    }
}

/// Three 16-bit floats, handed to the shader unchanged.
#[allow(non_camel_case_types)]
#[derive(Clone, Copy, Debug)]
pub struct f16_f16_f16 {
    pub d0: HalfBits,
    pub d1: HalfBits,
    pub d2: HalfBits,
}

impl f16_f16_f16 {
    pub fn new(d0: HalfBits, d1: HalfBits, d2: HalfBits) -> (r: f16_f16_f16)
        ensures
            r.d0 == d0,
            r.d1 == d1,
            r.d2 == d2,
    {
        f16_f16_f16 { d0, d1, d2 }
    }

    /// This type's fixed catalogue entry.
    pub fn descriptor() -> (d: ComponentDescriptor)
        ensures
            d == (ComponentDescriptor {
                format: ComponentFormat::Scalar { kind: ScalarKind::F16, count: 3 },
                normalized: false,
            }),
            d.wf(),
    {
        ComponentDescriptor {
            format: ComponentFormat::Scalar { kind: ScalarKind::F16, count: 3 },
            normalized: false,
        }
    }
}

/// Four 16-bit floats, handed to the shader unchanged.
#[allow(non_camel_case_types)]
#[derive(Clone, Copy, Debug)]
pub struct f16_f16_f16_f16 {
    pub d0: HalfBits,
    pub d1: HalfBits,
    pub d2: HalfBits,
    pub d3: HalfBits,
}

impl f16_f16_f16_f16 {
    pub fn new(d0: HalfBits, d1: HalfBits, d2: HalfBits, d3: HalfBits) -> (r: f16_f16_f16_f16)
        ensures
            r.d0 == d0,
            r.d1 == d1,
            r.d2 == d2,
            r.d3 == d3,
    {
        f16_f16_f16_f16 { d0, d1, d2, d3 }
    }

    /// This type's fixed catalogue entry.
    pub fn descriptor() -> (d: ComponentDescriptor)
        ensures
            d == (ComponentDescriptor {
                format: ComponentFormat::Scalar { kind: ScalarKind::F16, count: 4 },
                normalized: false,
            }),
            d.wf(),
    {
        ComponentDescriptor {
            format: ComponentFormat::Scalar { kind: ScalarKind::F16, count: 4 },
            normalized: false,
        }
    }
}

/// A 32-bit word of one 2-bit and three signed 10-bit fields, read without normalization.
#[allow(non_camel_case_types)]
#[derive(Clone, Copy, Debug)]
pub struct i2_i10_i10_i10_rev {
    pub inner: u32,
}

impl i2_i10_i10_i10_rev {
    pub fn new(inner: u32) -> (r: i2_i10_i10_i10_rev)
        ensures
            r.inner == inner,
    {
        i2_i10_i10_i10_rev { inner }
    }

    /// This type's fixed catalogue entry.
    pub fn descriptor() -> (d: ComponentDescriptor)
        ensures
            d == (ComponentDescriptor {
                format: ComponentFormat::PackedSigned2_10_10_10,
                normalized: false,
            }),
            d.wf(),
    {
        ComponentDescriptor {
            format: ComponentFormat::PackedSigned2_10_10_10,
            normalized: false,
        }
    }
}

/// A 32-bit word of one 2-bit and three signed 10-bit fields, reinterpreted as normalized floats in [-1, 1].
#[allow(non_camel_case_types)]
#[derive(Clone, Copy, Debug)]
pub struct i2_i10_i10_i10_rev_float {
    pub inner: u32,
}

impl i2_i10_i10_i10_rev_float {
    pub fn new(inner: u32) -> (r: i2_i10_i10_i10_rev_float)
        ensures
            r.inner == inner,
    {
        i2_i10_i10_i10_rev_float { inner }
    }

    /// This type's fixed catalogue entry.
    pub fn descriptor() -> (d: ComponentDescriptor)
        ensures
            d == (ComponentDescriptor {
                format: ComponentFormat::PackedSigned2_10_10_10,
                normalized: true,
            }),
            d.wf(),
    {
        ComponentDescriptor {
            format: ComponentFormat::PackedSigned2_10_10_10,
            normalized: true,
        }
    }
}

/// A 32-bit word of one 2-bit and three unsigned 10-bit fields, read without normalization.
#[allow(non_camel_case_types)]
#[derive(Clone, Copy, Debug)]
pub struct u2_u10_u10_u10_rev {
    pub inner: u32,
}

impl u2_u10_u10_u10_rev {
    pub fn new(inner: u32) -> (r: u2_u10_u10_u10_rev)
        ensures
            r.inner == inner,
    {
        u2_u10_u10_u10_rev { inner }
    }

    /// This type's fixed catalogue entry.
    pub fn descriptor() -> (d: ComponentDescriptor)
        ensures
            d == (ComponentDescriptor {
                format: ComponentFormat::PackedUnsigned2_10_10_10,
                normalized: false,
            }),
            d.wf(),
    {
        ComponentDescriptor {
            format: ComponentFormat::PackedUnsigned2_10_10_10,
            normalized: false,
        }
    }
}

/// A 32-bit word of one 2-bit and three unsigned 10-bit fields, reinterpreted as normalized floats in [0, 1].
#[allow(non_camel_case_types)]
#[derive(Clone, Copy, Debug)]
pub struct u2_u10_u10_u10_rev_float {
    pub inner: u32,
}

impl u2_u10_u10_u10_rev_float {
    pub fn new(inner: u32) -> (r: u2_u10_u10_u10_rev_float)
        ensures
            r.inner == inner,
    {
        u2_u10_u10_u10_rev_float { inner }
    }

    /// This type's fixed catalogue entry.
    pub fn descriptor() -> (d: ComponentDescriptor)
        ensures
            d == (ComponentDescriptor {
                format: ComponentFormat::PackedUnsigned2_10_10_10,
                normalized: true,
            }),
            d.wf(),
    {
        ComponentDescriptor {
            format: ComponentFormat::PackedUnsigned2_10_10_10,
            normalized: true,
        }
    }
}

/// A 32-bit word of one 10-bit and two 11-bit unsigned float patterns, read without normalization.
#[allow(non_camel_case_types)]
#[derive(Clone, Copy, Debug)]
pub struct u10_u11_u11_rev {
    pub inner: u32,
}

impl u10_u11_u11_rev {
    pub fn new(inner: u32) -> (r: u10_u11_u11_rev)
        ensures
            r.inner == inner,
    {
        u10_u11_u11_rev { inner }
    }

    /// This type's fixed catalogue entry.
    pub fn descriptor() -> (d: ComponentDescriptor)
        ensures
            d == (ComponentDescriptor {
                format: ComponentFormat::Packed10F11F11F,
                normalized: false,
            }),
            d.wf(),
    {
        ComponentDescriptor {
            format: ComponentFormat::Packed10F11F11F,
            normalized: false,
        }
    }
}

/// A 32-bit word of one 10-bit and two 11-bit unsigned float patterns, reinterpreted as normalized values.
#[allow(non_camel_case_types)]
#[derive(Clone, Copy, Debug)]
pub struct u10_u11_u11_rev_float {
    pub inner: u32,
}

impl u10_u11_u11_rev_float {
    pub fn new(inner: u32) -> (r: u10_u11_u11_rev_float)
        ensures
            r.inner == inner,
    {
        u10_u11_u11_rev_float { inner }
    }

    /// This type's fixed catalogue entry.
    pub fn descriptor() -> (d: ComponentDescriptor)
        ensures
            d == (ComponentDescriptor {
                format: ComponentFormat::Packed10F11F11F,
                normalized: true,
            }),
            d.wf(),
    {
        ComponentDescriptor {
            format: ComponentFormat::Packed10F11F11F,
            normalized: true,
        }
    }
}

impl i2_i10_i10_i10_rev {
    /// Encode three signed 10-bit values and one signed 2-bit value into
    /// the word, each stored as two's complement.
    pub fn from_fields(x: i16, y: i16, z: i16, w: i8) -> (r: i2_i10_i10_i10_rev)
        requires
            -512 <= x < 512,
            -512 <= y < 512,
            -512 <= z < 512,
            -2 <= w < 2,
        ensures
            r.inner == spec_pack_signed_2_10_10_10(x, y, z, w),
            signed_10(field_x_2_10_10_10(r.inner)) == x as int,
            signed_10(field_y_2_10_10_10(r.inner)) == y as int,
            signed_10(field_z_2_10_10_10(r.inner)) == z as int,
            signed_2(field_w_2_10_10_10(r.inner)) == w as int,
    {
        i2_i10_i10_i10_rev { inner: pack_signed_2_10_10_10(x, y, z, w) }
    }

    /// Decode the four signed fields of the word.
    pub fn fields(&self) -> (r: (i16, i16, i16, i8))
        ensures
            r.0 as int == signed_10(field_x_2_10_10_10(self.inner)),
            r.1 as int == signed_10(field_y_2_10_10_10(self.inner)),
            r.2 as int == signed_10(field_z_2_10_10_10(self.inner)),
            r.3 as int == signed_2(field_w_2_10_10_10(self.inner)),
    {
        unpack_signed_2_10_10_10(self.inner)
    }
}

impl i2_i10_i10_i10_rev_float {
    /// Encode three signed 10-bit values and one signed 2-bit value into
    /// the word, each stored as two's complement.
    pub fn from_fields(x: i16, y: i16, z: i16, w: i8) -> (r: i2_i10_i10_i10_rev_float)
        requires
            -512 <= x < 512,
            -512 <= y < 512,
            -512 <= z < 512,
            -2 <= w < 2,
        ensures
            r.inner == spec_pack_signed_2_10_10_10(x, y, z, w),
            signed_10(field_x_2_10_10_10(r.inner)) == x as int,
            signed_10(field_y_2_10_10_10(r.inner)) == y as int,
            signed_10(field_z_2_10_10_10(r.inner)) == z as int,
            signed_2(field_w_2_10_10_10(r.inner)) == w as int,
    {
        i2_i10_i10_i10_rev_float { inner: pack_signed_2_10_10_10(x, y, z, w) }
    }

    /// Decode the four signed fields of the word.
    pub fn fields(&self) -> (r: (i16, i16, i16, i8))
        ensures
            r.0 as int == signed_10(field_x_2_10_10_10(self.inner)),
            r.1 as int == signed_10(field_y_2_10_10_10(self.inner)),
            r.2 as int == signed_10(field_z_2_10_10_10(self.inner)),
            r.3 as int == signed_2(field_w_2_10_10_10(self.inner)),
    {
        unpack_signed_2_10_10_10(self.inner)
    }
}

impl u2_u10_u10_u10_rev {
    /// Encode three unsigned 10-bit values and one 2-bit value into the word.
    pub fn from_fields(x: u16, y: u16, z: u16, w: u8) -> (r: u2_u10_u10_u10_rev)
        requires
            x < 1024,
            y < 1024,
            z < 1024,
            w < 4,
        ensures
            r.inner == spec_pack_2_10_10_10(x as u32, y as u32, z as u32, w as u32),
            field_x_2_10_10_10(r.inner) == x as u32,
            field_y_2_10_10_10(r.inner) == y as u32,
            field_z_2_10_10_10(r.inner) == z as u32,
            field_w_2_10_10_10(r.inner) == w as u32,
    {
        u2_u10_u10_u10_rev { inner: pack_unsigned_2_10_10_10(x, y, z, w) }
    }

    /// Decode the four unsigned fields of the word.
    pub fn fields(&self) -> (r: (u16, u16, u16, u8))
        ensures
            r.0 as u32 == field_x_2_10_10_10(self.inner),
            r.1 as u32 == field_y_2_10_10_10(self.inner),
            r.2 as u32 == field_z_2_10_10_10(self.inner),
            r.3 as u32 == field_w_2_10_10_10(self.inner),
    {
        unpack_unsigned_2_10_10_10(self.inner)
    }
}

impl u2_u10_u10_u10_rev_float {
    /// Encode three unsigned 10-bit values and one 2-bit value into the word.
    pub fn from_fields(x: u16, y: u16, z: u16, w: u8) -> (r: u2_u10_u10_u10_rev_float)
        requires
            x < 1024,
            y < 1024,
            z < 1024,
            w < 4,
        ensures
            r.inner == spec_pack_2_10_10_10(x as u32, y as u32, z as u32, w as u32),
            field_x_2_10_10_10(r.inner) == x as u32,
            field_y_2_10_10_10(r.inner) == y as u32,
            field_z_2_10_10_10(r.inner) == z as u32,
            field_w_2_10_10_10(r.inner) == w as u32,
    {
        u2_u10_u10_u10_rev_float { inner: pack_unsigned_2_10_10_10(x, y, z, w) }
    }

    /// Decode the four unsigned fields of the word.
    pub fn fields(&self) -> (r: (u16, u16, u16, u8))
        ensures
            r.0 as u32 == field_x_2_10_10_10(self.inner),
            r.1 as u32 == field_y_2_10_10_10(self.inner),
            r.2 as u32 == field_z_2_10_10_10(self.inner),
            r.3 as u32 == field_w_2_10_10_10(self.inner),
    {
        unpack_unsigned_2_10_10_10(self.inner)
    }
}

impl u10_u11_u11_rev {
    /// Encode two 11-bit float patterns and one 10-bit float pattern into
    /// the word.
    pub fn from_fields(a: u16, b: u16, c: u16) -> (r: u10_u11_u11_rev)
        requires
            a < 2048,
            b < 2048,
            c < 1024,
        ensures
            r.inner == spec_pack_10_11_11(a as u32, b as u32, c as u32),
            field_a_10_11_11(r.inner) == a as u32,
            field_b_10_11_11(r.inner) == b as u32,
            field_c_10_11_11(r.inner) == c as u32,
    {
        u10_u11_u11_rev { inner: pack_10_11_11(a, b, c) }
    }

    /// Decode the three fields of the word.
    pub fn fields(&self) -> (r: (u16, u16, u16))
        ensures
            r.0 as u32 == field_a_10_11_11(self.inner),
            r.1 as u32 == field_b_10_11_11(self.inner),
            r.2 as u32 == field_c_10_11_11(self.inner),
    {
        unpack_10_11_11(self.inner)
    }
}

impl u10_u11_u11_rev_float {
    /// Encode two 11-bit float patterns and one 10-bit float pattern into
    /// the word.
    pub fn from_fields(a: u16, b: u16, c: u16) -> (r: u10_u11_u11_rev_float)
        requires
            a < 2048,
            b < 2048,
            c < 1024,
        ensures
            r.inner == spec_pack_10_11_11(a as u32, b as u32, c as u32),
            field_a_10_11_11(r.inner) == a as u32,
            field_b_10_11_11(r.inner) == b as u32,
            field_c_10_11_11(r.inner) == c as u32,
    {
        u10_u11_u11_rev_float { inner: pack_10_11_11(a, b, c) }
    }

    /// Decode the three fields of the word.
    pub fn fields(&self) -> (r: (u16, u16, u16))
        ensures
            r.0 as u32 == field_a_10_11_11(self.inner),
            r.1 as u32 == field_b_10_11_11(self.inner),
            r.2 as u32 == field_c_10_11_11(self.inner),
    {
        unpack_10_11_11(self.inner)
    }
}

} // verus!
