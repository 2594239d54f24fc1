use vstd::prelude::*;

verus! {

/// The union of all named resource shapes: every bit that a named shape sets.
pub const RESOURCE_SHAPE_ALL_BITS: u32 = 0x1ff;

/// The shape of a resource: a base shape in the low four bits and shape flags
/// above them, held as a set of bits. Its `Debug` output shows the bits.
#[derive(Debug, Clone, Copy, PartialEq, Eq, Structural)]
pub struct ResourceShape {
    bits: u32,
}

impl View for ResourceShape {
    type V = u32;

    /// The bits of the shape.
    closed spec fn view(&self) -> u32 {
        self.bits
    }
}

#[allow(non_snake_case)]
impl ResourceShape {
    /// The bits that hold the base shape.
    pub fn BASE_MASK() -> (r: Self)
        ensures
            r@ == 0x0f,
    {
        Self { bits: 0x0f }
    }

    /// No resource.
    pub fn NONE() -> (r: Self)
        ensures
            r@ == 0x00,
    {
        Self { bits: 0x00 }
    }

    /// A one-dimensional texture.
    pub fn TEXTURE1D() -> (r: Self)
        ensures
            r@ == 0x01,
    {
        Self { bits: 0x01 }
    }

    /// A two-dimensional texture.
    pub fn TEXTURE2D() -> (r: Self)
        ensures
            r@ == 0x02,
    {
        Self { bits: 0x02 }
    }

    /// A three-dimensional texture.
    pub fn TEXTURE3D() -> (r: Self)
        ensures
            r@ == 0x03,
    {
        Self { bits: 0x03 }
    }

    /// A cube texture.
    pub fn TEXTURE_CUBE() -> (r: Self)
        ensures
            r@ == 0x04,
    {
        Self { bits: 0x04 }
    }

    /// A texture buffer.
    pub fn TEXTURE_BUFFER() -> (r: Self)
        ensures
            r@ == 0x05,
    {
        Self { bits: 0x05 }
    }

    /// A structured buffer.
    pub fn STRUCTURED_BUFFER() -> (r: Self)
        ensures
            r@ == 0x06,
    {
        Self { bits: 0x06 }
    }

    /// A byte address buffer.
    pub fn BYTE_ADDRESS_BUFFER() -> (r: Self)
        ensures
            r@ == 0x07,
    {
        Self { bits: 0x07 }
    }

    /// A resource of unknown shape.
    pub fn UNKNOWN() -> (r: Self)
        ensures
            r@ == 0x08,
    {
        Self { bits: 0x08 }
    }

    /// A ray tracing acceleration structure.
    pub fn ACCELERATION_STRUCTURE() -> (r: Self)
        ensures
            r@ == 0x09,
    {
        Self { bits: 0x09 }
    }

    /// A subpass input.
    pub fn TEXTURE_SUBPASS() -> (r: Self)
        ensures
            r@ == 0x0a,
    {
        Self { bits: 0x0a }
    }

    /// The bits that hold the shape flags.
    pub fn EXT_MASK() -> (r: Self)
        ensures
            r@ == 0x1f0,
    {
        Self { bits: 0x1f0 }
    }

    /// The texture is a feedback texture.
    pub fn TEXTURE_FEEDBACK_FLAG() -> (r: Self)
        ensures
            r@ == 0x10,
    {
        Self { bits: 0x10 }
    }

    /// The texture is a shadow texture.
    pub fn TEXTURE_SHADOW_FLAG() -> (r: Self)
        ensures
            r@ == 0x20,
    {
        Self { bits: 0x20 }
    }

    /// The texture is an array of textures.
    pub fn TEXTURE_ARRAY_FLAG() -> (r: Self)
        ensures
            r@ == 0x40,
    {
        Self { bits: 0x40 }
    }

    /// The texture is multisampled.
    pub fn TEXTURE_MULTISAMPLE_FLAG() -> (r: Self)
        ensures
            r@ == 0x80,
    {
        Self { bits: 0x80 }
    }

    /// The texture is combined with a sampler.
    pub fn TEXTURE_COMBINED_FLAG() -> (r: Self)
        ensures
            r@ == 0x100,
    {
        Self { bits: 0x100 }
    }

    /// An array of one-dimensional textures.
    pub fn TEXTURE1D_ARRAY() -> (r: Self)
        ensures
            r@ == 0x41,
    {
        Self { bits: 0x41 }
    }

    /// An array of two-dimensional textures.
    pub fn TEXTURE2D_ARRAY() -> (r: Self)
        ensures
            r@ == 0x42,
    {
        Self { bits: 0x42 }
    }

    /// An array of cube textures.
    pub fn TEXTURE_CUBE_ARRAY() -> (r: Self)
        ensures
            r@ == 0x44,
    {
        Self { bits: 0x44 }
    }

    /// A multisampled two-dimensional texture.
    pub fn TEXTURE2D_MULTISAMPLE() -> (r: Self)
        ensures
            r@ == 0x82,
    {
        Self { bits: 0x82 }
    }

    /// An array of multisampled two-dimensional textures.
    pub fn TEXTURE2D_MULTISAMPLE_ARRAY() -> (r: Self)
        ensures
            r@ == 0xc2,
    {
        Self { bits: 0xc2 }
    }

    /// A multisampled subpass input.
    pub fn TEXTURE_SUBPASS_MULTISAMPLE() -> (r: Self)
        ensures
            r@ == 0x8a,
    {
        Self { bits: 0x8a }
    }

    /// Two shapes are equal when their bits are.
    pub proof fn lemma_view_injective(a: Self, b: Self)
        ensures
            a@ == b@ <==> a == b,
    {
    }

    /// The shape with no bits set.
    pub fn empty() -> (r: Self)
        ensures
            r@ == 0,
    {
        Self { bits: 0 }
    }

    /// The shape with every bit set that some named shape sets.
    pub fn all() -> (r: Self)
        ensures
            r@ == RESOURCE_SHAPE_ALL_BITS,
    {
        Self { bits: RESOURCE_SHAPE_ALL_BITS }
    }

    /// The bits of the shape.
    pub fn bits(&self) -> (r: u32)
        ensures
            r == self@,
    {
        self.bits
    }

    /// The shape with exactly the bits `bits`, where every one of them belongs
    /// to some named shape; else nothing.
    pub fn from_bits(bits: u32) -> (r: Option<Self>)
        ensures
            r is Some <==> bits & RESOURCE_SHAPE_ALL_BITS == bits,
            r is Some ==> r->0@ == bits,
    {
        let truncated = Self::from_bits_truncate(bits).bits;
        if truncated == bits {
            Some(Self { bits })
        } else {
            None
        }
    }

    /// The shape with those of the bits `bits` that belong to some named shape.
    pub fn from_bits_truncate(bits: u32) -> (r: Self)
        ensures
            r@ == bits & RESOURCE_SHAPE_ALL_BITS,
    {
        Self { bits: bits & RESOURCE_SHAPE_ALL_BITS }
    }

    /// The shape with exactly the bits `bits`, named or not.
    pub fn from_bits_retain(bits: u32) -> (r: Self)
        ensures
            r@ == bits,
    {
        Self { bits }
    }

    /// Whether no bit is set.
    pub fn is_empty(&self) -> (r: bool)
        ensures
            r == (self@ == 0),
    {
        self.bits == 0
    }

    /// Whether every bit of every named shape is set.
    pub fn is_all(&self) -> (r: bool)
        ensures
            r == (RESOURCE_SHAPE_ALL_BITS | self@ == self@),
    {
        RESOURCE_SHAPE_ALL_BITS | self.bits == self.bits
    }

    /// Whether the two shapes have a bit in common.
    pub fn intersects(&self, other: Self) -> (r: bool)
        ensures
            r == (self@ & other@ != 0),
    {
        self.bits & other.bits != 0
    }

    /// Whether every bit of `other` is set in this shape.
    pub fn contains(&self, other: Self) -> (r: bool)
        ensures
            r == (self@ & other@ == other@),
    {
        self.bits & other.bits == other.bits
    }

    /// Sets the bits of `other`.
    pub fn insert(&mut self, other: Self)
        ensures
            final(self)@ == old(self)@ | other@,
    {
        *self = Self { bits: self.bits }.union(other);
    }

    /// Clears the bits of `other`.
    pub fn remove(&mut self, other: Self)
        ensures
            final(self)@ == old(self)@ & !other@,
    {
        *self = Self { bits: self.bits }.difference(other);
    }

    /// Flips the bits of `other`.
    pub fn toggle(&mut self, other: Self)
        ensures
            final(self)@ == old(self)@ ^ other@,
    {
        *self = Self { bits: self.bits }.symmetric_difference(other);
    }

    /// Sets the bits of `other` where `value` holds, else clears them.
    pub fn set(&mut self, other: Self, value: bool)
        ensures
            final(self)@ == (if value { old(self)@ | other@ } else { old(self)@ & !other@ }),
    {
        if value {
            self.insert(other);
        } else {
            self.remove(other);
        }
    }

    /// The bits set in both shapes.
    pub fn intersection(self, other: Self) -> (r: Self)
        ensures
            r@ == self@ & other@,
    {
        Self { bits: self.bits & other.bits }
    }

    /// The bits set in either shape.
    pub fn union(self, other: Self) -> (r: Self)
        ensures
            r@ == self@ | other@,
    {
        Self { bits: self.bits | other.bits }
    }

    /// The bits set in this shape and not in `other`.
    pub fn difference(self, other: Self) -> (r: Self)
        ensures
            r@ == self@ & !other@,
    {
        Self { bits: self.bits & !other.bits }
    }

    /// The bits set in exactly one of the two shapes.
    pub fn symmetric_difference(self, other: Self) -> (r: Self)
        ensures
            r@ == self@ ^ other@,
    {
        Self { bits: self.bits ^ other.bits }
    }

    /// The bits of named shapes that are not set in this shape.
    pub fn complement(self) -> (r: Self)
        ensures
            r@ == !self@ & RESOURCE_SHAPE_ALL_BITS,
    {
        Self::from_bits_truncate(!self.bits)
    }
    /// Law: after `insert(other)` a shape contains `other`.
    pub proof fn lemma_insert_then_contains(s: Self, other: Self)
        ensures
            (s@ | other@) & other@ == other@,
    {
        let (a, b) = (s@, other@);
        assert((a | b) & b == b) by (bit_vector);
    }

    /// Law: after `remove(other)` a shape has no bit in common with `other`.
    pub proof fn lemma_remove_then_disjoint(s: Self, other: Self)
        ensures
            (s@ & !other@) & other@ == 0,
    {
        let (a, b) = (s@, other@);
        assert((a & !b) & b == 0) by (bit_vector);
    }

    /// Law: toggling the same bits twice gives back the shape one started from.
    pub proof fn lemma_toggle_twice(s: Self, other: Self)
        ensures
            (s@ ^ other@) ^ other@ == s@,
    {
        let (a, b) = (s@, other@);
        assert((a ^ b) ^ b == a) by (bit_vector);
    }

    /// Law: the complement of the complement keeps exactly the named bits of a
    /// shape, so it gives back every shape that `from_bits` accepts.
    pub proof fn lemma_complement_twice(s: Self)
        ensures
            !(!s@ & RESOURCE_SHAPE_ALL_BITS) & RESOURCE_SHAPE_ALL_BITS == s@ & RESOURCE_SHAPE_ALL_BITS,
    {
        let a = s@;
        assert(!(!a & 0x1ffu32) & 0x1ffu32 == a & 0x1ffu32) by (bit_vector);
    }

    /// Law: a shape and its complement share no bit, and together they hold
    /// every named bit.
    pub proof fn lemma_complement_partitions(s: Self)
        ensures
            s@ & (!s@ & RESOURCE_SHAPE_ALL_BITS) == 0,
            (s@ | (!s@ & RESOURCE_SHAPE_ALL_BITS)) & RESOURCE_SHAPE_ALL_BITS == RESOURCE_SHAPE_ALL_BITS,
    {
        let a = s@;
        assert(a & (!a & 0x1ffu32) == 0) by (bit_vector);
        assert((a | (!a & 0x1ffu32)) & 0x1ffu32 == 0x1ffu32) by (bit_vector);
    }
}

impl core::ops::BitOr for ResourceShape {
    type Output = Self;

    /// The bits set in either shape, as `union` gives them.
    fn bitor(self, other: Self) -> (r: Self)
        ensures
            r@ == self@ | other@,
    {
        self.union(other)
    }
}

impl vstd::std_specs::ops::BitOrSpecImpl for ResourceShape {
    open spec fn obeys_bitor_spec() -> bool {
        true
    }

    open spec fn bitor_req(self, other: Self) -> bool {
        true
    }

    closed spec fn bitor_spec(self, other: Self) -> Self {
        ResourceShape { bits: self.bits | other.bits }
    }
}

impl core::ops::BitAnd for ResourceShape {
    type Output = Self;

    /// The bits set in both shapes, as `intersection` gives them.
    fn bitand(self, other: Self) -> (r: Self)
        ensures
            r@ == self@ & other@,
    {
        self.intersection(other)
    }
}

impl vstd::std_specs::ops::BitAndSpecImpl for ResourceShape {
    open spec fn obeys_bitand_spec() -> bool {
        true
    }

    open spec fn bitand_req(self, other: Self) -> bool {
        true
    }

    closed spec fn bitand_spec(self, other: Self) -> Self {
        ResourceShape { bits: self.bits & other.bits }
    }
}

impl core::ops::BitXor for ResourceShape {
    type Output = Self;

    /// The bits set in exactly one of the shapes, as `symmetric_difference`
    /// gives them.
    fn bitxor(self, other: Self) -> (r: Self)
        ensures
            r@ == self@ ^ other@,
    {
        self.symmetric_difference(other)
    }
}

impl vstd::std_specs::ops::BitXorSpecImpl for ResourceShape {
    open spec fn obeys_bitxor_spec() -> bool {
        true
    }

    open spec fn bitxor_req(self, other: Self) -> bool {
        true
    }

    closed spec fn bitxor_spec(self, other: Self) -> Self {
        ResourceShape { bits: self.bits ^ other.bits }
    }
}

impl core::ops::Sub for ResourceShape {
    type Output = Self;

    /// The bits set in this shape and not in `other`, as `difference` gives
    /// them.
    fn sub(self, other: Self) -> (r: Self)
        ensures
            r@ == self@ & !other@,
    {
        self.difference(other)
    }
}

impl vstd::std_specs::ops::SubSpecImpl for ResourceShape {
    open spec fn obeys_sub_spec() -> bool {
        true
    }

    open spec fn sub_req(self, other: Self) -> bool {
        true
    }

    closed spec fn sub_spec(self, other: Self) -> Self {
        ResourceShape { bits: self.bits & !other.bits }
    }
}

impl core::ops::Not for ResourceShape {
    type Output = Self;

    /// The named bits not set in this shape, as `complement` gives them.
    fn not(self) -> (r: Self)
        ensures
            r@ == !self@ & RESOURCE_SHAPE_ALL_BITS,
    {
        self.complement()
    }
}

impl vstd::std_specs::ops::NotSpecImpl for ResourceShape {
    open spec fn obeys_not_spec() -> bool {
        true
    }

    open spec fn not_req(self) -> bool {
        true
    }

    closed spec fn not_spec(self) -> Self {
        ResourceShape { bits: !self.bits & RESOURCE_SHAPE_ALL_BITS }
    }
}

} // verus!
