use shader_slang::ResourceShape;

#[test]
fn named_shapes_have_the_api_values() {
    assert_eq!(ResourceShape::TEXTURE2D().bits(), 0x02);
    assert_eq!(ResourceShape::TEXTURE2D_MULTISAMPLE_ARRAY().bits(), 0xc2);
    assert_eq!(ResourceShape::EXT_MASK().bits(), 0x1f0);
    assert_eq!(ResourceShape::all().bits(), 0x1ff);
    assert_eq!(ResourceShape::empty().bits(), 0);
}

#[test]
fn composite_shapes_combine_flags() {
    let a = ResourceShape::TEXTURE2D().union(ResourceShape::TEXTURE_ARRAY_FLAG());
    assert_eq!(a, ResourceShape::TEXTURE2D_ARRAY());
    assert!(ResourceShape::TEXTURE2D_MULTISAMPLE().contains(ResourceShape::TEXTURE_MULTISAMPLE_FLAG()));
    assert!(!ResourceShape::TEXTURE2D().intersects(ResourceShape::EXT_MASK()));
}

#[test]
fn insert_then_contains_remove_then_disjoint() {
    let mut s = ResourceShape::TEXTURE3D();
    s.insert(ResourceShape::TEXTURE_SHADOW_FLAG());
    assert!(s.contains(ResourceShape::TEXTURE_SHADOW_FLAG()));
    assert_eq!(s.bits(), 0x23);
    s.remove(ResourceShape::TEXTURE_SHADOW_FLAG());
    assert!(!s.intersects(ResourceShape::TEXTURE_SHADOW_FLAG()));
    assert_eq!(s, ResourceShape::TEXTURE3D());
}

#[test]
fn toggle_twice_and_set() {
    let mut s = ResourceShape::TEXTURE_CUBE();
    s.toggle(ResourceShape::TEXTURE_ARRAY_FLAG());
    assert_eq!(s, ResourceShape::TEXTURE_CUBE_ARRAY());
    s.toggle(ResourceShape::TEXTURE_ARRAY_FLAG());
    assert_eq!(s, ResourceShape::TEXTURE_CUBE());
    s.set(ResourceShape::TEXTURE_COMBINED_FLAG(), true);
    assert_eq!(s.bits(), 0x104);
    s.set(ResourceShape::TEXTURE_COMBINED_FLAG(), false);
    assert_eq!(s.bits(), 0x04);
}

#[test]
fn from_bits_accepts_only_named_bits() {
    assert_eq!(ResourceShape::from_bits(0x42), Some(ResourceShape::TEXTURE2D_ARRAY()));
    assert_eq!(ResourceShape::from_bits(0x200), None);
    assert_eq!(ResourceShape::from_bits_truncate(0x242).bits(), 0x42);
    assert_eq!(ResourceShape::from_bits_retain(0x242).bits(), 0x242);
}

#[test]
fn complement_and_set_operations() {
    let s = ResourceShape::TEXTURE2D_MULTISAMPLE();
    assert_eq!(s.complement().bits(), 0x1ff & !0x82);
    assert_eq!(s.complement().complement(), s);
    assert_eq!(s.intersection(ResourceShape::BASE_MASK()), ResourceShape::TEXTURE2D());
    assert_eq!(s.difference(ResourceShape::TEXTURE2D()), ResourceShape::TEXTURE_MULTISAMPLE_FLAG());
    assert_eq!(s.symmetric_difference(ResourceShape::TEXTURE2D_MULTISAMPLE_ARRAY()), ResourceShape::TEXTURE_ARRAY_FLAG());
    assert!(ResourceShape::all().is_all());
    assert!(!s.is_all());
    assert!(ResourceShape::NONE().is_empty());
    assert!(!s.is_empty());
}

#[test]
fn operators_match_the_named_operations() {
    let a = ResourceShape::TEXTURE2D_MULTISAMPLE_ARRAY();
    let b = ResourceShape::TEXTURE_ARRAY_FLAG();
    assert_eq!(a | b, a.union(b));
    assert_eq!(a & b, a.intersection(b));
    assert_eq!(a ^ b, a.symmetric_difference(b));
    assert_eq!(a - b, a.difference(b));
    assert_eq!(!a, a.complement());
    assert_eq!((a - b).bits(), 0x82);
    assert_eq!((!a).bits(), 0x1ff & !0xc2);
}
