use shader_slang::{
    BindingType, CompileTarget, DebugInfoLevel, DeclKind, FloatingPointMode, ImageFormat,
    LayoutRules, LineDirectiveMode, MatrixLayoutMode, ModifierID, OptimizationLevel,
    ParameterCategory, ResourceAccess, ScalarType, SourceLanguage, Stage, TypeKind,
};

#[test]
fn type_kind_values_follow_the_api() {
    assert_eq!(TypeKind::NoKind.to_raw(), 0);
    assert_eq!(TypeKind::Struct.to_raw(), 1);
    assert_eq!(TypeKind::Scalar.to_raw(), 5);
    assert_eq!(TypeKind::Enum.to_raw(), 20);
    for raw in 0..=20u32 {
        assert_eq!(TypeKind::from_raw(raw).to_raw(), raw);
    }
    assert_eq!(TypeKind::from_raw(7), TypeKind::Resource);
}

#[test]
fn scalar_type_round_trip() {
    for raw in 0..=18u32 {
        assert_eq!(ScalarType::from_raw(raw).to_raw(), raw);
    }
    assert_eq!(ScalarType::from_raw(8), ScalarType::Float32);
    assert_eq!(ScalarType::FloatE5m2.to_raw(), 18);
}

#[test]
fn matrix_layout_round_trip() {
    assert_eq!(MatrixLayoutMode::from_raw(0), MatrixLayoutMode::ModeUnknown);
    assert_eq!(MatrixLayoutMode::from_raw(1), MatrixLayoutMode::RowMajor);
    assert_eq!(MatrixLayoutMode::from_raw(2), MatrixLayoutMode::ColumnMajor);
    assert_eq!(MatrixLayoutMode::ColumnMajor.to_raw(), 2);
}

#[test]
fn decl_kind_round_trip() {
    for raw in 0..=7u32 {
        assert_eq!(DeclKind::from_raw(raw).to_raw(), raw);
    }
    assert_eq!(DeclKind::from_raw(3), DeclKind::Module);
}

#[test]
fn image_format_round_trip() {
    for raw in 0..=42u32 {
        assert_eq!(ImageFormat::from_raw(raw).to_raw(), raw);
    }
    assert_eq!(ImageFormat::from_raw(10), ImageFormat::Rgba8);
    assert_eq!(ImageFormat::Bgra8.to_raw(), 42);
}

#[test]
fn binding_type_mutable_values_carry_the_mutable_flag() {
    assert_eq!(BindingType::MutableTexture.to_raw(), BindingType::Texture.to_raw() | 0x100);
    assert_eq!(BindingType::MutableTypedBuffer.to_raw(), BindingType::TypedBuffer.to_raw() | 0x100);
    assert_eq!(BindingType::MutableRawBuffer.to_raw(), BindingType::RawBuffer.to_raw() | 0x100);
    for raw in (0..=14u32).chain([0x102, 0x105, 0x106]) {
        assert_eq!(BindingType::from_raw(raw).to_raw(), raw);
    }
    assert_eq!(BindingType::from_raw(0x105), BindingType::MutableTypedBuffer);
}

#[test]
fn resource_access_unknown_is_the_largest_value() {
    assert_eq!(ResourceAccess::Unknown.to_raw(), 0x7fff_ffff);
    assert_eq!(ResourceAccess::from_raw(0x7fff_ffff), ResourceAccess::Unknown);
    for raw in 0..=7u32 {
        assert_eq!(ResourceAccess::from_raw(raw).to_raw(), raw);
    }
}

#[test]
fn stage_round_trip_and_pixel() {
    for raw in 0..=15u32 {
        assert_eq!(Stage::from_raw(raw).to_raw(), raw);
    }
    assert_eq!(Stage::PIXEL, Stage::Fragment);
    assert_eq!(Stage::PIXEL.to_raw(), 5);
    assert_eq!(Stage::from_raw(6), Stage::Compute);
}

#[test]
fn parameter_category_aliases_share_values() {
    assert_eq!(ParameterCategory::MetalBuffer.into_raw(), ParameterCategory::ConstantBuffer.into_raw());
    assert_eq!(ParameterCategory::MetalTexture.into_raw(), ParameterCategory::ShaderResource.into_raw());
    assert_eq!(ParameterCategory::MetalSampler.into_raw(), ParameterCategory::SamplerState.into_raw());
    assert_eq!(ParameterCategory::from_raw(ParameterCategory::MetalBuffer.into_raw()), ParameterCategory::ConstantBuffer);
    for raw in 0..=24u32 {
        assert_eq!(ParameterCategory::from_raw(raw).into_raw(), raw);
    }
    assert_eq!(ParameterCategory::from_raw(8), ParameterCategory::Uniform);
    assert_eq!(ParameterCategory::MetalPayload.into_raw(), 24);
}

#[test]
fn values_of_enums_passed_to_the_compiler() {
    assert_eq!(LineDirectiveMode::Default.to_raw(), 0);
    assert_eq!(LineDirectiveMode::NoDirectives.to_raw(), 1);
    assert_eq!(LineDirectiveMode::Standard.to_raw(), 2);
    assert_eq!(LineDirectiveMode::Glsl.to_raw(), 3);
    assert_eq!(LineDirectiveMode::SourceMap.to_raw(), 4);
    assert_eq!(CompileTarget::Spirv.to_raw(), 6);
    assert_eq!(CompileTarget::Wgsl.to_raw(), 28);
    assert_eq!(CompileTarget::ShaderLlvmIr.to_raw(), 36);
    assert_eq!(DebugInfoLevel::Maximal.to_raw(), 3);
    assert_eq!(OptimizationLevel::High.to_raw(), 2);
    assert_eq!(FloatingPointMode::Precise.to_raw(), 2);
    assert_eq!(LayoutRules::DefaultConstantBuffer.to_raw(), 3);
    assert_eq!(SourceLanguage::Slang.to_raw(), 1);
    assert_eq!(SourceLanguage::Llvm.to_raw(), 10);
    assert_eq!(ModifierID::Inout.to_raw(), 10);
}

#[test]
fn line_directive_modes_order_by_value() {
    assert!(LineDirectiveMode::NoDirectives < LineDirectiveMode::Glsl);
    assert!(LineDirectiveMode::Standard < LineDirectiveMode::Glsl);
}
