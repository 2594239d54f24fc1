use vstd::prelude::*;
use crate::shape::RESOURCE_SHAPE_ALL_BITS;
use crate::enums::{
    BindingType, CompileTarget, DebugInfoLevel, DeclKind, FloatingPointMode, ImageFormat,
    LayoutRules, LineDirectiveMode, MatrixLayoutMode, ModifierID, OptimizationLevel,
    ParameterCategory, ResourceAccess, ScalarType, SourceLanguage, Stage, TypeKind,
};

verus! {

// The enumerators of the Slang C API, as its header defines them: an
// enumerator without an initializer is one more than the one before it.

// LineDirectiveMode
pub const SLANG_LINE_DIRECTIVE_MODE_DEFAULT: u32 = 0;
pub const SLANG_LINE_DIRECTIVE_MODE_NONE: u32 = SLANG_LINE_DIRECTIVE_MODE_DEFAULT + 1;
pub const SLANG_LINE_DIRECTIVE_MODE_STANDARD: u32 = SLANG_LINE_DIRECTIVE_MODE_NONE + 1;
pub const SLANG_LINE_DIRECTIVE_MODE_GLSL: u32 = SLANG_LINE_DIRECTIVE_MODE_STANDARD + 1;
pub const SLANG_LINE_DIRECTIVE_MODE_SOURCE_MAP: u32 = SLANG_LINE_DIRECTIVE_MODE_GLSL + 1;

// TypeKind
pub const SLANG_TYPE_KIND_NONE: u32 = 0;
pub const SLANG_TYPE_KIND_STRUCT: u32 = SLANG_TYPE_KIND_NONE + 1;
pub const SLANG_TYPE_KIND_ARRAY: u32 = SLANG_TYPE_KIND_STRUCT + 1;
pub const SLANG_TYPE_KIND_MATRIX: u32 = SLANG_TYPE_KIND_ARRAY + 1;
pub const SLANG_TYPE_KIND_VECTOR: u32 = SLANG_TYPE_KIND_MATRIX + 1;
pub const SLANG_TYPE_KIND_SCALAR: u32 = SLANG_TYPE_KIND_VECTOR + 1;
pub const SLANG_TYPE_KIND_CONSTANT_BUFFER: u32 = SLANG_TYPE_KIND_SCALAR + 1;
pub const SLANG_TYPE_KIND_RESOURCE: u32 = SLANG_TYPE_KIND_CONSTANT_BUFFER + 1;
pub const SLANG_TYPE_KIND_SAMPLER_STATE: u32 = SLANG_TYPE_KIND_RESOURCE + 1;
pub const SLANG_TYPE_KIND_TEXTURE_BUFFER: u32 = SLANG_TYPE_KIND_SAMPLER_STATE + 1;
pub const SLANG_TYPE_KIND_SHADER_STORAGE_BUFFER: u32 = SLANG_TYPE_KIND_TEXTURE_BUFFER + 1;
pub const SLANG_TYPE_KIND_PARAMETER_BLOCK: u32 = SLANG_TYPE_KIND_SHADER_STORAGE_BUFFER + 1;
pub const SLANG_TYPE_KIND_GENERIC_TYPE_PARAMETER: u32 = SLANG_TYPE_KIND_PARAMETER_BLOCK + 1;
pub const SLANG_TYPE_KIND_INTERFACE: u32 = SLANG_TYPE_KIND_GENERIC_TYPE_PARAMETER + 1;
pub const SLANG_TYPE_KIND_OUTPUT_STREAM: u32 = SLANG_TYPE_KIND_INTERFACE + 1;
pub const SLANG_TYPE_KIND_MESH_OUTPUT: u32 = SLANG_TYPE_KIND_OUTPUT_STREAM + 1;
pub const SLANG_TYPE_KIND_SPECIALIZED: u32 = SLANG_TYPE_KIND_MESH_OUTPUT + 1;
pub const SLANG_TYPE_KIND_FEEDBACK: u32 = SLANG_TYPE_KIND_SPECIALIZED + 1;
pub const SLANG_TYPE_KIND_POINTER: u32 = SLANG_TYPE_KIND_FEEDBACK + 1;
pub const SLANG_TYPE_KIND_DYNAMIC_RESOURCE: u32 = SLANG_TYPE_KIND_POINTER + 1;
pub const SLANG_TYPE_KIND_ENUM: u32 = SLANG_TYPE_KIND_DYNAMIC_RESOURCE + 1;

// ScalarType
pub const SLANG_SCALAR_TYPE_NONE: u32 = 0;
pub const SLANG_SCALAR_TYPE_VOID: u32 = SLANG_SCALAR_TYPE_NONE + 1;
pub const SLANG_SCALAR_TYPE_BOOL: u32 = SLANG_SCALAR_TYPE_VOID + 1;
pub const SLANG_SCALAR_TYPE_INT32: u32 = SLANG_SCALAR_TYPE_BOOL + 1;
pub const SLANG_SCALAR_TYPE_UINT32: u32 = SLANG_SCALAR_TYPE_INT32 + 1;
pub const SLANG_SCALAR_TYPE_INT64: u32 = SLANG_SCALAR_TYPE_UINT32 + 1;
pub const SLANG_SCALAR_TYPE_UINT64: u32 = SLANG_SCALAR_TYPE_INT64 + 1;
pub const SLANG_SCALAR_TYPE_FLOAT16: u32 = SLANG_SCALAR_TYPE_UINT64 + 1;
pub const SLANG_SCALAR_TYPE_FLOAT32: u32 = SLANG_SCALAR_TYPE_FLOAT16 + 1;
pub const SLANG_SCALAR_TYPE_FLOAT64: u32 = SLANG_SCALAR_TYPE_FLOAT32 + 1;
pub const SLANG_SCALAR_TYPE_INT8: u32 = SLANG_SCALAR_TYPE_FLOAT64 + 1;
pub const SLANG_SCALAR_TYPE_UINT8: u32 = SLANG_SCALAR_TYPE_INT8 + 1;
pub const SLANG_SCALAR_TYPE_INT16: u32 = SLANG_SCALAR_TYPE_UINT8 + 1;
pub const SLANG_SCALAR_TYPE_UINT16: u32 = SLANG_SCALAR_TYPE_INT16 + 1;
pub const SLANG_SCALAR_TYPE_INTPTR: u32 = SLANG_SCALAR_TYPE_UINT16 + 1;
pub const SLANG_SCALAR_TYPE_UINTPTR: u32 = SLANG_SCALAR_TYPE_INTPTR + 1;
pub const SLANG_SCALAR_TYPE_BFLOAT16: u32 = SLANG_SCALAR_TYPE_UINTPTR + 1;
pub const SLANG_SCALAR_TYPE_FLOAT_E4M3: u32 = SLANG_SCALAR_TYPE_BFLOAT16 + 1;
pub const SLANG_SCALAR_TYPE_FLOAT_E5M2: u32 = SLANG_SCALAR_TYPE_FLOAT_E4M3 + 1;

// MatrixLayoutMode
pub const SLANG_MATRIX_LAYOUT_MODE_UNKNOWN: u32 = 0;
pub const SLANG_MATRIX_LAYOUT_ROW_MAJOR: u32 = SLANG_MATRIX_LAYOUT_MODE_UNKNOWN + 1;
pub const SLANG_MATRIX_LAYOUT_COLUMN_MAJOR: u32 = SLANG_MATRIX_LAYOUT_ROW_MAJOR + 1;

// CompileTarget
pub const SLANG_TARGET_UNKNOWN: i32 = 0;
pub const SLANG_TARGET_NONE: i32 = SLANG_TARGET_UNKNOWN + 1;
pub const SLANG_GLSL: i32 = SLANG_TARGET_NONE + 1;
pub const SLANG_GLSL_VULKAN_DEPRECATED: i32 = SLANG_GLSL + 1;
pub const SLANG_GLSL_VULKAN_ONE_DESC_DEPRECATED: i32 = SLANG_GLSL_VULKAN_DEPRECATED + 1;
pub const SLANG_HLSL: i32 = SLANG_GLSL_VULKAN_ONE_DESC_DEPRECATED + 1;
pub const SLANG_SPIRV: i32 = SLANG_HLSL + 1;
pub const SLANG_SPIRV_ASM: i32 = SLANG_SPIRV + 1;
pub const SLANG_DXBC: i32 = SLANG_SPIRV_ASM + 1;
pub const SLANG_DXBC_ASM: i32 = SLANG_DXBC + 1;
pub const SLANG_DXIL: i32 = SLANG_DXBC_ASM + 1;
pub const SLANG_DXIL_ASM: i32 = SLANG_DXIL + 1;
pub const SLANG_CSOURCE: i32 = SLANG_DXIL_ASM + 1;
pub const SLANG_CPP_SOURCE: i32 = SLANG_CSOURCE + 1;
pub const SLANG_HOST_EXECUTABLE: i32 = SLANG_CPP_SOURCE + 1;
pub const SLANG_SHADER_SHARED_LIBRARY: i32 = SLANG_HOST_EXECUTABLE + 1;
pub const SLANG_SHADER_HOST_CALLABLE: i32 = SLANG_SHADER_SHARED_LIBRARY + 1;
pub const SLANG_CUDA_SOURCE: i32 = SLANG_SHADER_HOST_CALLABLE + 1;
pub const SLANG_PTX: i32 = SLANG_CUDA_SOURCE + 1;
pub const SLANG_CUDA_OBJECT_CODE: i32 = SLANG_PTX + 1;
pub const SLANG_OBJECT_CODE: i32 = SLANG_CUDA_OBJECT_CODE + 1;
pub const SLANG_HOST_CPP_SOURCE: i32 = SLANG_OBJECT_CODE + 1;
pub const SLANG_HOST_HOST_CALLABLE: i32 = SLANG_HOST_CPP_SOURCE + 1;
pub const SLANG_CPP_PYTORCH_BINDING: i32 = SLANG_HOST_HOST_CALLABLE + 1;
pub const SLANG_METAL: i32 = SLANG_CPP_PYTORCH_BINDING + 1;
pub const SLANG_METAL_LIB: i32 = SLANG_METAL + 1;
pub const SLANG_METAL_LIB_ASM: i32 = SLANG_METAL_LIB + 1;
pub const SLANG_HOST_SHARED_LIBRARY: i32 = SLANG_METAL_LIB_ASM + 1;
pub const SLANG_WGSL: i32 = SLANG_HOST_SHARED_LIBRARY + 1;
pub const SLANG_WGSL_SPIRV_ASM: i32 = SLANG_WGSL + 1;
pub const SLANG_WGSL_SPIRV: i32 = SLANG_WGSL_SPIRV_ASM + 1;
pub const SLANG_HOST_VM: i32 = SLANG_WGSL_SPIRV + 1;
pub const SLANG_CPP_HEADER: i32 = SLANG_HOST_VM + 1;
pub const SLANG_CUDA_HEADER: i32 = SLANG_CPP_HEADER + 1;
pub const SLANG_HOST_OBJECT_CODE: i32 = SLANG_CUDA_HEADER + 1;
pub const SLANG_HOST_LLVM_IR: i32 = SLANG_HOST_OBJECT_CODE + 1;
pub const SLANG_SHADER_LLVM_IR: i32 = SLANG_HOST_LLVM_IR + 1;

// DebugInfoLevel
pub const SLANG_DEBUG_INFO_LEVEL_NONE: u32 = 0;
pub const SLANG_DEBUG_INFO_LEVEL_MINIMAL: u32 = SLANG_DEBUG_INFO_LEVEL_NONE + 1;
pub const SLANG_DEBUG_INFO_LEVEL_STANDARD: u32 = SLANG_DEBUG_INFO_LEVEL_MINIMAL + 1;
pub const SLANG_DEBUG_INFO_LEVEL_MAXIMAL: u32 = SLANG_DEBUG_INFO_LEVEL_STANDARD + 1;

// OptimizationLevel
pub const SLANG_OPTIMIZATION_LEVEL_NONE: u32 = 0;
pub const SLANG_OPTIMIZATION_LEVEL_DEFAULT: u32 = SLANG_OPTIMIZATION_LEVEL_NONE + 1;
pub const SLANG_OPTIMIZATION_LEVEL_HIGH: u32 = SLANG_OPTIMIZATION_LEVEL_DEFAULT + 1;
pub const SLANG_OPTIMIZATION_LEVEL_MAXIMAL: u32 = SLANG_OPTIMIZATION_LEVEL_HIGH + 1;

// DeclKind
pub const SLANG_DECL_KIND_UNSUPPORTED_FOR_REFLECTION: u32 = 0;
pub const SLANG_DECL_KIND_STRUCT: u32 = SLANG_DECL_KIND_UNSUPPORTED_FOR_REFLECTION + 1;
pub const SLANG_DECL_KIND_FUNC: u32 = SLANG_DECL_KIND_STRUCT + 1;
pub const SLANG_DECL_KIND_MODULE: u32 = SLANG_DECL_KIND_FUNC + 1;
pub const SLANG_DECL_KIND_GENERIC: u32 = SLANG_DECL_KIND_MODULE + 1;
pub const SLANG_DECL_KIND_VARIABLE: u32 = SLANG_DECL_KIND_GENERIC + 1;
pub const SLANG_DECL_KIND_NAMESPACE: u32 = SLANG_DECL_KIND_VARIABLE + 1;
pub const SLANG_DECL_KIND_ENUM: u32 = SLANG_DECL_KIND_NAMESPACE + 1;

// FloatingPointMode
pub const SLANG_FLOATING_POINT_MODE_DEFAULT: u32 = 0;
pub const SLANG_FLOATING_POINT_MODE_FAST: u32 = SLANG_FLOATING_POINT_MODE_DEFAULT + 1;
pub const SLANG_FLOATING_POINT_MODE_PRECISE: u32 = SLANG_FLOATING_POINT_MODE_FAST + 1;

// ImageFormat
pub const SLANG_IMAGE_FORMAT_UNKNOWN: u32 = 0;
pub const SLANG_IMAGE_FORMAT_RGBA32F: u32 = SLANG_IMAGE_FORMAT_UNKNOWN + 1;
pub const SLANG_IMAGE_FORMAT_RGBA16F: u32 = SLANG_IMAGE_FORMAT_RGBA32F + 1;
pub const SLANG_IMAGE_FORMAT_RG32F: u32 = SLANG_IMAGE_FORMAT_RGBA16F + 1;
pub const SLANG_IMAGE_FORMAT_RG16F: u32 = SLANG_IMAGE_FORMAT_RG32F + 1;
pub const SLANG_IMAGE_FORMAT_R11F_G11F_B10F: u32 = SLANG_IMAGE_FORMAT_RG16F + 1;
pub const SLANG_IMAGE_FORMAT_R32F: u32 = SLANG_IMAGE_FORMAT_R11F_G11F_B10F + 1;
pub const SLANG_IMAGE_FORMAT_R16F: u32 = SLANG_IMAGE_FORMAT_R32F + 1;
pub const SLANG_IMAGE_FORMAT_RGBA16: u32 = SLANG_IMAGE_FORMAT_R16F + 1;
pub const SLANG_IMAGE_FORMAT_RGB10_A2: u32 = SLANG_IMAGE_FORMAT_RGBA16 + 1;
pub const SLANG_IMAGE_FORMAT_RGBA8: u32 = SLANG_IMAGE_FORMAT_RGB10_A2 + 1;
pub const SLANG_IMAGE_FORMAT_RG16: u32 = SLANG_IMAGE_FORMAT_RGBA8 + 1;
pub const SLANG_IMAGE_FORMAT_RG8: u32 = SLANG_IMAGE_FORMAT_RG16 + 1;
pub const SLANG_IMAGE_FORMAT_R16: u32 = SLANG_IMAGE_FORMAT_RG8 + 1;
pub const SLANG_IMAGE_FORMAT_R8: u32 = SLANG_IMAGE_FORMAT_R16 + 1;
pub const SLANG_IMAGE_FORMAT_RGBA16_SNORM: u32 = SLANG_IMAGE_FORMAT_R8 + 1;
pub const SLANG_IMAGE_FORMAT_RGBA8_SNORM: u32 = SLANG_IMAGE_FORMAT_RGBA16_SNORM + 1;
pub const SLANG_IMAGE_FORMAT_RG16_SNORM: u32 = SLANG_IMAGE_FORMAT_RGBA8_SNORM + 1;
pub const SLANG_IMAGE_FORMAT_RG8_SNORM: u32 = SLANG_IMAGE_FORMAT_RG16_SNORM + 1;
pub const SLANG_IMAGE_FORMAT_R16_SNORM: u32 = SLANG_IMAGE_FORMAT_RG8_SNORM + 1;
pub const SLANG_IMAGE_FORMAT_R8_SNORM: u32 = SLANG_IMAGE_FORMAT_R16_SNORM + 1;
pub const SLANG_IMAGE_FORMAT_RGBA32I: u32 = SLANG_IMAGE_FORMAT_R8_SNORM + 1;
pub const SLANG_IMAGE_FORMAT_RGBA16I: u32 = SLANG_IMAGE_FORMAT_RGBA32I + 1;
pub const SLANG_IMAGE_FORMAT_RGBA8I: u32 = SLANG_IMAGE_FORMAT_RGBA16I + 1;
pub const SLANG_IMAGE_FORMAT_RG32I: u32 = SLANG_IMAGE_FORMAT_RGBA8I + 1;
pub const SLANG_IMAGE_FORMAT_RG16I: u32 = SLANG_IMAGE_FORMAT_RG32I + 1;
pub const SLANG_IMAGE_FORMAT_RG8I: u32 = SLANG_IMAGE_FORMAT_RG16I + 1;
pub const SLANG_IMAGE_FORMAT_R32I: u32 = SLANG_IMAGE_FORMAT_RG8I + 1;
pub const SLANG_IMAGE_FORMAT_R16I: u32 = SLANG_IMAGE_FORMAT_R32I + 1;
pub const SLANG_IMAGE_FORMAT_R8I: u32 = SLANG_IMAGE_FORMAT_R16I + 1;
pub const SLANG_IMAGE_FORMAT_RGBA32UI: u32 = SLANG_IMAGE_FORMAT_R8I + 1;
pub const SLANG_IMAGE_FORMAT_RGBA16UI: u32 = SLANG_IMAGE_FORMAT_RGBA32UI + 1;
pub const SLANG_IMAGE_FORMAT_RGB10_A2UI: u32 = SLANG_IMAGE_FORMAT_RGBA16UI + 1;
pub const SLANG_IMAGE_FORMAT_RGBA8UI: u32 = SLANG_IMAGE_FORMAT_RGB10_A2UI + 1;
pub const SLANG_IMAGE_FORMAT_RG32UI: u32 = SLANG_IMAGE_FORMAT_RGBA8UI + 1;
pub const SLANG_IMAGE_FORMAT_RG16UI: u32 = SLANG_IMAGE_FORMAT_RG32UI + 1;
pub const SLANG_IMAGE_FORMAT_RG8UI: u32 = SLANG_IMAGE_FORMAT_RG16UI + 1;
pub const SLANG_IMAGE_FORMAT_R32UI: u32 = SLANG_IMAGE_FORMAT_RG8UI + 1;
pub const SLANG_IMAGE_FORMAT_R16UI: u32 = SLANG_IMAGE_FORMAT_R32UI + 1;
pub const SLANG_IMAGE_FORMAT_R8UI: u32 = SLANG_IMAGE_FORMAT_R16UI + 1;
pub const SLANG_IMAGE_FORMAT_R64UI: u32 = SLANG_IMAGE_FORMAT_R8UI + 1;
pub const SLANG_IMAGE_FORMAT_R64I: u32 = SLANG_IMAGE_FORMAT_R64UI + 1;
pub const SLANG_IMAGE_FORMAT_BGRA8: u32 = SLANG_IMAGE_FORMAT_R64I + 1;

// LayoutRules
pub const SLANG_LAYOUT_RULES_DEFAULT: u32 = 0;
pub const SLANG_LAYOUT_RULES_METAL_ARGUMENT_BUFFER_TIER2: u32 = SLANG_LAYOUT_RULES_DEFAULT + 1;
pub const SLANG_LAYOUT_RULES_DEFAULT_STRUCTURED_BUFFER: u32 = SLANG_LAYOUT_RULES_METAL_ARGUMENT_BUFFER_TIER2 + 1;
pub const SLANG_LAYOUT_RULES_DEFAULT_CONSTANT_BUFFER: u32 = SLANG_LAYOUT_RULES_DEFAULT_STRUCTURED_BUFFER + 1;

// BindingType
pub const SLANG_BINDING_TYPE_UNKNOWN: u32 = 0;
pub const SLANG_BINDING_TYPE_SAMPLER: u32 = SLANG_BINDING_TYPE_UNKNOWN + 1;
pub const SLANG_BINDING_TYPE_TEXTURE: u32 = SLANG_BINDING_TYPE_SAMPLER + 1;
pub const SLANG_BINDING_TYPE_CONSTANT_BUFFER: u32 = SLANG_BINDING_TYPE_TEXTURE + 1;
pub const SLANG_BINDING_TYPE_PARAMETER_BLOCK: u32 = SLANG_BINDING_TYPE_CONSTANT_BUFFER + 1;
pub const SLANG_BINDING_TYPE_TYPED_BUFFER: u32 = SLANG_BINDING_TYPE_PARAMETER_BLOCK + 1;
pub const SLANG_BINDING_TYPE_RAW_BUFFER: u32 = SLANG_BINDING_TYPE_TYPED_BUFFER + 1;
pub const SLANG_BINDING_TYPE_COMBINED_TEXTURE_SAMPLER: u32 = SLANG_BINDING_TYPE_RAW_BUFFER + 1;
pub const SLANG_BINDING_TYPE_INPUT_RENDER_TARGET: u32 = SLANG_BINDING_TYPE_COMBINED_TEXTURE_SAMPLER + 1;
pub const SLANG_BINDING_TYPE_INLINE_UNIFORM_DATA: u32 = SLANG_BINDING_TYPE_INPUT_RENDER_TARGET + 1;
pub const SLANG_BINDING_TYPE_RAY_TRACING_ACCELERATION_STRUCTURE: u32 = SLANG_BINDING_TYPE_INLINE_UNIFORM_DATA + 1;
pub const SLANG_BINDING_TYPE_VARYING_INPUT: u32 = SLANG_BINDING_TYPE_RAY_TRACING_ACCELERATION_STRUCTURE + 1;
pub const SLANG_BINDING_TYPE_VARYING_OUTPUT: u32 = SLANG_BINDING_TYPE_VARYING_INPUT + 1;
pub const SLANG_BINDING_TYPE_EXISTENTIAL_VALUE: u32 = SLANG_BINDING_TYPE_VARYING_OUTPUT + 1;
pub const SLANG_BINDING_TYPE_PUSH_CONSTANT: u32 = SLANG_BINDING_TYPE_EXISTENTIAL_VALUE + 1;
pub const SLANG_BINDING_TYPE_MUTABLE_FLAG: u32 = 0x100;
pub const SLANG_BINDING_TYPE_MUTABLE_TETURE: u32 = SLANG_BINDING_TYPE_TEXTURE | SLANG_BINDING_TYPE_MUTABLE_FLAG;
pub const SLANG_BINDING_TYPE_MUTABLE_TYPED_BUFFER: u32 = SLANG_BINDING_TYPE_TYPED_BUFFER | SLANG_BINDING_TYPE_MUTABLE_FLAG;
pub const SLANG_BINDING_TYPE_MUTABLE_RAW_BUFFER: u32 = SLANG_BINDING_TYPE_RAW_BUFFER | SLANG_BINDING_TYPE_MUTABLE_FLAG;

// ParameterCategory
pub const SLANG_PARAMETER_CATEGORY_NONE: u32 = 0;
pub const SLANG_PARAMETER_CATEGORY_MIXED: u32 = SLANG_PARAMETER_CATEGORY_NONE + 1;
pub const SLANG_PARAMETER_CATEGORY_CONSTANT_BUFFER: u32 = SLANG_PARAMETER_CATEGORY_MIXED + 1;
pub const SLANG_PARAMETER_CATEGORY_SHADER_RESOURCE: u32 = SLANG_PARAMETER_CATEGORY_CONSTANT_BUFFER + 1;
pub const SLANG_PARAMETER_CATEGORY_UNORDERED_ACCESS: u32 = SLANG_PARAMETER_CATEGORY_SHADER_RESOURCE + 1;
pub const SLANG_PARAMETER_CATEGORY_VARYING_INPUT: u32 = SLANG_PARAMETER_CATEGORY_UNORDERED_ACCESS + 1;
pub const SLANG_PARAMETER_CATEGORY_VARYING_OUTPUT: u32 = SLANG_PARAMETER_CATEGORY_VARYING_INPUT + 1;
pub const SLANG_PARAMETER_CATEGORY_SAMPLER_STATE: u32 = SLANG_PARAMETER_CATEGORY_VARYING_OUTPUT + 1;
pub const SLANG_PARAMETER_CATEGORY_UNIFORM: u32 = SLANG_PARAMETER_CATEGORY_SAMPLER_STATE + 1;
pub const SLANG_PARAMETER_CATEGORY_DESCRIPTOR_TABLE_SLOT: u32 = SLANG_PARAMETER_CATEGORY_UNIFORM + 1;
pub const SLANG_PARAMETER_CATEGORY_SPECIALIZATION_CONSTANT: u32 = SLANG_PARAMETER_CATEGORY_DESCRIPTOR_TABLE_SLOT + 1;
pub const SLANG_PARAMETER_CATEGORY_PUSH_CONSTANT_BUFFER: u32 = SLANG_PARAMETER_CATEGORY_SPECIALIZATION_CONSTANT + 1;
pub const SLANG_PARAMETER_CATEGORY_REGISTER_SPACE: u32 = SLANG_PARAMETER_CATEGORY_PUSH_CONSTANT_BUFFER + 1;
pub const SLANG_PARAMETER_CATEGORY_GENERIC: u32 = SLANG_PARAMETER_CATEGORY_REGISTER_SPACE + 1;
pub const SLANG_PARAMETER_CATEGORY_RAY_PAYLOAD: u32 = SLANG_PARAMETER_CATEGORY_GENERIC + 1;
pub const SLANG_PARAMETER_CATEGORY_HIT_ATTRIBUTES: u32 = SLANG_PARAMETER_CATEGORY_RAY_PAYLOAD + 1;
pub const SLANG_PARAMETER_CATEGORY_CALLABLE_PAYLOAD: u32 = SLANG_PARAMETER_CATEGORY_HIT_ATTRIBUTES + 1;
pub const SLANG_PARAMETER_CATEGORY_SHADER_RECORD: u32 = SLANG_PARAMETER_CATEGORY_CALLABLE_PAYLOAD + 1;
pub const SLANG_PARAMETER_CATEGORY_EXISTENTIAL_TYPE_PARAM: u32 = SLANG_PARAMETER_CATEGORY_SHADER_RECORD + 1;
pub const SLANG_PARAMETER_CATEGORY_EXISTENTIAL_OBJECT_PARAM: u32 = SLANG_PARAMETER_CATEGORY_EXISTENTIAL_TYPE_PARAM + 1;
pub const SLANG_PARAMETER_CATEGORY_SUB_ELEMENT_REGISTER_SPACE: u32 = SLANG_PARAMETER_CATEGORY_EXISTENTIAL_OBJECT_PARAM + 1;
pub const SLANG_PARAMETER_CATEGORY_SUBPASS: u32 = SLANG_PARAMETER_CATEGORY_SUB_ELEMENT_REGISTER_SPACE + 1;
pub const SLANG_PARAMETER_CATEGORY_METAL_ARGUMENT_BUFFER_ELEMENT: u32 = SLANG_PARAMETER_CATEGORY_SUBPASS + 1;
pub const SLANG_PARAMETER_CATEGORY_METAL_ATTRIBUTE: u32 = SLANG_PARAMETER_CATEGORY_METAL_ARGUMENT_BUFFER_ELEMENT + 1;
pub const SLANG_PARAMETER_CATEGORY_METAL_PAYLOAD: u32 = SLANG_PARAMETER_CATEGORY_METAL_ATTRIBUTE + 1;
pub const SLANG_PARAMETER_CATEGORY_METAL_BUFFER: u32 = SLANG_PARAMETER_CATEGORY_CONSTANT_BUFFER;
pub const SLANG_PARAMETER_CATEGORY_METAL_TEXTURE: u32 = SLANG_PARAMETER_CATEGORY_SHADER_RESOURCE;
pub const SLANG_PARAMETER_CATEGORY_METAL_SAMPLER: u32 = SLANG_PARAMETER_CATEGORY_SAMPLER_STATE;

// ResourceAccess
pub const SLANG_RESOURCE_ACCESS_NONE: u32 = 0;
pub const SLANG_RESOURCE_ACCESS_READ: u32 = SLANG_RESOURCE_ACCESS_NONE + 1;
pub const SLANG_RESOURCE_ACCESS_READ_WRITE: u32 = SLANG_RESOURCE_ACCESS_READ + 1;
pub const SLANG_RESOURCE_ACCESS_RASTER_ORDERED: u32 = SLANG_RESOURCE_ACCESS_READ_WRITE + 1;
pub const SLANG_RESOURCE_ACCESS_APPEND: u32 = SLANG_RESOURCE_ACCESS_RASTER_ORDERED + 1;
pub const SLANG_RESOURCE_ACCESS_CONSUME: u32 = SLANG_RESOURCE_ACCESS_APPEND + 1;
pub const SLANG_RESOURCE_ACCESS_WRITE: u32 = SLANG_RESOURCE_ACCESS_CONSUME + 1;
pub const SLANG_RESOURCE_ACCESS_FEEDBACK: u32 = SLANG_RESOURCE_ACCESS_WRITE + 1;
pub const SLANG_RESOURCE_ACCESS_UNKNOWN: u32 = 0x7fffffff;

// SourceLanguage
pub const SLANG_SOURCE_LANGUAGE_UNKNOWN: i32 = 0;
pub const SLANG_SOURCE_LANGUAGE_SLANG: i32 = SLANG_SOURCE_LANGUAGE_UNKNOWN + 1;
pub const SLANG_SOURCE_LANGUAGE_HLSL: i32 = SLANG_SOURCE_LANGUAGE_SLANG + 1;
pub const SLANG_SOURCE_LANGUAGE_GLSL: i32 = SLANG_SOURCE_LANGUAGE_HLSL + 1;
pub const SLANG_SOURCE_LANGUAGE_C: i32 = SLANG_SOURCE_LANGUAGE_GLSL + 1;
pub const SLANG_SOURCE_LANGUAGE_CPP: i32 = SLANG_SOURCE_LANGUAGE_C + 1;
pub const SLANG_SOURCE_LANGUAGE_CUDA: i32 = SLANG_SOURCE_LANGUAGE_CPP + 1;
pub const SLANG_SOURCE_LANGUAGE_SPIRV: i32 = SLANG_SOURCE_LANGUAGE_CUDA + 1;
pub const SLANG_SOURCE_LANGUAGE_METAL: i32 = SLANG_SOURCE_LANGUAGE_SPIRV + 1;
pub const SLANG_SOURCE_LANGUAGE_WGSL: i32 = SLANG_SOURCE_LANGUAGE_METAL + 1;
pub const SLANG_SOURCE_LANGUAGE_LLVM: i32 = SLANG_SOURCE_LANGUAGE_WGSL + 1;

// Stage
pub const SLANG_STAGE_NONE: u32 = 0;
pub const SLANG_STAGE_VERTEX: u32 = SLANG_STAGE_NONE + 1;
pub const SLANG_STAGE_HULL: u32 = SLANG_STAGE_VERTEX + 1;
pub const SLANG_STAGE_DOMAIN: u32 = SLANG_STAGE_HULL + 1;
pub const SLANG_STAGE_GEOMETRY: u32 = SLANG_STAGE_DOMAIN + 1;
pub const SLANG_STAGE_FRAGMENT: u32 = SLANG_STAGE_GEOMETRY + 1;
pub const SLANG_STAGE_COMPUTE: u32 = SLANG_STAGE_FRAGMENT + 1;
pub const SLANG_STAGE_RAY_GENERATION: u32 = SLANG_STAGE_COMPUTE + 1;
pub const SLANG_STAGE_INTERSECTION: u32 = SLANG_STAGE_RAY_GENERATION + 1;
pub const SLANG_STAGE_ANY_HIT: u32 = SLANG_STAGE_INTERSECTION + 1;
pub const SLANG_STAGE_CLOSEST_HIT: u32 = SLANG_STAGE_ANY_HIT + 1;
pub const SLANG_STAGE_MISS: u32 = SLANG_STAGE_CLOSEST_HIT + 1;
pub const SLANG_STAGE_CALLABLE: u32 = SLANG_STAGE_MISS + 1;
pub const SLANG_STAGE_MESH: u32 = SLANG_STAGE_CALLABLE + 1;
pub const SLANG_STAGE_AMPLIFICATION: u32 = SLANG_STAGE_MESH + 1;
pub const SLANG_STAGE_DISPATCH: u32 = SLANG_STAGE_AMPLIFICATION + 1;

// ModifierID
pub const SLANG_MODIFIER_SHARED: u32 = 0;
pub const SLANG_MODIFIER_NO_DIFF: u32 = SLANG_MODIFIER_SHARED + 1;
pub const SLANG_MODIFIER_STATIC: u32 = SLANG_MODIFIER_NO_DIFF + 1;
pub const SLANG_MODIFIER_CONST: u32 = SLANG_MODIFIER_STATIC + 1;
pub const SLANG_MODIFIER_EXPORT: u32 = SLANG_MODIFIER_CONST + 1;
pub const SLANG_MODIFIER_EXTERN: u32 = SLANG_MODIFIER_EXPORT + 1;
pub const SLANG_MODIFIER_DIFFERENTIABLE: u32 = SLANG_MODIFIER_EXTERN + 1;
pub const SLANG_MODIFIER_MUTATING: u32 = SLANG_MODIFIER_DIFFERENTIABLE + 1;
pub const SLANG_MODIFIER_IN: u32 = SLANG_MODIFIER_MUTATING + 1;
pub const SLANG_MODIFIER_OUT: u32 = SLANG_MODIFIER_IN + 1;
pub const SLANG_MODIFIER_INOUT: u32 = SLANG_MODIFIER_OUT + 1;

// SlangResourceShape
pub const SLANG_RESOURCE_BASE_SHAPE_MASK: u32 = 0x0F;
pub const SLANG_RESOURCE_NONE: u32 = 0x00;
pub const SLANG_TEXTURE_1D: u32 = 0x01;
pub const SLANG_TEXTURE_2D: u32 = 0x02;
pub const SLANG_TEXTURE_3D: u32 = 0x03;
pub const SLANG_TEXTURE_CUBE: u32 = 0x04;
pub const SLANG_TEXTURE_BUFFER: u32 = 0x05;
pub const SLANG_STRUCTURED_BUFFER: u32 = 0x06;
pub const SLANG_BYTE_ADDRESS_BUFFER: u32 = 0x07;
pub const SLANG_RESOURCE_UNKNOWN: u32 = 0x08;
pub const SLANG_ACCELERATION_STRUCTURE: u32 = 0x09;
pub const SLANG_TEXTURE_SUBPASS: u32 = 0x0A;
pub const SLANG_RESOURCE_EXT_SHAPE_MASK: u32 = 0x1F0;
pub const SLANG_TEXTURE_FEEDBACK_FLAG: u32 = 0x10;
pub const SLANG_TEXTURE_SHADOW_FLAG: u32 = 0x20;
pub const SLANG_TEXTURE_ARRAY_FLAG: u32 = 0x40;
pub const SLANG_TEXTURE_MULTISAMPLE_FLAG: u32 = 0x80;
pub const SLANG_TEXTURE_COMBINED_FLAG: u32 = 0x100;
pub const SLANG_TEXTURE_1D_ARRAY: u32 = SLANG_TEXTURE_1D | SLANG_TEXTURE_ARRAY_FLAG;
pub const SLANG_TEXTURE_2D_ARRAY: u32 = SLANG_TEXTURE_2D | SLANG_TEXTURE_ARRAY_FLAG;
pub const SLANG_TEXTURE_CUBE_ARRAY: u32 = SLANG_TEXTURE_CUBE | SLANG_TEXTURE_ARRAY_FLAG;
pub const SLANG_TEXTURE_2D_MULTISAMPLE: u32 = SLANG_TEXTURE_2D | SLANG_TEXTURE_MULTISAMPLE_FLAG;
pub const SLANG_TEXTURE_2D_MULTISAMPLE_ARRAY: u32 =
    SLANG_TEXTURE_2D | SLANG_TEXTURE_MULTISAMPLE_FLAG | SLANG_TEXTURE_ARRAY_FLAG;
pub const SLANG_TEXTURE_SUBPASS_MULTISAMPLE: u32 =
    SLANG_TEXTURE_SUBPASS | SLANG_TEXTURE_MULTISAMPLE_FLAG;

/// Law: every LineDirectiveMode is encoded as the value that the Slang header gives the
/// enumerator of the same name.
pub proof fn lemma_line_directive_mode_values_follow_the_header()
    ensures
            LineDirectiveMode::Default.raw_value() == SLANG_LINE_DIRECTIVE_MODE_DEFAULT,
            LineDirectiveMode::NoDirectives.raw_value() == SLANG_LINE_DIRECTIVE_MODE_NONE,
            LineDirectiveMode::Standard.raw_value() == SLANG_LINE_DIRECTIVE_MODE_STANDARD,
            LineDirectiveMode::Glsl.raw_value() == SLANG_LINE_DIRECTIVE_MODE_GLSL,
            LineDirectiveMode::SourceMap.raw_value() == SLANG_LINE_DIRECTIVE_MODE_SOURCE_MAP,
{
}

/// Law: every TypeKind is encoded as the value that the Slang header gives the
/// enumerator of the same name.
pub proof fn lemma_type_kind_values_follow_the_header()
    ensures
            TypeKind::NoKind.raw_value() == SLANG_TYPE_KIND_NONE,
            TypeKind::Struct.raw_value() == SLANG_TYPE_KIND_STRUCT,
            TypeKind::Array.raw_value() == SLANG_TYPE_KIND_ARRAY,
            TypeKind::Matrix.raw_value() == SLANG_TYPE_KIND_MATRIX,
            TypeKind::Vector.raw_value() == SLANG_TYPE_KIND_VECTOR,
            TypeKind::Scalar.raw_value() == SLANG_TYPE_KIND_SCALAR,
            TypeKind::ConstantBuffer.raw_value() == SLANG_TYPE_KIND_CONSTANT_BUFFER,
            TypeKind::Resource.raw_value() == SLANG_TYPE_KIND_RESOURCE,
            TypeKind::SamplerState.raw_value() == SLANG_TYPE_KIND_SAMPLER_STATE,
            TypeKind::TextureBuffer.raw_value() == SLANG_TYPE_KIND_TEXTURE_BUFFER,
            TypeKind::ShaderStorageBuffer.raw_value() == SLANG_TYPE_KIND_SHADER_STORAGE_BUFFER,
            TypeKind::ParameterBlock.raw_value() == SLANG_TYPE_KIND_PARAMETER_BLOCK,
            TypeKind::GenericTypeParameter.raw_value() == SLANG_TYPE_KIND_GENERIC_TYPE_PARAMETER,
            TypeKind::Interface.raw_value() == SLANG_TYPE_KIND_INTERFACE,
            TypeKind::OutputStream.raw_value() == SLANG_TYPE_KIND_OUTPUT_STREAM,
            TypeKind::MeshOutput.raw_value() == SLANG_TYPE_KIND_MESH_OUTPUT,
            TypeKind::Specialized.raw_value() == SLANG_TYPE_KIND_SPECIALIZED,
            TypeKind::Feedback.raw_value() == SLANG_TYPE_KIND_FEEDBACK,
            TypeKind::Pointer.raw_value() == SLANG_TYPE_KIND_POINTER,
            TypeKind::DynamicResource.raw_value() == SLANG_TYPE_KIND_DYNAMIC_RESOURCE,
            TypeKind::Enum.raw_value() == SLANG_TYPE_KIND_ENUM,
{
}

/// Law: every ScalarType is encoded as the value that the Slang header gives the
/// enumerator of the same name.
pub proof fn lemma_scalar_type_values_follow_the_header()
    ensures
            ScalarType::NoType.raw_value() == SLANG_SCALAR_TYPE_NONE,
            ScalarType::Void.raw_value() == SLANG_SCALAR_TYPE_VOID,
            ScalarType::Bool.raw_value() == SLANG_SCALAR_TYPE_BOOL,
            ScalarType::Int32.raw_value() == SLANG_SCALAR_TYPE_INT32,
            ScalarType::Uint32.raw_value() == SLANG_SCALAR_TYPE_UINT32,
            ScalarType::Int64.raw_value() == SLANG_SCALAR_TYPE_INT64,
            ScalarType::Uint64.raw_value() == SLANG_SCALAR_TYPE_UINT64,
            ScalarType::Float16.raw_value() == SLANG_SCALAR_TYPE_FLOAT16,
            ScalarType::Float32.raw_value() == SLANG_SCALAR_TYPE_FLOAT32,
            ScalarType::Float64.raw_value() == SLANG_SCALAR_TYPE_FLOAT64,
            ScalarType::Int8.raw_value() == SLANG_SCALAR_TYPE_INT8,
            ScalarType::Uint8.raw_value() == SLANG_SCALAR_TYPE_UINT8,
            ScalarType::Int16.raw_value() == SLANG_SCALAR_TYPE_INT16,
            ScalarType::Uint16.raw_value() == SLANG_SCALAR_TYPE_UINT16,
            ScalarType::Intptr.raw_value() == SLANG_SCALAR_TYPE_INTPTR,
            ScalarType::Uintptr.raw_value() == SLANG_SCALAR_TYPE_UINTPTR,
            ScalarType::Bfloat16.raw_value() == SLANG_SCALAR_TYPE_BFLOAT16,
            ScalarType::FloatE4m3.raw_value() == SLANG_SCALAR_TYPE_FLOAT_E4M3,
            ScalarType::FloatE5m2.raw_value() == SLANG_SCALAR_TYPE_FLOAT_E5M2,
{
}

/// Law: every MatrixLayoutMode is encoded as the value that the Slang header gives the
/// enumerator of the same name.
pub proof fn lemma_matrix_layout_mode_values_follow_the_header()
    ensures
            MatrixLayoutMode::ModeUnknown.raw_value() == SLANG_MATRIX_LAYOUT_MODE_UNKNOWN,
            MatrixLayoutMode::RowMajor.raw_value() == SLANG_MATRIX_LAYOUT_ROW_MAJOR,
            MatrixLayoutMode::ColumnMajor.raw_value() == SLANG_MATRIX_LAYOUT_COLUMN_MAJOR,
{
}

/// Law: every CompileTarget is encoded as the value that the Slang header gives the
/// enumerator of the same name.
pub proof fn lemma_compile_target_values_follow_the_header()
    ensures
            CompileTarget::Unknown.raw_value() == SLANG_TARGET_UNKNOWN,
            CompileTarget::NoTarget.raw_value() == SLANG_TARGET_NONE,
            CompileTarget::Glsl.raw_value() == SLANG_GLSL,
            CompileTarget::GlslVulkanDeprecated.raw_value() == SLANG_GLSL_VULKAN_DEPRECATED,
            CompileTarget::GlslVulkanOneDescDeprecated.raw_value() == SLANG_GLSL_VULKAN_ONE_DESC_DEPRECATED,
            CompileTarget::Hlsl.raw_value() == SLANG_HLSL,
            CompileTarget::Spirv.raw_value() == SLANG_SPIRV,
            CompileTarget::SpirvAsm.raw_value() == SLANG_SPIRV_ASM,
            CompileTarget::Dxbc.raw_value() == SLANG_DXBC,
            CompileTarget::DxbcAsm.raw_value() == SLANG_DXBC_ASM,
            CompileTarget::Dxil.raw_value() == SLANG_DXIL,
            CompileTarget::DxilAsm.raw_value() == SLANG_DXIL_ASM,
            CompileTarget::CSource.raw_value() == SLANG_CSOURCE,
            CompileTarget::CppSource.raw_value() == SLANG_CPP_SOURCE,
            CompileTarget::HostExecutable.raw_value() == SLANG_HOST_EXECUTABLE,
            CompileTarget::ShaderSharedLibrary.raw_value() == SLANG_SHADER_SHARED_LIBRARY,
            CompileTarget::ShaderHostCallable.raw_value() == SLANG_SHADER_HOST_CALLABLE,
            CompileTarget::CudaSource.raw_value() == SLANG_CUDA_SOURCE,
            CompileTarget::Ptx.raw_value() == SLANG_PTX,
            CompileTarget::CudaObjectCode.raw_value() == SLANG_CUDA_OBJECT_CODE,
            CompileTarget::ObjectCode.raw_value() == SLANG_OBJECT_CODE,
            CompileTarget::HostCppSource.raw_value() == SLANG_HOST_CPP_SOURCE,
            CompileTarget::HostHostCallable.raw_value() == SLANG_HOST_HOST_CALLABLE,
            CompileTarget::CppPytorchBinding.raw_value() == SLANG_CPP_PYTORCH_BINDING,
            CompileTarget::Metal.raw_value() == SLANG_METAL,
            CompileTarget::MetalLib.raw_value() == SLANG_METAL_LIB,
            CompileTarget::MetalLibAsm.raw_value() == SLANG_METAL_LIB_ASM,
            CompileTarget::HostSharedLibrary.raw_value() == SLANG_HOST_SHARED_LIBRARY,
            CompileTarget::Wgsl.raw_value() == SLANG_WGSL,
            CompileTarget::WgslSpirvAsm.raw_value() == SLANG_WGSL_SPIRV_ASM,
            CompileTarget::WgslSpirv.raw_value() == SLANG_WGSL_SPIRV,
            CompileTarget::HostVm.raw_value() == SLANG_HOST_VM,
            CompileTarget::CppHeader.raw_value() == SLANG_CPP_HEADER,
            CompileTarget::CudaHeader.raw_value() == SLANG_CUDA_HEADER,
            CompileTarget::HostObjectCode.raw_value() == SLANG_HOST_OBJECT_CODE,
            CompileTarget::HostLlvmIr.raw_value() == SLANG_HOST_LLVM_IR,
            CompileTarget::ShaderLlvmIr.raw_value() == SLANG_SHADER_LLVM_IR,
{
}

/// Law: every DebugInfoLevel is encoded as the value that the Slang header gives the
/// enumerator of the same name.
pub proof fn lemma_debug_info_level_values_follow_the_header()
    ensures
            DebugInfoLevel::NoDebugInfo.raw_value() == SLANG_DEBUG_INFO_LEVEL_NONE,
            DebugInfoLevel::Minimal.raw_value() == SLANG_DEBUG_INFO_LEVEL_MINIMAL,
            DebugInfoLevel::Standard.raw_value() == SLANG_DEBUG_INFO_LEVEL_STANDARD,
            DebugInfoLevel::Maximal.raw_value() == SLANG_DEBUG_INFO_LEVEL_MAXIMAL,
{
}

/// Law: every OptimizationLevel is encoded as the value that the Slang header gives the
/// enumerator of the same name.
pub proof fn lemma_optimization_level_values_follow_the_header()
    ensures
            OptimizationLevel::NoOptimization.raw_value() == SLANG_OPTIMIZATION_LEVEL_NONE,
            OptimizationLevel::Default.raw_value() == SLANG_OPTIMIZATION_LEVEL_DEFAULT,
            OptimizationLevel::High.raw_value() == SLANG_OPTIMIZATION_LEVEL_HIGH,
            OptimizationLevel::Maximal.raw_value() == SLANG_OPTIMIZATION_LEVEL_MAXIMAL,
{
}

/// Law: every DeclKind is encoded as the value that the Slang header gives the
/// enumerator of the same name.
pub proof fn lemma_decl_kind_values_follow_the_header()
    ensures
            DeclKind::UnsupportedForReflection.raw_value() == SLANG_DECL_KIND_UNSUPPORTED_FOR_REFLECTION,
            DeclKind::Struct.raw_value() == SLANG_DECL_KIND_STRUCT,
            DeclKind::Func.raw_value() == SLANG_DECL_KIND_FUNC,
            DeclKind::Module.raw_value() == SLANG_DECL_KIND_MODULE,
            DeclKind::Generic.raw_value() == SLANG_DECL_KIND_GENERIC,
            DeclKind::Variable.raw_value() == SLANG_DECL_KIND_VARIABLE,
            DeclKind::Namespace.raw_value() == SLANG_DECL_KIND_NAMESPACE,
            DeclKind::Enum.raw_value() == SLANG_DECL_KIND_ENUM,
{
}

/// Law: every FloatingPointMode is encoded as the value that the Slang header gives the
/// enumerator of the same name.
pub proof fn lemma_floating_point_mode_values_follow_the_header()
    ensures
            FloatingPointMode::Default.raw_value() == SLANG_FLOATING_POINT_MODE_DEFAULT,
            FloatingPointMode::Fast.raw_value() == SLANG_FLOATING_POINT_MODE_FAST,
            FloatingPointMode::Precise.raw_value() == SLANG_FLOATING_POINT_MODE_PRECISE,
{
}

/// Law: every ImageFormat is encoded as the value that the Slang header gives the
/// enumerator of the same name.
pub proof fn lemma_image_format_values_follow_the_header()
    ensures
            ImageFormat::Unknown.raw_value() == SLANG_IMAGE_FORMAT_UNKNOWN,
            ImageFormat::Rgba32f.raw_value() == SLANG_IMAGE_FORMAT_RGBA32F,
            ImageFormat::Rgba16f.raw_value() == SLANG_IMAGE_FORMAT_RGBA16F,
            ImageFormat::Rg32f.raw_value() == SLANG_IMAGE_FORMAT_RG32F,
            ImageFormat::Rg16f.raw_value() == SLANG_IMAGE_FORMAT_RG16F,
            ImageFormat::R11fG11fB10f.raw_value() == SLANG_IMAGE_FORMAT_R11F_G11F_B10F,
            ImageFormat::R32f.raw_value() == SLANG_IMAGE_FORMAT_R32F,
            ImageFormat::R16f.raw_value() == SLANG_IMAGE_FORMAT_R16F,
            ImageFormat::Rgba16.raw_value() == SLANG_IMAGE_FORMAT_RGBA16,
            ImageFormat::Rgb10A2.raw_value() == SLANG_IMAGE_FORMAT_RGB10_A2,
            ImageFormat::Rgba8.raw_value() == SLANG_IMAGE_FORMAT_RGBA8,
            ImageFormat::Rg16.raw_value() == SLANG_IMAGE_FORMAT_RG16,
            ImageFormat::Rg8.raw_value() == SLANG_IMAGE_FORMAT_RG8,
            ImageFormat::R16.raw_value() == SLANG_IMAGE_FORMAT_R16,
            ImageFormat::R8.raw_value() == SLANG_IMAGE_FORMAT_R8,
            ImageFormat::Rgba16Snorm.raw_value() == SLANG_IMAGE_FORMAT_RGBA16_SNORM,
            ImageFormat::Rgba8Snorm.raw_value() == SLANG_IMAGE_FORMAT_RGBA8_SNORM,
            ImageFormat::Rg16Snorm.raw_value() == SLANG_IMAGE_FORMAT_RG16_SNORM,
            ImageFormat::Rg8Snorm.raw_value() == SLANG_IMAGE_FORMAT_RG8_SNORM,
            ImageFormat::R16Snorm.raw_value() == SLANG_IMAGE_FORMAT_R16_SNORM,
            ImageFormat::R8Snorm.raw_value() == SLANG_IMAGE_FORMAT_R8_SNORM,
            ImageFormat::Rgba32i.raw_value() == SLANG_IMAGE_FORMAT_RGBA32I,
            ImageFormat::Rgba16i.raw_value() == SLANG_IMAGE_FORMAT_RGBA16I,
            ImageFormat::Rgba8i.raw_value() == SLANG_IMAGE_FORMAT_RGBA8I,
            ImageFormat::Rg32i.raw_value() == SLANG_IMAGE_FORMAT_RG32I,
            ImageFormat::Rg16i.raw_value() == SLANG_IMAGE_FORMAT_RG16I,
            ImageFormat::Rg8i.raw_value() == SLANG_IMAGE_FORMAT_RG8I,
            ImageFormat::R32i.raw_value() == SLANG_IMAGE_FORMAT_R32I,
            ImageFormat::R16i.raw_value() == SLANG_IMAGE_FORMAT_R16I,
            ImageFormat::R8i.raw_value() == SLANG_IMAGE_FORMAT_R8I,
            ImageFormat::Rgba32ui.raw_value() == SLANG_IMAGE_FORMAT_RGBA32UI,
            ImageFormat::Rgba16ui.raw_value() == SLANG_IMAGE_FORMAT_RGBA16UI,
            ImageFormat::Rgb10A2ui.raw_value() == SLANG_IMAGE_FORMAT_RGB10_A2UI,
            ImageFormat::Rgba8ui.raw_value() == SLANG_IMAGE_FORMAT_RGBA8UI,
            ImageFormat::Rg32ui.raw_value() == SLANG_IMAGE_FORMAT_RG32UI,
            ImageFormat::Rg16ui.raw_value() == SLANG_IMAGE_FORMAT_RG16UI,
            ImageFormat::Rg8ui.raw_value() == SLANG_IMAGE_FORMAT_RG8UI,
            ImageFormat::R32ui.raw_value() == SLANG_IMAGE_FORMAT_R32UI,
            ImageFormat::R16ui.raw_value() == SLANG_IMAGE_FORMAT_R16UI,
            ImageFormat::R8ui.raw_value() == SLANG_IMAGE_FORMAT_R8UI,
            ImageFormat::R64ui.raw_value() == SLANG_IMAGE_FORMAT_R64UI,
            ImageFormat::R64i.raw_value() == SLANG_IMAGE_FORMAT_R64I,
            ImageFormat::Bgra8.raw_value() == SLANG_IMAGE_FORMAT_BGRA8,
{
}

/// Law: every LayoutRules is encoded as the value that the Slang header gives the
/// enumerator of the same name.
pub proof fn lemma_layout_rules_values_follow_the_header()
    ensures
            LayoutRules::Default.raw_value() == SLANG_LAYOUT_RULES_DEFAULT,
            LayoutRules::MetalArgumentBufferTier2.raw_value() == SLANG_LAYOUT_RULES_METAL_ARGUMENT_BUFFER_TIER2,
            LayoutRules::DefaultStructuredBuffer.raw_value() == SLANG_LAYOUT_RULES_DEFAULT_STRUCTURED_BUFFER,
            LayoutRules::DefaultConstantBuffer.raw_value() == SLANG_LAYOUT_RULES_DEFAULT_CONSTANT_BUFFER,
{
}

/// Law: every BindingType is encoded as the value that the Slang header gives the
/// enumerator of the same name.
pub proof fn lemma_binding_type_values_follow_the_header()
    ensures
            BindingType::Unknown.raw_value() == SLANG_BINDING_TYPE_UNKNOWN,
            BindingType::Sampler.raw_value() == SLANG_BINDING_TYPE_SAMPLER,
            BindingType::Texture.raw_value() == SLANG_BINDING_TYPE_TEXTURE,
            BindingType::ConstantBuffer.raw_value() == SLANG_BINDING_TYPE_CONSTANT_BUFFER,
            BindingType::ParameterBlock.raw_value() == SLANG_BINDING_TYPE_PARAMETER_BLOCK,
            BindingType::TypedBuffer.raw_value() == SLANG_BINDING_TYPE_TYPED_BUFFER,
            BindingType::RawBuffer.raw_value() == SLANG_BINDING_TYPE_RAW_BUFFER,
            BindingType::CombinedTextureSampler.raw_value() == SLANG_BINDING_TYPE_COMBINED_TEXTURE_SAMPLER,
            BindingType::InputRenderTarget.raw_value() == SLANG_BINDING_TYPE_INPUT_RENDER_TARGET,
            BindingType::InlineUniformData.raw_value() == SLANG_BINDING_TYPE_INLINE_UNIFORM_DATA,
            BindingType::RayTracingAccelerationStructure.raw_value() == SLANG_BINDING_TYPE_RAY_TRACING_ACCELERATION_STRUCTURE,
            BindingType::VaryingInput.raw_value() == SLANG_BINDING_TYPE_VARYING_INPUT,
            BindingType::VaryingOutput.raw_value() == SLANG_BINDING_TYPE_VARYING_OUTPUT,
            BindingType::ExistentialValue.raw_value() == SLANG_BINDING_TYPE_EXISTENTIAL_VALUE,
            BindingType::PushConstant.raw_value() == SLANG_BINDING_TYPE_PUSH_CONSTANT,
            BindingType::MutableTexture.raw_value() == SLANG_BINDING_TYPE_MUTABLE_TETURE,
            BindingType::MutableTypedBuffer.raw_value() == SLANG_BINDING_TYPE_MUTABLE_TYPED_BUFFER,
            BindingType::MutableRawBuffer.raw_value() == SLANG_BINDING_TYPE_MUTABLE_RAW_BUFFER,
{
        assert(2u32 | 0x100u32 == 0x102u32 && 5u32 | 0x100u32 == 0x105u32 && 6u32 | 0x100u32 == 0x106u32) by (bit_vector);
}

/// Law: every ParameterCategory is encoded as the value that the Slang header gives the
/// enumerator of the same name.
pub proof fn lemma_parameter_category_values_follow_the_header()
    ensures
            ParameterCategory::NoCategory.raw_value() == SLANG_PARAMETER_CATEGORY_NONE,
            ParameterCategory::Mixed.raw_value() == SLANG_PARAMETER_CATEGORY_MIXED,
            ParameterCategory::ConstantBuffer.raw_value() == SLANG_PARAMETER_CATEGORY_CONSTANT_BUFFER,
            ParameterCategory::ShaderResource.raw_value() == SLANG_PARAMETER_CATEGORY_SHADER_RESOURCE,
            ParameterCategory::UnorderedAccess.raw_value() == SLANG_PARAMETER_CATEGORY_UNORDERED_ACCESS,
            ParameterCategory::VaryingInput.raw_value() == SLANG_PARAMETER_CATEGORY_VARYING_INPUT,
            ParameterCategory::VaryingOutput.raw_value() == SLANG_PARAMETER_CATEGORY_VARYING_OUTPUT,
            ParameterCategory::SamplerState.raw_value() == SLANG_PARAMETER_CATEGORY_SAMPLER_STATE,
            ParameterCategory::Uniform.raw_value() == SLANG_PARAMETER_CATEGORY_UNIFORM,
            ParameterCategory::DescriptorTableSlot.raw_value() == SLANG_PARAMETER_CATEGORY_DESCRIPTOR_TABLE_SLOT,
            ParameterCategory::SpecializationConstant.raw_value() == SLANG_PARAMETER_CATEGORY_SPECIALIZATION_CONSTANT,
            ParameterCategory::PushConstantBuffer.raw_value() == SLANG_PARAMETER_CATEGORY_PUSH_CONSTANT_BUFFER,
            ParameterCategory::RegisterSpace.raw_value() == SLANG_PARAMETER_CATEGORY_REGISTER_SPACE,
            ParameterCategory::Generic.raw_value() == SLANG_PARAMETER_CATEGORY_GENERIC,
            ParameterCategory::RayPayload.raw_value() == SLANG_PARAMETER_CATEGORY_RAY_PAYLOAD,
            ParameterCategory::HitAttributes.raw_value() == SLANG_PARAMETER_CATEGORY_HIT_ATTRIBUTES,
            ParameterCategory::CallablePayload.raw_value() == SLANG_PARAMETER_CATEGORY_CALLABLE_PAYLOAD,
            ParameterCategory::ShaderRecord.raw_value() == SLANG_PARAMETER_CATEGORY_SHADER_RECORD,
            ParameterCategory::ExistentialTypeParam.raw_value() == SLANG_PARAMETER_CATEGORY_EXISTENTIAL_TYPE_PARAM,
            ParameterCategory::ExistentialObjectParam.raw_value() == SLANG_PARAMETER_CATEGORY_EXISTENTIAL_OBJECT_PARAM,
            ParameterCategory::SubElementRegisterSpace.raw_value() == SLANG_PARAMETER_CATEGORY_SUB_ELEMENT_REGISTER_SPACE,
            ParameterCategory::Subpass.raw_value() == SLANG_PARAMETER_CATEGORY_SUBPASS,
            ParameterCategory::MetalArgumentBufferElement.raw_value() == SLANG_PARAMETER_CATEGORY_METAL_ARGUMENT_BUFFER_ELEMENT,
            ParameterCategory::MetalAttribute.raw_value() == SLANG_PARAMETER_CATEGORY_METAL_ATTRIBUTE,
            ParameterCategory::MetalPayload.raw_value() == SLANG_PARAMETER_CATEGORY_METAL_PAYLOAD,
            ParameterCategory::MetalBuffer.raw_value() == SLANG_PARAMETER_CATEGORY_METAL_BUFFER,
            ParameterCategory::MetalTexture.raw_value() == SLANG_PARAMETER_CATEGORY_METAL_TEXTURE,
            ParameterCategory::MetalSampler.raw_value() == SLANG_PARAMETER_CATEGORY_METAL_SAMPLER,
{
}

/// Law: every ResourceAccess is encoded as the value that the Slang header gives the
/// enumerator of the same name.
pub proof fn lemma_resource_access_values_follow_the_header()
    ensures
            ResourceAccess::NoAccess.raw_value() == SLANG_RESOURCE_ACCESS_NONE,
            ResourceAccess::Read.raw_value() == SLANG_RESOURCE_ACCESS_READ,
            ResourceAccess::ReadWrite.raw_value() == SLANG_RESOURCE_ACCESS_READ_WRITE,
            ResourceAccess::RasterOrdered.raw_value() == SLANG_RESOURCE_ACCESS_RASTER_ORDERED,
            ResourceAccess::Append.raw_value() == SLANG_RESOURCE_ACCESS_APPEND,
            ResourceAccess::Consume.raw_value() == SLANG_RESOURCE_ACCESS_CONSUME,
            ResourceAccess::Write.raw_value() == SLANG_RESOURCE_ACCESS_WRITE,
            ResourceAccess::Feedback.raw_value() == SLANG_RESOURCE_ACCESS_FEEDBACK,
            ResourceAccess::Unknown.raw_value() == SLANG_RESOURCE_ACCESS_UNKNOWN,
{
}

/// Law: every SourceLanguage is encoded as the value that the Slang header gives the
/// enumerator of the same name.
pub proof fn lemma_source_language_values_follow_the_header()
    ensures
            SourceLanguage::Unknown.raw_value() == SLANG_SOURCE_LANGUAGE_UNKNOWN,
            SourceLanguage::Slang.raw_value() == SLANG_SOURCE_LANGUAGE_SLANG,
            SourceLanguage::Hlsl.raw_value() == SLANG_SOURCE_LANGUAGE_HLSL,
            SourceLanguage::Glsl.raw_value() == SLANG_SOURCE_LANGUAGE_GLSL,
            SourceLanguage::C.raw_value() == SLANG_SOURCE_LANGUAGE_C,
            SourceLanguage::Cpp.raw_value() == SLANG_SOURCE_LANGUAGE_CPP,
            SourceLanguage::Cuda.raw_value() == SLANG_SOURCE_LANGUAGE_CUDA,
            SourceLanguage::Spirv.raw_value() == SLANG_SOURCE_LANGUAGE_SPIRV,
            SourceLanguage::Metal.raw_value() == SLANG_SOURCE_LANGUAGE_METAL,
            SourceLanguage::Wgsl.raw_value() == SLANG_SOURCE_LANGUAGE_WGSL,
            SourceLanguage::Llvm.raw_value() == SLANG_SOURCE_LANGUAGE_LLVM,
{
}

/// Law: every Stage is encoded as the value that the Slang header gives the
/// enumerator of the same name.
pub proof fn lemma_stage_values_follow_the_header()
    ensures
            Stage::NoStage.raw_value() == SLANG_STAGE_NONE,
            Stage::Vertex.raw_value() == SLANG_STAGE_VERTEX,
            Stage::Hull.raw_value() == SLANG_STAGE_HULL,
            Stage::Domain.raw_value() == SLANG_STAGE_DOMAIN,
            Stage::Geometry.raw_value() == SLANG_STAGE_GEOMETRY,
            Stage::Fragment.raw_value() == SLANG_STAGE_FRAGMENT,
            Stage::Compute.raw_value() == SLANG_STAGE_COMPUTE,
            Stage::RayGeneration.raw_value() == SLANG_STAGE_RAY_GENERATION,
            Stage::Intersection.raw_value() == SLANG_STAGE_INTERSECTION,
            Stage::AnyHit.raw_value() == SLANG_STAGE_ANY_HIT,
            Stage::ClosestHit.raw_value() == SLANG_STAGE_CLOSEST_HIT,
            Stage::Miss.raw_value() == SLANG_STAGE_MISS,
            Stage::Callable.raw_value() == SLANG_STAGE_CALLABLE,
            Stage::Mesh.raw_value() == SLANG_STAGE_MESH,
            Stage::Amplification.raw_value() == SLANG_STAGE_AMPLIFICATION,
            Stage::Dispatch.raw_value() == SLANG_STAGE_DISPATCH,
{
}

/// Law: every ModifierID is encoded as the value that the Slang header gives the
/// enumerator of the same name.
pub proof fn lemma_modifier_id_values_follow_the_header()
    ensures
            ModifierID::Shared.raw_value() == SLANG_MODIFIER_SHARED,
            ModifierID::NoDiff.raw_value() == SLANG_MODIFIER_NO_DIFF,
            ModifierID::Static.raw_value() == SLANG_MODIFIER_STATIC,
            ModifierID::Const.raw_value() == SLANG_MODIFIER_CONST,
            ModifierID::Export.raw_value() == SLANG_MODIFIER_EXPORT,
            ModifierID::Extern.raw_value() == SLANG_MODIFIER_EXTERN,
            ModifierID::Differentiable.raw_value() == SLANG_MODIFIER_DIFFERENTIABLE,
            ModifierID::Mutating.raw_value() == SLANG_MODIFIER_MUTATING,
            ModifierID::In.raw_value() == SLANG_MODIFIER_IN,
            ModifierID::Out.raw_value() == SLANG_MODIFIER_OUT,
            ModifierID::Inout.raw_value() == SLANG_MODIFIER_INOUT,
{
}

/// Law: the bits of all named resource shapes are exactly the bits of the base
/// shape mask and the shape flag mask together, and every named shape lies
/// within them.
pub proof fn lemma_resource_shape_all_bits()
    ensures
        RESOURCE_SHAPE_ALL_BITS == SLANG_RESOURCE_BASE_SHAPE_MASK | SLANG_RESOURCE_EXT_SHAPE_MASK,
        SLANG_TEXTURE_2D_MULTISAMPLE_ARRAY & RESOURCE_SHAPE_ALL_BITS == SLANG_TEXTURE_2D_MULTISAMPLE_ARRAY,
        SLANG_TEXTURE_SUBPASS_MULTISAMPLE & RESOURCE_SHAPE_ALL_BITS == SLANG_TEXTURE_SUBPASS_MULTISAMPLE,
        SLANG_TEXTURE_CUBE_ARRAY & RESOURCE_SHAPE_ALL_BITS == SLANG_TEXTURE_CUBE_ARRAY,
        SLANG_TEXTURE_COMBINED_FLAG & RESOURCE_SHAPE_ALL_BITS == SLANG_TEXTURE_COMBINED_FLAG,
{
    assert(0x1ffu32 == 0x0Fu32 | 0x1F0u32) by (bit_vector);
    assert((0x02u32 | 0x80u32 | 0x40u32) & 0x1ffu32 == (0x02u32 | 0x80u32 | 0x40u32)) by (bit_vector);
    assert((0x0Au32 | 0x80u32) & 0x1ffu32 == (0x0Au32 | 0x80u32)) by (bit_vector);
    assert((0x04u32 | 0x40u32) & 0x1ffu32 == (0x04u32 | 0x40u32)) by (bit_vector);
    assert(0x100u32 & 0x1ffu32 == 0x100u32) by (bit_vector);
}

} // verus!
