use vstd::prelude::*;

verus! {

/// Option to control emission of `#line` directives
///
/// The value that the Slang API gives a variant is what `to_raw` returns
/// (see `raw_value`); an `as` cast gives the variant's position in this list
/// instead.
#[derive(Debug, Clone, Copy, PartialEq, Eq, Structural, PartialOrd, Ord, Hash)]
#[non_exhaustive]
pub enum LineDirectiveMode {
    Default,

    /// Don’t emit line directives at all.
    NoDirectives,

    /// Emit standard C-style #line directives.
    Standard,

    /// Emit GLSL-style directives with file number instead of name
    Glsl,

    /// Use a source map to track line mappings (ie no #line will appear in emitting source)
    SourceMap,
}

impl LineDirectiveMode {
    /// The value that the Slang API gives this mode.
    pub open spec fn raw_value(self) -> u32 {
        match self {
            LineDirectiveMode::Default => 0,
            LineDirectiveMode::NoDirectives => 1,
            LineDirectiveMode::Standard => 2,
            LineDirectiveMode::Glsl => 3,
            LineDirectiveMode::SourceMap => 4,
        }
    }

    /// The value that the Slang API gives this mode.
    pub fn to_raw(self) -> (r: u32)
        ensures
            r == self.raw_value(),
    {
        match self {
            LineDirectiveMode::Default => 0,
            LineDirectiveMode::NoDirectives => 1,
            LineDirectiveMode::Standard => 2,
            LineDirectiveMode::Glsl => 3,
            LineDirectiveMode::SourceMap => 4,
        }
    }
}

/// The kind of a type in the reflection of a program.
///
/// The value that the Slang API gives a variant is what `to_raw` returns
/// (see `raw_value`); an `as` cast gives the variant's position in this list
/// instead.
#[derive(Debug, Clone, Copy, PartialEq, Eq, Structural, PartialOrd, Ord, Hash)]
#[non_exhaustive]
pub enum TypeKind {
    NoKind,
    Struct,
    Array,
    Matrix,
    Vector,
    Scalar,
    ConstantBuffer,
    Resource,
    SamplerState,
    TextureBuffer,
    ShaderStorageBuffer,
    ParameterBlock,
    GenericTypeParameter,
    Interface,
    OutputStream,
    MeshOutput,
    Specialized,
    Feedback,
    Pointer,
    DynamicResource,
    Enum,
}

impl TypeKind {
    /// The value that the Slang API gives this kind.
    pub open spec fn raw_value(self) -> u32 {
        match self {
            TypeKind::NoKind => 0,
            TypeKind::Struct => 1,
            TypeKind::Array => 2,
            TypeKind::Matrix => 3,
            TypeKind::Vector => 4,
            TypeKind::Scalar => 5,
            TypeKind::ConstantBuffer => 6,
            TypeKind::Resource => 7,
            TypeKind::SamplerState => 8,
            TypeKind::TextureBuffer => 9,
            TypeKind::ShaderStorageBuffer => 10,
            TypeKind::ParameterBlock => 11,
            TypeKind::GenericTypeParameter => 12,
            TypeKind::Interface => 13,
            TypeKind::OutputStream => 14,
            TypeKind::MeshOutput => 15,
            TypeKind::Specialized => 16,
            TypeKind::Feedback => 17,
            TypeKind::Pointer => 18,
            TypeKind::DynamicResource => 19,
            TypeKind::Enum => 20,
        }
    }

    /// The value that the Slang API gives this kind.
    pub fn to_raw(self) -> (r: u32)
        ensures
            r == self.raw_value(),
    {
        match self {
            TypeKind::NoKind => 0,
            TypeKind::Struct => 1,
            TypeKind::Array => 2,
            TypeKind::Matrix => 3,
            TypeKind::Vector => 4,
            TypeKind::Scalar => 5,
            TypeKind::ConstantBuffer => 6,
            TypeKind::Resource => 7,
            TypeKind::SamplerState => 8,
            TypeKind::TextureBuffer => 9,
            TypeKind::ShaderStorageBuffer => 10,
            TypeKind::ParameterBlock => 11,
            TypeKind::GenericTypeParameter => 12,
            TypeKind::Interface => 13,
            TypeKind::OutputStream => 14,
            TypeKind::MeshOutput => 15,
            TypeKind::Specialized => 16,
            TypeKind::Feedback => 17,
            TypeKind::Pointer => 18,
            TypeKind::DynamicResource => 19,
            TypeKind::Enum => 20,
        }
    }

    /// Whether the Slang API value `raw` stands for a kind.
    pub open spec fn is_raw(raw: u32) -> bool {
        raw <= 20
    }

    /// The kind that the Slang API value `raw` stands for.
    pub fn from_raw(raw: u32) -> (r: Self)
        requires
            Self::is_raw(raw),
        ensures
            r.raw_value() == raw,
    {
        match raw {
            0 => TypeKind::NoKind,
            1 => TypeKind::Struct,
            2 => TypeKind::Array,
            3 => TypeKind::Matrix,
            4 => TypeKind::Vector,
            5 => TypeKind::Scalar,
            6 => TypeKind::ConstantBuffer,
            7 => TypeKind::Resource,
            8 => TypeKind::SamplerState,
            9 => TypeKind::TextureBuffer,
            10 => TypeKind::ShaderStorageBuffer,
            11 => TypeKind::ParameterBlock,
            12 => TypeKind::GenericTypeParameter,
            13 => TypeKind::Interface,
            14 => TypeKind::OutputStream,
            15 => TypeKind::MeshOutput,
            16 => TypeKind::Specialized,
            17 => TypeKind::Feedback,
            18 => TypeKind::Pointer,
            19 => TypeKind::DynamicResource,
            20 => TypeKind::Enum,
            _ => {
                assert(false);
                TypeKind::NoKind
            },
        }
    }

    /// Law: the value of every kind is accepted by `from_raw`, and no two kinds share
    /// a value, so `from_raw(x.to_raw()) == x` for every kind `x`.
    pub proof fn lemma_raw_round_trip(x: Self)
        ensures
            Self::is_raw(x.raw_value()),
            forall|y: Self| #![auto] y.raw_value() == x.raw_value() ==> y == x,
    {
    }
}

/// The scalar type of a scalar, vector or matrix type.
///
/// The value that the Slang API gives a variant is what `to_raw` returns
/// (see `raw_value`); an `as` cast gives the variant's position in this list
/// instead.
#[derive(Debug, Clone, Copy, PartialEq, Eq, Structural, PartialOrd, Ord, Hash)]
#[non_exhaustive]
pub enum ScalarType {
    NoType,
    Void,
    Bool,
    Int32,
    Uint32,
    Int64,
    Uint64,
    Float16,
    Float32,
    Float64,
    Int8,
    Uint8,
    Int16,
    Uint16,
    Intptr,
    Uintptr,
    Bfloat16,
    FloatE4m3,
    FloatE5m2,
}

impl ScalarType {
    /// The value that the Slang API gives this type.
    pub open spec fn raw_value(self) -> u32 {
        match self {
            ScalarType::NoType => 0,
            ScalarType::Void => 1,
            ScalarType::Bool => 2,
            ScalarType::Int32 => 3,
            ScalarType::Uint32 => 4,
            ScalarType::Int64 => 5,
            ScalarType::Uint64 => 6,
            ScalarType::Float16 => 7,
            ScalarType::Float32 => 8,
            ScalarType::Float64 => 9,
            ScalarType::Int8 => 10,
            ScalarType::Uint8 => 11,
            ScalarType::Int16 => 12,
            ScalarType::Uint16 => 13,
            ScalarType::Intptr => 14,
            ScalarType::Uintptr => 15,
            ScalarType::Bfloat16 => 16,
            ScalarType::FloatE4m3 => 17,
            ScalarType::FloatE5m2 => 18,
        }
    }

    /// The value that the Slang API gives this type.
    pub fn to_raw(self) -> (r: u32)
        ensures
            r == self.raw_value(),
    {
        match self {
            ScalarType::NoType => 0,
            ScalarType::Void => 1,
            ScalarType::Bool => 2,
            ScalarType::Int32 => 3,
            ScalarType::Uint32 => 4,
            ScalarType::Int64 => 5,
            ScalarType::Uint64 => 6,
            ScalarType::Float16 => 7,
            ScalarType::Float32 => 8,
            ScalarType::Float64 => 9,
            ScalarType::Int8 => 10,
            ScalarType::Uint8 => 11,
            ScalarType::Int16 => 12,
            ScalarType::Uint16 => 13,
            ScalarType::Intptr => 14,
            ScalarType::Uintptr => 15,
            ScalarType::Bfloat16 => 16,
            ScalarType::FloatE4m3 => 17,
            ScalarType::FloatE5m2 => 18,
        }
    }

    /// Whether the Slang API value `raw` stands for a type.
    pub open spec fn is_raw(raw: u32) -> bool {
        raw <= 18
    }

    /// The type that the Slang API value `raw` stands for.
    pub fn from_raw(raw: u32) -> (r: Self)
        requires
            Self::is_raw(raw),
        ensures
            r.raw_value() == raw,
    {
        match raw {
            0 => ScalarType::NoType,
            1 => ScalarType::Void,
            2 => ScalarType::Bool,
            3 => ScalarType::Int32,
            4 => ScalarType::Uint32,
            5 => ScalarType::Int64,
            6 => ScalarType::Uint64,
            7 => ScalarType::Float16,
            8 => ScalarType::Float32,
            9 => ScalarType::Float64,
            10 => ScalarType::Int8,
            11 => ScalarType::Uint8,
            12 => ScalarType::Int16,
            13 => ScalarType::Uint16,
            14 => ScalarType::Intptr,
            15 => ScalarType::Uintptr,
            16 => ScalarType::Bfloat16,
            17 => ScalarType::FloatE4m3,
            18 => ScalarType::FloatE5m2,
            _ => {
                assert(false);
                ScalarType::NoType
            },
        }
    }

    /// Law: the value of every type is accepted by `from_raw`, and no two types share
    /// a value, so `from_raw(x.to_raw()) == x` for every type `x`.
    pub proof fn lemma_raw_round_trip(x: Self)
        ensures
            Self::is_raw(x.raw_value()),
            forall|y: Self| #![auto] y.raw_value() == x.raw_value() ==> y == x,
    {
    }
}

/// How the elements of a matrix are laid out in memory.
///
/// The value that the Slang API gives a variant is what `to_raw` returns
/// (see `raw_value`); an `as` cast gives the variant's position in this list
/// instead.
#[derive(Debug, Clone, Copy, PartialEq, Eq, Structural, PartialOrd, Ord, Hash)]
#[non_exhaustive]
pub enum MatrixLayoutMode {
    ModeUnknown,
    RowMajor,
    ColumnMajor,
}

impl MatrixLayoutMode {
    /// The value that the Slang API gives this mode.
    pub open spec fn raw_value(self) -> u32 {
        match self {
            MatrixLayoutMode::ModeUnknown => 0,
            MatrixLayoutMode::RowMajor => 1,
            MatrixLayoutMode::ColumnMajor => 2,
        }
    }

    /// The value that the Slang API gives this mode.
    pub fn to_raw(self) -> (r: u32)
        ensures
            r == self.raw_value(),
    {
        match self {
            MatrixLayoutMode::ModeUnknown => 0,
            MatrixLayoutMode::RowMajor => 1,
            MatrixLayoutMode::ColumnMajor => 2,
        }
    }

    /// Whether the Slang API value `raw` stands for a mode.
    pub open spec fn is_raw(raw: u32) -> bool {
        raw <= 2
    }

    /// The mode that the Slang API value `raw` stands for.
    pub fn from_raw(raw: u32) -> (r: Self)
        requires
            Self::is_raw(raw),
        ensures
            r.raw_value() == raw,
    {
        match raw {
            0 => MatrixLayoutMode::ModeUnknown,
            1 => MatrixLayoutMode::RowMajor,
            2 => MatrixLayoutMode::ColumnMajor,
            _ => {
                assert(false);
                MatrixLayoutMode::ModeUnknown
            },
        }
    }

    /// Law: the value of every mode is accepted by `from_raw`, and no two modes share
    /// a value, so `from_raw(x.to_raw()) == x` for every mode `x`.
    pub proof fn lemma_raw_round_trip(x: Self)
        ensures
            Self::is_raw(x.raw_value()),
            forall|y: Self| #![auto] y.raw_value() == x.raw_value() ==> y == x,
    {
    }
}

/// The kind of code the compiler produces.
///
/// The value that the Slang API gives a variant is what `to_raw` returns
/// (see `raw_value`); an `as` cast gives the variant's position in this list
/// instead.
#[derive(Debug, Clone, Copy, PartialEq, Eq, Structural, PartialOrd, Ord, Hash)]
#[non_exhaustive]
pub enum CompileTarget {
    Unknown,
    NoTarget,
    Glsl,
    GlslVulkanDeprecated,
    GlslVulkanOneDescDeprecated,
    Hlsl,
    Spirv,
    SpirvAsm,
    Dxbc,
    DxbcAsm,
    Dxil,
    DxilAsm,

    /// The C language
    CSource,

    /// C++ code for shader kernels.
    CppSource,

    /// Standalone binary executable (for hosting CPU/OS)
    HostExecutable,

    /// A shared library/Dll for shader kernels (for hosting CPU/OS)
    ShaderSharedLibrary,

    /// A CPU target that makes the compiled shader code available to be run immediately
    ShaderHostCallable,

    /// Cuda source
    CudaSource,

    /// PTX
    Ptx,

    /// Object code that contains CUDA functions.
    CudaObjectCode,

    /// Object code that can be used for later linking (kernel/shader)
    ObjectCode,

    /// C++ code for host library or executable.
    HostCppSource,

    /// Host callable host code (ie non kernel/shader)
    HostHostCallable,

    /// C++ PyTorch binding code.
    CppPytorchBinding,

    /// Metal shading language
    Metal,

    /// Metal library
    MetalLib,

    /// Metal library assembly
    MetalLibAsm,

    /// A shared library/Dll for host code (for hosting CPU/OS)
    HostSharedLibrary,

    /// WebGPU shading language
    Wgsl,

    /// SPIR-V assembly via WebGPU shading language
    WgslSpirvAsm,

    /// SPIR-V via WebGPU shading language
    WgslSpirv,

    /// Bytecode that can be interpreted by the Slang VM
    HostVm,

    /// C++ header for shader kernels.
    CppHeader,

    /// Cuda header
    CudaHeader,

    /// Host object code
    HostObjectCode,

    /// Host LLVM IR assembly
    HostLlvmIr,

    /// Host LLVM IR assembly (kernel/shader)
    ShaderLlvmIr,
}

impl CompileTarget {
    /// The value that the Slang API gives this target.
    pub open spec fn raw_value(self) -> i32 {
        match self {
            CompileTarget::Unknown => 0,
            CompileTarget::NoTarget => 1,
            CompileTarget::Glsl => 2,
            CompileTarget::GlslVulkanDeprecated => 3,
            CompileTarget::GlslVulkanOneDescDeprecated => 4,
            CompileTarget::Hlsl => 5,
            CompileTarget::Spirv => 6,
            CompileTarget::SpirvAsm => 7,
            CompileTarget::Dxbc => 8,
            CompileTarget::DxbcAsm => 9,
            CompileTarget::Dxil => 10,
            CompileTarget::DxilAsm => 11,
            CompileTarget::CSource => 12,
            CompileTarget::CppSource => 13,
            CompileTarget::HostExecutable => 14,
            CompileTarget::ShaderSharedLibrary => 15,
            CompileTarget::ShaderHostCallable => 16,
            CompileTarget::CudaSource => 17,
            CompileTarget::Ptx => 18,
            CompileTarget::CudaObjectCode => 19,
            CompileTarget::ObjectCode => 20,
            CompileTarget::HostCppSource => 21,
            CompileTarget::HostHostCallable => 22,
            CompileTarget::CppPytorchBinding => 23,
            CompileTarget::Metal => 24,
            CompileTarget::MetalLib => 25,
            CompileTarget::MetalLibAsm => 26,
            CompileTarget::HostSharedLibrary => 27,
            CompileTarget::Wgsl => 28,
            CompileTarget::WgslSpirvAsm => 29,
            CompileTarget::WgslSpirv => 30,
            CompileTarget::HostVm => 31,
            CompileTarget::CppHeader => 32,
            CompileTarget::CudaHeader => 33,
            CompileTarget::HostObjectCode => 34,
            CompileTarget::HostLlvmIr => 35,
            CompileTarget::ShaderLlvmIr => 36,
        }
    }

    /// The value that the Slang API gives this target.
    pub fn to_raw(self) -> (r: i32)
        ensures
            r == self.raw_value(),
    {
        match self {
            CompileTarget::Unknown => 0,
            CompileTarget::NoTarget => 1,
            CompileTarget::Glsl => 2,
            CompileTarget::GlslVulkanDeprecated => 3,
            CompileTarget::GlslVulkanOneDescDeprecated => 4,
            CompileTarget::Hlsl => 5,
            CompileTarget::Spirv => 6,
            CompileTarget::SpirvAsm => 7,
            CompileTarget::Dxbc => 8,
            CompileTarget::DxbcAsm => 9,
            CompileTarget::Dxil => 10,
            CompileTarget::DxilAsm => 11,
            CompileTarget::CSource => 12,
            CompileTarget::CppSource => 13,
            CompileTarget::HostExecutable => 14,
            CompileTarget::ShaderSharedLibrary => 15,
            CompileTarget::ShaderHostCallable => 16,
            CompileTarget::CudaSource => 17,
            CompileTarget::Ptx => 18,
            CompileTarget::CudaObjectCode => 19,
            CompileTarget::ObjectCode => 20,
            CompileTarget::HostCppSource => 21,
            CompileTarget::HostHostCallable => 22,
            CompileTarget::CppPytorchBinding => 23,
            CompileTarget::Metal => 24,
            CompileTarget::MetalLib => 25,
            CompileTarget::MetalLibAsm => 26,
            CompileTarget::HostSharedLibrary => 27,
            CompileTarget::Wgsl => 28,
            CompileTarget::WgslSpirvAsm => 29,
            CompileTarget::WgslSpirv => 30,
            CompileTarget::HostVm => 31,
            CompileTarget::CppHeader => 32,
            CompileTarget::CudaHeader => 33,
            CompileTarget::HostObjectCode => 34,
            CompileTarget::HostLlvmIr => 35,
            CompileTarget::ShaderLlvmIr => 36,
        }
    }
}

/// How much debug information the compiler emits.
///
/// The value that the Slang API gives a variant is what `to_raw` returns
/// (see `raw_value`); an `as` cast gives the variant's position in this list
/// instead.
#[derive(Debug, Clone, Copy, PartialEq, Eq, Structural, PartialOrd, Ord, Hash)]
#[non_exhaustive]
pub enum DebugInfoLevel {
    /// Don't emit debug information at all.
    NoDebugInfo,

    /// Emit as little debug information as possible, while still supporting stack trackers.
    Minimal,

    /// Emit whatever is the standard level of debug information for each target.
    Standard,

    /// Emit as much debug information as possible for each target.
    Maximal,
}

impl DebugInfoLevel {
    /// The value that the Slang API gives this level.
    pub open spec fn raw_value(self) -> u32 {
        match self {
            DebugInfoLevel::NoDebugInfo => 0,
            DebugInfoLevel::Minimal => 1,
            DebugInfoLevel::Standard => 2,
            DebugInfoLevel::Maximal => 3,
        }
    }

    /// The value that the Slang API gives this level.
    pub fn to_raw(self) -> (r: u32)
        ensures
            r == self.raw_value(),
    {
        match self {
            DebugInfoLevel::NoDebugInfo => 0,
            DebugInfoLevel::Minimal => 1,
            DebugInfoLevel::Standard => 2,
            DebugInfoLevel::Maximal => 3,
        }
    }
}

/// How hard the compiler optimizes.
///
/// The value that the Slang API gives a variant is what `to_raw` returns
/// (see `raw_value`); an `as` cast gives the variant's position in this list
/// instead.
#[derive(Debug, Clone, Copy, PartialEq, Eq, Structural, PartialOrd, Ord, Hash)]
#[non_exhaustive]
pub enum OptimizationLevel {
    /// Don't optimize at all.
    NoOptimization,

    /// Default optimization level: balance code quality and compilation time.
    Default,

    /// Optimize aggressively.
    High,

    /// Include optimizations that may take a very long time, or may involve severe space-vs-speed tradeoffs
    Maximal,
}

impl OptimizationLevel {
    /// The value that the Slang API gives this level.
    pub open spec fn raw_value(self) -> u32 {
        match self {
            OptimizationLevel::NoOptimization => 0,
            OptimizationLevel::Default => 1,
            OptimizationLevel::High => 2,
            OptimizationLevel::Maximal => 3,
        }
    }

    /// The value that the Slang API gives this level.
    pub fn to_raw(self) -> (r: u32)
        ensures
            r == self.raw_value(),
    {
        match self {
            OptimizationLevel::NoOptimization => 0,
            OptimizationLevel::Default => 1,
            OptimizationLevel::High => 2,
            OptimizationLevel::Maximal => 3,
        }
    }
}

/// The kind of a declaration in the reflection of a module.
///
/// The value that the Slang API gives a variant is what `to_raw` returns
/// (see `raw_value`); an `as` cast gives the variant's position in this list
/// instead.
#[derive(Debug, Clone, Copy, PartialEq, Eq, Structural, PartialOrd, Ord, Hash)]
#[non_exhaustive]
pub enum DeclKind {
    UnsupportedForReflection,
    Struct,
    Func,
    Module,
    Generic,
    Variable,
    Namespace,
    Enum,
}

impl DeclKind {
    /// The value that the Slang API gives this kind.
    pub open spec fn raw_value(self) -> u32 {
        match self {
            DeclKind::UnsupportedForReflection => 0,
            DeclKind::Struct => 1,
            DeclKind::Func => 2,
            DeclKind::Module => 3,
            DeclKind::Generic => 4,
            DeclKind::Variable => 5,
            DeclKind::Namespace => 6,
            DeclKind::Enum => 7,
        }
    }

    /// The value that the Slang API gives this kind.
    pub fn to_raw(self) -> (r: u32)
        ensures
            r == self.raw_value(),
    {
        match self {
            DeclKind::UnsupportedForReflection => 0,
            DeclKind::Struct => 1,
            DeclKind::Func => 2,
            DeclKind::Module => 3,
            DeclKind::Generic => 4,
            DeclKind::Variable => 5,
            DeclKind::Namespace => 6,
            DeclKind::Enum => 7,
        }
    }

    /// Whether the Slang API value `raw` stands for a kind.
    pub open spec fn is_raw(raw: u32) -> bool {
        raw <= 7
    }

    /// The kind that the Slang API value `raw` stands for.
    pub fn from_raw(raw: u32) -> (r: Self)
        requires
            Self::is_raw(raw),
        ensures
            r.raw_value() == raw,
    {
        match raw {
            0 => DeclKind::UnsupportedForReflection,
            1 => DeclKind::Struct,
            2 => DeclKind::Func,
            3 => DeclKind::Module,
            4 => DeclKind::Generic,
            5 => DeclKind::Variable,
            6 => DeclKind::Namespace,
            7 => DeclKind::Enum,
            _ => {
                assert(false);
                DeclKind::UnsupportedForReflection
            },
        }
    }

    /// Law: the value of every kind is accepted by `from_raw`, and no two kinds share
    /// a value, so `from_raw(x.to_raw()) == x` for every kind `x`.
    pub proof fn lemma_raw_round_trip(x: Self)
        ensures
            Self::is_raw(x.raw_value()),
            forall|y: Self| #![auto] y.raw_value() == x.raw_value() ==> y == x,
    {
    }
}

/// Option to control floating-point precision guarantees for a target
///
/// The value that the Slang API gives a variant is what `to_raw` returns
/// (see `raw_value`); an `as` cast gives the variant's position in this list
/// instead.
#[derive(Debug, Clone, Copy, PartialEq, Eq, Structural, PartialOrd, Ord, Hash)]
#[non_exhaustive]
pub enum FloatingPointMode {
    Default,
    Fast,
    Precise,
}

impl FloatingPointMode {
    /// The value that the Slang API gives this mode.
    pub open spec fn raw_value(self) -> u32 {
        match self {
            FloatingPointMode::Default => 0,
            FloatingPointMode::Fast => 1,
            FloatingPointMode::Precise => 2,
        }
    }

    /// The value that the Slang API gives this mode.
    pub fn to_raw(self) -> (r: u32)
        ensures
            r == self.raw_value(),
    {
        match self {
            FloatingPointMode::Default => 0,
            FloatingPointMode::Fast => 1,
            FloatingPointMode::Precise => 2,
        }
    }
}

/// The format of the texels of an image.
///
/// The value that the Slang API gives a variant is what `to_raw` returns
/// (see `raw_value`); an `as` cast gives the variant's position in this list
/// instead.
#[derive(Debug, Clone, Copy, PartialEq, Eq, Structural, PartialOrd, Ord, Hash)]
#[non_exhaustive]
pub enum ImageFormat {
    Unknown,
    Rgba32f,
    Rgba16f,
    Rg32f,
    Rg16f,
    R11fG11fB10f,
    R32f,
    R16f,
    Rgba16,
    Rgb10A2,
    Rgba8,
    Rg16,
    Rg8,
    R16,
    R8,
    Rgba16Snorm,
    Rgba8Snorm,
    Rg16Snorm,
    Rg8Snorm,
    R16Snorm,
    R8Snorm,
    Rgba32i,
    Rgba16i,
    Rgba8i,
    Rg32i,
    Rg16i,
    Rg8i,
    R32i,
    R16i,
    R8i,
    Rgba32ui,
    Rgba16ui,
    Rgb10A2ui,
    Rgba8ui,
    Rg32ui,
    Rg16ui,
    Rg8ui,
    R32ui,
    R16ui,
    R8ui,
    R64ui,
    R64i,
    Bgra8,
}

impl ImageFormat {
    /// The value that the Slang API gives this format.
    pub open spec fn raw_value(self) -> u32 {
        match self {
            ImageFormat::Unknown => 0,
            ImageFormat::Rgba32f => 1,
            ImageFormat::Rgba16f => 2,
            ImageFormat::Rg32f => 3,
            ImageFormat::Rg16f => 4,
            ImageFormat::R11fG11fB10f => 5,
            ImageFormat::R32f => 6,
            ImageFormat::R16f => 7,
            ImageFormat::Rgba16 => 8,
            ImageFormat::Rgb10A2 => 9,
            ImageFormat::Rgba8 => 10,
            ImageFormat::Rg16 => 11,
            ImageFormat::Rg8 => 12,
            ImageFormat::R16 => 13,
            ImageFormat::R8 => 14,
            ImageFormat::Rgba16Snorm => 15,
            ImageFormat::Rgba8Snorm => 16,
            ImageFormat::Rg16Snorm => 17,
            ImageFormat::Rg8Snorm => 18,
            ImageFormat::R16Snorm => 19,
            ImageFormat::R8Snorm => 20,
            ImageFormat::Rgba32i => 21,
            ImageFormat::Rgba16i => 22,
            ImageFormat::Rgba8i => 23,
            ImageFormat::Rg32i => 24,
            ImageFormat::Rg16i => 25,
            ImageFormat::Rg8i => 26,
            ImageFormat::R32i => 27,
            ImageFormat::R16i => 28,
            ImageFormat::R8i => 29,
            ImageFormat::Rgba32ui => 30,
            ImageFormat::Rgba16ui => 31,
            ImageFormat::Rgb10A2ui => 32,
            ImageFormat::Rgba8ui => 33,
            ImageFormat::Rg32ui => 34,
            ImageFormat::Rg16ui => 35,
            ImageFormat::Rg8ui => 36,
            ImageFormat::R32ui => 37,
            ImageFormat::R16ui => 38,
            ImageFormat::R8ui => 39,
            ImageFormat::R64ui => 40,
            ImageFormat::R64i => 41,
            ImageFormat::Bgra8 => 42,
        }
    }

    /// The value that the Slang API gives this format.
    pub fn to_raw(self) -> (r: u32)
        ensures
            r == self.raw_value(),
    {
        match self {
            ImageFormat::Unknown => 0,
            ImageFormat::Rgba32f => 1,
            ImageFormat::Rgba16f => 2,
            ImageFormat::Rg32f => 3,
            ImageFormat::Rg16f => 4,
            ImageFormat::R11fG11fB10f => 5,
            ImageFormat::R32f => 6,
            ImageFormat::R16f => 7,
            ImageFormat::Rgba16 => 8,
            ImageFormat::Rgb10A2 => 9,
            ImageFormat::Rgba8 => 10,
            ImageFormat::Rg16 => 11,
            ImageFormat::Rg8 => 12,
            ImageFormat::R16 => 13,
            ImageFormat::R8 => 14,
            ImageFormat::Rgba16Snorm => 15,
            ImageFormat::Rgba8Snorm => 16,
            ImageFormat::Rg16Snorm => 17,
            ImageFormat::Rg8Snorm => 18,
            ImageFormat::R16Snorm => 19,
            ImageFormat::R8Snorm => 20,
            ImageFormat::Rgba32i => 21,
            ImageFormat::Rgba16i => 22,
            ImageFormat::Rgba8i => 23,
            ImageFormat::Rg32i => 24,
            ImageFormat::Rg16i => 25,
            ImageFormat::Rg8i => 26,
            ImageFormat::R32i => 27,
            ImageFormat::R16i => 28,
            ImageFormat::R8i => 29,
            ImageFormat::Rgba32ui => 30,
            ImageFormat::Rgba16ui => 31,
            ImageFormat::Rgb10A2ui => 32,
            ImageFormat::Rgba8ui => 33,
            ImageFormat::Rg32ui => 34,
            ImageFormat::Rg16ui => 35,
            ImageFormat::Rg8ui => 36,
            ImageFormat::R32ui => 37,
            ImageFormat::R16ui => 38,
            ImageFormat::R8ui => 39,
            ImageFormat::R64ui => 40,
            ImageFormat::R64i => 41,
            ImageFormat::Bgra8 => 42,
        }
    }

    /// Whether the Slang API value `raw` stands for a format.
    pub open spec fn is_raw(raw: u32) -> bool {
        raw <= 42
    }

    /// The format that the Slang API value `raw` stands for.
    pub fn from_raw(raw: u32) -> (r: Self)
        requires
            Self::is_raw(raw),
        ensures
            r.raw_value() == raw,
    {
        match raw {
            0 => ImageFormat::Unknown,
            1 => ImageFormat::Rgba32f,
            2 => ImageFormat::Rgba16f,
            3 => ImageFormat::Rg32f,
            4 => ImageFormat::Rg16f,
            5 => ImageFormat::R11fG11fB10f,
            6 => ImageFormat::R32f,
            7 => ImageFormat::R16f,
            8 => ImageFormat::Rgba16,
            9 => ImageFormat::Rgb10A2,
            10 => ImageFormat::Rgba8,
            11 => ImageFormat::Rg16,
            12 => ImageFormat::Rg8,
            13 => ImageFormat::R16,
            14 => ImageFormat::R8,
            15 => ImageFormat::Rgba16Snorm,
            16 => ImageFormat::Rgba8Snorm,
            17 => ImageFormat::Rg16Snorm,
            18 => ImageFormat::Rg8Snorm,
            19 => ImageFormat::R16Snorm,
            20 => ImageFormat::R8Snorm,
            21 => ImageFormat::Rgba32i,
            22 => ImageFormat::Rgba16i,
            23 => ImageFormat::Rgba8i,
            24 => ImageFormat::Rg32i,
            25 => ImageFormat::Rg16i,
            26 => ImageFormat::Rg8i,
            27 => ImageFormat::R32i,
            28 => ImageFormat::R16i,
            29 => ImageFormat::R8i,
            30 => ImageFormat::Rgba32ui,
            31 => ImageFormat::Rgba16ui,
            32 => ImageFormat::Rgb10A2ui,
            33 => ImageFormat::Rgba8ui,
            34 => ImageFormat::Rg32ui,
            35 => ImageFormat::Rg16ui,
            36 => ImageFormat::Rg8ui,
            37 => ImageFormat::R32ui,
            38 => ImageFormat::R16ui,
            39 => ImageFormat::R8ui,
            40 => ImageFormat::R64ui,
            41 => ImageFormat::R64i,
            42 => ImageFormat::Bgra8,
            _ => {
                assert(false);
                ImageFormat::Unknown
            },
        }
    }

    /// Law: the value of every format is accepted by `from_raw`, and no two formats share
    /// a value, so `from_raw(x.to_raw()) == x` for every format `x`.
    pub proof fn lemma_raw_round_trip(x: Self)
        ensures
            Self::is_raw(x.raw_value()),
            forall|y: Self| #![auto] y.raw_value() == x.raw_value() ==> y == x,
    {
    }
}

/// The rules by which the compiler lays out data in memory.
///
/// The value that the Slang API gives a variant is what `to_raw` returns
/// (see `raw_value`); an `as` cast gives the variant's position in this list
/// instead.
#[derive(Debug, Clone, Copy, PartialEq, Eq, Structural, PartialOrd, Ord, Hash)]
#[non_exhaustive]
pub enum LayoutRules {
    Default,
    MetalArgumentBufferTier2,
    DefaultStructuredBuffer,
    DefaultConstantBuffer,
}

impl LayoutRules {
    /// The value that the Slang API gives this rules.
    pub open spec fn raw_value(self) -> u32 {
        match self {
            LayoutRules::Default => 0,
            LayoutRules::MetalArgumentBufferTier2 => 1,
            LayoutRules::DefaultStructuredBuffer => 2,
            LayoutRules::DefaultConstantBuffer => 3,
        }
    }

    /// The value that the Slang API gives this rules.
    pub fn to_raw(self) -> (r: u32)
        ensures
            r == self.raw_value(),
    {
        match self {
            LayoutRules::Default => 0,
            LayoutRules::MetalArgumentBufferTier2 => 1,
            LayoutRules::DefaultStructuredBuffer => 2,
            LayoutRules::DefaultConstantBuffer => 3,
        }
    }
}

/// Types of API-managed bindings that a parameter might use.
///
/// `BindingType` represents the distinct types of binding ranges that might be
/// understood by an underlying graphics API or cross-API abstraction layer.
/// Several of the enumeration cases here correspond to cases of `VkDescriptorType`
/// defined by the Vulkan API. Note however that the values of this enumeration
/// are not the same as those of any particular API.
///
/// The `BindingType` enumeration is distinct from `ParameterCategory`
/// because `ParameterCategory` differentiates the types of parameters for
/// the purposes of layout, where the layout rules of some targets will treat
/// parameters of different types as occupying the same binding space for layout
/// (e.g., in SPIR-V both a `Texture2D` and `SamplerState` use the same space of
/// `binding` indices, and are not allowed to overlap), while those same types
/// map to different types of bindings in the API (e.g., both textures and samplers
/// use different `VkDescriptorType` values).
///
/// When you want to answer "what register/binding did this parameter use?" you
/// should use `ParameterCategory`.
///
/// When you want to answer "what type of descriptor range should this parameter use?"
/// you should use `BindingType`.
///
/// The value that the Slang API gives a variant is what `to_raw` returns
/// (see `raw_value`); an `as` cast gives the variant's position in this list
/// instead.
#[derive(Debug, Clone, Copy, PartialEq, Eq, Structural, PartialOrd, Ord, Hash)]
#[non_exhaustive]
pub enum BindingType {
    Unknown,
    Sampler,
    Texture,
    ConstantBuffer,
    ParameterBlock,
    TypedBuffer,
    RawBuffer,
    CombinedTextureSampler,
    InputRenderTarget,
    InlineUniformData,
    RayTracingAccelerationStructure,
    VaryingInput,
    VaryingOutput,
    ExistentialValue,
    PushConstant,

    /// A texture with the mutable flag (`0x100`) set.
    MutableTexture,

    /// A typed buffer with the mutable flag (`0x100`) set.
    MutableTypedBuffer,

    /// A raw buffer with the mutable flag (`0x100`) set.
    MutableRawBuffer,
}

impl BindingType {
    /// The value that the Slang API gives this type.
    pub open spec fn raw_value(self) -> u32 {
        match self {
            BindingType::Unknown => 0,
            BindingType::Sampler => 1,
            BindingType::Texture => 2,
            BindingType::ConstantBuffer => 3,
            BindingType::ParameterBlock => 4,
            BindingType::TypedBuffer => 5,
            BindingType::RawBuffer => 6,
            BindingType::CombinedTextureSampler => 7,
            BindingType::InputRenderTarget => 8,
            BindingType::InlineUniformData => 9,
            BindingType::RayTracingAccelerationStructure => 10,
            BindingType::VaryingInput => 11,
            BindingType::VaryingOutput => 12,
            BindingType::ExistentialValue => 13,
            BindingType::PushConstant => 14,
            BindingType::MutableTexture => 0x102,
            BindingType::MutableTypedBuffer => 0x105,
            BindingType::MutableRawBuffer => 0x106,
        }
    }

    /// The value that the Slang API gives this type.
    pub fn to_raw(self) -> (r: u32)
        ensures
            r == self.raw_value(),
    {
        match self {
            BindingType::Unknown => 0,
            BindingType::Sampler => 1,
            BindingType::Texture => 2,
            BindingType::ConstantBuffer => 3,
            BindingType::ParameterBlock => 4,
            BindingType::TypedBuffer => 5,
            BindingType::RawBuffer => 6,
            BindingType::CombinedTextureSampler => 7,
            BindingType::InputRenderTarget => 8,
            BindingType::InlineUniformData => 9,
            BindingType::RayTracingAccelerationStructure => 10,
            BindingType::VaryingInput => 11,
            BindingType::VaryingOutput => 12,
            BindingType::ExistentialValue => 13,
            BindingType::PushConstant => 14,
            BindingType::MutableTexture => 0x102,
            BindingType::MutableTypedBuffer => 0x105,
            BindingType::MutableRawBuffer => 0x106,
        }
    }

    /// Whether the Slang API value `raw` stands for a type.
    pub open spec fn is_raw(raw: u32) -> bool {
        raw <= 14 || raw == 0x102 || raw == 0x105 || raw == 0x106
    }

    /// The type that the Slang API value `raw` stands for.
    pub fn from_raw(raw: u32) -> (r: Self)
        requires
            Self::is_raw(raw),
        ensures
            r.raw_value() == raw,
    {
        match raw {
            0 => BindingType::Unknown,
            1 => BindingType::Sampler,
            2 => BindingType::Texture,
            3 => BindingType::ConstantBuffer,
            4 => BindingType::ParameterBlock,
            5 => BindingType::TypedBuffer,
            6 => BindingType::RawBuffer,
            7 => BindingType::CombinedTextureSampler,
            8 => BindingType::InputRenderTarget,
            9 => BindingType::InlineUniformData,
            10 => BindingType::RayTracingAccelerationStructure,
            11 => BindingType::VaryingInput,
            12 => BindingType::VaryingOutput,
            13 => BindingType::ExistentialValue,
            14 => BindingType::PushConstant,
            0x102 => BindingType::MutableTexture,
            0x105 => BindingType::MutableTypedBuffer,
            0x106 => BindingType::MutableRawBuffer,
            _ => {
                assert(false);
                BindingType::Unknown
            },
        }
    }

    /// Law: the value of every type is accepted by `from_raw`, and no two types share
    /// a value, so `from_raw(x.to_raw()) == x` for every type `x`.
    pub proof fn lemma_raw_round_trip(x: Self)
        ensures
            Self::is_raw(x.raw_value()),
            forall|y: Self| #![auto] y.raw_value() == x.raw_value() ==> y == x,
    {
    }
}

/// The kind of resource that a shader parameter consumes, for the purposes of layout.
///
/// The value that the Slang API gives a variant is what `into_raw` returns
/// (see `raw_value`); an `as` cast gives the variant's position in this list
/// instead.
#[derive(Debug, Clone, Copy, PartialEq, Eq, Structural, PartialOrd, Ord, Hash)]
#[non_exhaustive]
pub enum ParameterCategory {
    NoCategory,
    Mixed,
    ConstantBuffer,
    ShaderResource,
    UnorderedAccess,
    VaryingInput,
    VaryingOutput,
    SamplerState,
    Uniform,
    DescriptorTableSlot,
    SpecializationConstant,
    PushConstantBuffer,
    RegisterSpace,
    Generic,
    RayPayload,
    HitAttributes,
    CallablePayload,
    ShaderRecord,
    ExistentialTypeParam,
    ExistentialObjectParam,
    SubElementRegisterSpace,
    Subpass,
    MetalArgumentBufferElement,
    MetalAttribute,
    MetalPayload,

    /// Shares its value with `ConstantBuffer`.
    MetalBuffer,

    /// Shares its value with `ShaderResource`.
    MetalTexture,

    /// Shares its value with `SamplerState`.
    MetalSampler,
}

impl ParameterCategory {
    /// The value that the Slang API gives this category.
    pub open spec fn raw_value(self) -> u32 {
        match self {
            ParameterCategory::NoCategory => 0,
            ParameterCategory::Mixed => 1,
            ParameterCategory::ConstantBuffer => 2,
            ParameterCategory::ShaderResource => 3,
            ParameterCategory::UnorderedAccess => 4,
            ParameterCategory::VaryingInput => 5,
            ParameterCategory::VaryingOutput => 6,
            ParameterCategory::SamplerState => 7,
            ParameterCategory::Uniform => 8,
            ParameterCategory::DescriptorTableSlot => 9,
            ParameterCategory::SpecializationConstant => 10,
            ParameterCategory::PushConstantBuffer => 11,
            ParameterCategory::RegisterSpace => 12,
            ParameterCategory::Generic => 13,
            ParameterCategory::RayPayload => 14,
            ParameterCategory::HitAttributes => 15,
            ParameterCategory::CallablePayload => 16,
            ParameterCategory::ShaderRecord => 17,
            ParameterCategory::ExistentialTypeParam => 18,
            ParameterCategory::ExistentialObjectParam => 19,
            ParameterCategory::SubElementRegisterSpace => 20,
            ParameterCategory::Subpass => 21,
            ParameterCategory::MetalArgumentBufferElement => 22,
            ParameterCategory::MetalAttribute => 23,
            ParameterCategory::MetalPayload => 24,
            ParameterCategory::MetalBuffer => 2,
            ParameterCategory::MetalTexture => 3,
            ParameterCategory::MetalSampler => 7,
        }
    }

    /// The value that the Slang API gives this category.
    pub fn into_raw(self) -> (r: u32)
        ensures
            r == self.raw_value(),
    {
        match self {
            ParameterCategory::NoCategory => 0,
            ParameterCategory::Mixed => 1,
            ParameterCategory::ConstantBuffer => 2,
            ParameterCategory::ShaderResource => 3,
            ParameterCategory::UnorderedAccess => 4,
            ParameterCategory::VaryingInput => 5,
            ParameterCategory::VaryingOutput => 6,
            ParameterCategory::SamplerState => 7,
            ParameterCategory::Uniform => 8,
            ParameterCategory::DescriptorTableSlot => 9,
            ParameterCategory::SpecializationConstant => 10,
            ParameterCategory::PushConstantBuffer => 11,
            ParameterCategory::RegisterSpace => 12,
            ParameterCategory::Generic => 13,
            ParameterCategory::RayPayload => 14,
            ParameterCategory::HitAttributes => 15,
            ParameterCategory::CallablePayload => 16,
            ParameterCategory::ShaderRecord => 17,
            ParameterCategory::ExistentialTypeParam => 18,
            ParameterCategory::ExistentialObjectParam => 19,
            ParameterCategory::SubElementRegisterSpace => 20,
            ParameterCategory::Subpass => 21,
            ParameterCategory::MetalArgumentBufferElement => 22,
            ParameterCategory::MetalAttribute => 23,
            ParameterCategory::MetalPayload => 24,
            ParameterCategory::MetalBuffer => 2,
            ParameterCategory::MetalTexture => 3,
            ParameterCategory::MetalSampler => 7,
        }
    }

    /// Whether the Slang API value `raw` stands for a category.
    pub open spec fn is_raw(raw: u32) -> bool {
        raw <= 24
    }

    /// Whether this category shares its value with an earlier category.
    pub open spec fn is_alias(self) -> bool {
        self is MetalBuffer || self is MetalTexture || self is MetalSampler
    }

    /// The category that the Slang API value `raw` stands for; a value shared by two
    /// categories gives the first of them.
    pub fn from_raw(raw: u32) -> (r: Self)
        requires
            Self::is_raw(raw),
        ensures
            r.raw_value() == raw,
            !r.is_alias(),
    {
        match raw {
            0 => ParameterCategory::NoCategory,
            1 => ParameterCategory::Mixed,
            2 => ParameterCategory::ConstantBuffer,
            3 => ParameterCategory::ShaderResource,
            4 => ParameterCategory::UnorderedAccess,
            5 => ParameterCategory::VaryingInput,
            6 => ParameterCategory::VaryingOutput,
            7 => ParameterCategory::SamplerState,
            8 => ParameterCategory::Uniform,
            9 => ParameterCategory::DescriptorTableSlot,
            10 => ParameterCategory::SpecializationConstant,
            11 => ParameterCategory::PushConstantBuffer,
            12 => ParameterCategory::RegisterSpace,
            13 => ParameterCategory::Generic,
            14 => ParameterCategory::RayPayload,
            15 => ParameterCategory::HitAttributes,
            16 => ParameterCategory::CallablePayload,
            17 => ParameterCategory::ShaderRecord,
            18 => ParameterCategory::ExistentialTypeParam,
            19 => ParameterCategory::ExistentialObjectParam,
            20 => ParameterCategory::SubElementRegisterSpace,
            21 => ParameterCategory::Subpass,
            22 => ParameterCategory::MetalArgumentBufferElement,
            23 => ParameterCategory::MetalAttribute,
            24 => ParameterCategory::MetalPayload,
            _ => {
                assert(false);
                ParameterCategory::NoCategory
            },
        }
    }

    /// Law: the value of every category is accepted by `from_raw`, and a category that
    /// is no alias is the only one of its value that is no alias, so
    /// `from_raw(c.into_raw()) == c` for every such category `c`.
    pub proof fn lemma_raw_round_trip(c: Self)
        ensures
            Self::is_raw(c.raw_value()),
            !c.is_alias() ==> forall|d: Self| #![auto] !d.is_alias() && d.raw_value() == c.raw_value() ==> d == c,
    {
    }
}

/// How a shader may access a resource.
///
/// The value that the Slang API gives a variant is what `to_raw` returns
/// (see `raw_value`); an `as` cast gives the variant's position in this list
/// instead.
#[derive(Debug, Clone, Copy, PartialEq, Eq, Structural, PartialOrd, Ord, Hash)]
#[non_exhaustive]
pub enum ResourceAccess {
    NoAccess,
    Read,
    ReadWrite,
    RasterOrdered,
    Append,
    Consume,
    Write,
    Feedback,
    Unknown,
}

impl ResourceAccess {
    /// The value that the Slang API gives this access.
    pub open spec fn raw_value(self) -> u32 {
        match self {
            ResourceAccess::NoAccess => 0,
            ResourceAccess::Read => 1,
            ResourceAccess::ReadWrite => 2,
            ResourceAccess::RasterOrdered => 3,
            ResourceAccess::Append => 4,
            ResourceAccess::Consume => 5,
            ResourceAccess::Write => 6,
            ResourceAccess::Feedback => 7,
            ResourceAccess::Unknown => 0x7fff_ffff,
        }
    }

    /// The value that the Slang API gives this access.
    pub fn to_raw(self) -> (r: u32)
        ensures
            r == self.raw_value(),
    {
        match self {
            ResourceAccess::NoAccess => 0,
            ResourceAccess::Read => 1,
            ResourceAccess::ReadWrite => 2,
            ResourceAccess::RasterOrdered => 3,
            ResourceAccess::Append => 4,
            ResourceAccess::Consume => 5,
            ResourceAccess::Write => 6,
            ResourceAccess::Feedback => 7,
            ResourceAccess::Unknown => 0x7fff_ffff,
        }
    }

    /// Whether the Slang API value `raw` stands for a access.
    pub open spec fn is_raw(raw: u32) -> bool {
        raw <= 7 || raw == 0x7fff_ffff
    }

    /// The access that the Slang API value `raw` stands for.
    pub fn from_raw(raw: u32) -> (r: Self)
        requires
            Self::is_raw(raw),
        ensures
            r.raw_value() == raw,
    {
        match raw {
            0 => ResourceAccess::NoAccess,
            1 => ResourceAccess::Read,
            2 => ResourceAccess::ReadWrite,
            3 => ResourceAccess::RasterOrdered,
            4 => ResourceAccess::Append,
            5 => ResourceAccess::Consume,
            6 => ResourceAccess::Write,
            7 => ResourceAccess::Feedback,
            0x7fff_ffff => ResourceAccess::Unknown,
            _ => {
                assert(false);
                ResourceAccess::NoAccess
            },
        }
    }

    /// Law: the value of every access is accepted by `from_raw`, and no two accesss share
    /// a value, so `from_raw(x.to_raw()) == x` for every access `x`.
    pub proof fn lemma_raw_round_trip(x: Self)
        ensures
            Self::is_raw(x.raw_value()),
            forall|y: Self| #![auto] y.raw_value() == x.raw_value() ==> y == x,
    {
    }
}

/// The language of a source file.
///
/// The value that the Slang API gives a variant is what `to_raw` returns
/// (see `raw_value`); an `as` cast gives the variant's position in this list
/// instead.
#[derive(Debug, Clone, Copy, PartialEq, Eq, Structural, PartialOrd, Ord, Hash)]
#[non_exhaustive]
pub enum SourceLanguage {
    Unknown,
    Slang,
    Hlsl,
    Glsl,
    C,
    Cpp,
    Cuda,
    Spirv,
    Metal,
    Wgsl,
    Llvm,
}

impl SourceLanguage {
    /// The value that the Slang API gives this language.
    pub open spec fn raw_value(self) -> i32 {
        match self {
            SourceLanguage::Unknown => 0,
            SourceLanguage::Slang => 1,
            SourceLanguage::Hlsl => 2,
            SourceLanguage::Glsl => 3,
            SourceLanguage::C => 4,
            SourceLanguage::Cpp => 5,
            SourceLanguage::Cuda => 6,
            SourceLanguage::Spirv => 7,
            SourceLanguage::Metal => 8,
            SourceLanguage::Wgsl => 9,
            SourceLanguage::Llvm => 10,
        }
    }

    /// The value that the Slang API gives this language.
    pub fn to_raw(self) -> (r: i32)
        ensures
            r == self.raw_value(),
    {
        match self {
            SourceLanguage::Unknown => 0,
            SourceLanguage::Slang => 1,
            SourceLanguage::Hlsl => 2,
            SourceLanguage::Glsl => 3,
            SourceLanguage::C => 4,
            SourceLanguage::Cpp => 5,
            SourceLanguage::Cuda => 6,
            SourceLanguage::Spirv => 7,
            SourceLanguage::Metal => 8,
            SourceLanguage::Wgsl => 9,
            SourceLanguage::Llvm => 10,
        }
    }
}

/// A stage of a graphics or compute pipeline.
///
/// The value that the Slang API gives a variant is what `to_raw` returns
/// (see `raw_value`); an `as` cast gives the variant's position in this list
/// instead.
#[derive(Debug, Clone, Copy, PartialEq, Eq, Structural, PartialOrd, Ord, Hash)]
#[non_exhaustive]
pub enum Stage {
    NoStage,
    Vertex,
    Hull,
    Domain,
    Geometry,
    Fragment,
    Compute,
    RayGeneration,
    Intersection,
    AnyHit,
    ClosestHit,
    Miss,
    Callable,
    Mesh,
    Amplification,
    Dispatch,
}

impl Stage {
    /// Another name for the fragment stage.
    pub const PIXEL: Self = Self::Fragment;

    /// The value that the Slang API gives this stage.
    pub open spec fn raw_value(self) -> u32 {
        match self {
            Stage::NoStage => 0,
            Stage::Vertex => 1,
            Stage::Hull => 2,
            Stage::Domain => 3,
            Stage::Geometry => 4,
            Stage::Fragment => 5,
            Stage::Compute => 6,
            Stage::RayGeneration => 7,
            Stage::Intersection => 8,
            Stage::AnyHit => 9,
            Stage::ClosestHit => 10,
            Stage::Miss => 11,
            Stage::Callable => 12,
            Stage::Mesh => 13,
            Stage::Amplification => 14,
            Stage::Dispatch => 15,
        }
    }

    /// The value that the Slang API gives this stage.
    pub fn to_raw(self) -> (r: u32)
        ensures
            r == self.raw_value(),
    {
        match self {
            Stage::NoStage => 0,
            Stage::Vertex => 1,
            Stage::Hull => 2,
            Stage::Domain => 3,
            Stage::Geometry => 4,
            Stage::Fragment => 5,
            Stage::Compute => 6,
            Stage::RayGeneration => 7,
            Stage::Intersection => 8,
            Stage::AnyHit => 9,
            Stage::ClosestHit => 10,
            Stage::Miss => 11,
            Stage::Callable => 12,
            Stage::Mesh => 13,
            Stage::Amplification => 14,
            Stage::Dispatch => 15,
        }
    }

    /// Whether the Slang API value `raw` stands for a stage.
    pub open spec fn is_raw(raw: u32) -> bool {
        raw <= 15
    }

    /// The stage that the Slang API value `raw` stands for.
    pub fn from_raw(raw: u32) -> (r: Self)
        requires
            Self::is_raw(raw),
        ensures
            r.raw_value() == raw,
    {
        match raw {
            0 => Stage::NoStage,
            1 => Stage::Vertex,
            2 => Stage::Hull,
            3 => Stage::Domain,
            4 => Stage::Geometry,
            5 => Stage::Fragment,
            6 => Stage::Compute,
            7 => Stage::RayGeneration,
            8 => Stage::Intersection,
            9 => Stage::AnyHit,
            10 => Stage::ClosestHit,
            11 => Stage::Miss,
            12 => Stage::Callable,
            13 => Stage::Mesh,
            14 => Stage::Amplification,
            15 => Stage::Dispatch,
            _ => {
                assert(false);
                Stage::NoStage
            },
        }
    }

    /// Law: the value of every stage is accepted by `from_raw`, and no two stages share
    /// a value, so `from_raw(x.to_raw()) == x` for every stage `x`.
    pub proof fn lemma_raw_round_trip(x: Self)
        ensures
            Self::is_raw(x.raw_value()),
            forall|y: Self| #![auto] y.raw_value() == x.raw_value() ==> y == x,
    {
    }
}

/// A modifier that a declaration can carry.
///
/// The value that the Slang API gives a variant is what `to_raw` returns
/// (see `raw_value`); an `as` cast gives the variant's position in this list
/// instead.
#[derive(Debug, Clone, Copy, PartialEq, Eq, Structural, PartialOrd, Ord, Hash)]
#[non_exhaustive]
pub enum ModifierID {
    Shared,
    NoDiff,
    Static,
    Const,
    Export,
    Extern,
    Differentiable,
    Mutating,
    In,
    Out,
    Inout,
}

impl ModifierID {
    /// The value that the Slang API gives this modifier.
    pub open spec fn raw_value(self) -> u32 {
        match self {
            ModifierID::Shared => 0,
            ModifierID::NoDiff => 1,
            ModifierID::Static => 2,
            ModifierID::Const => 3,
            ModifierID::Export => 4,
            ModifierID::Extern => 5,
            ModifierID::Differentiable => 6,
            ModifierID::Mutating => 7,
            ModifierID::In => 8,
            ModifierID::Out => 9,
            ModifierID::Inout => 10,
        }
    }

    /// The value that the Slang API gives this modifier.
    pub fn to_raw(self) -> (r: u32)
        ensures
            r == self.raw_value(),
    {
        match self {
            ModifierID::Shared => 0,
            ModifierID::NoDiff => 1,
            ModifierID::Static => 2,
            ModifierID::Const => 3,
            ModifierID::Export => 4,
            ModifierID::Extern => 5,
            ModifierID::Differentiable => 6,
            ModifierID::Mutating => 7,
            ModifierID::In => 8,
            ModifierID::Out => 9,
            ModifierID::Inout => 10,
        }
    }
}

} // verus!
