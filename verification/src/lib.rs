//! Verified core of the Rust bindings for the Slang shader compiler: the
//! enumerations of the Slang API and their numeric encodings, profile and
//! capability identifiers, interface identifiers, resource shape flags,
//! compiler option lists, target and session descriptions, and the rules
//! that turn the compiler's result codes into `Result`s.

pub mod api_values;
pub mod desc;
pub mod enums;
pub mod ids;
pub mod options;
pub mod result;
pub mod shape;
pub mod uuid;

pub use desc::{SessionDesc, TargetDesc};
pub use enums::{
    BindingType, CompileTarget, DebugInfoLevel, DeclKind, FloatingPointMode, ImageFormat,
    LayoutRules, LineDirectiveMode, MatrixLayoutMode, ModifierID, OptimizationLevel,
    ParameterCategory, ResourceAccess, ScalarType, SourceLanguage, Stage, TypeKind,
};
pub use ids::{CapabilityID, ProfileID, CAPABILITY_ID_UNKNOWN_RAW, PROFILE_ID_UNKNOWN_RAW};
pub use options::{
    CompilerOptionEntry, CompilerOptionName, CompilerOptionValueKind, CompilerOptions,
};
pub use result::{
    created_object, location_use_answer, object_or_diagnostics, result_from_blob, succeeded,
    Error,
};
pub use shape::{ResourceShape, RESOURCE_SHAPE_ALL_BITS};
pub use uuid::{uuid, UUID};
