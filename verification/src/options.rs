use vstd::prelude::*;
use crate::enums::{
    CompileTarget, DebugInfoLevel, FloatingPointMode, LineDirectiveMode, OptimizationLevel,
    SourceLanguage, Stage,
};
use crate::ids::{CapabilityID, ProfileID};

verus! {

/// The name of a compiler option that `CompilerOptions` can hold.
#[derive(Debug, Clone, Copy, PartialEq, Eq, Structural, Hash)]
pub enum CompilerOptionName {
    MacroDefine,
    Include,
    Language,
    MatrixLayoutColumn,
    MatrixLayoutRow,
    Profile,
    Stage,
    Target,
    WarningsAsErrors,
    DisableWarnings,
    EnableWarning,
    DisableWarning,
    ReportDownstreamTime,
    ReportPerfBenchmark,
    SkipSPIRVValidation,
    Capability,
    DefaultImageFormatUnknown,
    DisableDynamicDispatch,
    DisableSpecialization,
    FloatingPointMode,
    DebugInformation,
    LineDirectiveMode,
    Optimization,
    Obfuscate,
    VulkanUseEntryPointName,
    GLSLForceScalarLayout,
    EmitSpirvDirectly,
    NoCodeGen,
    NoMangle,
    ValidateUniformity,
}

/// Whether a compiler option carries integers or strings.
#[derive(Debug, Clone, Copy, PartialEq, Eq, Structural, Hash)]
pub enum CompilerOptionValueKind {
    Int,
    String,
}

/// What a compiler option entry holds, with its strings as sequences of characters.
pub struct OptionEntry {
    pub name: CompilerOptionName,
    pub kind: CompilerOptionValueKind,
    pub int_value0: i32,
    pub int_value1: i32,
    pub string_value0: Option<Seq<char>>,
    pub string_value1: Option<Seq<char>>,
}

/// An entry that sets the option `name` to the integers `i0` and `i1`.
pub open spec fn int_entry(name: CompilerOptionName, i0: i32, i1: i32) -> OptionEntry {
    OptionEntry {
        name,
        kind: CompilerOptionValueKind::Int,
        int_value0: i0,
        int_value1: i1,
        string_value0: None,
        string_value1: None,
    }
}

/// An entry that sets the option `name` to the string `s0` and, where there
/// is one, the string `s1`.
pub open spec fn string_entry(name: CompilerOptionName, s0: Seq<char>, s1: Option<Seq<char>>) -> OptionEntry {
    OptionEntry {
        name,
        kind: CompilerOptionValueKind::String,
        int_value0: 0,
        int_value1: 0,
        string_value0: Some(s0),
        string_value1: s1,
    }
}

/// Whether `s` can be handed to the compiler as a C string: it holds no
/// NUL character.
pub open spec fn has_no_nul(s: Seq<char>) -> bool {
    !s.contains('\0')
}

/// The integer that a flag is passed to the compiler as.
pub open spec fn flag_value(enable: bool) -> i32 {
    if enable { 1 } else { 0 }
}

/// Law: a flag goes to the compiler as 1 when it is on and as 0 when it is
/// off, so the two settings of a flag never give the same value.
pub proof fn lemma_flag_values(enable: bool)
    ensures
        flag_value(enable) == 0 || flag_value(enable) == 1,
        flag_value(enable) != 0 <==> enable,
        flag_value(true) != flag_value(false),
{
}

/// Whether an entry holds what its kind says: an integer entry no strings, a
/// string entry zero integers and a first string, and every string no NUL
/// character.
pub open spec fn entry_well_formed(e: OptionEntry) -> bool {
    match e.kind {
        CompilerOptionValueKind::Int => e.string_value0 is None && e.string_value1 is None,
        CompilerOptionValueKind::String => {
            &&& e.int_value0 == 0
            &&& e.int_value1 == 0
            &&& e.string_value0 is Some
            &&& has_no_nul(e.string_value0->0)
            &&& e.string_value1 is Some ==> has_no_nul(e.string_value1->0)
        },
    }
}

/// The characters of an optional string.
pub open spec fn optional_string_view(s: Option<String>) -> Option<Seq<char>> {
    match s {
        Some(s) => Some(s@),
        None => None,
    }
}

/// One compiler option: its name and its value.
pub struct CompilerOptionEntry {
    pub name: CompilerOptionName,
    pub kind: CompilerOptionValueKind,
    pub int_value0: i32,
    pub int_value1: i32,
    pub string_value0: Option<String>,
    pub string_value1: Option<String>,
}

impl View for CompilerOptionEntry {
    type V = OptionEntry;

    open spec fn view(&self) -> OptionEntry {
        OptionEntry {
            name: self.name,
            kind: self.kind,
            int_value0: self.int_value0,
            int_value1: self.int_value1,
            string_value0: optional_string_view(self.string_value0),
            string_value1: optional_string_view(self.string_value1),
        }
    }
}

/// A list of compiler options, in the order in which they were added.
pub struct CompilerOptions {
    options: Vec<CompilerOptionEntry>,
}

impl View for CompilerOptions {
    type V = Seq<OptionEntry>;

    /// The entries, in the order in which they were added.
    closed spec fn view(&self) -> Seq<OptionEntry> {
        self.options@.map_values(|e: CompilerOptionEntry| e@)
    }
}

impl CompilerOptions {
    /// Every entry is well formed.
    #[verifier::type_invariant]
    spec fn entries_well_formed(self) -> bool {
        forall|i: int| 0 <= i < self.options@.len() ==> entry_well_formed(#[trigger] self.options@[i]@)
    }
}

impl Default for CompilerOptions {
    /// The empty list.
    fn default() -> (r: Self)
        ensures
            r@ == Seq::<OptionEntry>::empty(),
    {
        let r = CompilerOptions { options: Vec::new() };
        assert(r@ =~= Seq::<OptionEntry>::empty());
        r
    }
}

impl CompilerOptions {
    /// The entries, in the order in which they were added.
    pub fn entries(&self) -> (r: &[CompilerOptionEntry])
        ensures
            r@.len() == self@.len(),
            forall|i: int| 0 <= i < r@.len() ==> #[trigger] r@[i]@ == self@[i],
            forall|i: int| 0 <= i < r@.len() ==> entry_well_formed(#[trigger] r@[i]@),
    {
        proof {
            use_type_invariant(self);
        }
        self.options.as_slice()
    }

    fn push_ints(self, name: CompilerOptionName, i0: i32, i1: i32) -> (r: Self)
        ensures
            r@ == self@.push(int_entry(name, i0, i1)),
    {
        proof {
            use_type_invariant(&self);
        }
        let entry = CompilerOptionEntry {
            name: name,
            kind: CompilerOptionValueKind::Int,
            int_value0: i0,
            int_value1: i1,
            string_value0: None,
            string_value1: None,
        };
        let mut options = self.options;
        let ghost before = options@;
        options.push(entry);
        assert(options@.map_values(|e: CompilerOptionEntry| e@) =~= before.map_values(
            |e: CompilerOptionEntry| e@,
        ).push(int_entry(name, i0, i1)));
        CompilerOptions { options }
    }

    fn push_strings(self, name: CompilerOptionName, s0: String, s1: Option<String>) -> (r: Self)
        requires
            has_no_nul(s0@),
            s1 is Some ==> has_no_nul(s1->0@),
        ensures
            r@ == self@.push(string_entry(name, s0@, optional_string_view(s1))),
    {
        proof {
            use_type_invariant(&self);
        }
        let ghost entry_view = string_entry(name, s0@, optional_string_view(s1));
        let entry = CompilerOptionEntry {
            name: name,
            kind: CompilerOptionValueKind::String,
            int_value0: 0,
            int_value1: 0,
            string_value0: Some(s0),
            string_value1: s1,
        };
        assert(entry@ == entry_view);
        let mut options = self.options;
        let ghost before = options@;
        options.push(entry);
        assert(options@.map_values(|e: CompilerOptionEntry| e@) =~= before.map_values(
            |e: CompilerOptionEntry| e@,
        ).push(entry_view));
        CompilerOptions { options }
    }

    fn push_str1(self, name: CompilerOptionName, s0: &str) -> (r: Self)
        requires
            has_no_nul(s0@),
        ensures
            r@ == self@.push(string_entry(name, s0@, None)),
    {
        let s0 = s0.to_owned();
        self.push_strings(name, s0, None)
    }

    fn push_str2(self, name: CompilerOptionName, s0: &str, s1: &str) -> (r: Self)
        requires
            has_no_nul(s0@),
            has_no_nul(s1@),
        ensures
            r@ == self@.push(string_entry(name, s0@, Some(s1@))),
    {
        let s0 = s0.to_owned();
        let s1 = s1.to_owned();
        self.push_strings(name, s0, Some(s1))
    }

    /// Defines the preprocessor macro `key` as `value`.
    pub fn macro_define(self, key: &str, value: &str) -> (r: Self)
        requires
            has_no_nul(key@),
            has_no_nul(value@),
        ensures
            r@ == self@.push(string_entry(CompilerOptionName::MacroDefine, key@, Some(value@))),
    {
        self.push_str2(CompilerOptionName::MacroDefine, key, value)
    }

    /// Adds `path` to the directories searched for included files.
    pub fn include_path(self, path: &str) -> (r: Self)
        requires
            has_no_nul(path@),
        ensures
            r@ == self@.push(string_entry(CompilerOptionName::Include, path@, None)),
    {
        self.push_str1(CompilerOptionName::Include, path)
    }

    /// Sets the language of the source files.
    pub fn language(self, language: SourceLanguage) -> (r: Self)
        ensures
            r@ == self@.push(int_entry(CompilerOptionName::Language, language.raw_value(), 0)),
    {
        let v = language.to_raw();
        self.push_ints(CompilerOptionName::Language, v, 0)
    }

    /// Chooses column-major layout for matrices.
    pub fn matrix_layout_column(self, enable: bool) -> (r: Self)
        ensures
            r@ == self@.push(int_entry(CompilerOptionName::MatrixLayoutColumn, flag_value(enable), 0)),
    {
        self.push_ints(CompilerOptionName::MatrixLayoutColumn, if enable { 1 } else { 0 }, 0)
    }

    /// Chooses row-major layout for matrices.
    pub fn matrix_layout_row(self, enable: bool) -> (r: Self)
        ensures
            r@ == self@.push(int_entry(CompilerOptionName::MatrixLayoutRow, flag_value(enable), 0)),
    {
        self.push_ints(CompilerOptionName::MatrixLayoutRow, if enable { 1 } else { 0 }, 0)
    }

    /// Sets the target profile.
    pub fn profile(self, profile: ProfileID) -> (r: Self)
        ensures
            r@ == self@.push(int_entry(CompilerOptionName::Profile, profile.0 as i32, 0)),
    {
        self.push_ints(CompilerOptionName::Profile, profile.0 as i32, 0)
    }

    /// Sets the pipeline stage of the entry points.
    pub fn stage(self, stage: Stage) -> (r: Self)
        ensures
            r@ == self@.push(int_entry(CompilerOptionName::Stage, stage.raw_value() as i32, 0)),
    {
        let v = stage.to_raw() as i32;
        self.push_ints(CompilerOptionName::Stage, v, 0)
    }

    /// Sets the kind of code to produce.
    pub fn target(self, target: CompileTarget) -> (r: Self)
        ensures
            r@ == self@.push(int_entry(CompilerOptionName::Target, target.raw_value(), 0)),
    {
        let v = target.to_raw();
        self.push_ints(CompilerOptionName::Target, v, 0)
    }

    /// Treats the listed warnings as errors.
    pub fn warnings_as_errors(self, warning_codes: &str) -> (r: Self)
        requires
            has_no_nul(warning_codes@),
        ensures
            r@ == self@.push(string_entry(CompilerOptionName::WarningsAsErrors, warning_codes@, None)),
    {
        self.push_str1(CompilerOptionName::WarningsAsErrors, warning_codes)
    }

    /// Disables the listed warnings.
    pub fn disable_warnings(self, warning_codes: &str) -> (r: Self)
        requires
            has_no_nul(warning_codes@),
        ensures
            r@ == self@.push(string_entry(CompilerOptionName::DisableWarnings, warning_codes@, None)),
    {
        self.push_str1(CompilerOptionName::DisableWarnings, warning_codes)
    }

    /// Enables one warning.
    pub fn enable_warning(self, warning_code: &str) -> (r: Self)
        requires
            has_no_nul(warning_code@),
        ensures
            r@ == self@.push(string_entry(CompilerOptionName::EnableWarning, warning_code@, None)),
    {
        self.push_str1(CompilerOptionName::EnableWarning, warning_code)
    }

    /// Disables one warning.
    pub fn disable_warning(self, warning_code: &str) -> (r: Self)
        requires
            has_no_nul(warning_code@),
        ensures
            r@ == self@.push(string_entry(CompilerOptionName::DisableWarning, warning_code@, None)),
    {
        self.push_str1(CompilerOptionName::DisableWarning, warning_code)
    }

    /// Reports the time spent in downstream compilers.
    pub fn report_downstream_time(self, enable: bool) -> (r: Self)
        ensures
            r@ == self@.push(int_entry(CompilerOptionName::ReportDownstreamTime, flag_value(enable), 0)),
    {
        self.push_ints(CompilerOptionName::ReportDownstreamTime, if enable { 1 } else { 0 }, 0)
    }

    /// Reports compiler performance figures.
    pub fn report_perf_benchmark(self, enable: bool) -> (r: Self)
        ensures
            r@ == self@.push(int_entry(CompilerOptionName::ReportPerfBenchmark, flag_value(enable), 0)),
    {
        self.push_ints(CompilerOptionName::ReportPerfBenchmark, if enable { 1 } else { 0 }, 0)
    }

    /// Skips the validation of produced SPIR-V.
    pub fn skip_spirv_validation(self, enable: bool) -> (r: Self)
        ensures
            r@ == self@.push(int_entry(CompilerOptionName::SkipSPIRVValidation, flag_value(enable), 0)),
    {
        self.push_ints(CompilerOptionName::SkipSPIRVValidation, if enable { 1 } else { 0 }, 0)
    }

    /// Adds a capability the target has.
    pub fn capability(self, capability: CapabilityID) -> (r: Self)
        ensures
            r@ == self@.push(int_entry(CompilerOptionName::Capability, capability.0, 0)),
    {
        self.push_ints(CompilerOptionName::Capability, capability.0, 0)
    }

    /// Gives images of no declared format the unknown format.
    pub fn default_image_format_unknown(self, enable: bool) -> (r: Self)
        ensures
            r@ == self@.push(int_entry(CompilerOptionName::DefaultImageFormatUnknown, flag_value(enable), 0)),
    {
        self.push_ints(CompilerOptionName::DefaultImageFormatUnknown, if enable { 1 } else { 0 }, 0)
    }

    /// Disables dynamic dispatch.
    pub fn disable_dynamic_dispatch(self, enable: bool) -> (r: Self)
        ensures
            r@ == self@.push(int_entry(CompilerOptionName::DisableDynamicDispatch, flag_value(enable), 0)),
    {
        self.push_ints(CompilerOptionName::DisableDynamicDispatch, if enable { 1 } else { 0 }, 0)
    }

    /// Disables specialization.
    pub fn disable_specialization(self, enable: bool) -> (r: Self)
        ensures
            r@ == self@.push(int_entry(CompilerOptionName::DisableSpecialization, flag_value(enable), 0)),
    {
        self.push_ints(CompilerOptionName::DisableSpecialization, if enable { 1 } else { 0 }, 0)
    }

    /// Sets the floating-point precision guarantees.
    pub fn floating_point_mode(self, mode: FloatingPointMode) -> (r: Self)
        ensures
            r@ == self@.push(int_entry(CompilerOptionName::FloatingPointMode, mode.raw_value() as i32, 0)),
    {
        let v = mode.to_raw() as i32;
        self.push_ints(CompilerOptionName::FloatingPointMode, v, 0)
    }

    /// Sets how much debug information to emit.
    pub fn debug_information(self, level: DebugInfoLevel) -> (r: Self)
        ensures
            r@ == self@.push(int_entry(CompilerOptionName::DebugInformation, level.raw_value() as i32, 0)),
    {
        let v = level.to_raw() as i32;
        self.push_ints(CompilerOptionName::DebugInformation, v, 0)
    }

    /// Sets how `#line` directives are emitted.
    pub fn line_directive_mode(self, mode: LineDirectiveMode) -> (r: Self)
        ensures
            r@ == self@.push(int_entry(CompilerOptionName::LineDirectiveMode, mode.raw_value() as i32, 0)),
    {
        let v = mode.to_raw() as i32;
        self.push_ints(CompilerOptionName::LineDirectiveMode, v, 0)
    }

    /// Sets the optimization level.
    pub fn optimization(self, level: OptimizationLevel) -> (r: Self)
        ensures
            r@ == self@.push(int_entry(CompilerOptionName::Optimization, level.raw_value() as i32, 0)),
    {
        let v = level.to_raw() as i32;
        self.push_ints(CompilerOptionName::Optimization, v, 0)
    }

    /// Obfuscates the produced code.
    pub fn obfuscate(self, enable: bool) -> (r: Self)
        ensures
            r@ == self@.push(int_entry(CompilerOptionName::Obfuscate, flag_value(enable), 0)),
    {
        self.push_ints(CompilerOptionName::Obfuscate, if enable { 1 } else { 0 }, 0)
    }

    /// Keeps the names of entry points in Vulkan code.
    pub fn vulkan_use_entry_point_name(self, enable: bool) -> (r: Self)
        ensures
            r@ == self@.push(int_entry(CompilerOptionName::VulkanUseEntryPointName, flag_value(enable), 0)),
    {
        self.push_ints(CompilerOptionName::VulkanUseEntryPointName, if enable { 1 } else { 0 }, 0)
    }

    /// Forces scalar layout for GLSL buffers.
    pub fn glsl_force_scalar_layout(self, enable: bool) -> (r: Self)
        ensures
            r@ == self@.push(int_entry(CompilerOptionName::GLSLForceScalarLayout, flag_value(enable), 0)),
    {
        self.push_ints(CompilerOptionName::GLSLForceScalarLayout, if enable { 1 } else { 0 }, 0)
    }

    /// Emits SPIR-V without going through GLSL.
    pub fn emit_spirv_directly(self, enable: bool) -> (r: Self)
        ensures
            r@ == self@.push(int_entry(CompilerOptionName::EmitSpirvDirectly, flag_value(enable), 0)),
    {
        self.push_ints(CompilerOptionName::EmitSpirvDirectly, if enable { 1 } else { 0 }, 0)
    }

    /// Checks the source without producing code.
    pub fn no_code_gen(self, enable: bool) -> (r: Self)
        ensures
            r@ == self@.push(int_entry(CompilerOptionName::NoCodeGen, flag_value(enable), 0)),
    {
        self.push_ints(CompilerOptionName::NoCodeGen, if enable { 1 } else { 0 }, 0)
    }

    /// Keeps the names of declarations unmangled.
    pub fn no_mangle(self, enable: bool) -> (r: Self)
        ensures
            r@ == self@.push(int_entry(CompilerOptionName::NoMangle, flag_value(enable), 0)),
    {
        self.push_ints(CompilerOptionName::NoMangle, if enable { 1 } else { 0 }, 0)
    }

    /// Validates the uniformity of values.
    pub fn validate_uniformity(self, enable: bool) -> (r: Self)
        ensures
            r@ == self@.push(int_entry(CompilerOptionName::ValidateUniformity, flag_value(enable), 0)),
    {
        self.push_ints(CompilerOptionName::ValidateUniformity, if enable { 1 } else { 0 }, 0)
    }
}

} // verus!
