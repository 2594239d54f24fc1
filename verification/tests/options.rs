use shader_slang::{
    CapabilityID, CompileTarget, CompilerOptionName, CompilerOptionValueKind, CompilerOptions,
    DebugInfoLevel, FloatingPointMode, LineDirectiveMode, OptimizationLevel, ProfileID,
    SourceLanguage, Stage,
};

#[test]
fn options_are_kept_in_the_order_they_were_added() {
    let options = CompilerOptions::default()
        .macro_define("FOO", "1")
        .include_path("shaders")
        .language(SourceLanguage::Hlsl)
        .matrix_layout_row(true)
        .stage(Stage::Compute)
        .target(CompileTarget::Spirv)
        .optimization(OptimizationLevel::Maximal);
    let e = options.entries();
    assert_eq!(e.len(), 7);

    assert_eq!(e[0].name, CompilerOptionName::MacroDefine);
    assert_eq!(e[0].kind, CompilerOptionValueKind::String);
    assert_eq!(e[0].string_value0.as_deref(), Some("FOO"));
    assert_eq!(e[0].string_value1.as_deref(), Some("1"));
    assert_eq!((e[0].int_value0, e[0].int_value1), (0, 0));

    assert_eq!(e[1].name, CompilerOptionName::Include);
    assert_eq!(e[1].string_value0.as_deref(), Some("shaders"));
    assert_eq!(e[1].string_value1, None);

    assert_eq!(e[2].name, CompilerOptionName::Language);
    assert_eq!(e[2].kind, CompilerOptionValueKind::Int);
    assert_eq!(e[2].int_value0, 2);
    assert_eq!(e[2].string_value0, None);

    assert_eq!(e[3].name, CompilerOptionName::MatrixLayoutRow);
    assert_eq!(e[3].int_value0, 1);
    assert_eq!(e[4].name, CompilerOptionName::Stage);
    assert_eq!(e[4].int_value0, 6);
    assert_eq!(e[5].name, CompilerOptionName::Target);
    assert_eq!(e[5].int_value0, 6);
    assert_eq!(e[6].name, CompilerOptionName::Optimization);
    assert_eq!(e[6].int_value0, 3);
}

#[test]
fn flags_are_passed_as_zero_or_one() {
    let options = CompilerOptions::default()
        .obfuscate(false)
        .emit_spirv_directly(true)
        .no_code_gen(true)
        .validate_uniformity(false);
    let values: Vec<(CompilerOptionName, i32)> =
        options.entries().iter().map(|e| (e.name, e.int_value0)).collect();
    assert_eq!(
        values,
        vec![
            (CompilerOptionName::Obfuscate, 0),
            (CompilerOptionName::EmitSpirvDirectly, 1),
            (CompilerOptionName::NoCodeGen, 1),
            (CompilerOptionName::ValidateUniformity, 0),
        ]
    );
}

#[test]
fn profile_capability_and_modes() {
    let options = CompilerOptions::default()
        .profile(ProfileID(0x8000_0001))
        .capability(CapabilityID(42))
        .floating_point_mode(FloatingPointMode::Fast)
        .debug_information(DebugInfoLevel::Standard)
        .line_directive_mode(LineDirectiveMode::NoDirectives);
    let e = options.entries();
    assert_eq!(e[0].name, CompilerOptionName::Profile);
    assert_eq!(e[0].int_value0, 0x8000_0001u32 as i32);
    assert_eq!(e[1].name, CompilerOptionName::Capability);
    assert_eq!(e[1].int_value0, 42);
    assert_eq!(e[2].int_value0, 1);
    assert_eq!(e[3].int_value0, 2);
    assert_eq!(e[4].int_value0, 1);
}

#[test]
fn warning_options_hold_their_codes() {
    let options = CompilerOptions::default()
        .warnings_as_errors("15205,15206")
        .disable_warnings("39001")
        .enable_warning("15400")
        .disable_warning("30081");
    let names: Vec<CompilerOptionName> = options.entries().iter().map(|e| e.name).collect();
    assert_eq!(
        names,
        vec![
            CompilerOptionName::WarningsAsErrors,
            CompilerOptionName::DisableWarnings,
            CompilerOptionName::EnableWarning,
            CompilerOptionName::DisableWarning,
        ]
    );
    assert_eq!(options.entries()[0].string_value0.as_deref(), Some("15205,15206"));
    assert_eq!(options.entries()[3].string_value0.as_deref(), Some("30081"));
}

#[test]
fn empty_options() {
    assert!(CompilerOptions::default().entries().is_empty());
}
