use shader_slang::{CompileTarget, CompilerOptions, ProfileID, SessionDesc, TargetDesc};

#[test]
fn target_description_setters() {
    let options = CompilerOptions::default().no_mangle(true);
    let desc = TargetDesc::default();
    assert_eq!((desc.format, desc.profile), (0, 0));
    assert!(desc.options.is_none());
    let desc = desc.format(CompileTarget::Metal).profile(ProfileID(17)).options(&options);
    assert_eq!(desc.format, 24);
    assert_eq!(desc.profile, 17);
    assert_eq!(desc.options.unwrap().entries().len(), 1);
    let desc = desc.format(CompileTarget::Hlsl);
    assert_eq!(desc.format, 5);
    assert_eq!(desc.profile, 17);
}

#[test]
fn session_description_setters() {
    let options = CompilerOptions::default();
    let targets = [TargetDesc::default().format(CompileTarget::Spirv)];
    let paths = ["shaders", "lib"];
    let desc = SessionDesc::default();
    assert!(desc.targets.is_empty());
    assert!(desc.search_paths.is_empty());
    assert!(desc.options.is_none());
    let desc = desc.targets(&targets).search_paths(&paths).options(&options);
    assert_eq!(desc.targets.len(), 1);
    assert_eq!(desc.targets[0].format, 6);
    assert_eq!(desc.search_paths, &["shaders", "lib"]);
    assert!(desc.options.is_some());
}
