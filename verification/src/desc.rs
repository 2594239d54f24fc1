use vstd::prelude::*;
use crate::enums::CompileTarget;
use crate::ids::ProfileID;
use crate::options::CompilerOptions;

verus! {

/// The description of one target of a compilation session: the kind of code
/// to produce, the profile, and the options that hold for this target alone.
pub struct TargetDesc<'a> {
    /// The `SlangCompileTarget` value of the kind of code to produce.
    pub format: i32,
    /// The `SlangProfileID` value of the target profile.
    pub profile: u32,
    /// The options of the target, where any were given.
    pub options: Option<&'a CompilerOptions>,
}

impl<'a> Default for TargetDesc<'a> {
    /// A description with every field zero: unknown target, unknown profile,
    /// no options.
    fn default() -> (r: Self)
        ensures
            r.format == 0,
            r.profile == 0,
            r.options is None,
    {
        TargetDesc { format: 0, profile: 0, options: None }
    }
}

impl<'a> TargetDesc<'a> {
    /// Sets the kind of code to produce.
    pub fn format(self, format: CompileTarget) -> (r: Self)
        ensures
            r.format == format.raw_value(),
            r.profile == self.profile,
            r.options == self.options,
    {
        TargetDesc { format: format.to_raw(), ..self }
    }

    /// Sets the target profile.
    pub fn profile(self, profile: ProfileID) -> (r: Self)
        ensures
            r.format == self.format,
            r.profile == profile.0,
            r.options == self.options,
    {
        TargetDesc { profile: profile.0, ..self }
    }

    /// Sets the options of the target.
    pub fn options(self, options: &'a CompilerOptions) -> (r: Self)
        ensures
            r.format == self.format,
            r.profile == self.profile,
            r.options == Some(options),
    {
        TargetDesc { options: Some(options), ..self }
    }
}

/// The description of a compilation session: its targets, the directories
/// searched for modules, and the options that hold for the whole session.
pub struct SessionDesc<'a> {
    pub targets: &'a [TargetDesc<'a>],
    pub search_paths: &'a [&'a str],
    pub options: Option<&'a CompilerOptions>,
}

impl<'a> Default for SessionDesc<'a> {
    /// A description with no targets, no search paths and no options.
    fn default() -> (r: Self)
        ensures
            r.targets@.len() == 0,
            r.search_paths@.len() == 0,
            r.options is None,
    {
        SessionDesc { targets: &[], search_paths: &[], options: None }
    }
}

impl<'a> SessionDesc<'a> {
    /// Sets the targets of the session.
    pub fn targets(self, targets: &'a [TargetDesc<'a>]) -> (r: Self)
        ensures
            r.targets == targets,
            r.search_paths == self.search_paths,
            r.options == self.options,
    {
        SessionDesc { targets, ..self }
    }

    /// Sets the directories searched for modules.
    pub fn search_paths(self, paths: &'a [&'a str]) -> (r: Self)
        ensures
            r.targets == self.targets,
            r.search_paths == paths,
            r.options == self.options,
    {
        SessionDesc { search_paths: paths, ..self }
    }

    /// Sets the options of the session.
    pub fn options(self, options: &'a CompilerOptions) -> (r: Self)
        ensures
            r.targets == self.targets,
            r.search_paths == self.search_paths,
            r.options == Some(options),
    {
        SessionDesc { options: Some(options), ..self }
    }
}

} // verus!
