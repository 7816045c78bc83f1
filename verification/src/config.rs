//! The build configuration: a `cc::Build`, and what this crate adds to it.

use vstd::prelude::*;

verus! {

/// `cc::Build`, opaque to the verifier.
#[verifier::external_type_specification]
#[verifier::external_body]
pub struct ExBuild(cc::Build);

/// A compiler flag as a `cc::Build` holds it.
pub enum Flag {
    /// Always handed to the compiler.
    Always(Seq<char>),
    /// Handed to the compiler only if the compiler accepts it.
    IfSupported(Seq<char>),
}

/// The compiler flags that a `cc::Build` holds, in the order they were added.
pub uninterp spec fn flags_of(build: cc::Build) -> Seq<Flag>;

/// The preprocessor definitions that a `cc::Build` holds, in the order they
/// were added: each a name and its value, if it has one.
pub uninterp spec fn definitions_of(build: cc::Build) -> Seq<(Seq<char>, Option<Seq<char>>)>;

/// The include directories that a `cc::Build` holds, in the order they were
/// added.
pub uninterp spec fn include_directories_of(build: cc::Build) -> Seq<Seq<char>>;

/// The compiler executable that a `cc::Build` was told to use, if any.
pub uninterp spec fn compiler_of(build: cc::Build) -> Option<Seq<char>>;

/// The part of a build configuration that this crate changes.
#[verifier::ext_equal]
pub struct Settings {
    pub flags: Seq<Flag>,
    pub definitions: Seq<(Seq<char>, Option<Seq<char>>)>,
    pub include_directories: Seq<Seq<char>>,
    pub compiler: Option<Seq<char>>,
}

impl Settings {
    /// These settings with more flags at the end.
    pub open spec fn with_flags(self, flags: Seq<Flag>) -> Settings {
        Settings { flags: self.flags + flags, ..self }
    }

    /// These settings with more definitions at the end.
    pub open spec fn with_definitions(self, definitions: Seq<(Seq<char>, Option<Seq<char>>)>) -> Settings {
        Settings { definitions: self.definitions + definitions, ..self }
    }

    /// These settings with more include directories at the end.
    pub open spec fn with_include_directories(self, directories: Seq<Seq<char>>) -> Settings {
        Settings { include_directories: self.include_directories + directories, ..self }
    }

    /// These settings with the compiler replaced.
    pub open spec fn with_compiler(self, compiler: Seq<char>) -> Settings {
        Settings { compiler: Some(compiler), ..self }
    }
}

/// The settings that a `cc::Build` holds.
pub open spec fn settings(build: cc::Build) -> Settings {
    Settings {
        flags: flags_of(build),
        definitions: definitions_of(build),
        include_directories: include_directories_of(build),
        compiler: compiler_of(build),
    }
}

/// Calls `cc::Build::flag`, which appends the flag to the builder's flags
/// and touches nothing else.
#[verifier::external_body]
pub(crate) fn add_flag(build: &mut cc::Build, flag: &str)
    ensures
        flags_of(*final(build)) == flags_of(*old(build)).push(Flag::Always(flag@)),
        definitions_of(*final(build)) == definitions_of(*old(build)),
        include_directories_of(*final(build)) == include_directories_of(*old(build)),
        compiler_of(*final(build)) == compiler_of(*old(build)),
{
    build.flag(flag);
}

/// Calls `cc::Build::flag_if_supported`, which appends the flag to the
/// builder's flags, marked as one to keep only if the compiler accepts it,
/// and touches nothing else. Whether the compiler accepts it is tried only
/// when the builder is used.
#[verifier::external_body]
pub(crate) fn add_flag_if_supported(build: &mut cc::Build, flag: &str)
    ensures
        flags_of(*final(build)) == flags_of(*old(build)).push(Flag::IfSupported(flag@)),
        definitions_of(*final(build)) == definitions_of(*old(build)),
        include_directories_of(*final(build)) == include_directories_of(*old(build)),
        compiler_of(*final(build)) == compiler_of(*old(build)),
{
    build.flag_if_supported(flag);
}

/// Calls `cc::Build::define`, which appends the name and the value to the
/// builder's definitions and touches nothing else.
#[verifier::external_body]
pub(crate) fn add_define(build: &mut cc::Build, name: &str, value: Option<&str>)
    ensures
        flags_of(*final(build)) == flags_of(*old(build)),
        definitions_of(*final(build)) == definitions_of(*old(build)).push(
            (
                name@,
                match value {
                    Some(text) => Some(text@),
                    None => None,
                },
            ),
        ),
        include_directories_of(*final(build)) == include_directories_of(*old(build)),
        compiler_of(*final(build)) == compiler_of(*old(build)),
{
    build.define(name, value);
}

/// Calls `cc::Build::includes` with the one directory, which appends it to
/// the builder's include directories and touches nothing else.
#[verifier::external_body]
pub(crate) fn add_include(build: &mut cc::Build, directory: &str)
    ensures
        flags_of(*final(build)) == flags_of(*old(build)),
        definitions_of(*final(build)) == definitions_of(*old(build)),
        include_directories_of(*final(build)) == include_directories_of(*old(build)).push(directory@),
        compiler_of(*final(build)) == compiler_of(*old(build)),
{
    build.includes(Some(directory));
}

/// Calls `cc::Build::compiler`, which replaces the builder's compiler
/// executable and touches nothing else.
#[verifier::external_body]
pub(crate) fn set_compiler(build: &mut cc::Build, path: &str)
    ensures
        flags_of(*final(build)) == flags_of(*old(build)),
        definitions_of(*final(build)) == definitions_of(*old(build)),
        include_directories_of(*final(build)) == include_directories_of(*old(build)),
        compiler_of(*final(build)) == Some(path@),
{
    build.compiler(path);
}

} // verus!
