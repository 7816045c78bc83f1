//! The ways in which configuring a build can fail.

use vstd::prelude::*;

verus! {

/// A field of an environment record that the translation reads.
#[derive(Debug, Clone, Copy, PartialEq, Eq, Hash)]
pub enum Field {
    LibsourceDirs,
    Defines,
    Includes,
    CcFlags,
    CxxFlags,
    CcPath,
    CxxPath,
}

impl Field {
    /// The key under which the record holds the field.
    pub open spec fn key(self) -> Seq<char> {
        match self {
            Field::LibsourceDirs => "libsource_dirs"@,
            Field::Defines => "defines"@,
            Field::Includes => "includes"@,
            Field::CcFlags => "cc_flags"@,
            Field::CxxFlags => "cxx_flags"@,
            Field::CcPath => "cc_path"@,
            Field::CxxPath => "cxx_path"@,
        }
    }

    /// The key under which the record holds the field.
    pub fn name(self) -> (name: &'static str)
        ensures
            name@ == self.key(),
    {
        match self {
            Field::LibsourceDirs => "libsource_dirs",
            Field::Defines => "defines",
            Field::Includes => "includes",
            Field::CcFlags => "cc_flags",
            Field::CxxFlags => "cxx_flags",
            Field::CcPath => "cc_path",
            Field::CxxPath => "cxx_path",
        }
    }
}

/// Why the metadata could not be obtained.
#[derive(Debug, Clone, Copy, PartialEq, Eq)]
pub enum FetchError {
    /// The tool could not be run, or its liveness check ended abnormally.
    ToolUnavailable,
    /// The metadata request could not be run or its output not captured.
    ProcessFailure,
    /// The tool's output is not UTF-8.
    InvalidEncoding,
    /// The tool's output is not a JSON document.
    MalformedMetadata,
}

/// Why no environment could be selected.
#[derive(Debug, Clone, Copy, PartialEq, Eq)]
pub enum SelectError {
    /// The document is not an object.
    NotAnObject,
    /// The document is an object without entries.
    NoEnvironment,
}

/// Why an environment record could not be translated.
#[derive(Debug, Clone, Copy, PartialEq, Eq)]
pub enum TranslateError {
    /// The field is missing from the record or has the wrong shape.
    SchemaMismatch { field: Field },
}

/// Why a build could not be configured.
#[derive(Debug, Clone, Copy, PartialEq, Eq)]
pub enum ConfigureError {
    Fetch(FetchError),
    Select(SelectError),
    Translate(TranslateError),
}

} // verus!
