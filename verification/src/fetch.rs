//! Obtaining the metadata document from the tool.
//!
//! Running the tool is left to the caller. This module decides what is to
//! be run, in which order, and what each outcome means: a fetch begins with
//! [`begin`], the caller runs the liveness check and reports it to
//! [`Probing::proceed`], then runs the metadata request and hands what it
//! captured to [`Requesting::finish`].

use std::path::PathBuf;
use vstd::prelude::*;
use vstd::utf8::{decode_utf8, valid_utf8};
use crate::error::FetchError;
use crate::json::{Json, Tree};
use crate::parse::{parse, parsed};

verus! {

/// `std::path::PathBuf`, opaque to the verifier.
#[verifier::external_type_specification]
#[verifier::external_body]
pub struct ExPathBuf(std::path::PathBuf);

/// `std::string::FromUtf8Error`, opaque to the verifier.
#[verifier::external_type_specification]
#[verifier::external_body]
pub struct ExFromUtf8Error(std::string::FromUtf8Error);

/// `String::from_utf8` gives the string that the bytes encode, and fails
/// exactly where the bytes are not UTF-8.
pub assume_specification[ String::from_utf8 ](bytes: Vec<u8>) -> (result: Result<
    String,
    std::string::FromUtf8Error,
>)
    ensures
        match result {
            Ok(text) => valid_utf8(bytes@) && text@ == decode_utf8(bytes@),
            Err(_) => !valid_utf8(bytes@),
        },
;

/// The program to run as the tool.
#[derive(Debug, PartialEq, Eq)]
pub enum Program {
    /// The executable at this path.
    At(PathBuf),
    /// The tool under its usual name, left to the search path to find.
    Ambient,
}

/// How the liveness check of the tool ended.
#[derive(Debug, Clone, Copy, PartialEq, Eq)]
pub enum ProbeOutcome {
    /// The program could not be run.
    NotRun,
    /// The program ran and exited, successfully or not.
    Exited { success: bool },
}

/// The program that a tool location stands for.
pub open spec fn resolved(tool_location: Option<PathBuf>) -> Program {
    match tool_location {
        Some(path) => Program::At(path),
        None => Program::Ambient,
    }
}

/// The arguments of the metadata request.
pub open spec fn metadata_arguments() -> Seq<Seq<char>> {
    seq!["project"@, "metadata"@, "--json-output"@]
}

/// The document that a tool's output holds.
pub open spec fn decoded(output: Seq<u8>) -> Result<Tree, FetchError> {
    if !valid_utf8(output) {
        Err(FetchError::InvalidEncoding)
    } else {
        match parsed(decode_utf8(output)) {
            Some(tree) => Ok(tree),
            None => Err(FetchError::MalformedMetadata),
        }
    }
}

/// What the metadata request yields: `captured` is the standard output of
/// the request, or `None` where the request could not be run or its output
/// not captured.
pub open spec fn fetched(captured: Option<Vec<u8>>) -> Result<Tree, FetchError> {
    match captured {
        Some(output) => decoded(output@),
        None => Err(FetchError::ProcessFailure),
    }
}

/// The name under which the tool is looked up where no location is given.
pub fn ambient_name() -> (name: &'static str)
    ensures
        name@ == "pio"@,
{
    "pio"
}

/// A fetch that waits for the liveness check: the program is to be run
/// without arguments.
#[derive(Debug)]
pub struct Probing {
    program: Program,
}

/// A fetch that waits for the metadata request: the program is to be run
/// with [`Requesting::arguments`], in the project's directory, and its
/// standard output captured.
#[derive(Debug)]
pub struct Requesting {
    program: Program,
}

/// Begins a fetch with the tool at the given location, or with the tool
/// that the search path finds where none is given.
pub fn begin(tool_location: Option<PathBuf>) -> (probing: Probing)
    ensures
        probing.tool() == resolved(tool_location),
{
    match tool_location {
        Some(path) => Probing { program: Program::At(path) },
        None => Probing { program: Program::Ambient },
    }
}

impl Probing {
    /// The program of this fetch.
    pub closed spec fn tool(self) -> Program {
        self.program
    }

    /// The program to run for the liveness check.
    pub fn program(&self) -> (program: &Program)
        ensures
            *program == self.tool(),
    {
        &self.program
    }

    /// Takes the outcome of the liveness check. The fetch goes on to the
    /// metadata request, with the same program, exactly where the program
    /// ran and exited successfully; otherwise the tool is unavailable.
    pub fn proceed(self, outcome: ProbeOutcome) -> (result: Result<Requesting, FetchError>)
        ensures
            match result {
                Ok(requesting) => outcome == (ProbeOutcome::Exited { success: true }) && requesting.tool()
                    == self.tool(),
                Err(error) => outcome != (ProbeOutcome::Exited { success: true }) && error
                    == FetchError::ToolUnavailable,
            },
    {
        match outcome {
            ProbeOutcome::Exited { success: true } => Ok(Requesting { program: self.program }),
            _ => Err(FetchError::ToolUnavailable),
        }
    }
}

impl Requesting {
    /// The program of this fetch.
    pub closed spec fn tool(self) -> Program {
        self.program
    }

    /// The program to run for the metadata request.
    pub fn program(&self) -> (program: &Program)
        ensures
            *program == self.tool(),
    {
        &self.program
    }

    /// The arguments to run the program with.
    pub fn arguments(&self) -> (arguments: Vec<String>)
        ensures
            arguments@.map_values(|argument: String| argument@) == metadata_arguments(),
    {
        let mut arguments: Vec<String> = Vec::new();
        arguments.push(String::from_str("project"));
        arguments.push(String::from_str("metadata"));
        arguments.push(String::from_str("--json-output"));
        assert(arguments@.map_values(|argument: String| argument@) =~= metadata_arguments());
        arguments
    }

    /// Takes what the metadata request gave and ends the fetch with the
    /// document or with the reason why there is none. The request's exit
    /// status plays no part.
    pub fn finish(self, captured: Option<Vec<u8>>) -> (result: Result<Json, FetchError>)
        ensures
            match result {
                Ok(json) => fetched(captured) == Ok::<Tree, FetchError>(json@),
                Err(error) => fetched(captured) == Err::<Tree, FetchError>(error),
            },
    {
        match captured {
            Some(output) => decode(output),
            None => Err(FetchError::ProcessFailure),
        }
    }
}

/// Decodes the tool's output as UTF-8 and reads the JSON document in it.
pub fn decode(output: Vec<u8>) -> (result: Result<Json, FetchError>)
    ensures
        match result {
            Ok(json) => decoded(output@) == Ok::<Tree, FetchError>(json@),
            Err(error) => decoded(output@) == Err::<Tree, FetchError>(error),
        },
{
    match String::from_utf8(output) {
        Ok(text) => parse(text.as_str()),
        Err(_) => Err(FetchError::InvalidEncoding),
    }
}

} // verus!
