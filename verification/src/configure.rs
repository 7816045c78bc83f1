//! From the metadata to the configured build: select, then translate.

use vstd::prelude::*;
use crate::config::{settings, Settings};
use crate::error::{ConfigureError, SelectError};
use crate::fetch::{decode, decoded};
use crate::json::{Json, Tree};
use crate::select::{select, selection};
use crate::translate::{translate, translation, Language};

verus! {

/// What configuring a build from a metadata document does to the settings,
/// and how it ends: with the name of the environment that was built, or
/// with the reason why none was. A document from which no environment can
/// be selected changes nothing.
pub open spec fn configuration(document: Tree, language: Language, before: Settings) -> (
    Settings,
    Result<Seq<char>, ConfigureError>,
) {
    match selection(document) {
        Err(error) => (before, Err(ConfigureError::Select(error))),
        Ok((name, record)) => {
            let (after, outcome) = translation(record, language, before);
            match outcome {
                Ok(_) => (after, Ok(name)),
                Err(error) => (after, Err(ConfigureError::Translate(error))),
            }
        },
    }
}

/// What configuring a build from the tool's output does to the settings,
/// and how it ends. Output that holds no document changes nothing.
pub open spec fn configuration_from_output(output: Seq<u8>, language: Language, before: Settings) -> (
    Settings,
    Result<Seq<char>, ConfigureError>,
) {
    match decoded(output) {
        Err(error) => (before, Err(ConfigureError::Fetch(error))),
        Ok(document) => configuration(document, language, before),
    }
}

/// The view of an outcome of configuring.
pub open spec fn outcome_view(outcome: Result<String, ConfigureError>) -> Result<
    Seq<char>,
    ConfigureError,
> {
    match outcome {
        Ok(name) => Ok(name@),
        Err(error) => Err(error),
    }
}

/// Configures a build from a metadata document: selects the environment
/// and applies its record. Returns the name of the environment.
pub fn configure(document: Json, language: Language, build: &mut cc::Build) -> (result: Result<
    String,
    ConfigureError,
>)
    ensures
        (settings(*final(build)), outcome_view(result)) == configuration(
            document@,
            language,
            settings(*old(build)),
        ),
{
    match select(document) {
        Err(error) => Err(ConfigureError::Select(error)),
        Ok((name, record)) => match translate(&record, language, build) {
            Ok(_) => Ok(name),
            Err(error) => Err(ConfigureError::Translate(error)),
        },
    }
}

/// Configures a build from the standard output of the tool's metadata
/// request.
pub fn configure_from_output(output: Vec<u8>, language: Language, build: &mut cc::Build) -> (result:
    Result<String, ConfigureError>)
    ensures
        (settings(*final(build)), outcome_view(result)) == configuration_from_output(
            output@,
            language,
            settings(*old(build)),
        ),
{
    match decode(output) {
        Err(error) => Err(ConfigureError::Fetch(error)),
        Ok(document) => configure(document, language, build),
    }
}

/// A document that is not an object is refused as such, and the build
/// stays as it was.
pub proof fn lemma_malformed_document_changes_nothing(document: Tree, language: Language, before: Settings)
    requires
        !(document is Object),
    ensures
        configuration(document, language, before) == (
            before,
            Err::<Seq<char>, ConfigureError>(ConfigureError::Select(SelectError::NotAnObject)),
        ),
{
}

} // verus!
