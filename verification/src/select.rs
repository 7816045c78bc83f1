//! Choosing the environment to build.

use vstd::prelude::*;
use crate::error::SelectError;
use crate::json::{Json, Tree};

verus! {

/// The environment that a metadata document selects: the name and the
/// record of its first entry.
pub open spec fn selection(document: Tree) -> Result<(Seq<char>, Tree), SelectError> {
    match document {
        Tree::Object(entries) => if entries.len() == 0 {
            Err(SelectError::NoEnvironment)
        } else {
            Ok(entries[0])
        },
        _ => Err(SelectError::NotAnObject),
    }
}

/// Selects the environment to build: the first one that the document
/// names.
pub fn select(document: Json) -> (result: Result<(String, Json), SelectError>)
    ensures
        match result {
            Ok((name, record)) => selection(document@) == Ok::<(Seq<char>, Tree), SelectError>(
                (name@, record@),
            ),
            Err(error) => selection(document@) == Err::<(Seq<char>, Tree), SelectError>(error),
        },
{
    match document {
        Json::Object(mut entries) => {
            if entries.len() == 0 {
                Err(SelectError::NoEnvironment)
            } else {
                let (name, record) = entries.remove(0);
                Ok((name, record))
            }
        },
        _ => Err(SelectError::NotAnObject),
    }
}

/// A document that is an object with at least one entry selects one of
/// its own entries, and the record selected is the one that the document
/// holds under the name selected.
pub proof fn lemma_selection_is_an_entry(document: Tree)
    requires
        document is Object,
        document->Object_0.len() > 0,
    ensures
        selection(document) matches Ok((name, record)) && document.field(name) == Some(record) && exists|
            i: int,
        |
            0 <= i < document->Object_0.len() && #[trigger] document->Object_0[i] == (name, record),
{
    let entries = document->Object_0;
    let keys = entries.map_values(|e: (Seq<char>, Tree)| e.0);
    assert(keys[0] == entries[0].0);
    keys.index_of_first_ensures(entries[0].0);
}

} // verus!
