//! The metadata lookup: a path in, the body found under it out.

use vstd::prelude::*;
use crate::args::{decoded_text, missing, required_string, required_text};
use crate::error::{result_view, Error, ErrorView};
use crate::value::{lookup, Json, JsonView};

verus! {

/// The name under which the metadata lookup is called.
pub open spec fn function_name() -> Seq<char> {
    "imds"@
}

/// The name of the one argument of the metadata lookup.
pub open spec fn path_key() -> Seq<char> {
    "path"@
}

/// The path that a call's arguments ask for, or why there is none.
pub open spec fn path_request(args: Seq<(String, Json)>) -> Result<Seq<char>, ErrorView> {
    required_text(args, function_name(), path_key())
}

/// What the call returns for what came back from the provider: the body as a string,
/// or the provider's failure as it is.
pub open spec fn path_response(outcome: Result<Seq<char>, Seq<char>>) -> Result<
    JsonView,
    ErrorView,
> {
    match outcome {
        Ok(body) => Ok(JsonView::String(body)),
        Err(cause) => Err(ErrorView::ApiError { cause }),
    }
}

/// The view of what the provider answered.
pub open spec fn outcome_view(outcome: Result<String, String>) -> Result<Seq<char>, Seq<char>> {
    match outcome {
        Ok(body) => Ok(body@),
        Err(cause) => Err(cause@),
    }
}

/// A call without a `path` argument fails, and the failure names `path`.
pub proof fn lemma_path_missing(args: Seq<(String, Json)>)
    requires
        lookup(args, path_key()) is None,
    ensures
        path_request(args) == Err::<Seq<char>, ErrorView>(missing(function_name(), path_key())),
{
}

/// The metadata lookup, as far as it decides: which path to fetch, and what to make of
/// the answer. Fetching is left to the caller.
#[derive(Clone, Copy, Debug, PartialEq, Eq)]
pub struct Imds {}

impl Imds {
    pub fn new() -> Self {
        Imds {  }
    }

    /// The name under which the function is called.
    pub fn name(&self) -> (name: &'static str)
        ensures
            name@ == function_name(),
    {
        "imds"
    }

    /// Decodes the arguments of a call into the path to fetch.
    pub fn request(&self, args: &Vec<(String, Json)>) -> (path: Result<String, Error>)
        ensures
            decoded_text(path) == path_request(args@),
    {
        required_string(args, "imds", "path")
    }

    /// Shapes what came back from the provider.
    pub fn respond(&self, outcome: Result<String, String>) -> (result: Result<Json, Error>)
        ensures
            result_view(result) == path_response(outcome_view(outcome)),
    {
        match outcome {
            Ok(body) => Ok(Json::String(body)),
            Err(cause) => Err(Error::ApiError { cause }),
        }
    }
}

} // verus!
