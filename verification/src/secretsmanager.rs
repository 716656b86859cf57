//! The secret lookups: a secret's id in, its payload out, as it is or read as JSON.

use vstd::prelude::*;
use crate::args::{decoded_text, required_string, required_text};
use crate::error::{prefixed, prefixed_text, result_view, Error, ErrorView};
use crate::json::{json_parse, parse, parsed_view};
use crate::text::option_text;
use crate::value::{Json, JsonView};

verus! {

/// The name under which the plain secret lookup is called.
pub open spec fn raw_function_name() -> Seq<char> {
    "secretsmanager_get_secret_value"@
}

/// The name under which the secret lookup that reads JSON is called.
pub open spec fn json_function_name() -> Seq<char> {
    "secretsmanager_get_secret_value_json"@
}

/// The name of the one argument of the secret lookups.
pub open spec fn secret_id_key() -> Seq<char> {
    "secret_id"@
}

/// The secret that a call's arguments ask for, or why there is none.
pub open spec fn secret_request(function: Seq<char>, args: Seq<(String, Json)>) -> Result<
    Seq<char>,
    ErrorView,
> {
    required_text(args, function, secret_id_key())
}

/// What retrieving a secret comes to: its payload if it has one, or the provider's failure
/// with the secret's id in front.
pub open spec fn retrieved(
    secret_id: Seq<char>,
    outcome: Result<Option<Seq<char>>, Seq<char>>,
) -> Result<Option<Seq<char>>, ErrorView> {
    match outcome {
        Ok(payload) => Ok(payload),
        Err(cause) => Err(ErrorView::ApiError { cause: prefixed_text(secret_id, cause) }),
    }
}

/// A payload as it is: a string, or null where there is none.
pub open spec fn raw_secret(payload: Option<Seq<char>>) -> JsonView {
    match payload {
        Some(text) => JsonView::String(text),
        None => JsonView::Null,
    }
}

/// What a parsed payload comes to: the parsed value, or the failure that names the secret.
pub open spec fn parsed_secret(secret_id: Seq<char>, parsed: Result<JsonView, Seq<char>>) -> Result<
    JsonView,
    ErrorView,
> {
    match parsed {
        Ok(value) => Ok(value),
        Err(cause) => Err(ErrorView::SecretJsonError { secret_id, cause }),
    }
}

/// A payload read as JSON: null where there is none, else what parsing it comes to.
pub open spec fn json_secret(secret_id: Seq<char>, payload: Option<Seq<char>>) -> Result<
    JsonView,
    ErrorView,
> {
    match payload {
        None => Ok(JsonView::Null),
        Some(text) => parsed_secret(secret_id, json_parse(text)),
    }
}

/// What the plain lookup returns for what came back from the provider.
pub open spec fn raw_response(
    secret_id: Seq<char>,
    outcome: Result<Option<Seq<char>>, Seq<char>>,
) -> Result<JsonView, ErrorView> {
    match retrieved(secret_id, outcome) {
        Ok(payload) => Ok(raw_secret(payload)),
        Err(error) => Err(error),
    }
}

/// What the lookup that reads JSON returns for what came back from the provider.
pub open spec fn json_response(
    secret_id: Seq<char>,
    outcome: Result<Option<Seq<char>>, Seq<char>>,
) -> Result<JsonView, ErrorView> {
    match retrieved(secret_id, outcome) {
        Ok(payload) => json_secret(secret_id, payload),
        Err(error) => Err(error),
    }
}

/// The view of what the provider answered.
pub open spec fn outcome_view(outcome: Result<Option<String>, String>) -> Result<
    Option<Seq<char>>,
    Seq<char>,
> {
    match outcome {
        Ok(payload) => Ok(option_text(payload)),
        Err(cause) => Err(cause@),
    }
}

/// The view of a retrieved payload.
pub open spec fn retrieved_view(retrieved: Result<Option<String>, Error>) -> Result<
    Option<Seq<char>>,
    ErrorView,
> {
    match retrieved {
        Ok(payload) => Ok(option_text(payload)),
        Err(error) => Err(error@),
    }
}

/// Decodes the `secret_id` argument of a call to `function`.
pub fn secret_id_argument(function: &str, args: &Vec<(String, Json)>) -> (secret_id: Result<
    String,
    Error,
>)
    ensures
        decoded_text(secret_id) == secret_request(function@, args@),
{
    required_string(args, function, "secret_id")
}

/// Passes a retrieved payload on, and ties a failure of the provider to the secret.
pub fn map_secret_string(secret_id: &str, outcome: Result<Option<String>, String>) -> (payload:
    Result<Option<String>, Error>)
    ensures
        retrieved_view(payload) == retrieved(secret_id@, outcome_view(outcome)),
{
    match outcome {
        Ok(payload) => Ok(payload),
        Err(cause) => Err(Error::ApiError { cause: prefixed(secret_id, cause.as_str()) }),
    }
}

/// The plain secret lookup, as far as it decides. Retrieving is left to the caller.
#[derive(Clone, Copy, Debug, PartialEq, Eq)]
pub struct GetSecretValue {}

impl GetSecretValue {
    pub fn new() -> Self {
        GetSecretValue {  }
    }

    /// The name under which the function is called.
    pub fn name(&self) -> (name: &'static str)
        ensures
            name@ == raw_function_name(),
    {
        "secretsmanager_get_secret_value"
    }

    /// Decodes the arguments of a call into the id of the secret to retrieve.
    pub fn request(&self, args: &Vec<(String, Json)>) -> (secret_id: Result<String, Error>)
        ensures
            decoded_text(secret_id) == secret_request(raw_function_name(), args@),
    {
        secret_id_argument("secretsmanager_get_secret_value", args)
    }

    /// Shapes a payload: the string, or null where there is none.
    pub fn shape(&self, payload: Option<String>) -> (value: Json)
        ensures
            value@ == raw_secret(option_text(payload)),
    {
        match payload {
            Some(text) => Json::String(text),
            None => Json::Null,
        }
    }

    /// Shapes what came back from the provider for the secret `secret_id`.
    pub fn respond(&self, secret_id: &str, outcome: Result<Option<String>, String>) -> (result:
        Result<Json, Error>)
        ensures
            result_view(result) == raw_response(secret_id@, outcome_view(outcome)),
    {
        match map_secret_string(secret_id, outcome) {
            Ok(payload) => Ok(self.shape(payload)),
            Err(error) => Err(error),
        }
    }
}

/// The secret lookup that reads the payload as JSON, as far as it decides. Retrieving is
/// left to the caller.
#[derive(Clone, Copy, Debug, PartialEq, Eq)]
pub struct GetSecretValueJson {}

impl GetSecretValueJson {
    pub fn new() -> Self {
        GetSecretValueJson {  }
    }

    /// The name under which the function is called.
    pub fn name(&self) -> (name: &'static str)
        ensures
            name@ == json_function_name(),
    {
        "secretsmanager_get_secret_value_json"
    }

    /// Decodes the arguments of a call into the id of the secret to retrieve.
    pub fn request(&self, args: &Vec<(String, Json)>) -> (secret_id: Result<String, Error>)
        ensures
            decoded_text(secret_id) == secret_request(json_function_name(), args@),
    {
        secret_id_argument("secretsmanager_get_secret_value_json", args)
    }

    /// Turns a parsed payload into the call's result: the value, or the failure that names
    /// the secret and carries the parser's message.
    pub fn shape_parsed(&self, secret_id: &str, parsed: Result<Json, String>) -> (result: Result<
        Json,
        Error,
    >)
        ensures
            result_view(result) == parsed_secret(secret_id@, parsed_view(parsed)),
    {
        match parsed {
            Ok(value) => Ok(value),
            Err(cause) => Err(
                Error::SecretJsonError { secret_id: String::from_str(secret_id), cause },
            ),
        }
    }

    /// Shapes a payload: null where there is none, else the payload parsed as JSON.
    pub fn shape(&self, secret_id: &str, payload: Option<String>) -> (result: Result<Json, Error>)
        ensures
            result_view(result) == json_secret(secret_id@, option_text(payload)),
    {
        match payload {
            None => Ok(Json::Null),
            Some(text) => self.shape_parsed(secret_id, parse(text.as_str())),
        }
    }

    /// Shapes what came back from the provider for the secret `secret_id`.
    pub fn respond(&self, secret_id: &str, outcome: Result<Option<String>, String>) -> (result:
        Result<Json, Error>)
        ensures
            result_view(result) == json_response(secret_id@, outcome_view(outcome)),
    {
        match map_secret_string(secret_id, outcome) {
            Ok(payload) => self.shape(secret_id, payload),
            Err(error) => Err(error),
        }
    }
}

} // verus!
