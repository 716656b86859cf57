//! The failures a function call can end in, as typed values, and their text.

use vstd::prelude::*;
use vstd::string::*;
use crate::value::{Json, JsonView};

verus! {

/// The shape an argument was expected to have.
#[derive(Clone, Copy, Debug, PartialEq, Eq)]
pub enum Expected {
    /// A single string.
    String,
    /// An array whose elements are all strings.
    StringList,
}

/// Why a function call failed. Every failure ends the call that produced it.
#[derive(Debug, PartialEq, Eq)]
pub enum Error {
    /// A required argument was not in the argument list.
    ArgMissing { function: String, key: String },
    /// An argument was present but did not have the expected shape;
    /// `received` is the offending value written as JSON.
    ArgWrongType { function: String, key: String, received: String, expected: Expected },
    /// A filter expression did not follow the grammar; `input` is the expression.
    FilterSyntaxError { input: String },
    /// The provider or the transport failed; `cause` is its text.
    ApiError { cause: String },
    /// A secret's payload was asked for as JSON and is not JSON.
    SecretJsonError { secret_id: String, cause: String },
}

/// The mathematical reading of an [`Error`].
pub enum ErrorView {
    ArgMissing { function: Seq<char>, key: Seq<char> },
    ArgWrongType { function: Seq<char>, key: Seq<char>, received: Seq<char>, expected: Expected },
    FilterSyntaxError { input: Seq<char> },
    ApiError { cause: Seq<char> },
    SecretJsonError { secret_id: Seq<char>, cause: Seq<char> },
}

impl View for Error {
    type V = ErrorView;

    open spec fn view(&self) -> ErrorView {
        match *self {
            Error::ArgMissing { function, key } => ErrorView::ArgMissing {
                function: function@,
                key: key@,
            },
            Error::ArgWrongType { function, key, received, expected } => ErrorView::ArgWrongType {
                function: function@,
                key: key@,
                received: received@,
                expected,
            },
            Error::FilterSyntaxError { input } => ErrorView::FilterSyntaxError { input: input@ },
            Error::ApiError { cause } => ErrorView::ApiError { cause: cause@ },
            Error::SecretJsonError { secret_id, cause } => ErrorView::SecretJsonError {
                secret_id: secret_id@,
                cause: cause@,
            },
        }
    }
}

/// The view of a call's result.
pub open spec fn result_view(result: Result<Json, Error>) -> Result<JsonView, ErrorView> {
    match result {
        Ok(value) => Ok(value@),
        Err(error) => Err(error@),
    }
}

/// How an expected shape is named in a message.
pub open spec fn expected_text(expected: Expected) -> Seq<char> {
    match expected {
        Expected::String => "a string"@,
        Expected::StringList => "an array of strings"@,
    }
}

/// `subject`, a colon, a space, and `detail`.
pub open spec fn prefixed_text(subject: Seq<char>, detail: Seq<char>) -> Seq<char> {
    subject + ": "@ + detail
}

/// The text a failure is reported with.
pub open spec fn message_text(error: ErrorView) -> Seq<char> {
    match error {
        ErrorView::ArgMissing { function, key } => "Function `"@ + function
            + "` didn't receive a `"@ + key + "` argument"@,
        ErrorView::ArgWrongType { function, key, received, expected } => "Function `"@ + function
            + "` received "@ + key + "="@ + received + " but `"@ + key + "` can only be "@
            + expected_text(expected),
        ErrorView::FilterSyntaxError { input } =>
            "Function `ec2_describe_tags` received invalid filters="@ + input,
        ErrorView::ApiError { cause } => cause,
        ErrorView::SecretJsonError { secret_id, cause } => prefixed_text(secret_id, cause),
    }
}

/// `subject: detail`, the form in which a failure is tied to the secret it concerns.
pub fn prefixed(subject: &str, detail: &str) -> (text: String)
    ensures
        text@ == prefixed_text(subject@, detail@),
{
    let mut text = String::from_str(subject);
    text.append(": ");
    text.append(detail);
    text
}

impl Expected {
    /// The words that name this shape in a message.
    pub fn text(&self) -> (words: &'static str)
        ensures
            words@ == expected_text(*self),
    {
        match self {
            Expected::String => "a string",
            Expected::StringList => "an array of strings",
        }
    }
}

impl Error {
    /// The text this failure is reported with.
    pub fn message(&self) -> (text: String)
        ensures
            text@ == message_text(self@),
    {
        match self {
            Error::ArgMissing { function, key } => {
                let mut text = String::from_str("Function `");
                text.append(function.as_str());
                text.append("` didn't receive a `");
                text.append(key.as_str());
                text.append("` argument");
                text
            },
            Error::ArgWrongType { function, key, received, expected } => {
                let mut text = String::from_str("Function `");
                text.append(function.as_str());
                text.append("` received ");
                text.append(key.as_str());
                text.append("=");
                text.append(received.as_str());
                text.append(" but `");
                text.append(key.as_str());
                text.append("` can only be ");
                text.append(expected.text());
                text
            },
            Error::FilterSyntaxError { input } => {
                let mut text = String::from_str(
                    "Function `ec2_describe_tags` received invalid filters=",
                );
                text.append(input.as_str());
                text
            },
            Error::ApiError { cause } => cause.clone(),
            Error::SecretJsonError { secret_id, cause } => prefixed(
                secret_id.as_str(),
                cause.as_str(),
            ),
        }
    }
}

} // verus!
