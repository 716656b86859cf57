//! Decoding of the loosely typed arguments of a function call.

use vstd::prelude::*;
use vstd::string::*;
use crate::error::{Error, ErrorView, Expected};
use crate::json::{json_text, render};
use crate::text::strings_view;
use crate::value::{get, lookup, Json, JsonView};

verus! {

/// The string a value is, if it is one.
pub open spec fn as_text(value: JsonView) -> Option<Seq<char>> {
    match value {
        JsonView::String(text) => Some(text),
        _ => None,
    }
}

/// The strings a value lists, if it is an array of strings and of nothing else.
pub open spec fn as_text_list(value: JsonView) -> Option<Seq<Seq<char>>> {
    match value {
        JsonView::Array(items) => if forall|i: int| 0 <= i < items.len() ==> items[i] is String {
            Some(Seq::new(items.len(), |i: int| items[i]->String_0))
        } else {
            None
        },
        _ => None,
    }
}

/// The failure for an argument that is not in the list.
pub open spec fn missing(function: Seq<char>, key: Seq<char>) -> ErrorView {
    ErrorView::ArgMissing { function, key }
}

/// The failure for an argument of the wrong shape: it carries the value as JSON text.
pub open spec fn wrong_type(
    function: Seq<char>,
    key: Seq<char>,
    value: JsonView,
    expected: Expected,
) -> ErrorView {
    ErrorView::ArgWrongType { function, key, received: json_text(value), expected }
}

/// The argument named `key`, which the call to `function` cannot do without.
pub fn require<'a>(args: &'a Vec<(String, Json)>, function: &str, key: &str) -> (found: Result<
    &'a Json,
    Error,
>)
    ensures
        match found {
            Ok(value) => lookup(args@, key@) == Some(*value),
            Err(error) => lookup(args@, key@) is None && error@ == missing(function@, key@),
        },
{
    match get(args, key) {
        Some(value) => Ok(value),
        None => Err(
            Error::ArgMissing { function: String::from_str(function), key: String::from_str(key) },
        ),
    }
}

/// The failure for an argument of the wrong shape, given the value as JSON text.
pub fn wrong_type_error(function: &str, key: &str, received: String, expected: Expected) -> (error:
    Error)
    ensures
        error@ == (ErrorView::ArgWrongType {
            function: function@,
            key: key@,
            received: received@,
            expected,
        }),
{
    Error::ArgWrongType {
        function: String::from_str(function),
        key: String::from_str(key),
        received,
        expected,
    }
}

/// The argument `key` of `function` as a string.
pub fn as_string(value: &Json, function: &str, key: &str) -> (decoded: Result<String, Error>)
    ensures
        match decoded {
            Ok(text) => as_text(value@) == Some(text@),
            Err(error) => as_text(value@) is None && error@ == wrong_type(
                function@,
                key@,
                value@,
                Expected::String,
            ),
        },
{
    match value {
        Json::String(text) => Ok(text.clone()),
        _ => Err(wrong_type_error(function, key, render(value), Expected::String)),
    }
}

/// What decoding a required string argument comes to: the string, or the failure that says
/// why there is none.
pub open spec fn required_text(
    args: Seq<(String, Json)>,
    function: Seq<char>,
    key: Seq<char>,
) -> Result<Seq<char>, ErrorView> {
    match lookup(args, key) {
        None => Err(missing(function, key)),
        Some(value) => match as_text(value@) {
            Some(text) => Ok(text),
            None => Err(wrong_type(function, key, value@, Expected::String)),
        },
    }
}

/// The view of a decoded string argument.
pub open spec fn decoded_text(decoded: Result<String, Error>) -> Result<Seq<char>, ErrorView> {
    match decoded {
        Ok(text) => Ok(text@),
        Err(error) => Err(error@),
    }
}

/// Decodes the string argument `key`, which the call to `function` cannot do without.
pub fn required_string(args: &Vec<(String, Json)>, function: &str, key: &str) -> (decoded: Result<
    String,
    Error,
>)
    ensures
        decoded_text(decoded) == required_text(args@, function@, key@),
{
    match require(args, function, key) {
        Ok(value) => as_string(value, function, key),
        Err(error) => Err(error),
    }
}

/// The argument `key` of `function` as a list of strings.
pub fn as_string_list(value: &Json, function: &str, key: &str) -> (decoded: Result<
    Vec<String>,
    Error,
>)
    ensures
        match decoded {
            Ok(texts) => as_text_list(value@) == Some(strings_view(texts@)),
            Err(error) => as_text_list(value@) is None && error@ == wrong_type(
                function@,
                key@,
                value@,
                Expected::StringList,
            ),
        },
{
    match value {
        Json::Array(items) => {
            let mut texts: Vec<String> = Vec::new();
            let mut i: usize = 0;
            while i < items.len()
                invariant
                    i <= items.len(),
                    texts@.len() == i,
                    value@ is Array,
                    value@->Array_0.len() == items@.len(),
                    forall|k: int| 0 <= k < items@.len() ==> value@->Array_0[k] == items@[k]@,
                    forall|k: int| 0 <= k < i ==> value@->Array_0[k] == JsonView::String(texts@[k]@),
                decreases items.len() - i,
            {
                match &items[i] {
                    Json::String(text) => {
                        texts.push(text.clone());
                    },
                    _ => {
                        assert(!(value@->Array_0[i as int] is String));
                        return Err(wrong_type_error(function, key, render(value), Expected::StringList));
                    },
                }
                i += 1;
            }
            assert(strings_view(texts@) =~= as_text_list(value@).unwrap());
            Ok(texts)
        },
        _ => Err(wrong_type_error(function, key, render(value), Expected::StringList)),
    }
}

} // verus!
