use tera_aws::args::{as_string, as_string_list, require, required_string};
use tera_aws::error::{Error, Expected};
use tera_aws::value::Json;

fn text(s: &str) -> Json {
    Json::String(s.to_string())
}

fn wrong(function: &str, key: &str, received: &str, expected: Expected) -> Error {
    Error::ArgWrongType {
        function: function.to_string(),
        key: key.to_string(),
        received: received.to_string(),
        expected,
    }
}

#[test]
fn require_finds_a_present_argument() {
    let args = vec![("path".to_string(), text("/latest"))];
    assert_eq!(require(&args, "imds", "path"), Ok(&text("/latest")));
}

#[test]
fn require_reports_a_missing_argument() {
    let args = vec![("other".to_string(), text("x"))];
    assert_eq!(
        require(&args, "imds", "path"),
        Err(Error::ArgMissing { function: "imds".to_string(), key: "path".to_string() })
    );
}

#[test]
fn as_string_takes_strings_only() {
    assert_eq!(as_string(&text("abc"), "f", "k"), Ok("abc".to_string()));
    assert_eq!(as_string(&text(""), "f", "k"), Ok(String::new()));
    assert_eq!(as_string(&Json::Null, "f", "k"), Err(wrong("f", "k", "null", Expected::String)));
    assert_eq!(
        as_string(&Json::Bool(true), "f", "k"),
        Err(wrong("f", "k", "true", Expected::String))
    );
    assert_eq!(
        as_string(&Json::Number(serde_json::Number::from(5u64)), "f", "k"),
        Err(wrong("f", "k", "5", Expected::String))
    );
    assert_eq!(
        as_string(&Json::Array(vec![text("a")]), "f", "k"),
        Err(wrong("f", "k", "[\"a\"]", Expected::String))
    );
}

#[test]
fn as_string_list_takes_arrays_of_strings_only() {
    assert_eq!(as_string_list(&Json::Array(vec![]), "f", "k"), Ok(Vec::<String>::new()));
    assert_eq!(
        as_string_list(&Json::Array(vec![text("a"), text(""), text("a")]), "f", "k"),
        Ok(vec!["a".to_string(), String::new(), "a".to_string()])
    );
    assert_eq!(
        as_string_list(&text("a"), "f", "k"),
        Err(wrong("f", "k", "\"a\"", Expected::StringList))
    );
    assert_eq!(
        as_string_list(&Json::Array(vec![text("a"), Json::Null]), "f", "k"),
        Err(wrong("f", "k", "[\"a\",null]", Expected::StringList))
    );
    assert_eq!(
        as_string_list(&Json::Object(vec![("a".to_string(), text("b"))]), "f", "k"),
        Err(wrong("f", "k", "{\"a\":\"b\"}", Expected::StringList))
    );
}

#[test]
fn required_string_decodes_or_says_why_not() {
    let args = vec![("id".to_string(), text("s-1")), ("n".to_string(), Json::Null)];
    assert_eq!(required_string(&args, "f", "id"), Ok("s-1".to_string()));
    assert_eq!(required_string(&args, "f", "n"), Err(wrong("f", "n", "null", Expected::String)));
    assert_eq!(
        required_string(&args, "f", "zz"),
        Err(Error::ArgMissing { function: "f".to_string(), key: "zz".to_string() })
    );
}

#[test]
fn wrong_type_error_carries_what_it_is_given() {
    assert_eq!(
        tera_aws::args::wrong_type_error("f", "k", "[1]".to_string(), Expected::StringList),
        wrong("f", "k", "[1]", Expected::StringList)
    );
}
