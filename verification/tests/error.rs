use tera_aws::error::{prefixed, Error, Expected};

#[test]
fn message_of_a_missing_argument() {
    let error = Error::ArgMissing { function: "imds".to_string(), key: "path".to_string() };
    assert_eq!(error.message(), "Function `imds` didn't receive a `path` argument");
}

#[test]
fn message_of_a_wrong_string_argument() {
    let error = Error::ArgWrongType {
        function: "imds".to_string(),
        key: "path".to_string(),
        received: "5".to_string(),
        expected: Expected::String,
    };
    assert_eq!(
        error.message(),
        "Function `imds` received path=5 but `path` can only be a string"
    );
}

#[test]
fn message_of_a_wrong_list_argument() {
    let error = Error::ArgWrongType {
        function: "ec2_describe_tags".to_string(),
        key: "filters".to_string(),
        received: "\"Name=X\"".to_string(),
        expected: Expected::StringList,
    };
    assert_eq!(
        error.message(),
        "Function `ec2_describe_tags` received filters=\"Name=X\" but `filters` can only be an array of strings"
    );
}

#[test]
fn message_of_a_filter_syntax_error() {
    let error = Error::FilterSyntaxError { input: "Values=Y,Z".to_string() };
    assert_eq!(
        error.message(),
        "Function `ec2_describe_tags` received invalid filters=Values=Y,Z"
    );
}

#[test]
fn message_of_an_api_error_is_its_cause() {
    let error = Error::ApiError { cause: "connection refused".to_string() };
    assert_eq!(error.message(), "connection refused");
}

#[test]
fn message_of_a_secret_json_error_names_the_secret() {
    let error = Error::SecretJsonError {
        secret_id: "db/password".to_string(),
        cause: "expected ident at line 1 column 2".to_string(),
    };
    assert_eq!(error.message(), "db/password: expected ident at line 1 column 2");
}

#[test]
fn prefixed_puts_a_colon_and_a_space_between() {
    assert_eq!(prefixed("a", "b"), "a: b");
    assert_eq!(prefixed("", ""), ": ");
}

#[test]
fn expected_shapes_have_their_words() {
    assert_eq!(Expected::String.text(), "a string");
    assert_eq!(Expected::StringList.text(), "an array of strings");
}
