use tera_aws::error::{Error, Expected};
use tera_aws::secretsmanager::{
    map_secret_string, secret_id_argument, GetSecretValue, GetSecretValueJson,
};
use tera_aws::value::Json;

fn text(s: &str) -> Json {
    Json::String(s.to_string())
}

#[test]
fn the_functions_have_their_names() {
    assert_eq!(GetSecretValue::new().name(), "secretsmanager_get_secret_value");
    assert_eq!(GetSecretValueJson::new().name(), "secretsmanager_get_secret_value_json");
}

#[test]
fn request_takes_the_secret_id() {
    let args = vec![("secret_id".to_string(), text("db/password"))];
    assert_eq!(GetSecretValue::new().request(&args), Ok("db/password".to_string()));
    assert_eq!(GetSecretValueJson::new().request(&args), Ok("db/password".to_string()));
}

#[test]
fn request_without_a_secret_id_names_the_function() {
    assert_eq!(
        GetSecretValue::new().request(&Vec::new()),
        Err(Error::ArgMissing {
            function: "secretsmanager_get_secret_value".to_string(),
            key: "secret_id".to_string(),
        })
    );
    assert_eq!(
        GetSecretValueJson::new().request(&Vec::new()),
        Err(Error::ArgMissing {
            function: "secretsmanager_get_secret_value_json".to_string(),
            key: "secret_id".to_string(),
        })
    );
}

#[test]
fn request_with_a_secret_id_that_is_no_string_shows_the_value() {
    let args = vec![("secret_id".to_string(), Json::Number(serde_json::Number::from(7u64)))];
    let error = GetSecretValueJson::new().request(&args).unwrap_err();
    assert_eq!(
        error,
        Error::ArgWrongType {
            function: "secretsmanager_get_secret_value_json".to_string(),
            key: "secret_id".to_string(),
            received: "7".to_string(),
            expected: Expected::String,
        }
    );
    assert_eq!(
        error.message(),
        "Function `secretsmanager_get_secret_value_json` received secret_id=7 but `secret_id` can only be a string"
    );
}

#[test]
fn secret_id_argument_carries_the_given_function_name() {
    assert_eq!(
        secret_id_argument("f", &Vec::new()),
        Err(Error::ArgMissing { function: "f".to_string(), key: "secret_id".to_string() })
    );
}

#[test]
fn map_secret_string_passes_the_payload_and_prefixes_the_failure() {
    assert_eq!(map_secret_string("id", Ok(Some("p".to_string()))), Ok(Some("p".to_string())));
    assert_eq!(map_secret_string("id", Ok(None)), Ok(None));
    assert_eq!(
        map_secret_string("id", Err("AccessDenied".to_string())),
        Err(Error::ApiError { cause: "id: AccessDenied".to_string() })
    );
}

#[test]
fn raw_secret_is_the_string_or_null() {
    let adapter = GetSecretValue::new();
    assert_eq!(adapter.respond("id", Ok(Some("{\"a\":1}".to_string()))), Ok(text("{\"a\":1}")));
    assert_eq!(adapter.respond("id", Ok(None)), Ok(Json::Null));
    assert_eq!(adapter.shape(Some(String::new())), text(""));
    assert_eq!(adapter.shape(None), Json::Null);
}

#[test]
fn raw_secret_failure_names_the_secret() {
    assert_eq!(
        GetSecretValue::new().respond("db/password", Err("ResourceNotFound".to_string())),
        Err(Error::ApiError { cause: "db/password: ResourceNotFound".to_string() })
    );
}

#[test]
fn json_secret_without_payload_is_null() {
    assert_eq!(GetSecretValueJson::new().respond("id", Ok(None)), Ok(Json::Null));
}

#[test]
fn json_secret_is_the_parsed_payload() {
    let expected =
        Json::Object(vec![("a".to_string(), Json::Number(serde_json::Number::from(1u64)))]);
    assert_eq!(
        GetSecretValueJson::new().respond("id", Ok(Some("{\"a\":1}".to_string()))),
        Ok(expected)
    );
}

#[test]
fn json_secret_that_is_not_json_names_the_secret() {
    let result = GetSecretValueJson::new().respond("db/password", Ok(Some("not-json".to_string())));
    let error = result.unwrap_err();
    assert_eq!(
        error,
        Error::SecretJsonError {
            secret_id: "db/password".to_string(),
            cause: "expected ident at line 1 column 2".to_string(),
        }
    );
    assert_eq!(error.message(), "db/password: expected ident at line 1 column 2");
}

#[test]
fn json_secret_failure_of_the_provider_names_the_secret() {
    assert_eq!(
        GetSecretValueJson::new().respond("id", Err("Throttled".to_string())),
        Err(Error::ApiError { cause: "id: Throttled".to_string() })
    );
}

#[test]
fn shape_parsed_passes_a_value_and_wraps_a_message() {
    let adapter = GetSecretValueJson::new();
    assert_eq!(adapter.shape_parsed("id", Ok(Json::Bool(true))), Ok(Json::Bool(true)));
    assert_eq!(
        adapter.shape_parsed("id", Err("bad".to_string())),
        Err(Error::SecretJsonError { secret_id: "id".to_string(), cause: "bad".to_string() })
    );
}
