use tera_aws::error::{Error, Expected};
use tera_aws::imds::Imds;
use tera_aws::value::Json;

#[test]
fn the_function_is_called_imds() {
    assert_eq!(Imds::new().name(), "imds");
}

#[test]
fn request_takes_the_path() {
    let args = vec![("path".to_string(), Json::String("/latest/meta-data/ami-id".to_string()))];
    assert_eq!(Imds::new().request(&args), Ok("/latest/meta-data/ami-id".to_string()));
}

#[test]
fn request_without_a_path_names_the_path() {
    let expected =
        || Error::ArgMissing { function: "imds".to_string(), key: "path".to_string() };
    assert_eq!(Imds::new().request(&Vec::new()), Err(expected()));
    let args = vec![("Path".to_string(), Json::String("/x".to_string()))];
    assert_eq!(Imds::new().request(&args), Err(expected()));
    assert_eq!(expected().message(), "Function `imds` didn't receive a `path` argument");
}

#[test]
fn request_with_a_path_that_is_no_string_shows_the_value() {
    let args = vec![("path".to_string(), Json::Array(vec![Json::Bool(false)]))];
    let error = Imds::new().request(&args).unwrap_err();
    assert_eq!(
        error,
        Error::ArgWrongType {
            function: "imds".to_string(),
            key: "path".to_string(),
            received: "[false]".to_string(),
            expected: Expected::String,
        }
    );
    assert_eq!(
        error.message(),
        "Function `imds` received path=[false] but `path` can only be a string"
    );
}

#[test]
fn respond_gives_the_body_as_a_string() {
    assert_eq!(
        Imds::new().respond(Ok("ami-12345".to_string())),
        Ok(Json::String("ami-12345".to_string()))
    );
    assert_eq!(Imds::new().respond(Ok(String::new())), Ok(Json::String(String::new())));
}

#[test]
fn respond_passes_the_failure_on_as_it_is() {
    assert_eq!(
        Imds::new().respond(Err("timed out".to_string())),
        Err(Error::ApiError { cause: "timed out".to_string() })
    );
}
