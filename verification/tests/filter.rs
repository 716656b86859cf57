use tera_aws::error::Error;
use tera_aws::filter::{try_parse_filter, try_parse_filter_as_option, Filter};

fn filter(name: &str, values: Option<&[&str]>) -> Filter {
    Filter {
        name: name.to_string(),
        values: values.map(|values| values.iter().map(|value| value.to_string()).collect()),
    }
}

#[test]
fn test_try_parse_filter() {
    let left = try_parse_filter("Name=X,Values=Y,Z").unwrap();
    let right = filter("X", Some(&["Y", "Z"]));
    assert_eq!(left, right);
}

#[test]
fn test_try_parse_filter_name_only() {
    let left = try_parse_filter("Name=X").unwrap();
    let right = filter("X", None);
    assert_eq!(left, right);
}

#[test]
#[should_panic]
fn test_try_parse_filter_values_only() {
    let _left = try_parse_filter("Values=Y,Z").unwrap();
}

#[test]
#[should_panic]
fn test_try_prase_filter_empty() {
    let left = try_parse_filter("").unwrap();
    let right = filter("X", None);
    assert_eq!(left, right);
}

#[test]
fn values_only_is_a_syntax_error_naming_the_input() {
    assert_eq!(
        try_parse_filter("Values=Y,Z"),
        Err(Error::FilterSyntaxError { input: "Values=Y,Z".to_string() })
    );
    assert_eq!(try_parse_filter_as_option("Values=Y,Z"), None);
}

#[test]
fn empty_input_is_a_syntax_error() {
    assert_eq!(try_parse_filter(""), Err(Error::FilterSyntaxError { input: String::new() }));
    assert_eq!(try_parse_filter_as_option(""), None);
}

#[test]
fn empty_values_segment_is_one_empty_value() {
    assert_eq!(try_parse_filter("Name=X,Values="), Ok(filter("X", Some(&[""]))));
}

#[test]
fn empty_values_are_kept_in_order() {
    assert_eq!(
        try_parse_filter("Name=tag:env,Values=a,,b,"),
        Ok(filter("tag:env", Some(&["a", "", "b", ""])))
    );
}

#[test]
fn values_are_not_trimmed_or_deduplicated() {
    assert_eq!(
        try_parse_filter("Name=k,Values= a ,b,b, a "),
        Ok(filter("k", Some(&[" a ", "b", "b", " a "])))
    );
}

#[test]
fn name_may_be_empty() {
    assert_eq!(try_parse_filter("Name="), Ok(filter("", None)));
    assert_eq!(try_parse_filter("Name=,Values=v"), Ok(filter("", Some(&["v"]))));
}

#[test]
fn name_keeps_equal_signs_and_non_ascii_characters() {
    assert_eq!(try_parse_filter("Name=Name=é"), Ok(filter("Name=é", None)));
    assert_eq!(
        try_parse_filter("Name=ключ,Values=значение,値"),
        Ok(filter("ключ", Some(&["значение", "値"])))
    );
}

#[test]
fn second_segment_must_start_with_values() {
    for input in ["Name=X,", "Name=X,Y", "Name=X,values=Y", "Name=X,Value=Y", "Name=X, Values=Y"] {
        assert_eq!(
            try_parse_filter(input),
            Err(Error::FilterSyntaxError { input: input.to_string() })
        );
    }
}

#[test]
fn prefix_must_be_exact() {
    for input in ["name=X", " Name=X", "Name", "Nam", "NameX", "X"] {
        assert_eq!(try_parse_filter_as_option(input), None);
    }
}

#[test]
fn later_values_prefix_is_part_of_a_value() {
    assert_eq!(
        try_parse_filter("Name=X,Values=Values=1,Name=2"),
        Ok(filter("X", Some(&["Values=1", "Name=2"])))
    );
}
