use tfdocs::error::LookupError;
use tfdocs::identifier::{split, Args, DEFAULT_RESOURCE};

fn pair(provider: &str, resource: &str) -> (String, String) {
    (provider.to_string(), resource.to_string())
}

#[test]
fn split_takes_the_text_before_the_first_underscore() {
    assert_eq!(
        split("google_bigquery_dataset_access"),
        Ok(pair("google", "bigquery_dataset_access"))
    );
}

#[test]
fn split_without_underscore_is_a_parse_error() {
    assert_eq!(split("noUnderscoreHere"), Err(LookupError::Parse));
}

#[test]
fn split_consumes_exactly_one_underscore() {
    assert_eq!(split("a_b"), Ok(pair("a", "b")));
    assert_eq!(split("a_b_c"), Ok(pair("a", "b_c")));
}

#[test]
fn split_of_empty_input_is_a_parse_error() {
    assert_eq!(split(""), Err(LookupError::Parse));
}

#[test]
fn split_keeps_an_empty_provider() {
    assert_eq!(split("_b"), Ok(pair("", "b")));
}

#[test]
fn split_keeps_an_empty_resource() {
    assert_eq!(split("a_"), Ok(pair("a", "")));
}

#[test]
fn split_of_a_lone_underscore_gives_two_empty_parts() {
    assert_eq!(split("_"), Ok(pair("", "")));
}

#[test]
fn split_keeps_consecutive_underscores_in_the_resource() {
    assert_eq!(split("aws__s3___bucket_"), Ok(pair("aws", "_s3___bucket_")));
}

#[test]
fn split_counts_characters_not_bytes() {
    assert_eq!(split("héllo_wörld_ünïcode"), Ok(pair("héllo", "wörld_ünïcode")));
    assert_eq!(split("日本_語_テスト"), Ok(pair("日本", "語_テスト")));
}

#[test]
fn split_rejoins_to_the_input() {
    for input in ["google_compute_instance", "a_b", "_", "x__y", "aws_s3_bucket_policy"] {
        let (provider, resource) = split(input).unwrap();
        assert!(!provider.contains('_'));
        assert_eq!(format!("{provider}_{resource}"), input);
    }
}

#[test]
fn args_give_the_parts_of_their_resource() {
    let args = Args { resource: "aws_s3_bucket".to_string() };
    assert_eq!(args.get_provider_and_resource(), Some(pair("aws", "s3_bucket")));
}

#[test]
fn args_without_underscore_give_nothing() {
    let args = Args { resource: "aws".to_string() };
    assert_eq!(args.get_provider_and_resource(), None);
}

#[test]
fn args_default_to_the_bigquery_resource() {
    assert_eq!(DEFAULT_RESOURCE, "google_bigquery_dataset_access");
    let args = Args::default();
    assert_eq!(args.resource, "google_bigquery_dataset_access");
    assert_eq!(
        args.get_provider_and_resource(),
        Some(pair("google", "bigquery_dataset_access"))
    );
}

#[test]
fn args_clone_is_equal() {
    let args = Args { resource: "aws_s3_bucket".to_string() };
    assert_eq!(args.clone(), args);
}
