use gitflow::metadata::{minimize_json, minimize_pr_metadata, MetadataError};
use serde_json::Value;

#[test]
fn metadata_author_and_comments_are_slimmed() {
    let text = r#"{"title":"T","author":{"login":"ann","id":1},"comments":[{"author":{"login":"bob"},"body":"hi","id":2},{"id":3},{"body":"anon"}]}"#;
    assert_eq!(
        minimize_pr_metadata(text).unwrap(),
        r#"{"author":"ann","comments":[{"body":"hi","login":"bob"},{"body":"anon"}],"title":"T"}"#
    );
}

#[test]
fn metadata_without_author_login_keeps_author() {
    let text = r#"{"author":{"name":"x"},"comments":"none"}"#;
    assert_eq!(
        minimize_pr_metadata(text).unwrap(),
        r#"{"author":{"name":"x"},"comments":"none"}"#
    );
}

#[test]
fn metadata_that_is_not_an_object_is_unchanged() {
    assert_eq!(minimize_pr_metadata("[1,2]").unwrap(), "[1,2]");
}

#[test]
fn metadata_that_is_not_json_is_rejected() {
    assert_eq!(minimize_pr_metadata("{title"), Err(MetadataError::InvalidJson));
}

#[test]
fn minimize_json_on_a_value() {
    let value: Value = serde_json::from_str(r#"{"author":{"login":"ann"},"comments":[]}"#).unwrap();
    let slim = minimize_json(value);
    let expected: Value = serde_json::from_str(r#"{"author":"ann","comments":[]}"#).unwrap();
    assert_eq!(slim, expected);
}
