use pr_summary::{extract_pr_number, pick_pr_number, split_repository, EventError};

fn parse(text: &str) -> serde_json::Value {
    serde_json::from_str(text).unwrap()
}

#[test]
fn pull_request_number_comes_first() {
    let event = parse(r#"{"pull_request": {"number": 7}, "pull_request_target": {"number": 8}}"#);
    assert_eq!(extract_pr_number(&event), Ok(7));
}

#[test]
fn pull_request_target_number() {
    let event = parse(r#"{"pull_request_target": {"number": 8}}"#);
    assert_eq!(extract_pr_number(&event), Ok(8));
}

#[test]
fn issue_comment_on_pull_request() {
    let event = parse(r#"{"issue": {"number": 9, "pull_request": {}}}"#);
    assert_eq!(extract_pr_number(&event), Ok(9));
}

#[test]
fn plain_issue_has_no_pr_number() {
    let event = parse(r#"{"issue": {"number": 9}}"#);
    assert_eq!(extract_pr_number(&event), Err(EventError::MissingPrNumber));
    let event = parse(r#"{"pull_request": {"number": "12"}}"#);
    assert_eq!(extract_pr_number(&event), Err(EventError::MissingPrNumber));
    assert_eq!(extract_pr_number(&parse("[1, 2]")), Err(EventError::MissingPrNumber));
}

#[test]
fn pick_follows_the_order_of_places() {
    assert_eq!(pick_pr_number(Some(1), Some(2), true, Some(3)), Ok(1));
    assert_eq!(pick_pr_number(None, Some(2), true, Some(3)), Ok(2));
    assert_eq!(pick_pr_number(None, None, true, Some(3)), Ok(3));
    assert_eq!(pick_pr_number(None, None, false, Some(3)), Err(EventError::MissingPrNumber));
    assert_eq!(pick_pr_number(None, None, true, None), Err(EventError::MissingPrNumber));
}

#[test]
fn repository_is_owner_and_name() {
    assert_eq!(split_repository("octo/repo"), Some(("octo".to_string(), "repo".to_string())));
    assert_eq!(split_repository("/repo"), Some(("".to_string(), "repo".to_string())));
    assert_eq!(split_repository("octo"), None);
    assert_eq!(split_repository("a/b/c"), None);
    assert_eq!(split_repository(""), None);
}
