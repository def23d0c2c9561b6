use eth3rn5l_portfolio::shader::check_status;

#[test]
fn true_status_succeeds() {
    assert_eq!(check_status(Some(true), None), Ok(()));
}

#[test]
fn true_status_ignores_log() {
    assert_eq!(check_status(Some(true), Some("warning".to_string())), Ok(()));
}

#[test]
fn false_status_returns_log() {
    assert_eq!(
        check_status(Some(false), Some("ERROR: 0:3: syntax error".to_string())),
        Err("ERROR: 0:3: syntax error".to_string())
    );
}

#[test]
fn missing_status_counts_as_failure() {
    assert_eq!(check_status(None, Some("lost context".to_string())), Err("lost context".to_string()));
}

#[test]
fn failure_without_log_is_empty_error() {
    assert_eq!(check_status(Some(false), None), Err(String::new()));
}
