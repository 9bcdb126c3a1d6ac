use setup_gh::errors::SetupError;

#[test]
fn command_failed_message() {
    let err = SetupError::CommandFailed("commit".to_string(), "nothing to commit".to_string());
    assert_eq!(err.message(), "Failed during: git commit Reason: nothing to commit");
}

#[test]
fn invalid_origin_message() {
    let err = SetupError::InvalidOrigin("not-real".to_string());
    assert_eq!(err.message(), "Invalid origin: not-real");
}
