use multiworld::login::{CallbackError, check_callback_state};

#[test]
fn callback_state_must_match_the_secret() {
    assert_eq!(check_callback_state("s3cr3t", "s3cr3t"), Ok(()));
    assert_eq!(check_callback_state("s3cr3t", "s3cr3T"), Err(CallbackError::CsrfMismatch));
    assert_eq!(check_callback_state("", "s3cr3t"), Err(CallbackError::CsrfMismatch));
}
