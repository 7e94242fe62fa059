use ussal_runner::auth::{validate, AuthOutcome, TrustedTokens};

fn trusted() -> TrustedTokens {
    TrustedTokens::new(vec![b"valid-token".to_vec()])
}

#[test]
fn test_invalid_auth_key() {
    let t = trusted();
    let presented = b"2d58efc6-6c95-47c5-968d-55aa923b4cc9".to_vec();
    assert_eq!(validate(&presented, &t), AuthOutcome::Rejected);
}

#[test]
fn test_valid_token_authorized() {
    let t = trusted();
    let presented = b"valid-token".to_vec();
    assert_eq!(validate(&presented, &t), AuthOutcome::Authorized);
}

#[test]
fn test_empty_token_rejected_even_if_listed() {
    let t = TrustedTokens::new(vec![b"".to_vec(), b"valid-token".to_vec()]);
    let presented = b"".to_vec();
    assert_eq!(validate(&presented, &t), AuthOutcome::Rejected);
}

#[test]
fn test_prefix_of_trusted_token_rejected() {
    let t = trusted();
    let presented = b"valid-tok".to_vec();
    assert_eq!(validate(&presented, &t), AuthOutcome::Rejected);
}

#[test]
fn test_empty_trusted_set_rejects_everything() {
    let t = TrustedTokens::new(vec![]);
    let presented = b"anything".to_vec();
    assert_eq!(validate(&presented, &t), AuthOutcome::Rejected);
}
