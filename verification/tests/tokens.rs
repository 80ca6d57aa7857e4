use usb_reattach::outcome::Outcome;

#[test]
fn success_token_is_kthxbye() {
    assert_eq!(Outcome::Success.token(), "kthxbye");
    assert_eq!(Outcome::Success.token_bytes(), vec![0x6b, 0x74, 0x68, 0x78, 0x62, 0x79, 0x65]);
}

#[test]
fn failure_token_is_ohnoes() {
    assert_eq!(Outcome::Failure.token(), "ohnoes");
    assert_eq!(Outcome::Failure.token_bytes(), vec![0x6f, 0x68, 0x6e, 0x6f, 0x65, 0x73]);
}

#[test]
fn token_bytes_are_the_ascii_text() {
    for outcome in [Outcome::Success, Outcome::Failure] {
        assert!(outcome.token().is_ascii());
        assert_eq!(outcome.token_bytes(), outcome.token().as_bytes().to_vec());
    }
}

#[test]
fn tokens_differ() {
    assert_ne!(Outcome::Success.token(), Outcome::Failure.token());
    assert_ne!(Outcome::Success.token_bytes(), Outcome::Failure.token_bytes());
}

#[test]
fn is_success_tells_the_outcomes_apart() {
    assert!(Outcome::Success.is_success());
    assert!(!Outcome::Failure.is_success());
}
