use airtally_restapi::session::{
    check_credentials, check_old_password, hash_token, hex_encode, judge_login, LoginFailure,
};

const HASH_OF_PASSWORD: &str = "$2a$04$UuTkLRZZ6QofpDOlMz32MuuxEHA43WOemOYHPz6.SjsVsyO1tDU96";

#[test]
fn token_digests() {
    assert_eq!(hash_token("abc"), "ba7816bf8f01cfea414140de5dae2223b00361a396177a9cb410ff61f20015ad");
    assert_eq!(hash_token(""), "e3b0c44298fc1c149afbf4c8996fb92427ae41e4649b934ca495991b7852b855");
    assert_eq!(hash_token("tökén"), "c61a705e32913a858921fec03c7dc0259250783f37e3d82341e7bda6fe7e7833");
}

#[test]
fn hexadecimal_digits() {
    assert_eq!(hex_encode(&[]), "");
    assert_eq!(hex_encode(&[0]), "00");
    assert_eq!(hex_encode(&[0x0a, 0xff, 0x10, 0x9f]), "0aff109f");
    assert_eq!(hex_encode(&[0x01, 0x23, 0x45, 0x67, 0x89, 0xab, 0xcd, 0xef]), "0123456789abcdef");
}

#[test]
fn login_with_the_right_password() {
    assert!(check_credentials(true, "password", HASH_OF_PASSWORD).is_ok());
    assert!(check_old_password("password", HASH_OF_PASSWORD).is_ok());
}

#[test]
fn login_with_a_wrong_password() {
    let refused = check_credentials(true, "Password", HASH_OF_PASSWORD).unwrap_err();
    assert!(matches!(refused, LoginFailure::InvalidCredentials));
    assert!(refused.is_unauthorized());
    let refused = check_old_password("", HASH_OF_PASSWORD).unwrap_err();
    assert!(matches!(refused, LoginFailure::InvalidCredentials));
}

#[test]
fn login_to_a_disabled_account() {
    let refused = check_credentials(false, "password", HASH_OF_PASSWORD).unwrap_err();
    assert!(matches!(refused, LoginFailure::AccountDisabled));
    assert!(refused.is_unauthorized());
    // the stored hash is not looked at
    let refused = check_credentials(false, "password", "no hash").unwrap_err();
    assert!(matches!(refused, LoginFailure::AccountDisabled));
}

#[test]
fn login_against_a_broken_hash() {
    let refused = check_credentials(true, "password", "no hash").unwrap_err();
    match &refused {
        LoginFailure::VerificationFailed(message) => assert!(!message.is_empty()),
        other => panic!("unexpected {other:?}"),
    }
    assert!(!refused.is_unauthorized());
    let refused = check_old_password("password", "").unwrap_err();
    assert!(matches!(refused, LoginFailure::VerificationFailed(_)));
}

#[test]
fn verdicts_for_each_outcome() {
    assert!(judge_login(true, Ok(true)).is_ok());
    assert!(matches!(judge_login(true, Ok(false)), Err(LoginFailure::InvalidCredentials)));
    assert!(matches!(judge_login(false, Ok(true)), Err(LoginFailure::AccountDisabled)));
    assert!(matches!(judge_login(false, Err("x".to_string())), Err(LoginFailure::AccountDisabled)));
    match judge_login(true, Err("bad hash".to_string())) {
        Err(LoginFailure::VerificationFailed(message)) => assert_eq!(message, "bad hash"),
        other => panic!("unexpected {other:?}"),
    }
}
