use spots_core::api::{
    ApiConfig, ApiResponse, ApiResponseStatus, LoginUserDto, RegisterUserDto, Response,
};
use spots_core::errors::Fail;
use spots_core::nonce::NonceSequence;
use spots_core::token::{validate, Token};

#[test]
fn api_response_constructors() {
    let ok = ApiResponse::success(5u32);
    assert!(matches!(ok.status, ApiResponseStatus::Success));
    assert_eq!(ok.value, 5);
    let bad = ApiResponse::failure(String::from("no"));
    assert!(matches!(bad.status, ApiResponseStatus::Failure));
    assert_eq!(bad.value, "no");
    let wip = ApiResponse::pending(0u8);
    assert!(matches!(wip.status, ApiResponseStatus::Pending));
}

#[test]
fn response_constructors() {
    let ok = Response::success(7u64);
    assert!(ok.success);
    assert_eq!(ok.value, 7);
    let err = Response::error(String::from("fail"), String::from("bad input"));
    assert!(!err.success);
    assert_eq!(err.value.status, "fail");
    assert_eq!(err.value.message, "bad input");
}

#[test]
fn config_key_bytes() {
    let config = ApiConfig::new(String::from("0123456789abcdef0123456789abcdef-extra"), 10);
    let key = config.key_bytes();
    assert_eq!(key, b"0123456789abcdef0123456789abcdef".to_vec());
}

#[test]
fn token_try_new_uses_config_lifetime() {
    let config = ApiConfig::new(String::from("0123456789abcdef0123456789abcdef"), 10);
    let key = config.key_bytes();
    let mut nonces = NonceSequence::new();
    let token = Token::try_new(&config, "user-42", 1000, &mut nonces).unwrap();
    assert_eq!(validate(token.as_str(), 1599, &key), Ok(String::from("user-42")));
    assert_eq!(validate(token.as_str(), 1000 + 600, &key), Err(Fail::Expired));
    assert!(matches!(
        Token::try_new(&config, "", 1000, &mut nonces),
        Err(Fail::EmptySubject)
    ));
}

#[test]
fn register_dto_validation() {
    let good = RegisterUserDto {
        username: String::from("alice_01"),
        password: String::from("longenough"),
        password_confirm: String::from("longenough"),
    };
    assert!(good.validate());

    let short_username = RegisterUserDto { username: String::from("al"), ..good.clone() };
    assert!(!short_username.validate());

    let bad_chars = RegisterUserDto { username: String::from("alice!"), ..good.clone() };
    assert!(!bad_chars.validate());

    let long_username = RegisterUserDto {
        username: String::from("a_very_long_username_x"),
        ..good.clone()
    };
    assert!(!long_username.validate());

    let short_password = RegisterUserDto {
        password: String::from("short"),
        password_confirm: String::from("short"),
        ..good.clone()
    };
    assert!(!short_password.validate());

    let mismatch = RegisterUserDto {
        password_confirm: String::from("different-pw"),
        ..good.clone()
    };
    assert!(!mismatch.validate());
}

#[test]
fn login_dto_validation() {
    let good = LoginUserDto {
        username: String::from("alice_01"),
        password: String::from("longenough"),
    };
    assert!(good.validate());
    let bad = LoginUserDto { username: String::from("a!"), password: String::from("longenough") };
    assert!(!bad.validate());
    let short = LoginUserDto { username: String::from("alice_01"), password: String::from("pw") };
    assert!(!short.validate());
}
