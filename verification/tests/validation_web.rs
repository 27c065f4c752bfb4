//! Request validation, the JSON envelope, cookies, and error mapping.

use sipdah_be::{
    access_token_error, clearing_cookies, json_error, json_success, refresh_token_error,
    refresh_token_key, session_cookies, AuthResponse, Error, RefreshTokenRequest, SignInRequest,
    SignUpRequest, TokenError,
};

#[test]
fn sign_in_request_rules() {
    let good = SignInRequest {
        email: String::from("a@x.com"),
        password: String::from("hunter22"),
    };
    assert!(good.validate().is_ok());

    let bad_email = SignInRequest {
        email: String::from("not-an-email"),
        password: String::from("hunter22"),
    };
    match bad_email.validate().unwrap_err() {
        Error::BadRequest(m) => {
            assert_eq!(m, "Invalid email format. Please provide a valid email address.")
        }
        other => panic!("expected BadRequest, got {:?}", other),
    }

    let short_password = SignInRequest {
        email: String::from("a@x.com"),
        password: String::from("abc"),
    };
    match short_password.validate().unwrap_err() {
        Error::BadRequest(m) => {
            assert_eq!(m, "Password length must be between 6 and 16 characters.")
        }
        other => panic!("expected BadRequest, got {:?}", other),
    }

    let long_password = SignInRequest {
        email: String::from("a@x.com"),
        password: String::from("a-password-far-too-long-to-accept"),
    };
    assert!(long_password.validate().is_err());

    let empty_email = SignInRequest {
        email: String::new(),
        password: String::from("hunter22"),
    };
    match empty_email.validate().unwrap_err() {
        Error::BadRequest(m) => {
            assert_eq!(m, "Email length must be between 1 and 64 characters.")
        }
        other => panic!("expected BadRequest, got {:?}", other),
    }
}

#[test]
fn password_length_boundaries() {
    let exactly_six = SignInRequest {
        email: String::from("a@x.com"),
        password: String::from("abcdef"),
    };
    assert!(exactly_six.validate().is_ok());
    let exactly_sixteen = SignInRequest {
        email: String::from("a@x.com"),
        password: String::from("abcdefghijklmnop"),
    };
    assert!(exactly_sixteen.validate().is_ok());
    let seventeen = SignInRequest {
        email: String::from("a@x.com"),
        password: String::from("abcdefghijklmnopq"),
    };
    assert!(seventeen.validate().is_err());
}

#[test]
fn email_length_boundary_is_sixty_four_characters() {
    // 58 characters of local part plus "@x.com" makes exactly 64.
    let local: String = std::iter::repeat('a').take(58).collect();
    let at_limit = SignInRequest {
        email: format!("{}@x.com", local),
        password: String::from("hunter22"),
    };
    assert!(at_limit.validate().is_ok());
    let over = SignInRequest {
        email: format!("a{}@x.com", local),
        password: String::from("hunter22"),
    };
    match over.validate().unwrap_err() {
        Error::BadRequest(m) => {
            assert_eq!(m, "Email length must be between 1 and 64 characters.")
        }
        other => panic!("expected BadRequest, got {:?}", other),
    }
}

#[test]
fn sign_up_request_rules() {
    let good = SignUpRequest {
        name: String::from("Ada"),
        email: String::from("a@x.com"),
        password: String::from("hunter22"),
    };
    assert!(good.validate().is_ok());

    let empty_name = SignUpRequest {
        name: String::new(),
        email: String::from("a@x.com"),
        password: String::from("hunter22"),
    };
    match empty_name.validate().unwrap_err() {
        Error::BadRequest(m) => {
            assert_eq!(m, "Name length must be between 1 and 10 characters.")
        }
        other => panic!("expected BadRequest, got {:?}", other),
    }
}

#[test]
fn refresh_request_rule() {
    let present = RefreshTokenRequest { refresh_token: String::from("t") };
    assert!(present.validate().is_ok());
    let empty = RefreshTokenRequest { refresh_token: String::new() };
    match empty.validate().unwrap_err() {
        Error::BadRequest(m) => assert_eq!(m, "Token is required"),
        other => panic!("expected BadRequest, got {:?}", other),
    }
}

#[test]
fn every_error_kind_maps_to_its_status() {
    let cases: Vec<(Error, u16)> = vec![
        (Error::BadRequest(String::from("a")), 400),
        (Error::Unauthorized(String::from("b")), 401),
        (Error::Forbidden(String::from("c")), 403),
        (Error::NotFound(String::from("d")), 404),
        (Error::Conflict(String::from("e")), 409),
        (Error::Internal(String::from("f")), 500),
    ];
    for (error, expected) in cases {
        let message = error.message().clone();
        let (status, body) = json_error::<String>(error);
        assert_eq!(status, expected);
        assert_eq!(body.status, expected);
        assert!(body.data.is_none());
        assert_eq!(body.message, message);
    }
}

#[test]
fn success_envelope_carries_payload_and_status() {
    let (status, body) = json_success(200, 42u32, String::from("Success!"));
    assert_eq!(status, 200);
    assert_eq!(body.status, 200);
    assert_eq!(body.data, Some(42));
    assert_eq!(body.message, "Success!");
}

#[test]
fn refresh_key_is_namespaced_by_user_id() {
    assert_eq!(refresh_token_key(&String::from("user-1")), "auth:refresh-token:user-1");
}

#[test]
fn session_cookies_carry_the_token_pair_for_seven_days() {
    let res = AuthResponse {
        user_id: String::from("user-1"),
        email: String::from("a@x.com"),
        access_token: String::from("acc"),
        refresh_token: String::from("ref"),
    };
    let cookies = session_cookies(&res);
    assert_eq!(cookies.len(), 3);
    assert_eq!(cookies[0].name, "refresh_token");
    assert_eq!(cookies[0].value, "ref");
    assert!(cookies[0].http_only);
    assert_eq!(cookies[1].name, "access_token");
    assert_eq!(cookies[1].value, "acc");
    assert!(cookies[1].http_only);
    assert_eq!(cookies[2].name, "is_signed_in");
    assert_eq!(cookies[2].value, "true");
    assert!(!cookies[2].http_only);
    for c in &cookies {
        assert_eq!(c.max_age_seconds, 604800);
        assert_eq!(c.path, "/");
    }
}

#[test]
fn clearing_cookies_empty_the_session() {
    let cookies = clearing_cookies();
    assert_eq!(cookies.len(), 3);
    for c in &cookies {
        assert_eq!(c.value, "");
        assert_eq!(c.max_age_seconds, 0);
        assert!(c.http_only);
        assert_eq!(c.path, "/");
    }
}

#[test]
fn token_error_mapping_differs_between_access_and_refresh() {
    match access_token_error(TokenError::Expired) {
        Error::Unauthorized(m) => assert_eq!(m, "Token is expired"),
        other => panic!("expected Unauthorized, got {:?}", other),
    }
    match refresh_token_error(TokenError::Expired) {
        Error::BadRequest(m) => assert_eq!(m, "Token is expired"),
        other => panic!("expected BadRequest, got {:?}", other),
    }
    match access_token_error(TokenError::Invalid) {
        Error::BadRequest(m) => assert_eq!(m, "Token is not valid"),
        other => panic!("expected BadRequest, got {:?}", other),
    }
    match refresh_token_error(TokenError::Other(String::from("boom"))) {
        Error::Internal(m) => assert_eq!(m, "boom"),
        other => panic!("expected Internal, got {:?}", other),
    }
}
