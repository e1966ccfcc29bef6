use server::api::{generate_error, ApiResponse, ErrorCategory, Status};
use server::auth::{
    auth_response, handle_login, handle_signup, prepare_signup, refresh, signup_record, AuthError,
    AuthRes, Insertion, LoginParams, NewUser, SignupParams,
};
use server::gate::AuthGate;
use server::models::{Role, User};
use server::orders::{add_order, order_response, AddOrderReq, FlowAction, StoreEvent};
use server::stock::{ItemStock, OrderError};
use server::token::{issue, validate, TokenError};

// "password", hashed by another bcrypt implementation at the lowest cost.
const PASSWORD_HASH: &str = "$2a$04$UuTkLRZZ6QofpDOlMz32MuuxEHA43WOemOYHPz6.SjsVsyO1tDU96";

fn stored(record: &NewUser) -> User {
    User {
        _key: "1".to_string(),
        _rev: "_r1".to_string(),
        _id: "User/1".to_string(),
        first_name: record.first_name.clone(),
        last_name: record.last_name.clone(),
        email: record.email.clone(),
        password: record.password.clone(),
        role: Role::default(),
    }
}

fn alice() -> User {
    User {
        _key: "7".to_string(),
        _rev: "_r7".to_string(),
        _id: "User/7".to_string(),
        first_name: "Alice".to_string(),
        last_name: "Liddell".to_string(),
        email: "alice@b.com".to_string(),
        password: PASSWORD_HASH.to_string(),
        role: Role::VENDOR,
    }
}

fn login(email: &str, password: &str) -> LoginParams {
    LoginParams { email: email.to_string(), password: password.to_string() }
}

fn message_of<T: std::fmt::Debug>(response: ApiResponse<T>) -> String {
    match response {
        ApiResponse::Error(e) => e.error_msg,
        ApiResponse::Success(value) => panic!("expected an error, got {:?}", value),
    }
}

fn error_of(outcome: Result<AuthRes, AuthError>) -> AuthError {
    match outcome {
        Ok(res) => panic!("expected an error, got a token for {}", res.user().email),
        Err(e) => e,
    }
}

#[test]
fn signup_then_login_yields_a_token_for_the_email() {
    let params = SignupParams {
        first_name: "A".to_string(),
        last_name: "B".to_string(),
        email: "a@b.com".to_string(),
        password: "pw".to_string(),
        role: "CUSTOMER".to_string(),
    };
    let record = prepare_signup(params).unwrap();
    assert_eq!(record.email, "a@b.com");
    assert_eq!(record.first_name, "A");
    assert_eq!(record.last_name, "B");
    assert_eq!(record.role, "CUSTOMER");
    assert_ne!(record.password, "pw");
    let user = stored(&record);

    let signed_up =
        handle_signup("a@b.com", Insertion::Created(user.clone()), "secret", 900, 1000).unwrap();
    assert_eq!(signed_up.user().email, "a@b.com");
    assert_eq!(validate(signed_up.token(), "secret", 1000).unwrap().subject(), "a@b.com");

    let logged_in = handle_login(&login("a@b.com", "pw"), Some(user), "secret", 900, 2000).unwrap();
    assert_eq!(logged_in.user().email, "a@b.com");
    let claims = validate(logged_in.token(), "secret", 2900).unwrap();
    assert_eq!(claims.subject(), "a@b.com");
    assert_eq!(claims.issued_at(), 2000);
    assert_eq!(claims.expires_at(), 2900);
    assert_eq!(validate(logged_in.token(), "secret", 2901).unwrap_err(), TokenError::ExpiredSignature);
}

#[test]
fn login_with_the_password_answers_with_the_user() {
    let res = handle_login(&login("alice@b.com", "password"), Some(alice()), "secret", 60, 10).unwrap();
    assert_eq!(res.user()._key, "7");
    assert_eq!(res.user().first_name, "Alice");
    assert_eq!(res.user().role, Role::VENDOR);
    assert_eq!(validate(res.token(), "secret", 70).unwrap().subject(), "alice@b.com");
}

#[test]
fn wrong_password_and_unknown_email_are_the_same_refusal() {
    let wrong = handle_login(&login("alice@b.com", "Password"), Some(alice()), "secret", 60, 10);
    let unknown = handle_login(&login("nobody@b.com", "password"), None, "secret", 60, 10);
    assert_eq!(error_of(wrong), AuthError::BadCredentials);
    assert_eq!(error_of(unknown), AuthError::BadCredentials);

    let (status, response) = auth_response(Err(AuthError::BadCredentials));
    assert_eq!(status, Status::BadRequest);
    let message = message_of(response);
    assert_eq!(message, "Email and/or password are wrong");
    assert!(!message.contains(PASSWORD_HASH));
    assert!(!message.contains("alice"));
    assert!(!message.contains("Alice"));
}

#[test]
fn malformed_stored_hash_refuses_login() {
    let mut user = alice();
    user.password = "password".to_string();
    let outcome = handle_login(&login("alice@b.com", "password"), Some(user), "secret", 60, 10);
    assert_eq!(error_of(outcome), AuthError::BadCredentials);
}

#[test]
fn signup_reports_what_the_store_did() {
    let refused = handle_signup("a@b.com", Insertion::Refused, "secret", 60, 10);
    assert_eq!(error_of(refused), AuthError::EmailTaken);
    let nothing = handle_signup("a@b.com", Insertion::Nothing, "secret", 60, 10);
    assert_eq!(error_of(nothing), AuthError::UserNotCreated);
    let created = handle_signup("alice@b.com", Insertion::Created(alice()), "secret", 60, 10).unwrap();
    assert_eq!(created.user().email, "alice@b.com");
    assert_eq!(validate(created.token(), "secret", 70).unwrap().expires_at(), 70);
}

fn bearer(subject: &str, secret: &str, ttl: u64, now: u64) -> String {
    format!("Bearer {}", issue(subject, secret, ttl, now).unwrap())
}

#[test]
fn refresh_needs_the_user_and_a_proof_but_not_the_password() {
    let gate = AuthGate::new(false, "secret".to_string());
    let proof = bearer("alice@b.com", "secret", 60, 10);
    let res = refresh(&gate, Some(&proof), "alice@b.com", Some(alice()), 60, 50).unwrap();
    assert_eq!(res.user().email, "alice@b.com");
    let claims = validate(res.token(), "secret", 50).unwrap();
    assert_eq!(claims.subject(), "alice@b.com");
    assert_eq!(claims.issued_at(), 50);
    assert_eq!(claims.expires_at(), 110);
    let missing = refresh(&gate, Some(&proof), "alice@b.com", None, 60, 50);
    assert_eq!(error_of(missing), AuthError::UserNotFound);
}

#[test]
fn refresh_route_without_proof_issues_nothing() {
    let gate = AuthGate::new(false, "secret".to_string());
    let stale = bearer("alice@b.com", "secret", 60, 10);
    let forged = bearer("alice@b.com", "guess", 60, 10);
    let of_eve = bearer("eve@b.com", "secret", 60, 10);
    let bare = issue("alice@b.com", "secret", 60, 10).unwrap();
    let headers: [Option<&str>; 7] = [
        None,
        Some(""),
        Some("Bearer"),
        Some("Bearer junk"),
        Some(&forged),
        Some(&of_eve),
        Some(&bare),
    ];
    for header in headers {
        let outcome = refresh(&gate, header, "alice@b.com", Some(alice()), 60, 50);
        assert_eq!(error_of(outcome), AuthError::Unauthenticated, "header {:?}", header);
    }
    let expired = refresh(&gate, Some(&stale), "alice@b.com", Some(alice()), 60, 71);
    assert_eq!(error_of(expired), AuthError::Unauthenticated);
    assert!(refresh(&gate, Some(&stale), "alice@b.com", Some(alice()), 60, 70).is_ok());
}

#[test]
fn refresh_asks_for_proof_even_where_checks_are_bypassed() {
    let gate = AuthGate::new(true, "secret".to_string());
    let outcome = refresh(&gate, None, "alice@b.com", Some(alice()), 60, 50);
    assert_eq!(error_of(outcome), AuthError::Unauthenticated);
    let proof = bearer("alice@b.com", "secret", 60, 10);
    assert!(refresh(&gate, Some(&proof), "alice@b.com", Some(alice()), 60, 50).is_ok());
}

#[test]
fn signup_record_takes_the_hash_in_place_of_the_password() {
    let params = || SignupParams {
        first_name: "A".to_string(),
        last_name: "B".to_string(),
        email: "a@b.com".to_string(),
        password: "pw".to_string(),
        role: "VENDOR".to_string(),
    };
    let record = signup_record(params(), Some("$2b$12$hash".to_string())).unwrap();
    assert_eq!(record.first_name, "A");
    assert_eq!(record.last_name, "B");
    assert_eq!(record.email, "a@b.com");
    assert_eq!(record.role, "VENDOR");
    assert_eq!(record.password, "$2b$12$hash");
    match signup_record(params(), None) {
        Ok(record) => panic!("expected no record, got one for {}", record.email),
        Err(e) => assert_eq!(e, AuthError::Hashing),
    }
}

#[test]
fn auth_res_pairs_user_and_token() {
    let res = AuthRes::new(alice(), "t.o.k".to_string());
    assert_eq!(res.user().email, "alice@b.com");
    assert_eq!(res.token(), "t.o.k");
}

#[test]
fn every_auth_error_has_its_status_and_message() {
    let expected = [
        (AuthError::BadCredentials, 400, "Email and/or password are wrong"),
        (AuthError::EmailTaken, 400, "Email is already associated with another user"),
        (AuthError::UserNotCreated, 500, "Error creating user"),
        (AuthError::UserNotFound, 500, "Error generating token: no user found"),
        (AuthError::Hashing, 500, "Error hashing password"),
        (AuthError::Signing, 500, "Error generating token"),
        (AuthError::Unauthenticated, 401, "Unauthorized"),
    ];
    for (error, code, message) in expected {
        assert_eq!(error.status().code(), code);
        assert_eq!(error.message(), message);
        let (status, response) = auth_response(Err(error));
        assert_eq!(status.code(), code);
        assert_eq!(message_of(response), message);
    }
}

#[test]
fn successful_auth_is_answered_with_user_and_token() {
    let (status, response) = auth_response(Ok(AuthRes::new(alice(), "t.o.k".to_string())));
    assert_eq!(status, Status::Success);
    match response {
        ApiResponse::Success(res) => {
            assert_eq!(res.user().email, "alice@b.com");
            assert_eq!(res.token(), "t.o.k");
        }
        ApiResponse::Error(e) => panic!("expected success, got {}", e.error_msg),
    }
}

#[test]
fn every_order_error_has_its_status_and_message() {
    let expected = [
        (OrderError::ItemNotFound, 404, "Item not found"),
        (OrderError::InsufficientStock, 400, "Order quantity exceeds item quantity"),
        (OrderError::PersistenceError, 500, "Error creating order"),
        (OrderError::PartialFailure, 500, "Order recorded without its stock update"),
    ];
    for (error, code, message) in expected {
        assert_eq!(error.status().code(), code);
        assert_eq!(error.message(), message);
        let (status, response) = order_response(Err(error));
        assert_eq!(status.code(), code);
        assert_eq!(message_of(response), message);
    }
}

#[test]
fn created_order_is_answered_as_success() {
    let payload = AddOrderReq {
        user_id: "u1".to_string(),
        item_id: "I".to_string(),
        item_name: "Lamp".to_string(),
        quantity: 3,
        price: 1250,
        quantity_diff: 2,
    };
    let stock = ItemStock {
        item_id: "I".to_string(),
        quantity_available: 5,
        revision: "r0".to_string(),
    };
    let (flow, _) = add_order(payload, 1_700_000_000);
    let (flow, _) = flow.step(StoreEvent::StockFound(stock));
    let (_, action) = flow.step(StoreEvent::Committed { order_id: "o1".to_string() });
    let outcome = match action {
        FlowAction::Respond { outcome } => outcome,
        other => panic!("expected an answer, got {:?}", other),
    };
    let (status, response) = order_response(outcome);
    assert_eq!(status.code(), 200);
    match response {
        ApiResponse::Success(order) => {
            assert_eq!(order.order_id(), "o1");
            assert_eq!(order.quantity(), 3);
        }
        ApiResponse::Error(e) => panic!("expected success, got {}", e.error_msg),
    }
}

#[test]
fn status_codes() {
    assert_eq!(Status::Success.code(), 200);
    assert_eq!(Status::BadRequest.code(), 400);
    assert_eq!(Status::Unauthorized.code(), 401);
    assert_eq!(Status::NotFound.code(), 404);
    assert_eq!(Status::InternalServerError.code(), 500);
}

#[test]
fn generated_error_carries_the_message() {
    let response: ApiResponse<u8> = generate_error("No orders found");
    assert_eq!(message_of(response), "No orders found");
    let response: ApiResponse<u8> = generate_error("");
    assert_eq!(message_of(response), "");
}

#[test]
fn default_role_is_customer() {
    assert_eq!(Role::default(), Role::CUSTOMER);
}

#[test]
fn every_kind_of_failure_has_its_status() {
    let expected = [
        (ErrorCategory::Validation, 400),
        (ErrorCategory::Auth, 401),
        (ErrorCategory::NotFound, 404),
        (ErrorCategory::Conflict, 400),
        (ErrorCategory::Internal, 500),
        (ErrorCategory::PartialFailure, 500),
    ];
    for (category, code) in expected {
        assert_eq!(category.status().code(), code);
    }
}

#[test]
fn every_error_is_of_one_kind() {
    assert_eq!(OrderError::ItemNotFound.category(), ErrorCategory::NotFound);
    assert_eq!(OrderError::InsufficientStock.category(), ErrorCategory::Conflict);
    assert_eq!(OrderError::PersistenceError.category(), ErrorCategory::Internal);
    assert_eq!(OrderError::PartialFailure.category(), ErrorCategory::PartialFailure);
    assert_eq!(AuthError::BadCredentials.category(), ErrorCategory::Validation);
    assert_eq!(AuthError::EmailTaken.category(), ErrorCategory::Conflict);
    assert_eq!(AuthError::UserNotCreated.category(), ErrorCategory::Internal);
    assert_eq!(AuthError::UserNotFound.category(), ErrorCategory::Internal);
    assert_eq!(AuthError::Hashing.category(), ErrorCategory::Internal);
    assert_eq!(AuthError::Signing.category(), ErrorCategory::Internal);
    assert_eq!(AuthError::Unauthenticated.category(), ErrorCategory::Auth);
    assert_eq!(TokenError::ExpiredSignature.category(), ErrorCategory::Auth);
    assert_eq!(TokenError::InvalidToken.category(), ErrorCategory::Auth);
    assert_eq!(TokenError::SigningFailed.category(), ErrorCategory::Internal);
}

#[test]
fn partial_failure_is_reported_like_nothing_else() {
    let (_, partial) = order_response(Err(OrderError::PartialFailure));
    let partial = message_of(partial);
    for other in [OrderError::ItemNotFound, OrderError::InsufficientStock, OrderError::PersistenceError] {
        assert_ne!(other.category(), OrderError::PartialFailure.category());
        let (_, response) = order_response(Err(other));
        assert_ne!(message_of(response), partial);
    }
}
