use travel_api::db::datetime::SqlDateTime;
use travel_api::middleware::auth::generate_token;
use travel_api::middleware::auth::generate_token_at;
use travel_api::middleware::auth::require_auth;
use travel_api::middleware::auth::validate_token;
use travel_api::middleware::auth::validate_token_at;
use travel_api::middleware::auth::find_claim;
use travel_api::middleware::auth::Unauthenticated;
use travel_api::middleware::auth::AuthenticatedUser;
use travel_api::middleware::auth::ClaimValue;
use travel_api::middleware::auth::Claims;
use travel_api::middleware::auth::TokenError;
use travel_api::middleware::auth::JWT_SECRET;
use travel_api::middleware::auth::TOKEN_EXPIRATION_HOURS;
use travel_api::middleware::auth::TOKEN_LIFETIME;
use travel_api::models::user::User;
use travel_api::routes::auth::identify;
use travel_api::routes::auth::unauthenticated;

fn alice() -> User {
    User {
        id: "user-1".to_string(),
        username: "alice".to_string(),
        password_hash: "unused".to_string(),
        email: "a@x.com".to_string(),
        created_at: SqlDateTime { secs: 1_700_000_000, nanos: 0 },
    }
}

#[test]
fn lifetime_is_a_day() {
    assert_eq!(TOKEN_EXPIRATION_HOURS, 24);
    assert_eq!(TOKEN_LIFETIME, 24 * 3600);
}

#[test]
fn claims_expire_one_lifetime_after_issue() {
    let claims = Claims::issued_at("user-1", "alice", 1_000);
    assert_eq!(
        claims,
        Claims { sub: "user-1".to_string(), username: "alice".to_string(), exp: 87_400, iat: 1_000 }
    );
    let fresh = Claims::new("user-1", "alice");
    assert_eq!(fresh.exp, fresh.iat + 86_400);
    assert!(fresh.iat > 1_600_000_000);
}

#[test]
fn token_round_trip() {
    let user = alice();
    let issued = generate_token_at(&user, "s3cret", 5_000).unwrap();
    assert_eq!(issued.token_type, "Bearer");
    assert_eq!(issued.expires_in, 86_400);
    assert_eq!(issued.token.split('.').count(), 3);
    let claims = validate_token_at(&issued.token, "s3cret", 5_000).unwrap();
    assert_eq!(claims.sub, user.id);
    assert_eq!(claims.username, "alice");
    assert_eq!(claims.iat, 5_000);
    assert_eq!(claims.exp, 5_000 + 86_400);
    let last = validate_token_at(&issued.token, "s3cret", 5_000 + 86_399).unwrap();
    assert_eq!(last.sub, "user-1");
}

#[test]
fn token_is_a_function_of_claims_and_secret() {
    let user = alice();
    let first = generate_token_at(&user, "s3cret", 5_000).unwrap();
    let second = generate_token_at(&user, "s3cret", 5_000).unwrap();
    let later = generate_token_at(&user, "s3cret", 5_001).unwrap();
    let other = generate_token_at(&user, "another", 5_000).unwrap();
    assert_eq!(first.token, second.token);
    assert_ne!(first.token, later.token);
    assert_ne!(first.token, other.token);
}

#[test]
fn expired_token_is_refused_as_expired() {
    let user = alice();
    let issued = generate_token_at(&user, "s3cret", 5_000).unwrap();
    assert_eq!(
        validate_token_at(&issued.token, "s3cret", 5_000 + 86_400),
        Err(TokenError::Expired)
    );
    assert_eq!(
        validate_token_at(&issued.token, "s3cret", 5_000 + 86_400 + 61),
        Err(TokenError::Expired)
    );
    assert_eq!(validate_token_at(&issued.token, "s3cret", i64::MAX), Err(TokenError::Expired));
}

#[test]
fn token_of_the_distant_past_is_expired_now() {
    let user = alice();
    let issued = generate_token_at(&user, JWT_SECRET, 1_000).unwrap();
    assert_eq!(validate_token(&issued.token), Err(TokenError::Expired));
}

#[test]
fn wrong_secret_is_a_signature_error() {
    let user = alice();
    let issued = generate_token_at(&user, "s3cret", 5_000).unwrap();
    assert_eq!(
        validate_token_at(&issued.token, "other", 5_000),
        Err(TokenError::SignatureInvalid)
    );
}

#[test]
fn tampered_token_is_refused() {
    let user = alice();
    let issued = generate_token_at(&user, "s3cret", 5_000).unwrap();
    let mut parts: Vec<String> = issued.token.split('.').map(|p| p.to_string()).collect();
    let other = generate_token_at(&user, "s3cret", 6_000).unwrap();
    let other_parts: Vec<&str> = other.token.split('.').collect();
    parts[1] = other_parts[1].to_string();
    let forged = parts.join(".");
    assert_eq!(validate_token_at(&forged, "s3cret", 5_000), Err(TokenError::SignatureInvalid));
}

#[test]
fn text_that_is_no_token_is_malformed() {
    assert_eq!(validate_token_at("not-a-token", "s3cret", 0), Err(TokenError::Malformed));
    assert_eq!(validate_token_at("", "s3cret", 0), Err(TokenError::Malformed));
    assert_eq!(validate_token("a.b.c"), Err(TokenError::Malformed));
}

#[test]
fn payload_without_the_claims_is_malformed() {
    let payload = vec![
        ("sub".to_string(), ClaimValue::Text("user-1".to_string())),
        ("username".to_string(), ClaimValue::Text("alice".to_string())),
        ("exp".to_string(), ClaimValue::Text("soon".to_string())),
        ("iat".to_string(), ClaimValue::Integer(1)),
    ];
    assert_eq!(Claims::from_payload(&payload), None);
    let short = vec![("sub".to_string(), ClaimValue::Text("user-1".to_string()))];
    assert_eq!(Claims::from_payload(&short), None);
    assert_eq!(Claims::from_payload(&Vec::new()), None);
}

#[test]
fn payload_with_the_claims_is_read() {
    let payload = vec![
        ("iat".to_string(), ClaimValue::Integer(1)),
        ("extra".to_string(), ClaimValue::Other),
        ("exp".to_string(), ClaimValue::Integer(2)),
        ("username".to_string(), ClaimValue::Text("alice".to_string())),
        ("sub".to_string(), ClaimValue::Text("user-1".to_string())),
    ];
    assert_eq!(
        Claims::from_payload(&payload),
        Some(Claims { sub: "user-1".to_string(), username: "alice".to_string(), exp: 2, iat: 1 })
    );
    assert_eq!(find_claim(&payload, "exp"), Some(&ClaimValue::Integer(2)));
    assert_eq!(find_claim(&payload, "aud"), None);
}

#[test]
fn generated_token_validates_now() {
    let user = alice();
    let issued = generate_token(&user).unwrap();
    let claims = validate_token(&issued.token).unwrap();
    assert_eq!(claims.sub, "user-1");
    assert_eq!(claims.exp - claims.iat, 86_400);
}

#[test]
fn bearer_credential_gives_the_identity() {
    let user = alice();
    let issued = generate_token_at(&user, "s3cret", 5_000).unwrap();
    let header = format!("Bearer {}", issued.token);
    assert_eq!(
        AuthenticatedUser::from_header_at(Some(&header), "s3cret", 5_001),
        Ok(AuthenticatedUser { user_id: "user-1".to_string(), username: "alice".to_string() })
    );
}

#[test]
fn missing_or_malformed_credential_is_refused() {
    let user = alice();
    let issued = generate_token_at(&user, "s3cret", 5_000).unwrap();
    assert_eq!(
        AuthenticatedUser::from_header_at(None, "s3cret", 5_001),
        Err(Unauthenticated::MissingHeader)
    );
    assert_eq!(
        AuthenticatedUser::from_header_at(Some(&issued.token), "s3cret", 5_001),
        Err(Unauthenticated::InvalidScheme)
    );
    let basic = format!("Basic {}", issued.token);
    assert_eq!(
        AuthenticatedUser::from_header_at(Some(&basic), "s3cret", 5_001),
        Err(Unauthenticated::InvalidScheme)
    );
    let header = format!("Bearer {}", issued.token);
    assert_eq!(
        AuthenticatedUser::from_header_at(Some(&header), "s3cret", 5_000 + 86_400),
        Err(Unauthenticated::InvalidToken(TokenError::Expired))
    );
    assert_eq!(
        AuthenticatedUser::from_header_at(Some(&header), "other", 5_001),
        Err(Unauthenticated::InvalidToken(TokenError::SignatureInvalid))
    );
    assert_eq!(
        AuthenticatedUser::from_header_at(Some("Bearer junk"), "s3cret", 5_001),
        Err(Unauthenticated::InvalidToken(TokenError::Malformed))
    );
}

#[test]
fn request_credential_is_checked_against_the_process_secret() {
    let user = alice();
    let issued = generate_token(&user).unwrap();
    let header = format!("Bearer {}", issued.token);
    assert_eq!(
        AuthenticatedUser::from_request(Some(&header)),
        Ok(AuthenticatedUser { user_id: "user-1".to_string(), username: "alice".to_string() })
    );
    assert_eq!(AuthenticatedUser::from_request(None), Err(Unauthenticated::MissingHeader));
}

#[test]
fn failures_tell_the_caller_no_cause() {
    assert_eq!(Unauthenticated::MissingHeader.message(), "Authentication required");
    assert_eq!(Unauthenticated::InvalidScheme.message(), "Invalid token");
    assert_eq!(Unauthenticated::InvalidToken(TokenError::Expired).message(), "Invalid token");
    assert_eq!(Unauthenticated::InvalidToken(TokenError::Malformed).message(), "Invalid token");
    assert_eq!(Unauthenticated::InvalidToken(TokenError::SignatureInvalid).message(), "Invalid token");
    let refusal = unauthenticated(&Unauthenticated::InvalidToken(TokenError::Expired));
    assert_eq!(refusal.status, 401);
    assert_eq!(refusal.body.error, "Invalid token");
    let refusal = identify(None).unwrap_err();
    assert_eq!(refusal.status, 401);
    assert_eq!(refusal.body.error, "Authentication required");
    assert_eq!(identify(Some("Bearer junk")).unwrap_err().body.error, "Invalid token");
}

#[test]
fn token_errors_describe_themselves() {
    assert_eq!(TokenError::Malformed.message(), "Malformed token");
    assert_eq!(TokenError::SignatureInvalid.message(), "Invalid signature");
    assert_eq!(TokenError::Expired.message(), "Expired token");
    assert_eq!(TokenError::Signing("boom".to_string()).message(), "boom");
}

#[test]
fn require_auth_insists_on_an_identity() {
    let user = AuthenticatedUser { user_id: "user-1".to_string(), username: "alice".to_string() };
    assert_eq!(
        require_auth(Some(user)),
        Ok(AuthenticatedUser { user_id: "user-1".to_string(), username: "alice".to_string() })
    );
    assert_eq!(require_auth(None), Err(Unauthenticated::MissingHeader));
}
