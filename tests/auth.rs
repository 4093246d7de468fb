use projectkit::jwt::{generate_token_at, validate_token_at};
use projectkit::{
    generate_token, hash_password, validate_token, verify_password, AuthError, AuthService, Claims,
    Role, Session, User,
};

fn stored_user(email: &str, password: &str, role: Role, id: i64) -> User {
    let auth = AuthService::new("test_secret".to_string(), 3600);
    let mut user = auth.signup_with_role(email, password, role, Ok(None)).unwrap();
    user.id = Some(id);
    user
}

#[test]
fn test_token_generation_and_validation() {
    let secret = "test_secret";
    let user_id = "user_123";

    let token = generate_token(user_id, Role::User, secret, 3600).unwrap();
    let claims = validate_token(&token, secret).unwrap();

    assert_eq!(claims.sub, user_id);
    assert_eq!(claims.role, Role::User);
    assert!(!claims.is_expired());
}

#[test]
fn test_invalid_secret() {
    let secret = "correct_secret";
    let wrong_secret = "wrong_secret";
    let user_id = "user_123";

    let token = generate_token(user_id, Role::User, secret, 3600).unwrap();
    let result = validate_token(&token, wrong_secret);

    assert!(result.is_err());
}

#[test]
fn test_expired_token() {
    let secret = "test_secret";
    let user_id = "user_123";

    let token = generate_token(user_id, Role::User, secret, -1).unwrap();

    let result = validate_token(&token, secret);
    assert!(result.is_err());
}

#[test]
fn test_claims_creation() {
    let claims = Claims::new("user_456".to_string(), Role::Service, 3600);

    assert_eq!(claims.sub, "user_456");
    assert_eq!(claims.role, Role::Service);
    assert!(!claims.is_expired());
    assert!(claims.exp > claims.iat);
}

#[test]
fn test_password_hashing() {
    let password = "test_password_123";
    let hash = hash_password(password).unwrap();

    assert!(verify_password(password, &hash).unwrap());
    assert!(!verify_password("wrong_password", &hash).unwrap());
}

#[test]
fn test_jwt_token() {
    let secret = "test_secret_key_for_jwt";
    let user_id = "user_123";

    let token = generate_token(user_id, Role::User, secret, 3600).unwrap();
    let claims = validate_token(&token, secret).unwrap();

    assert_eq!(claims.sub, user_id);
    assert_eq!(claims.role, Role::User);
}

#[test]
fn test_hash_and_verify() {
    let password = "my_secure_password";
    let hash = hash_password(password).unwrap();

    assert!(verify_password(password, &hash).unwrap());
    assert!(!verify_password("wrong_password", &hash).unwrap());
}

#[test]
fn test_different_hashes() {
    let password = "same_password";
    let hash1 = hash_password(password).unwrap();
    let hash2 = hash_password(password).unwrap();

    assert_ne!(hash1, hash2);

    assert!(verify_password(password, &hash1).unwrap());
    assert!(verify_password(password, &hash2).unwrap());
}

#[test]
fn test_signup_and_login() {
    let service = AuthService::new("test_secret".to_string(), 3600);

    let new_user = service.signup("test@example.com", "password123", Ok(None)).unwrap();
    let mut row = new_user.clone();
    row.id = Some(1);
    let user = AuthService::complete_signup(Ok(Some(row))).unwrap();
    assert_eq!(user.email, "test@example.com");
    assert!(user.id.is_some());

    let (token, logged_in_user, _session) =
        service.login("test@example.com", "password123", Ok(Some(user.clone()))).unwrap();
    assert!(!token.is_empty());
    assert_eq!(logged_in_user.email, user.email);

    let (id, claims) = service.validate(&token).unwrap();
    let validated_user = service.validate_with_claims(id, &claims, Ok(Some(user.clone()))).unwrap();
    assert_eq!(validated_user.email, user.email);
}

#[test]
fn malformed_phc_hash_is_a_verification_error() {
    assert_eq!(verify_password("pw", "not a phc string"), Err(AuthError::VerificationError));
}

#[test]
fn signup_hashes_the_password_and_keeps_the_role() {
    let auth = AuthService::new("s".to_string(), 60);
    let user = auth.signup_with_role("svc@x.com", "secret", Role::Service, Ok(None)).unwrap();
    assert_eq!(user.email, "svc@x.com");
    assert_eq!(user.role, Role::Service);
    assert!(user.id.is_none());
    assert_ne!(user.password_hash, "secret");
    assert_eq!(verify_password("secret", &user.password_hash), Ok(true));
    assert_eq!(user.created_at, user.updated_at);
}

#[test]
fn signup_refuses_a_known_email() {
    let auth = AuthService::new("s".to_string(), 60);
    let existing = stored_user("a@x.com", "pw", Role::User, 4);
    let r = auth.signup("a@x.com", "pw", Ok(Some(existing)));
    assert!(matches!(r, Err(AuthError::UserAlreadyExists)));
}

#[test]
fn signup_reports_a_failed_lookup() {
    let auth = AuthService::new("s".to_string(), 60);
    let r = auth.signup("a@x.com", "pw", Err("down".to_string()));
    assert!(matches!(r, Err(AuthError::DatabaseError(m)) if m == "down"));
}

#[test]
fn complete_signup_needs_an_id() {
    let mut row = stored_user("a@x.com", "pw", Role::User, 1);
    row.id = None;
    assert!(matches!(AuthService::complete_signup(Ok(Some(row))), Err(AuthError::DatabaseError(_))));
    assert!(matches!(AuthService::complete_signup(Ok(None)), Err(AuthError::DatabaseError(_))));
}

#[test]
fn login_does_not_tell_unknown_email_from_wrong_password() {
    let auth = AuthService::new("s".to_string(), 60);
    let user = stored_user("a@x.com", "pw", Role::User, 1);
    let unknown = auth.login("b@x.com", "pw", Ok(None)).map(|_| ());
    let wrong = auth.login("a@x.com", "nope", Ok(Some(user))).map(|_| ());
    assert_eq!(unknown, Err(AuthError::InvalidPassword));
    assert_eq!(wrong, Err(AuthError::InvalidPassword));
}

#[test]
fn login_at_signs_the_user_id_and_records_the_session() {
    let auth = AuthService::new("k".to_string(), 100);
    let user = stored_user("a@x.com", "pw", Role::Service, 42);
    let (token, u, session): (String, User, Session) =
        auth.login_at("a@x.com", "pw", Ok(Some(user)), 1_000).unwrap();
    assert_eq!(u.id, Some(42));
    assert_eq!(session.user_id, 42);
    assert_eq!(session.token, token);
    assert_eq!(session.expires_at, 1_100);
    assert_eq!(session.created_at, 1_000);
    let claims = validate_token_at(&token, "k", 1_050).unwrap();
    assert_eq!(claims.sub, "42");
    assert_eq!(claims.role, Role::Service);
    assert_eq!(claims.iat, 1_000);
    assert_eq!(claims.exp, 1_100);
    let (id, _) = auth.validate_at(&token, 1_100).unwrap();
    assert_eq!(id, 42);
}

#[test]
fn token_past_expiry_is_refused() {
    let token = generate_token_at("7", Role::User, "k", 1_000, 10).unwrap();
    assert!(validate_token_at(&token, "k", 1_010).is_ok());
    assert!(matches!(validate_token_at(&token, "k", 1_011), Err(AuthError::TokenExpired)));
    assert!(matches!(validate_token_at(&token, "other", 1_011), Err(AuthError::TokenValidationError(_))));
    let auth = AuthService::new("k".to_string(), 10);
    assert!(matches!(auth.validate_at(&token, 5_000), Err(AuthError::TokenExpired)));
}

#[test]
fn tampered_token_is_refused() {
    let token = generate_token_at("7", Role::User, "k", 1_000, 10).unwrap();
    let mut tampered = token.clone();
    tampered.push('x');
    assert!(matches!(validate_token_at(&tampered, "k", 1_000), Err(AuthError::TokenValidationError(_))));
    assert!(matches!(validate_token_at("garbage", "k", 1_000), Err(AuthError::TokenValidationError(_))));
}

#[test]
fn non_numeric_subject_is_an_invalid_token() {
    let auth = AuthService::new("k".to_string(), 10);
    let token = generate_token_at("user_123", Role::User, "k", 1_000, 10).unwrap();
    assert!(matches!(auth.validate_at(&token, 1_000), Err(AuthError::InvalidToken)));
}

#[test]
fn changed_role_is_refused_before_expiry() {
    let auth = AuthService::new("k".to_string(), 3600);
    let user = stored_user("a@x.com", "pw", Role::User, 9);
    let (token, _, _) = auth.login_at("a@x.com", "pw", Ok(Some(user.clone())), 2_000).unwrap();
    let (id, claims) = auth.validate_at(&token, 2_001).unwrap();
    let mut promoted = user.clone();
    promoted.role = Role::Service;
    let r = auth.validate_with_claims(id, &claims, Ok(Some(promoted)));
    assert!(matches!(r, Err(AuthError::RoleChanged)));
    let gone = auth.validate_with_claims(id, &claims, Ok(None));
    assert!(matches!(gone, Err(AuthError::InvalidToken)));
    let same = auth.validate_with_claims(id, &claims, Ok(Some(user))).unwrap();
    assert_eq!(same.id, Some(9));
}

#[test]
fn logout_and_cleanup_report_store_failures() {
    let auth = AuthService::new("k".to_string(), 10);
    assert_eq!(auth.logout(Ok(1)), Ok(()));
    assert!(matches!(auth.logout(Err("x".to_string())), Err(AuthError::DatabaseError(_))));
    assert_eq!(auth.cleanup_expired_sessions(Ok(3)), Ok(3));
}

#[test]
fn roles_are_named_and_checked() {
    assert_eq!(Role::User.as_str(), "user");
    assert_eq!(Role::Service.as_str(), "service");
    assert_eq!(Role::from_name("service"), Some(Role::Service));
    assert_eq!(Role::from_name("admin"), None);
    let user = stored_user("a@x.com", "pw", Role::User, 1);
    assert!(user.is_user());
    assert!(!user.is_service());
    assert!(user.has_role(Role::User));
}

#[test]
fn sessions_expire_after_their_time() {
    let s = Session::new(1, "t".to_string(), 100);
    assert!(!s.is_expired_at(100));
    assert!(s.is_expired_at(101));
    assert!(s.is_expired());
}

#[test]
fn tokens_with_negative_times_round_trip() {
    let token = generate_token_at("1", Role::User, "k", 0, -5).unwrap();
    let claims = validate_token_at(&token, "k", -10).unwrap();
    assert_eq!(claims.exp, -5);
    assert!(matches!(validate_token_at(&token, "k", 0), Err(AuthError::TokenExpired)));
}

#[test]
fn empty_password_and_empty_secret_still_work() {
    let hash = hash_password("").unwrap();
    assert_eq!(verify_password("", &hash), Ok(true));
    let token = generate_token("1", Role::User, "", 60).unwrap();
    assert!(!token.is_empty());
    assert_eq!(validate_token(&token, "").unwrap().sub, "1");
}
