use wx_counter::api::jwt::{AuthError, Claims, Keys, SESSION_SECONDS};

const MINTED_AT: u64 = 1_700_000_000;

fn token_keys() -> Keys {
    Keys::new(b"secret")
}

fn signed_with(
    secret: &[u8],
    algorithm: jsonwebtoken::Algorithm,
    claims: &serde_json::Map<String, serde_json::Value>,
) -> String {
    jsonwebtoken::encode(
        &jsonwebtoken::Header::new(algorithm),
        claims,
        &jsonwebtoken::EncodingKey::from_secret(secret),
    )
    .unwrap()
}

fn claims_object(sub: Option<serde_json::Value>, exp: Option<serde_json::Value>) -> serde_json::Map<String, serde_json::Value> {
    let mut map = serde_json::Map::new();
    if let Some(sub) = sub {
        map.insert(String::from("sub"), sub);
    }
    if let Some(exp) = exp {
        map.insert(String::from("exp"), exp);
    }
    map
}

fn expect_claims(result: Result<Claims, AuthError>) -> Claims {
    match result {
        Ok(claims) => claims,
        Err(err) => panic!("expected claims, got {:?}", err),
    }
}

fn expect_rejection(result: Result<Claims, AuthError>) -> AuthError {
    match result {
        Ok(claims) => panic!("expected a rejection, got claims for {}", claims.sub()),
        Err(err) => err,
    }
}

#[test]
fn session_lasts_fifteen_days() {
    assert_eq!(SESSION_SECONDS, 15 * 24 * 60 * 60);
    assert_eq!(SESSION_SECONDS, 1_296_000);
}

#[test]
fn new_claims_expire_fifteen_days_later() {
    let claims = Claims::new(String::from("42"), MINTED_AT);
    assert_eq!(claims.sub(), "42");
    assert_eq!(claims.exp(), 1_701_296_000);
    let at_zero = Claims::new(String::new(), 0);
    assert_eq!(at_zero.sub(), "");
    assert_eq!(at_zero.exp(), 1_296_000);
    let latest = Claims::new(String::from("x"), u64::MAX - SESSION_SECONDS);
    assert_eq!(latest.exp(), u64::MAX);
}

#[test]
fn mint_produces_the_expected_token() {
    let expected = [
        "eyJ0eXAiOiJKV1QiLCJhbGciOiJIUzI1NiJ9",
        "eyJleHAiOjE3MDEyOTYwMDAsInN1YiI6IjQyIn0",
        "--hImpMYYMePNkWCfgSMRX2o4iutYMbjbRohUKcp-JU",
    ]
    .join(".");
    assert_eq!(token_keys().mint(42, MINTED_AT), Ok(expected));
}

#[test]
fn mint_is_not_the_subject_itself() {
    let token = token_keys().mint(42, MINTED_AT).unwrap();
    assert_ne!(token, "42");
    assert_eq!(token.matches('.').count(), 2);
}

#[test]
fn sign_signs_the_claims_given() {
    let keys = token_keys();
    let claims = Claims::new(String::from("alice"), 10);
    let token = keys.sign(&claims).unwrap();
    let read = expect_claims(keys.verify(&token, 10));
    assert_eq!(read.sub(), "alice");
    assert_eq!(read.exp(), 10 + SESSION_SECONDS);
}

#[test]
fn mint_at_the_end_of_time_is_a_creation_error() {
    let keys = token_keys();
    assert_eq!(keys.mint(42, u64::MAX), Err(AuthError::TokenCreation));
    assert_eq!(keys.mint(42, u64::MAX - SESSION_SECONDS + 1), Err(AuthError::TokenCreation));
    assert!(keys.mint(42, u64::MAX - SESSION_SECONDS).is_ok());
}

#[test]
fn verify_returns_the_minted_subject() {
    let keys = token_keys();
    for user_id in [0, 1, 42, -7, i32::MAX, i32::MIN] {
        let token = keys.mint(user_id, MINTED_AT).unwrap();
        let claims = expect_claims(keys.verify(&token, MINTED_AT));
        assert_eq!(claims.sub(), user_id.to_string());
        assert_eq!(claims.exp(), MINTED_AT + SESSION_SECONDS);
    }
}

#[test]
fn verify_rejects_after_fifteen_days() {
    let keys = token_keys();
    let token = keys.mint(42, MINTED_AT).unwrap();
    let expiry = MINTED_AT + SESSION_SECONDS;
    assert!(keys.verify(&token, expiry - 1).is_ok());
    assert_eq!(expect_rejection(keys.verify(&token, expiry)), AuthError::InvalidToken);
    assert_eq!(expect_rejection(keys.verify(&token, expiry + 1)), AuthError::InvalidToken);
    assert_eq!(expect_rejection(keys.verify(&token, u64::MAX)), AuthError::InvalidToken);
}

#[test]
fn verify_grants_no_leeway() {
    // One second before the expiry is in, the expiry itself is out.
    let keys = token_keys();
    let token = keys.mint(1, 0).unwrap();
    assert!(keys.verify(&token, 0).is_ok());
    assert!(keys.verify(&token, SESSION_SECONDS - 1).is_ok());
    assert!(keys.verify(&token, SESSION_SECONDS).is_err());
    assert!(keys.verify(&token, SESSION_SECONDS + 59).is_err());
}

#[test]
fn verify_rejects_another_secret() {
    let token = Keys::new(b"one secret").mint(42, MINTED_AT).unwrap();
    let other = Keys::new(b"another secret");
    assert_eq!(expect_rejection(other.verify(&token, MINTED_AT)), AuthError::InvalidToken);
    assert!(Keys::new(b"one secret").verify(&token, MINTED_AT).is_ok());
    assert_eq!(
        expect_rejection(Keys::new(b"").verify(&token, MINTED_AT)),
        AuthError::InvalidToken
    );
}

#[test]
fn verify_rejects_a_tampered_token() {
    let keys = token_keys();
    let token = keys.mint(42, MINTED_AT).unwrap();
    let forged = keys.mint(43, MINTED_AT).unwrap();
    let signature = token.rsplit('.').next().unwrap();
    let mut parts: Vec<&str> = forged.split('.').collect();
    parts[2] = signature;
    let spliced = parts.join(".");
    assert_eq!(expect_rejection(keys.verify(&spliced, MINTED_AT)), AuthError::InvalidToken);
}

#[test]
fn verify_rejects_malformed_tokens() {
    let keys = token_keys();
    for token in ["", "garbage", "a.b", "a.b.c", "a.b.c.d", "..", "42"] {
        assert_eq!(expect_rejection(keys.verify(token, 0)), AuthError::InvalidToken);
    }
}

#[test]
fn verify_rejects_another_algorithm() {
    let claims = claims_object(
        Some(serde_json::Value::from("42")),
        Some(serde_json::Value::from(1_701_296_000u64)),
    );
    let token = signed_with(b"secret", jsonwebtoken::Algorithm::HS384, &claims);
    assert_eq!(expect_rejection(token_keys().verify(&token, MINTED_AT)), AuthError::InvalidToken);
    let same = signed_with(b"secret", jsonwebtoken::Algorithm::HS256, &claims);
    assert!(token_keys().verify(&same, MINTED_AT).is_ok());
}

#[test]
fn verify_rejects_claims_without_a_subject() {
    let missing = claims_object(None, Some(serde_json::Value::from(1_701_296_000u64)));
    let token = signed_with(b"secret", jsonwebtoken::Algorithm::HS256, &missing);
    assert_eq!(expect_rejection(token_keys().verify(&token, MINTED_AT)), AuthError::InvalidToken);
    let number = claims_object(
        Some(serde_json::Value::from(7)),
        Some(serde_json::Value::from(1_701_296_000u64)),
    );
    let token = signed_with(b"secret", jsonwebtoken::Algorithm::HS256, &number);
    assert_eq!(expect_rejection(token_keys().verify(&token, MINTED_AT)), AuthError::InvalidToken);
}

#[test]
fn verify_rejects_claims_without_an_expiry() {
    let missing = claims_object(Some(serde_json::Value::from("42")), None);
    let token = signed_with(b"secret", jsonwebtoken::Algorithm::HS256, &missing);
    assert_eq!(expect_rejection(token_keys().verify(&token, 0)), AuthError::InvalidToken);
    let text = claims_object(
        Some(serde_json::Value::from("42")),
        Some(serde_json::Value::from("1701296000")),
    );
    let token = signed_with(b"secret", jsonwebtoken::Algorithm::HS256, &text);
    assert_eq!(expect_rejection(token_keys().verify(&token, 0)), AuthError::InvalidToken);
    let negative = claims_object(
        Some(serde_json::Value::from("42")),
        Some(serde_json::Value::from(-5)),
    );
    let token = signed_with(b"secret", jsonwebtoken::Algorithm::HS256, &negative);
    assert_eq!(expect_rejection(token_keys().verify(&token, 0)), AuthError::InvalidToken);
}

#[test]
fn verify_keeps_any_subject_text() {
    let claims = claims_object(
        Some(serde_json::Value::from("alice \"the\" first\n\u{e9}")),
        Some(serde_json::Value::from(u64::MAX)),
    );
    let token = signed_with(b"secret", jsonwebtoken::Algorithm::HS256, &claims);
    let read = expect_claims(token_keys().verify(&token, u64::MAX - 1));
    assert_eq!(read.sub(), "alice \"the\" first\n\u{e9}");
    assert_eq!(read.exp(), u64::MAX);
    assert!(token_keys().verify(&token, u64::MAX).is_err());
}

#[test]
fn verify_ignores_further_claims() {
    let mut claims = claims_object(
        Some(serde_json::Value::from("42")),
        Some(serde_json::Value::from(1_701_296_000u64)),
    );
    claims.insert(String::from("name"), serde_json::Value::from("x"));
    let token = signed_with(b"secret", jsonwebtoken::Algorithm::HS256, &claims);
    let read = expect_claims(token_keys().verify(&token, MINTED_AT));
    assert_eq!(read.sub(), "42");
    assert_eq!(read.exp(), 1_701_296_000);
}

#[test]
fn verify_rejects_a_token_for_an_audience() {
    let mut claims = claims_object(
        Some(serde_json::Value::from("42")),
        Some(serde_json::Value::from(1_701_296_000u64)),
    );
    claims.insert(String::from("aud"), serde_json::Value::from("someone"));
    let token = signed_with(b"secret", jsonwebtoken::Algorithm::HS256, &claims);
    assert_eq!(expect_rejection(token_keys().verify(&token, MINTED_AT)), AuthError::InvalidToken);
}

#[test]
fn minted_tokens_are_header_text() {
    let keys = token_keys();
    for user_id in [0, 42, -42, i32::MAX, i32::MIN] {
        let token = keys.mint(user_id, MINTED_AT).unwrap();
        assert!(!token.is_empty());
        assert!(token.chars().all(|c| c.is_ascii_alphanumeric() || "-_.".contains(c)));
    }
}

#[test]
fn verify_twice_gives_the_same_claims() {
    let keys = token_keys();
    let token = keys.mint(42, MINTED_AT).unwrap();
    let first = expect_claims(keys.verify(&token, MINTED_AT + 5));
    let second = expect_claims(keys.verify(&token, MINTED_AT + 5));
    assert_eq!(first.sub(), second.sub());
    assert_eq!(first.exp(), second.exp());
    let later = expect_claims(keys.verify(&token, MINTED_AT + 1_000_000));
    assert_eq!(first.sub(), later.sub());
    assert_eq!(first.exp(), later.exp());
}

#[test]
fn tokens_for_different_users_verify_to_different_subjects() {
    let keys = token_keys();
    let one = keys.mint(1, MINTED_AT).unwrap();
    let two = keys.mint(2, MINTED_AT).unwrap();
    assert_ne!(one, two);
    let first = expect_claims(keys.verify(&one, MINTED_AT));
    let second = expect_claims(keys.verify(&two, MINTED_AT));
    assert_ne!(first.sub(), second.sub());
    assert_eq!(first.sub(), "1");
    assert_eq!(second.sub(), "2");
}

#[test]
fn from_payload_needs_both_claims_and_time_left() {
    let ok = expect_claims(Claims::from_payload(Some(String::from("42")), Some(100), 99));
    assert_eq!(ok.sub(), "42");
    assert_eq!(ok.exp(), 100);
    assert_eq!(
        expect_rejection(Claims::from_payload(Some(String::from("42")), Some(100), 100)),
        AuthError::InvalidToken
    );
    assert_eq!(
        expect_rejection(Claims::from_payload(Some(String::from("42")), Some(100), 101)),
        AuthError::InvalidToken
    );
    assert_eq!(
        expect_rejection(Claims::from_payload(None, Some(100), 0)),
        AuthError::InvalidToken
    );
    assert_eq!(
        expect_rejection(Claims::from_payload(Some(String::from("42")), None, 0)),
        AuthError::InvalidToken
    );
    assert_eq!(expect_rejection(Claims::from_payload(None, None, 0)), AuthError::InvalidToken);
    assert_eq!(
        expect_rejection(Claims::from_payload(Some(String::from("42")), Some(0), 0)),
        AuthError::InvalidToken
    );
}
