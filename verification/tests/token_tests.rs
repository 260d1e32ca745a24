use actix_jwt_api::auth::{decode_jwt, encode_jwt, token_check_from, JwtCheck, TokenCheck, TOKEN_LIFETIME_SECONDS};

const SECRET: &[u8] = b"a secret of the api";

fn now_secs() -> u64 {
    std::time::SystemTime::now().duration_since(std::time::UNIX_EPOCH).unwrap().as_secs()
}

#[test]
fn an_issued_token_reads_back_as_its_claims() {
    let now = now_secs();
    let token = encode_jwt("user@example.com".to_string(), "api", "127.0.0.1:8080", SECRET, now);
    match decode_jwt(&token, SECRET, "api", "127.0.0.1:8080") {
        TokenCheck::Valid(c) => {
            assert_eq!(c.sub, "user@example.com");
            assert_eq!(c.iss, "127.0.0.1:8080");
            assert_eq!(c.aud, "api");
            assert_eq!(c.exp, now + TOKEN_LIFETIME_SECONDS);
        }
        _ => panic!("a fresh token was refused"),
    }
}

#[test]
fn the_token_is_the_one_of_the_claims_struct() {
    let token = encode_jwt("user@example.com".to_string(), "api", "addr", SECRET, 1_000_000);
    let parts: Vec<&str> = token.split('.').collect();
    assert_eq!(parts.len(), 3);
    let payload = base64::Engine::decode(&base64::prelude::BASE64_URL_SAFE_NO_PAD, parts[1]).unwrap();
    assert_eq!(
        String::from_utf8(payload).unwrap(),
        r#"{"iss":"addr","sub":"user@example.com","aud":"api","exp":1003200}"#
    );
    let header = base64::Engine::decode(&base64::prelude::BASE64_URL_SAFE_NO_PAD, parts[0]).unwrap();
    assert_eq!(String::from_utf8(header).unwrap(), r#"{"typ":"JWT","alg":"HS256"}"#);
}

#[test]
fn an_old_token_has_expired() {
    let token = encode_jwt("user@example.com".to_string(), "api", "addr", SECRET, 1_000_000);
    assert!(matches!(decode_jwt(&token, SECRET, "api", "addr"), TokenCheck::Expired));
}

#[test]
fn foreign_tokens_are_not_valid() {
    let now = now_secs();
    let token = encode_jwt("user@example.com".to_string(), "api", "addr", SECRET, now);
    assert!(matches!(decode_jwt(&token, b"another secret", "api", "addr"), TokenCheck::Invalid));
    assert!(matches!(decode_jwt(&token, SECRET, "other api", "addr"), TokenCheck::Invalid));
    assert!(matches!(decode_jwt(&token, SECRET, "api", "other addr"), TokenCheck::Invalid));
    assert!(matches!(decode_jwt("not a token", SECRET, "api", "addr"), TokenCheck::Invalid));
    assert!(matches!(decode_jwt("", SECRET, "api", "addr"), TokenCheck::Invalid));
}

#[test]
fn decoder_outcomes_map_to_checks() {
    let full = JwtCheck::Valid {
        iss: Some("addr".to_string()),
        sub: Some("u@x.io".to_string()),
        aud: Some("api".to_string()),
        exp: Some(42),
    };
    match token_check_from(full) {
        TokenCheck::Valid(c) => {
            assert_eq!((c.iss.as_str(), c.sub.as_str(), c.aud.as_str(), c.exp), ("addr", "u@x.io", "api", 42));
        }
        _ => panic!("full claims were refused"),
    }
    let partial = JwtCheck::Valid { iss: Some("addr".to_string()), sub: None, aud: Some("api".to_string()), exp: Some(42) };
    assert!(matches!(token_check_from(partial), TokenCheck::Invalid));
    assert!(matches!(token_check_from(JwtCheck::Expired), TokenCheck::Expired));
    assert!(matches!(token_check_from(JwtCheck::Invalid), TokenCheck::Invalid));
}

#[test]
fn unsigned_tokens_are_invalid_even_when_expired() {
    let old = encode_jwt("user@example.com".to_string(), "api", "addr", b"another secret", 1_000_000);
    assert!(matches!(decode_jwt(&old, SECRET, "api", "addr"), TokenCheck::Invalid));
    let fresh = encode_jwt("user@example.com".to_string(), "api", "addr", SECRET, now_secs());
    let mut tampered = fresh.clone();
    let last = tampered.pop().unwrap();
    tampered.push(if last == 'A' { 'B' } else { 'A' });
    assert!(matches!(decode_jwt(&tampered, SECRET, "api", "addr"), TokenCheck::Invalid));
    let parts: Vec<&str> = fresh.split('.').collect();
    let forged = format!("{}.{}.", parts[0], parts[1]);
    assert!(matches!(decode_jwt(&forged, SECRET, "api", "addr"), TokenCheck::Invalid));
}
