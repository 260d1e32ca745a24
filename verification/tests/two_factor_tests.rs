use actix_jwt_api::two_factor::{check_second_factor, new_two_factor_setup, two_factor_setup_from};
use totp_rs::{Algorithm, TOTP};

#[test]
fn random_setup_gives_a_usable_key() {
    // Thirty-two random bytes give 43 base64 characters, which are written in
    // unpadded base32; that key decodes back to the 43 bytes of the text.
    let setup = new_two_factor_setup("api", "user@example.com").unwrap();
    let secret = base32::decode(base32::Alphabet::Rfc4648 { padding: false }, &setup.setup_key).unwrap();
    assert_eq!(secret.len(), 43);
    assert!(!setup.qrcode.is_empty());
}

#[test]
fn setup_from_thirty_two_bytes() {
    let random = [7u8; 32];
    let setup = two_factor_setup_from(&random, "api", "user@example.com").unwrap();
    let base64_text = base64::Engine::encode(&base64::prelude::BASE64_STANDARD_NO_PAD, random);
    assert_eq!(base64_text.len(), 43);
    let expected_key = base32::encode(base32::Alphabet::Rfc4648 { padding: false }, base64_text.as_bytes());
    assert_eq!(setup.setup_key, expected_key);
    let totp = TOTP::new(
        Algorithm::SHA512,
        6,
        1,
        30,
        base64_text.into_bytes(),
        Some("api".to_string()),
        "user@example.com".to_string(),
    )
    .unwrap();
    assert_eq!(setup.qrcode, totp.get_qr_base64().unwrap());
}

#[test]
fn device_code_of_the_step_is_accepted_within_a_step_either_way() {
    let setup = two_factor_setup_from(&[7u8; 32], "api", "user@example.com").unwrap();
    let secret = base32::decode(base32::Alphabet::Rfc4648 { padding: false }, &setup.setup_key).unwrap();
    let totp = TOTP::new(Algorithm::SHA512, 6, 1, 30, secret, Some("api".to_string()), "user@example.com".to_string()).unwrap();
    let shown = 1_725_029_869u64;
    let code = totp.generate(shown);
    assert_eq!(code.len(), 6);
    assert!(code.chars().all(|c| c.is_ascii_digit()));
    assert_eq!(totp.generate(shown - shown % 30), code);
    for checked in [shown - 30, shown, shown + 15, shown + 30] {
        assert_eq!(check_second_factor(&setup.setup_key, "api", "user@example.com", &code, checked), Some(true));
    }
    assert_eq!(check_second_factor(&setup.setup_key, "api", "user@example.com", "", shown), Some(false));
}

#[test]
fn clock_out_of_range_stops_the_check() {
    let setup = two_factor_setup_from(&[7u8; 32], "api", "user@example.com").unwrap();
    assert_eq!(check_second_factor(&setup.setup_key, "api", "user@example.com", "123456", 29), None);
    assert_eq!(check_second_factor(&setup.setup_key, "api", "user@example.com", "123456", u64::MAX), None);
}

#[test]
fn unpadded_material_gives_a_setup() {
    let random = [0u8; 30];
    let setup = two_factor_setup_from(&random, "api", "user@example.com").unwrap();
    let base64_text = "A".repeat(40);
    let expected_key = base32::encode(base32::Alphabet::Rfc4648 { padding: false }, base64_text.as_bytes());
    assert_eq!(setup.setup_key, expected_key);
    assert!(!setup.qrcode.is_empty());
    assert_ne!(setup.qrcode, setup.setup_key);
}

#[test]
fn setup_refuses_an_account_with_a_colon() {
    assert!(two_factor_setup_from(&[0u8; 30], "api", "a:b@example.com").is_none());
    assert!(two_factor_setup_from(&[0u8; 30], "a:pi", "ab@example.com").is_none());
}

#[test]
fn checks_codes_of_the_current_and_adjacent_steps() {
    let secret = b"0123456789abcdef0123".to_vec();
    let text = base32::encode(base32::Alphabet::Rfc4648 { padding: false }, &secret);
    let totp = TOTP::new(Algorithm::SHA512, 6, 1, 30, secret, Some("api".to_string()), "u@x.io".to_string()).unwrap();
    let now = 1_700_000_000u64;
    assert_eq!(check_second_factor(&text, "api", "u@x.io", &totp.generate(now), now), Some(true));
    assert_eq!(check_second_factor(&text, "api", "u@x.io", &totp.generate(now + 30), now), Some(true));
    let far = totp.generate(now + 3000);
    let near: Vec<String> = (0..3).map(|i| totp.generate(now - 30 + 30 * i)).collect();
    if !near.contains(&far) {
        assert_eq!(check_second_factor(&text, "api", "u@x.io", &far, now), Some(false));
    }
    assert_eq!(check_second_factor("bad!", "api", "u@x.io", "123456", now), None);
}

#[test]
fn the_setup_key_checks_codes_of_its_secret() {
    let setup = two_factor_setup_from(&[0u8; 30], "api", "user@example.com").unwrap();
    let secret = "A".repeat(40).into_bytes();
    let totp = TOTP::new(Algorithm::SHA512, 6, 1, 30, secret, Some("api".to_string()), "user@example.com".to_string()).unwrap();
    let now = 1_725_029_869u64;
    assert_eq!(check_second_factor(&setup.setup_key, "api", "user@example.com", &totp.generate(now), now), Some(true));
}
