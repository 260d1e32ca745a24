use actix_jwt_api::validation::{
    AuthLoginRequest, FieldError, ProductStoreRequest, ProductUpdateRequest, UserActivate2FARequest,
    UserActivateRequest, UserResendActivationHashRequest, UserStoreRequest, UserUpdateRequest,
};

fn summary(errors: &[FieldError]) -> Vec<(String, String, Option<String>)> {
    errors.iter().map(|e| (e.field.clone(), e.code.clone(), e.message.clone())).collect()
}

fn s(x: &str) -> Option<String> {
    Some(x.to_string())
}

#[test]
fn login_body_requires_email_and_password() {
    let r = AuthLoginRequest { email: None, password: None, code: None };
    let errors = r.validate().unwrap_err();
    assert_eq!(
        summary(&errors),
        vec![
            ("email".to_string(), "required".to_string(), None),
            ("password".to_string(), "required".to_string(), None),
        ]
    );
}

#[test]
fn login_body_accepts_a_well_formed_one() {
    let r = AuthLoginRequest { email: s("cleverton@example.com"), password: s("cleverton123"), code: None };
    assert!(r.validate().is_ok());
    let r = AuthLoginRequest { email: s("cleverton@example.com"), password: s("cleverton123"), code: s("123456") };
    assert!(r.validate().is_ok());
}

#[test]
fn login_body_checks_the_email() {
    let r = AuthLoginRequest { email: s("not-an-email"), password: s("x"), code: None };
    assert_eq!(
        summary(&r.validate().unwrap_err()),
        vec![("email".to_string(), "email".to_string(), s("You have to insert a valid email!"))]
    );
    let r = AuthLoginRequest { email: s(""), password: s(""), code: None };
    assert_eq!(
        summary(&r.validate().unwrap_err()),
        vec![
            ("email".to_string(), "email".to_string(), s("You have to insert a valid email!")),
            ("email".to_string(), "length".to_string(), s("Insert a email!")),
            ("password".to_string(), "length".to_string(), s("Insert a password!")),
        ]
    );
}

#[test]
fn login_code_must_be_six_digits() {
    let r = AuthLoginRequest { email: s("a@b.com"), password: s("p"), code: s("12a456") };
    assert_eq!(
        summary(&r.validate().unwrap_err()),
        vec![("code".to_string(), "regex".to_string(), s("2FA code must be only digits!"))]
    );
    let r = AuthLoginRequest { email: s("a@b.com"), password: s("p"), code: s("12345") };
    assert_eq!(
        summary(&r.validate().unwrap_err()),
        vec![("code".to_string(), "length".to_string(), s("2FA code must be equal 6 digits!"))]
    );
    let r = AuthLoginRequest { email: s("a@b.com"), password: s("p"), code: s("12 4") };
    assert_eq!(summary(&r.validate().unwrap_err()).len(), 2);
}

#[test]
fn activation_code_rules() {
    assert!(UserActivate2FARequest { code: "000123".to_string() }.validate().is_ok());
    let errors = UserActivate2FARequest { code: "abcdefg".to_string() }.validate().unwrap_err();
    assert_eq!(
        summary(&errors),
        vec![
            ("code".to_string(), "length".to_string(), s("2FA code must be equal 6 digits!")),
            ("code".to_string(), "regex".to_string(), s("2FA code must be only digits!")),
        ]
    );
}

#[test]
fn new_password_must_be_confirmed() {
    let ok = UserActivateRequest { confirm_new_password: "abc".to_string(), new_password: "abc".to_string() };
    assert!(ok.validate().is_ok());
    let bad = UserActivateRequest { confirm_new_password: "abc".to_string(), new_password: "abd".to_string() };
    assert_eq!(
        summary(&bad.validate().unwrap_err()),
        vec![
            ("confirm_new_password".to_string(), "must_match".to_string(), s("New password confirmation failed!")),
            ("new_password".to_string(), "must_match".to_string(), s("New password confirmation failed!")),
        ]
    );
}

#[test]
fn update_body_compares_optional_passwords() {
    let none = UserUpdateRequest { name: None, email: None, confirm_new_password: None, new_password: None, old_password: None };
    assert!(none.validate().is_ok());
    let half = UserUpdateRequest { name: None, email: None, confirm_new_password: None, new_password: s("x"), old_password: None };
    assert_eq!(half.validate().unwrap_err().len(), 2);
    let same = UserUpdateRequest { name: None, email: None, confirm_new_password: s("x"), new_password: s("x"), old_password: s("y") };
    assert!(same.validate().is_ok());
}

#[test]
fn registration_checks_the_email() {
    let ok = UserStoreRequest { name: "Fulano_teste".to_string(), email: "testeshenrique12345@gmail.com".to_string() };
    assert!(ok.validate().is_ok());
    let bad = UserStoreRequest { name: "Fulano_teste".to_string(), email: "fulano".to_string() };
    assert_eq!(
        summary(&bad.validate().unwrap_err()),
        vec![("email".to_string(), "email".to_string(), s("Invalid email! Insert a valid email."))]
    );
    let bad = UserResendActivationHashRequest { email: "a@".to_string() };
    assert_eq!(summary(&bad.validate().unwrap_err()), vec![("email".to_string(), "email".to_string(), None)]);
    assert!(UserResendActivationHashRequest { email: "a@b.io".to_string() }.validate().is_ok());
}

fn store_request(sku: &str) -> ProductStoreRequest {
    ProductStoreRequest {
        sku: sku.to_string(),
        name: "Chair".to_string(),
        description: "A chair".to_string(),
        price: 10.5f32.to_bits(),
        weight: 3.0f32.to_bits(),
        dimension_height: 1.0f32.to_bits(),
        dimension_width: 0.5f32.to_bits(),
        dimension_depth: 0.5f32.to_bits(),
        product_category_id: 1,
    }
}

#[test]
fn product_code_needs_three_characters() {
    assert!(store_request("abc").validate().is_ok());
    assert!(store_request("ábc").validate().is_ok());
    assert_eq!(
        summary(&store_request("ab").validate().unwrap_err()),
        vec![("sku".to_string(), "length".to_string(), s("SKU must be greater than 3 chars!"))]
    );
    let update = ProductUpdateRequest {
        sku: s("x"),
        name: None,
        description: None,
        price: None,
        weight: None,
        dimension_height: None,
        dimension_width: None,
        dimension_depth: None,
        product_category_id: None,
    };
    assert_eq!(update.validate().unwrap_err().len(), 1);
    let update = ProductUpdateRequest { sku: None, ..update };
    assert!(update.validate().is_ok());
}
