//! The rules that request bodies must satisfy before a handler acts on them,
//! and the field errors that a refused body is answered with.

use vstd::prelude::*;
use vstd::string::*;
use crate::model::opt_view;
use crate::config::all_digits;

verus! {

/// One broken rule: the field, the rule's code and the message it carries.
pub struct FieldError {
    pub field: String,
    pub code: String,
    pub message: Option<String>,
}

/// A broken rule written with mathematical values.
pub struct FieldErrorView {
    pub field: Seq<char>,
    pub code: Seq<char>,
    pub message: Option<Seq<char>>,
}

impl View for FieldError {
    type V = FieldErrorView;

    open spec fn view(&self) -> FieldErrorView {
        FieldErrorView { field: self.field@, code: self.code@, message: opt_view(self.message) }
    }
}

/// The broken rule with these parts.
pub open spec fn field_error(field: Seq<char>, code: Seq<char>, message: Option<Seq<char>>) -> FieldErrorView {
    FieldErrorView { field, code, message }
}

/// The errors of a list, written with mathematical values.
pub open spec fn errors_view(errors: Seq<FieldError>) -> Seq<FieldErrorView> {
    errors.map_values(|e: FieldError| e@)
}

/// `e` alone when `broken` holds, nothing otherwise.
pub open spec fn when(broken: bool, e: FieldErrorView) -> Seq<FieldErrorView> {
    if broken {
        seq![e]
    } else {
        Seq::empty()
    }
}

/// The outcome of a validation: success when no rule is broken.
pub open spec fn outcome(errors: Seq<FieldErrorView>, res: Result<(), Vec<FieldError>>) -> bool {
    match res {
        Ok(()) => errors.len() == 0,
        Err(found) => errors.len() > 0 && errors_view(found@) == errors,
    }
}

/// The code of the rule that a field must be present.
pub open spec fn code_required() -> Seq<char> {
    "required"@
}

/// The code of the e-mail rule.
pub open spec fn code_email() -> Seq<char> {
    "email"@
}

/// The code of the length rule.
pub open spec fn code_length() -> Seq<char> {
    "length"@
}

/// The code of the pattern rule.
pub open spec fn code_regex() -> Seq<char> {
    "regex"@
}

/// The code of the rule that two fields must be equal.
pub open spec fn code_must_match() -> Seq<char> {
    "must_match"@
}

/// The pattern of a code made of decimal digits only.
pub open spec fn only_digits_pattern() -> Seq<char> {
    "^[0-9]*$"@
}

/// Whether `validator` accepts `s` as an e-mail address.
pub uninterp spec fn email_valid(s: Seq<char>) -> bool;

/// Whether the regular expression `pattern` compiles and matches in `text`.
pub uninterp spec fn regex_matches(pattern: Seq<char>, text: Seq<char>) -> bool;

/// The length rule of `validator` on a text of `len` characters: with
/// `equal` the length must be exactly that, otherwise within the bounds
/// that are given.
pub open spec fn length_ok(len: nat, min: Option<u64>, max: Option<u64>, equal: Option<u64>) -> bool {
    match equal {
        Some(e) => len == e,
        None => (match min {
            Some(m) => len >= m,
            None => true,
        }) && (match max {
            Some(m) => len <= m,
            None => true,
        }),
    }
}

/// `validator`'s e-mail check (`ValidateEmail::validate_email`): the address
/// is split at its last `@`, the parts are held to the lengths and the
/// patterns of the HTML5 rule, the domain may be an address literal or an
/// internationalised name. Only that the result is a function of the text is
/// claimed.
#[verifier::external_body]
fn check_email(s: &str) -> (res: bool)
    ensures
        res == email_valid(s@),
{
    validator::ValidateEmail::validate_email(&s)
}

/// `validator`'s length check (`ValidateLength::validate_length`) on a
/// string, whose length is its number of characters.
#[verifier::external_body]
fn check_length(s: &str, min: Option<u64>, max: Option<u64>, equal: Option<u64>) -> (res: bool)
    ensures
        res == length_ok(s@.len(), min, max, equal),
{
    validator::ValidateLength::<u64>::validate_length(&s, min, max, equal)
}

/// `validator::validate_must_match` on two optional strings: equality.
#[verifier::external_body]
fn check_must_match_opt(a: &Option<String>, b: &Option<String>) -> (res: bool)
    ensures
        res == (opt_view(*a) == opt_view(*b)),
{
    validator::validate_must_match(a, b)
}

/// `validator::validate_must_match` on two strings: equality.
#[verifier::external_body]
fn check_must_match(a: &String, b: &String) -> (res: bool)
    ensures
        res == (a@ == b@),
{
    validator::validate_must_match(a, b)
}

/// `regex::Regex::new(pattern)` followed by `is_match(text)`; a pattern that
/// does not compile matches nothing. For `^[0-9]*$` that is: every character
/// is one of the ASCII digits (`[0-9]` is the ASCII range, and `^` and `$`
/// without the multi-line flag anchor at the text's two ends).
#[verifier::external_body]
fn check_regex(pattern: &str, text: &str) -> (res: bool)
    ensures
        res == regex_matches(pattern@, text@),
        pattern@ == only_digits_pattern() ==> res == all_digits(text@),
{
    match regex::Regex::new(pattern) {
        Ok(re) => re.is_match(text),
        Err(_) => false,
    }
}

fn new_field_error(field: &str, code: &str, message: Option<&str>) -> (res: FieldError)
    ensures
        res@ == field_error(
            field@,
            code@,
            match message {
                Some(m) => Some(m@),
                None => None,
            },
        ),
{
    FieldError {
        field: String::from_str(field),
        code: String::from_str(code),
        message: match message {
            Some(m) => Some(String::from_str(m)),
            None => None,
        },
    }
}

fn push_if(errors: &mut Vec<FieldError>, broken: bool, field: &str, code: &str, message: Option<&str>)
    ensures
        errors_view(final(errors)@) == errors_view(old(errors)@) + when(
            broken,
            field_error(
                field@,
                code@,
                match message {
                    Some(m) => Some(m@),
                    None => None,
                },
            ),
        ),
{
    let ghost before = errors@;
    if broken {
        let e = new_field_error(field, code, message);
        errors.push(e);
        assert(errors_view(errors@) =~= errors_view(before) + when(broken, errors@.last()@));
    } else {
        assert(errors_view(errors@) =~= errors_view(before) + when(broken, field_error(field@, code@, None)));
    }
}

fn finish(errors: Vec<FieldError>) -> (res: Result<(), Vec<FieldError>>)
    ensures
        outcome(errors_view(errors@), res),
{
    if errors.len() == 0 {
        Ok(())
    } else {
        Err(errors)
    }
}

/// A login body.
pub struct AuthLoginRequest {
    pub email: Option<String>,
    pub password: Option<String>,
    pub code: Option<String>,
}

/// The rules of a six-digit second-factor code on the field `field`.
pub open spec fn code_errors(field: Seq<char>, code: Seq<char>) -> Seq<FieldErrorView> {
    when(
        !length_ok(code.len(), None, None, Some(6)),
        field_error(field, code_length(), Some("2FA code must be equal 6 digits!"@)),
    ) + when(
        !all_digits(code),
        field_error(field, code_regex(), Some("2FA code must be only digits!"@)),
    )
}

/// The broken rules of a login body, field by field: the e-mail is required,
/// must be an address and must not be empty; the password is required and
/// must not be empty; a code, when given, must be six digits.
pub open spec fn auth_login_errors(email: Option<Seq<char>>, password: Option<Seq<char>>, code: Option<Seq<char>>) -> Seq<FieldErrorView> {
    let email_errors = match email {
        None => seq![field_error("email"@, code_required(), None)],
        Some(e) => when(
            !email_valid(e),
            field_error("email"@, code_email(), Some("You have to insert a valid email!"@)),
        ) + when(
            !length_ok(e.len(), Some(1), None, None),
            field_error("email"@, code_length(), Some("Insert a email!"@)),
        ),
    };
    let password_errors = match password {
        None => seq![field_error("password"@, code_required(), None)],
        Some(p) => when(
            !length_ok(p.len(), Some(1), None, None),
            field_error("password"@, code_length(), Some("Insert a password!"@)),
        ),
    };
    let code_errs = match code {
        None => Seq::empty(),
        Some(c) => code_errors("code"@, c),
    };
    email_errors + password_errors + code_errs
}

fn push_code_errors(errors: &mut Vec<FieldError>, field: &str, code: &str)
    ensures
        errors_view(final(errors)@) == errors_view(old(errors)@) + code_errors(field@, code@),
{
    let ghost before = errors_view(errors@);
    let len_ok = check_length(code, None, None, Some(6));
    push_if(errors, !len_ok, field, "length", Some("2FA code must be equal 6 digits!"));
    let digits = check_regex("^[0-9]*$", code);
    push_if(errors, !digits, field, "regex", Some("2FA code must be only digits!"));
    assert(errors_view(errors@) =~= before + code_errors(field@, code@));
}

impl AuthLoginRequest {
    /// Checks the body against its rules; `Err` holds every broken rule.
    pub fn validate(&self) -> (res: Result<(), Vec<FieldError>>)
        ensures
            outcome(
                auth_login_errors(opt_view(self.email), opt_view(self.password), opt_view(self.code)),
                res,
            ),
    {
        let mut errors: Vec<FieldError> = Vec::new();
        match &self.email {
            None => push_if(&mut errors, true, "email", "required", None),
            Some(e) => {
                let valid = check_email(e.as_str());
                push_if(&mut errors, !valid, "email", "email", Some("You have to insert a valid email!"));
                let long_enough = check_length(e.as_str(), Some(1), None, None);
                push_if(&mut errors, !long_enough, "email", "length", Some("Insert a email!"));
            },
        }
        let ghost after_email = errors_view(errors@);
        match &self.password {
            None => push_if(&mut errors, true, "password", "required", None),
            Some(p) => {
                let long_enough = check_length(p.as_str(), Some(1), None, None);
                push_if(&mut errors, !long_enough, "password", "length", Some("Insert a password!"));
            },
        }
        let ghost after_password = errors_view(errors@);
        match &self.code {
            None => {},
            Some(c) => push_code_errors(&mut errors, "code", c.as_str()),
        }
        assert(errors_view(errors@) =~= auth_login_errors(
            opt_view(self.email),
            opt_view(self.password),
            opt_view(self.code),
        ));
        finish(errors)
    }
}

/// The body that confirms a second-factor setup.
pub struct UserActivate2FARequest {
    pub code: String,
}

impl UserActivate2FARequest {
    /// Checks the body: the code must be six decimal digits.
    pub fn validate(&self) -> (res: Result<(), Vec<FieldError>>)
        ensures
            outcome(code_errors("code"@, self.code@), res),
    {
        let mut errors: Vec<FieldError> = Vec::new();
        push_code_errors(&mut errors, "code", self.code.as_str());
        assert(errors_view(errors@) =~= code_errors("code"@, self.code@));
        finish(errors)
    }
}

/// The body that sets a new password, typed twice.
pub struct UserActivateRequest {
    pub confirm_new_password: String,
    pub new_password: String,
}

/// The broken rules of a pair of password fields: each must equal the other,
/// and each field reports its own mismatch.
pub open spec fn password_pair_errors(equal: bool) -> Seq<FieldErrorView> {
    when(
        !equal,
        field_error("confirm_new_password"@, code_must_match(), Some("New password confirmation failed!"@)),
    ) + when(
        !equal,
        field_error("new_password"@, code_must_match(), Some("New password confirmation failed!"@)),
    )
}

impl UserActivateRequest {
    /// Checks the body: the two passwords must be equal.
    pub fn validate(&self) -> (res: Result<(), Vec<FieldError>>)
        ensures
            outcome(password_pair_errors(self.confirm_new_password@ == self.new_password@), res),
    {
        let mut errors: Vec<FieldError> = Vec::new();
        let first = check_must_match(&self.confirm_new_password, &self.new_password);
        push_if(&mut errors, !first, "confirm_new_password", "must_match", Some("New password confirmation failed!"));
        let second = check_must_match(&self.new_password, &self.confirm_new_password);
        push_if(&mut errors, !second, "new_password", "must_match", Some("New password confirmation failed!"));
        assert(errors_view(errors@) =~= password_pair_errors(self.confirm_new_password@ == self.new_password@));
        finish(errors)
    }
}

/// The body that asks for the activation message to be sent again.
pub struct UserResendActivationHashRequest {
    pub email: String,
}

impl UserResendActivationHashRequest {
    /// Checks the body: the e-mail must be an address.
    pub fn validate(&self) -> (res: Result<(), Vec<FieldError>>)
        ensures
            outcome(when(!email_valid(self.email@), field_error("email"@, code_email(), None)), res),
    {
        let mut errors: Vec<FieldError> = Vec::new();
        let valid = check_email(self.email.as_str());
        push_if(&mut errors, !valid, "email", "email", None);
        assert(errors_view(errors@) =~= when(!email_valid(self.email@), field_error("email"@, code_email(), None)));
        finish(errors)
    }
}

/// The body that registers a user.
pub struct UserStoreRequest {
    pub name: String,
    pub email: String,
}

/// The broken rules of a registration body: the e-mail must be an address.
pub open spec fn user_store_errors(email: Seq<char>) -> Seq<FieldErrorView> {
    when(
        !email_valid(email),
        field_error("email"@, code_email(), Some("Invalid email! Insert a valid email."@)),
    )
}

impl UserStoreRequest {
    /// Checks the body: the e-mail must be an address.
    pub fn validate(&self) -> (res: Result<(), Vec<FieldError>>)
        ensures
            outcome(user_store_errors(self.email@), res),
    {
        let mut errors: Vec<FieldError> = Vec::new();
        let valid = check_email(self.email.as_str());
        push_if(&mut errors, !valid, "email", "email", Some("Invalid email! Insert a valid email."));
        assert(errors_view(errors@) =~= user_store_errors(self.email@));
        finish(errors)
    }
}

/// The body that changes a user; every field is optional.
pub struct UserUpdateRequest {
    pub name: Option<String>,
    pub email: Option<String>,
    pub confirm_new_password: Option<String>,
    pub new_password: Option<String>,
    pub old_password: Option<String>,
}

impl UserUpdateRequest {
    /// Checks the body: the new password and its confirmation must be equal
    /// (both absent counts as equal).
    pub fn validate(&self) -> (res: Result<(), Vec<FieldError>>)
        ensures
            outcome(
                password_pair_errors(opt_view(self.confirm_new_password) == opt_view(self.new_password)),
                res,
            ),
    {
        let mut errors: Vec<FieldError> = Vec::new();
        let first = check_must_match_opt(&self.confirm_new_password, &self.new_password);
        push_if(&mut errors, !first, "confirm_new_password", "must_match", Some("New password confirmation failed!"));
        let second = check_must_match_opt(&self.new_password, &self.confirm_new_password);
        push_if(&mut errors, !second, "new_password", "must_match", Some("New password confirmation failed!"));
        assert(errors_view(errors@) =~= password_pair_errors(
            opt_view(self.confirm_new_password) == opt_view(self.new_password),
        ));
        finish(errors)
    }
}

/// The broken rules of a product code: at least three characters.
pub open spec fn sku_errors(sku: Seq<char>) -> Seq<FieldErrorView> {
    when(
        !length_ok(sku.len(), Some(3), None, None),
        field_error("sku"@, code_length(), Some("SKU must be greater than 3 chars!"@)),
    )
}

fn sku_check(sku: &str) -> (res: Vec<FieldError>)
    ensures
        errors_view(res@) == sku_errors(sku@),
{
    let mut errors: Vec<FieldError> = Vec::new();
    let long_enough = check_length(sku, Some(3), None, None);
    push_if(&mut errors, !long_enough, "sku", "length", Some("SKU must be greater than 3 chars!"));
    assert(errors_view(errors@) =~= sku_errors(sku@));
    errors
}

/// The body that registers a product; the measures are `f32` bit patterns.
pub struct ProductStoreRequest {
    pub sku: String,
    pub name: String,
    pub description: String,
    pub price: u32,
    pub weight: u32,
    pub dimension_height: u32,
    pub dimension_width: u32,
    pub dimension_depth: u32,
    pub product_category_id: i32,
}

impl ProductStoreRequest {
    /// Checks the body: the product code must have at least three characters.
    pub fn validate(&self) -> (res: Result<(), Vec<FieldError>>)
        ensures
            outcome(sku_errors(self.sku@), res),
    {
        finish(sku_check(self.sku.as_str()))
    }
}

/// The body that changes a product; every field is optional and the
/// measures are `f32` bit patterns.
pub struct ProductUpdateRequest {
    pub sku: Option<String>,
    pub name: Option<String>,
    pub description: Option<String>,
    pub price: Option<u32>,
    pub weight: Option<u32>,
    pub dimension_height: Option<u32>,
    pub dimension_width: Option<u32>,
    pub dimension_depth: Option<u32>,
    pub product_category_id: Option<i32>,
}

impl ProductUpdateRequest {
    /// Checks the body: a product code, when given, must have at least three
    /// characters.
    pub fn validate(&self) -> (res: Result<(), Vec<FieldError>>)
        ensures
            outcome(
                match self.sku {
                    Some(sku) => sku_errors(sku@),
                    None => Seq::empty(),
                },
                res,
            ),
    {
        match &self.sku {
            Some(sku) => finish(sku_check(sku.as_str())),
            None => Ok(()),
        }
    }
}

} // verus!
