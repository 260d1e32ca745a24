//! Time-based one-time passwords (`totp-rs`), the encodings of their secrets
//! (`base64`, `base32`, stated in `encoding`) and the random material of a
//! new secret (`rand`).

use vstd::prelude::*;
use vstd::string::*;
use vstd::utf8::{encode_utf8, is_ascii_chars_encode_utf8};
use crate::config::{all_digits, digit_char, is_digit};
use crate::encoding::{base32_bytes, base32_text, base64_no_pad, lemma_base32_round_trip, lemma_base64_shape};

verus! {

/// The hash behind the codes.
pub enum TotpAlgorithm {
    Sha1,
    Sha256,
    Sha512,
}

/// How codes are made and checked: the hash, the number of digits, the
/// number of steps of clock drift allowed either way, the length of a step
/// in seconds, the raw secret, and the issuer and account shown to the user.
pub struct TotpSettings {
    pub algorithm: TotpAlgorithm,
    pub digits: usize,
    pub skew: u8,
    pub step: u64,
    pub secret: Vec<u8>,
    pub issuer: Option<String>,
    pub account_name: String,
}

/// The number that `totp-rs` draws from the HMAC of step number `counter`
/// (big-endian) under `secret`: four bytes picked by the low bits of the
/// last byte, the top bit cleared (the dynamic truncation of RFC 4226, in
/// `TOTP::generate`).
pub uninterp spec fn hotp_value(algorithm: TotpAlgorithm, secret: Seq<u8>, counter: u64) -> u32;

/// Ten to the power `n`.
pub open spec fn pow10(n: nat) -> nat
    decreases n,
{
    if n == 0 {
        1
    } else {
        10 * pow10((n - 1) as nat)
    }
}

/// The last `width` decimal digits of `v`, most significant first, with
/// leading zeros.
pub open spec fn padded_decimal(v: nat, width: nat) -> Seq<char>
    decreases width,
{
    if width == 0 {
        Seq::empty()
    } else {
        padded_decimal(v / 10, (width - 1) as nat).push(digit_char((v % 10) as int))
    }
}

/// The code of step number `counter`: the number reduced modulo ten to the
/// number of digits, written with exactly that many digits
/// (`TOTP::generate` at any instant of that step, since it signs the
/// instant divided by the step's length).
pub open spec fn totp_code(algorithm: TotpAlgorithm, digits: usize, secret: Seq<u8>, counter: u64) -> Seq<char> {
    padded_decimal(hotp_value(algorithm, secret, counter) as nat % pow10(digits as nat), digits as nat)
}

/// A code is `width` decimal digits.
pub proof fn lemma_padded_decimal(v: nat, width: nat)
    ensures
        padded_decimal(v, width).len() == width,
        all_digits(padded_decimal(v, width)),
    decreases width,
{
    if width > 0 {
        lemma_padded_decimal(v / 10, (width - 1) as nat);
        let d = (v % 10) as int;
        assert(is_digit(digit_char(d)));
    }
}

/// The QR code, as a base64 PNG, of the `otpauth://` URL of the settings, or
/// the text of the error (`TOTP::get_qr_base64`).
pub uninterp spec fn totp_qr(
    algorithm: TotpAlgorithm,
    digits: usize,
    step: u64,
    secret: Seq<u8>,
    issuer: Option<Seq<char>>,
    account_name: Seq<char>,
) -> Result<Seq<char>, Seq<char>>;

/// The rules that `TOTP::new` holds its arguments to: six to eight digits,
/// a secret of at least 128 bits, no `:` in the issuer nor in the account.
pub open spec fn totp_params_valid(
    digits: usize,
    secret: Seq<u8>,
    issuer: Option<Seq<char>>,
    account_name: Seq<char>,
) -> bool {
    &&& 6 <= digits <= 8
    &&& secret.len() >= 16
    &&& (issuer matches Some(i) ==> !i.contains(':'))
    &&& !account_name.contains(':')
}

/// The issuer of the settings, as text.
pub open spec fn issuer_view(s: TotpSettings) -> Option<Seq<char>> {
    match s.issuer {
        Some(i) => Some(i@),
        None => None,
    }
}

/// The settings satisfy the rules of `TOTP::new`.
pub open spec fn totp_settings_valid(s: TotpSettings) -> bool {
    totp_params_valid(s.digits, s.secret@, issuer_view(s), s.account_name@)
}

/// Step number `i` of the window that `TOTP::check` looks at for `time`:
/// `skew` steps before the step of `time` up to `skew` steps after it.
pub open spec fn window_step(step: u64, skew: u8, time: u64, i: int) -> u64 {
    (time / step - skew + i) as u64
}

/// Whether `TOTP::check` accepts `token` at `time`: it equals the code of the
/// step of `time` or of one of the `skew` steps either side of it.
pub open spec fn totp_accepts_token(
    algorithm: TotpAlgorithm,
    digits: usize,
    skew: u8,
    step: u64,
    secret: Seq<u8>,
    token: Seq<char>,
    time: u64,
) -> bool {
    exists|i: int|
        0 <= i < 2 * skew + 1 && #[trigger] totp_code(algorithm, digits, secret, window_step(step, skew, time, i))
            == token
}

/// `TOTP::check` can be asked at `time` without overflow: the earliest step
/// checked is not before the epoch, the start of the latest fits in a `u64`,
/// and the codes have one to nine digits (ten to their number fits in a
/// `u32`).
pub open spec fn check_time_in_range(digits: usize, skew: u8, step: u64, time: u64) -> bool {
    &&& step > 0
    &&& skew <= time / step
    &&& (time / step + skew) * step <= u64::MAX
    &&& 1 <= digits <= 9
}

/// Whether `TOTP::new` accepts the settings (its checks of the digits, the
/// secret's length, the issuer and the account).
#[verifier::external_body]
pub(crate) fn totp_accepts(s: &TotpSettings) -> (res: bool)
    ensures
        res == totp_settings_valid(*s),
{
    let algorithm = match s.algorithm { TotpAlgorithm::Sha1 => totp_rs::Algorithm::SHA1, TotpAlgorithm::Sha256 => totp_rs::Algorithm::SHA256, TotpAlgorithm::Sha512 => totp_rs::Algorithm::SHA512 };
    let (secret, issuer, account) = (s.secret.clone(), s.issuer.clone(), s.account_name.clone());
    totp_rs::TOTP::new(algorithm, s.digits, s.skew, s.step, secret, issuer, account).is_ok()
}

/// `TOTP::check(token, time)`: the token equals the code of one of the steps
/// within the allowed drift of `time`. `check` generates the code of each
/// instant `(time / step - skew + i) * step`, which `generate` signs as step
/// number `time / step - skew + i`, and compares it with the token.
#[verifier::external_body]
pub(crate) fn totp_check(s: &TotpSettings, token: &str, time: u64) -> (res: bool)
    requires
        check_time_in_range(s.digits, s.skew, s.step, time),
    ensures
        res == (exists|i: int|
            0 <= i < 2 * s.skew + 1 && #[trigger] padded_decimal(
                hotp_value(s.algorithm, s.secret@, window_step(s.step, s.skew, time, i)) as nat % pow10(
                    s.digits as nat,
                ),
                s.digits as nat,
            ) == token@),
        res == totp_accepts_token(s.algorithm, s.digits, s.skew, s.step, s.secret@, token@, time),
{
    let algorithm = match s.algorithm { TotpAlgorithm::Sha1 => totp_rs::Algorithm::SHA1, TotpAlgorithm::Sha256 => totp_rs::Algorithm::SHA256, TotpAlgorithm::Sha512 => totp_rs::Algorithm::SHA512 };
    let (secret, issuer, account) = (s.secret.clone(), s.issuer.clone(), s.account_name.clone());
    totp_rs::TOTP::new_unchecked(algorithm, s.digits, s.skew, s.step, secret, issuer, account).check(token, time)
}

/// `TOTP::get_secret_base32`: the secret in base32 without padding.
#[verifier::external_body]
pub(crate) fn totp_secret_base32(s: &TotpSettings) -> (res: String)
    ensures
        res@ == base32_text(s.secret@),
{
    let algorithm = match s.algorithm { TotpAlgorithm::Sha1 => totp_rs::Algorithm::SHA1, TotpAlgorithm::Sha256 => totp_rs::Algorithm::SHA256, TotpAlgorithm::Sha512 => totp_rs::Algorithm::SHA512 };
    let (secret, issuer, account) = (s.secret.clone(), s.issuer.clone(), s.account_name.clone());
    totp_rs::TOTP::new_unchecked(algorithm, s.digits, s.skew, s.step, secret, issuer, account).get_secret_base32()
}

/// `TOTP::get_qr_base64`: the QR code of the settings' URL.
#[verifier::external_body]
pub(crate) fn totp_qr_base64(s: &TotpSettings) -> (res: Result<String, String>)
    ensures
        (match res {
            Ok(q) => Ok(q@),
            Err(e) => Err(e@),
        }) == totp_qr(s.algorithm, s.digits, s.step, s.secret@, issuer_view(*s), s.account_name@),
{
    let algorithm = match s.algorithm { TotpAlgorithm::Sha1 => totp_rs::Algorithm::SHA1, TotpAlgorithm::Sha256 => totp_rs::Algorithm::SHA256, TotpAlgorithm::Sha512 => totp_rs::Algorithm::SHA512 };
    let (secret, issuer, account) = (s.secret.clone(), s.issuer.clone(), s.account_name.clone());
    totp_rs::TOTP::new_unchecked(algorithm, s.digits, s.skew, s.step, secret, issuer, account).get_qr_base64()
}

/// `BASE64_STANDARD_NO_PAD.encode(data)`.
#[verifier::external_body]
pub(crate) fn encode_base64_no_pad(data: &[u8]) -> (res: String)
    ensures
        res@ == base64_no_pad(data@),
{
    base64::Engine::encode(&base64::prelude::BASE64_STANDARD_NO_PAD, data)
}

/// `base32::encode` with the RFC 4648 alphabet, without padding.
#[verifier::external_body]
pub(crate) fn encode_base32(data: &[u8]) -> (res: String)
    ensures
        res@ == base32_text(data@),
{
    base32::encode(base32::Alphabet::Rfc4648 { padding: false }, data)
}

/// `base32::decode` with the RFC 4648 alphabet, without padding (what
/// `Secret::to_bytes` does with an encoded secret).
#[verifier::external_body]
pub(crate) fn decode_base32(text: &str) -> (res: Option<Vec<u8>>)
    ensures
        (match res {
            Some(b) => Some(b@),
            None => None,
        }) == base32_bytes(text@),
{
    base32::decode(base32::Alphabet::Rfc4648 { padding: false }, text)
}

/// Thirty-two bytes from the thread's random generator (`rand::rng().fill`);
/// nothing is claimed of their values.
#[verifier::external_body]
pub(crate) fn random_bytes() -> (res: Vec<u8>)
    ensures
        res@.len() == 32,
{
    let mut bytes = [0u8; 32];
    rand::Rng::fill(&mut rand::rng(), &mut bytes);
    bytes.to_vec()
}

/// Digits of the API's codes.
pub const TOTP_DIGITS: usize = 6;

/// Steps of clock drift that the API tolerates either way.
pub const TOTP_SKEW: u8 = 1;

/// Seconds per step of the API's codes.
pub const TOTP_STEP: u64 = 30;

/// The API's settings for `secret`: SHA-512, six digits, one step of drift,
/// thirty-second steps, the API's name as issuer and the user's e-mail as
/// account.
pub open spec fn is_api_settings(s: TotpSettings, secret: Seq<u8>, app_name: Seq<char>, account: Seq<char>) -> bool {
    &&& s.algorithm == TotpAlgorithm::Sha512
    &&& s.digits == TOTP_DIGITS
    &&& s.skew == TOTP_SKEW
    &&& s.step == TOTP_STEP
    &&& s.secret@ == secret
    &&& issuer_view(s) == Some(app_name)
    &&& s.account_name@ == account
}

/// Builds the API's settings for `secret`.
pub fn api_totp_settings(secret: Vec<u8>, app_name: &str, account: &str) -> (res: TotpSettings)
    ensures
        is_api_settings(res, secret@, app_name@, account@),
{
    TotpSettings {
        algorithm: TotpAlgorithm::Sha512,
        digits: TOTP_DIGITS,
        skew: TOTP_SKEW,
        step: TOTP_STEP,
        secret,
        issuer: Some(String::from_str(app_name)),
        account_name: String::from_str(account),
    }
}

/// The clock readings at which the API can check a code.
pub open spec fn check_time_ok(now_secs: u64) -> bool {
    TOTP_STEP <= now_secs <= u64::MAX - TOTP_STEP
}

/// Checking `code` against the stored base32 secret at `now_secs`: `None`
/// where the secret does not decode, `TOTP::new` refuses the settings or the
/// clock is out of the range that `TOTP::check` can work in, otherwise
/// whether `TOTP::check` accepts the code.
pub open spec fn second_factor_verdict(
    secret_text: Seq<char>,
    app_name: Seq<char>,
    account: Seq<char>,
    code: Seq<char>,
    now_secs: u64,
) -> Option<bool> {
    match base32_bytes(secret_text) {
        None => None,
        Some(secret) => if !totp_params_valid(TOTP_DIGITS, secret, Some(app_name), account) {
            None
        } else if !check_time_ok(now_secs) {
            None
        } else {
            Some(
                totp_accepts_token(
                    TotpAlgorithm::Sha512,
                    TOTP_DIGITS,
                    TOTP_SKEW,
                    TOTP_STEP,
                    secret,
                    code,
                    now_secs,
                ),
            )
        },
    }
}

/// Checks a second-factor code against a stored secret (base32 without
/// padding), as the API's settings do; `None` where the stored secret does
/// not decode, the settings are refused or the clock is out of range.
pub fn check_second_factor(secret_text: &str, app_name: &str, account: &str, code: &str, now_secs: u64) -> (res: Option<bool>)
    ensures
        res == second_factor_verdict(secret_text@, app_name@, account@, code@, now_secs),
{
    match decode_base32(secret_text) {
        None => None,
        Some(secret) => {
            let settings = api_totp_settings(secret, app_name, account);
            if !totp_accepts(&settings) {
                None
            } else if now_secs < TOTP_STEP || now_secs > u64::MAX - TOTP_STEP {
                None
            } else {
                assert((now_secs / 30 + 1) * 30 <= now_secs + 30) by (nonlinear_arith);
                Some(totp_check(&settings, code, now_secs))
            }
        },
    }
}

/// A second factor being set up: the QR code to scan and the setup key.
pub struct TwoFactorSetup {
    pub qrcode: String,
    pub setup_key: String,
}

/// The setup that random bytes `random` give: their base64 text (no
/// padding) is written in base32 (no padding), that text is read back as a
/// secret in base32, and the QR code and the base32 key of that secret are
/// shown; `None` where a step fails.
pub open spec fn setup_from_random(random: Seq<u8>, app_name: Seq<char>, account: Seq<char>) -> Option<(Seq<char>, Seq<char>)> {
    let text = base32_text(encode_utf8(base64_no_pad(random)));
    match base32_bytes(text) {
        None => None,
        Some(secret) => if !totp_params_valid(TOTP_DIGITS, secret, Some(app_name), account) {
            None
        } else {
            match totp_qr(TotpAlgorithm::Sha512, TOTP_DIGITS, TOTP_STEP, secret, Some(app_name), account) {
                Err(_) => None,
                Ok(qr) => Some((qr, base32_text(secret))),
            }
        },
    }
}

/// The setup key decodes to a secret that the API's settings accept.
pub open spec fn key_holds_valid_secret(key: Seq<char>, app_name: Seq<char>, account: Seq<char>) -> bool {
    match base32_bytes(key) {
        Some(secret) => totp_params_valid(TOTP_DIGITS, secret, Some(app_name), account),
        None => false,
    }
}

/// Derives the setup of a second factor from random bytes.
pub fn two_factor_setup_from(random: &[u8], app_name: &str, account: &str) -> (res: Option<TwoFactorSetup>)
    ensures
        match res {
            Some(s) => setup_from_random(random@, app_name@, account@) == Some((s.qrcode@, s.setup_key@)),
            None => setup_from_random(random@, app_name@, account@) is None,
        },
        res matches Some(s) ==> key_holds_valid_secret(s.setup_key@, app_name@, account@),
{
    let random_code = encode_base64_no_pad(random);
    let text = encode_base32(random_code.as_str().as_bytes());
    match decode_base32(text.as_str()) {
        None => None,
        Some(secret) => {
            let settings = api_totp_settings(secret, app_name, account);
            if !totp_accepts(&settings) {
                return None;
            }
            match totp_qr_base64(&settings) {
                Err(_) => None,
                Ok(qrcode) => {
                    let setup_key = totp_secret_base32(&settings);
                    proof {
                        lemma_base32_round_trip(settings.secret@);
                    }
                    Some(TwoFactorSetup { qrcode, setup_key })
                },
            }
        },
    }
}

/// A new second factor for `account`: thirty-two random bytes, then as
/// `two_factor_setup_from` derives it. What the bytes are is not known, so
/// only this holds of every outcome: the setup is the one derived from some
/// thirty-two bytes.
pub fn new_two_factor_setup(app_name: &str, account: &str) -> (res: Option<TwoFactorSetup>)
    ensures
        exists|random: Seq<u8>|
            random.len() == 32 && match res {
                Some(s) => setup_from_random(random, app_name@, account@) == Some((s.qrcode@, s.setup_key@)),
                None => setup_from_random(random, app_name@, account@) is None,
            },
{
    let random = random_bytes();
    let bytes = random.as_slice();
    let res = two_factor_setup_from(bytes, app_name, account);
    assert(bytes@ == random@);
    res
}

/// The secret of the setup that random bytes give: the bytes of their
/// base64 text.
pub open spec fn setup_secret(random: Seq<u8>) -> Seq<u8> {
    encode_utf8(base64_no_pad(random))
}

/// Enabling the second factor works: for thirty-two random bytes, an API
/// name and an account without `:`, the setup is made whenever the QR code
/// of its URL can be drawn, and its key is the base32 text of the secret,
/// the forty-three bytes of the random bytes' base64 text.
pub proof fn setup_is_made(random: Seq<u8>, app_name: Seq<char>, account: Seq<char>)
    requires
        random.len() == 32,
        !app_name.contains(':'),
        !account.contains(':'),
        totp_qr(TotpAlgorithm::Sha512, TOTP_DIGITS, TOTP_STEP, setup_secret(random), Some(app_name), account) is Ok,
    ensures
        setup_secret(random).len() == 43,
        setup_from_random(random, app_name, account) == Some(
            (
                totp_qr(
                    TotpAlgorithm::Sha512,
                    TOTP_DIGITS,
                    TOTP_STEP,
                    setup_secret(random),
                    Some(app_name),
                    account,
                )->Ok_0,
                base32_text(setup_secret(random)),
            ),
        ),
{
    let text = base64_no_pad(random);
    lemma_base64_shape(random);
    is_ascii_chars_encode_utf8(text);
    lemma_base32_round_trip(setup_secret(random));
}

} // verus!
