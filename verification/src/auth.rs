//! Logging in to the Angel One SmartAPI: the credentials it needs, the
//! one-time code it is sent, the request it is made of, and the rules for
//! accepting its response.

use vstd::prelude::*;
use totp_rs::{Algorithm, Secret, TOTP};
use crate::decimal::all_digits;

verus! {

/// Login endpoint of the SmartAPI.
pub const LOGIN_URL: &'static str =
    "https://apiconnect.angelone.in/rest/auth/angelbroking/user/v1/loginByPassword";

/// Digits of the one-time code.
pub const TOTP_DIGITS: usize = 6;

/// Steps of network delay the code tolerates.
pub const TOTP_SKEW: u8 = 1;

/// Seconds a one-time code is valid for.
pub const TOTP_STEP_SECS: u64 = 30;

/// The text pairs of a header list.
pub open spec fn headers_view(v: Seq<(String, String)>) -> Seq<(Seq<char>, Seq<char>)> {
    v.map_values(|p: (String, String)| (p.0@, p.1@))
}

pub(crate) fn header(name: &str, value: String) -> (h: (String, String))
    ensures
        h.0@ == name@,
        h.1@ == value@,
{
    (String::from_str(name), value)
}

/// Name for what `Secret::Encoded(text).to_bytes()` gives: the bytes of an
/// unpadded RFC 4648 base32 text, or `None` where the text is not one.
pub uninterp spec fn base32_secret(text: Seq<char>) -> Option<Seq<u8>>;

/// `totp_rs::Secret::to_bytes` on an encoded secret: decodes the text as
/// unpadded RFC 4648 base32.  Only that the outcome is a function of the
/// text is stated.
#[verifier::external_body]
fn decode_secret(text: &str) -> (r: Option<Vec<u8>>)
    ensures
        match r {
            Some(b) => base32_secret(text@) == Some(b@),
            None => base32_secret(text@) is None,
        },
{
    Secret::Encoded(text.to_string()).to_bytes().ok()
}

/// Name for the code `TOTP::generate` gives for a SHA-1 TOTP with this
/// secret, number of digits and step, at `time` seconds since the epoch.
pub uninterp spec fn totp_sha1_code(secret: Seq<u8>, digits: usize, step: u64, time: u64) -> Seq<
    char,
>;

/// `totp_rs::TOTP::new` with SHA-1, then `TOTP::generate` at `time`.
///
/// `new` refuses fewer than 6 or more than 8 digits and a secret shorter
/// than 16 bytes; otherwise `generate` gives the HOTP value of the step
/// `time / step`, written with exactly `digits` decimal digits.  The value
/// itself is left to the name `totp_sha1_code`.
#[verifier::external_body]
fn totp_generate(secret: &Vec<u8>, digits: usize, skew: u8, step: u64, time: u64) -> (r: Option<
    String,
>)
    requires
        step > 0,
    ensures
        r is Some <==> (6 <= digits <= 8 && secret.len() >= 16),
        r matches Some(code) ==> code@ == totp_sha1_code(secret@, digits, step, time)
            && code@.len() == digits && all_digits(code@),
{
    match TOTP::new(Algorithm::SHA1, digits, skew, step, secret.clone()) {
        Ok(t) => Some(t.generate(time)),
        Err(_) => None,
    }
}

/// Tokens returned by a successful login.
#[derive(Debug, Clone)]
pub struct AuthTokens {
    pub jwt_token: String,
    pub feed_token: String,
    pub refresh_token: String,
    pub api_key: String,
    pub client_id: String,
}

/// The `data` object of a login response.
#[derive(Debug, Clone)]
pub struct LoginResponseData {
    pub jwt_token: String,
    pub refresh_token: String,
    pub feed_token: String,
}

/// A decoded login response body.
#[derive(Debug, Clone)]
pub struct LoginResponse {
    pub status: bool,
    pub message: String,
    pub data: Option<LoginResponseData>,
}

/// The login credentials, as read from the environment.
#[derive(Debug, Clone)]
pub struct Credentials {
    pub client_id: String,
    pub pin: String,
    pub api_key: String,
    pub totp_secret: String,
}

/// Why the credentials could not make a login request.
#[derive(Debug, Clone, PartialEq, Eq)]
pub enum CredentialError {
    /// The named environment variable is not set.
    MissingVariable { name: String },
    /// The TOTP secret is not base32.
    SecretNotBase32,
    /// The decoded TOTP secret is too short for a TOTP.
    SecretTooShort,
}

fn require(value: Option<String>, name: &str) -> (r: Result<String, CredentialError>)
    ensures
        match value {
            Some(v) => r matches Ok(x) && x == v,
            None => r matches Err(CredentialError::MissingVariable { name: n }) && n@ == name@,
        },
{
    match value {
        Some(v) => Ok(v),
        None => Err(CredentialError::MissingVariable { name: String::from_str(name) }),
    }
}

/// Collects the credentials from the values of `ANGEL_CLIENT_ID`,
/// `ANGEL_PIN`, `ANGEL_API_KEY` and `ANGEL_TOTP_SECRET`; the first one
/// missing, in that order, is the error.
pub fn credentials_from(
    client_id: Option<String>,
    pin: Option<String>,
    api_key: Option<String>,
    totp_secret: Option<String>,
) -> (r: Result<Credentials, CredentialError>)
    ensures
        match (client_id, pin, api_key, totp_secret) {
            (None, _, _, _) => r matches Err(CredentialError::MissingVariable { name })
                && name@ == "ANGEL_CLIENT_ID"@,
            (Some(_), None, _, _) => r matches Err(CredentialError::MissingVariable { name })
                && name@ == "ANGEL_PIN"@,
            (Some(_), Some(_), None, _) => r matches Err(
                CredentialError::MissingVariable { name },
            ) && name@ == "ANGEL_API_KEY"@,
            (Some(_), Some(_), Some(_), None) => r matches Err(
                CredentialError::MissingVariable { name },
            ) && name@ == "ANGEL_TOTP_SECRET"@,
            (Some(c), Some(p), Some(k), Some(t)) => r matches Ok(x) && x.client_id == c
                && x.pin == p && x.api_key == k && x.totp_secret == t,
        },
{
    let client_id = match require(client_id, "ANGEL_CLIENT_ID") {
        Ok(v) => v,
        Err(e) => return Err(e),
    };
    let pin = match require(pin, "ANGEL_PIN") {
        Ok(v) => v,
        Err(e) => return Err(e),
    };
    let api_key = match require(api_key, "ANGEL_API_KEY") {
        Ok(v) => v,
        Err(e) => return Err(e),
    };
    let totp_secret = match require(totp_secret, "ANGEL_TOTP_SECRET") {
        Ok(v) => v,
        Err(e) => return Err(e),
    };
    Ok(Credentials { client_id, pin, api_key, totp_secret })
}

/// The one-time code of `secret_text` (base32) at `unix_secs`: a 6-digit
/// SHA-1 TOTP with 30-second steps.  Fails when the secret is not base32
/// or decodes to fewer than 16 bytes.
pub fn totp_code(secret_text: &str, unix_secs: u64) -> (r: Result<String, CredentialError>)
    ensures
        match base32_secret(secret_text@) {
            None => r matches Err(CredentialError::SecretNotBase32),
            Some(secret) => if secret.len() < 16 {
                r matches Err(CredentialError::SecretTooShort)
            } else {
                r matches Ok(code) && code@ == totp_sha1_code(
                    secret,
                    TOTP_DIGITS,
                    TOTP_STEP_SECS,
                    unix_secs,
                ) && code@.len() == 6 && all_digits(code@)
            },
        },
{
    let secret = match decode_secret(secret_text) {
        Some(b) => b,
        None => return Err(CredentialError::SecretNotBase32),
    };
    match totp_generate(&secret, TOTP_DIGITS, TOTP_SKEW, TOTP_STEP_SECS, unix_secs) {
        Some(code) => Ok(code),
        None => Err(CredentialError::SecretTooShort),
    }
}

/// A login request: where it goes, its headers and its JSON body fields.
#[derive(Debug, Clone)]
pub struct LoginRequest {
    pub url: String,
    pub headers: Vec<(String, String)>,
    pub clientcode: String,
    pub password: String,
    pub totp: String,
}

/// The headers of a login request for `api_key`.
pub open spec fn spec_login_headers(api_key: Seq<char>) -> Seq<(Seq<char>, Seq<char>)> {
    seq![
        ("Content-Type"@, "application/json"@),
        ("Accept"@, "application/json"@),
        ("X-UserType"@, "USER"@),
        ("X-SourceID"@, "WEB"@),
        ("X-ClientLocalIP"@, "127.0.0.1"@),
        ("X-ClientPublicIP"@, "127.0.0.1"@),
        ("X-MACAddress"@, "00-00-00-00-00-00"@),
        ("X-PrivateKey"@, api_key),
    ]
}

/// The login request for `creds` with the one-time code `totp`.
pub fn login_request(creds: &Credentials, totp: String) -> (r: LoginRequest)
    ensures
        r.url@ == LOGIN_URL@,
        headers_view(r.headers@) == spec_login_headers(creds.api_key@),
        r.clientcode@ == creds.client_id@,
        r.password@ == creds.pin@,
        r.totp@ == totp@,
{
    let mut h: Vec<(String, String)> = Vec::with_capacity(8);
    h.push(header("Content-Type", String::from_str("application/json")));
    h.push(header("Accept", String::from_str("application/json")));
    h.push(header("X-UserType", String::from_str("USER")));
    h.push(header("X-SourceID", String::from_str("WEB")));
    h.push(header("X-ClientLocalIP", String::from_str("127.0.0.1")));
    h.push(header("X-ClientPublicIP", String::from_str("127.0.0.1")));
    h.push(header("X-MACAddress", String::from_str("00-00-00-00-00-00")));
    h.push(header("X-PrivateKey", creds.api_key.clone()));
    assert(headers_view(h@) =~= spec_login_headers(creds.api_key@));
    LoginRequest {
        url: String::from_str(LOGIN_URL),
        headers: h,
        clientcode: creds.client_id.clone(),
        password: creds.pin.clone(),
        totp,
    }
}

/// Why a login response was not accepted.
#[derive(Debug, Clone, PartialEq, Eq)]
pub enum LoginError {
    /// The HTTP status was not a success (2xx).
    Http { status: u16 },
    /// The broker answered `status: false` with this message.
    Rejected { message: String },
    /// The broker answered `status: true` without a `data` object.
    MissingData,
}

/// An HTTP status counts as success when it is in 200..=299.
pub open spec fn spec_http_success(status: u16) -> bool {
    200 <= status && status <= 299
}

/// Whether an HTTP status is a success (2xx).
pub fn http_success(status: u16) -> (b: bool)
    ensures
        b == spec_http_success(status),
{
    200 <= status && status <= 299
}

/// Accepts a decoded login response: rejected when `status` is false,
/// failing when `data` is missing, and otherwise the session tokens together
/// with the caller's API key and client code.
pub fn accept_login(resp: LoginResponse, api_key: String, client_id: String) -> (r: Result<
    AuthTokens,
    LoginError,
>)
    ensures
        !resp.status ==> (r matches Err(LoginError::Rejected { message }) && message@
            == resp.message@),
        resp.status && resp.data is None ==> r matches Err(LoginError::MissingData),
        resp.status && resp.data is Some ==> (r matches Ok(t) && t.jwt_token@
            == resp.data->0.jwt_token@ && t.feed_token@ == resp.data->0.feed_token@
            && t.refresh_token@ == resp.data->0.refresh_token@ && t.api_key@ == api_key@
            && t.client_id@ == client_id@),
{
    if !resp.status {
        return Err(LoginError::Rejected { message: resp.message });
    }
    match resp.data {
        None => Err(LoginError::MissingData),
        Some(data) => Ok(
            AuthTokens {
                jwt_token: data.jwt_token,
                feed_token: data.feed_token,
                refresh_token: data.refresh_token,
                api_key,
                client_id,
            },
        ),
    }
}

} // verus!
