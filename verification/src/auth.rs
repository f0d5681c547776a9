use vstd::prelude::*;
use vstd::utf8::encode_utf8;

use crate::config::CameraConfig;
use crate::error::OnvifError;
use crate::encoding::{base64_encode, base64_standard, concat_bytes, sha1, sha1_digest};
use crate::soap::{envelope_text, soap_envelope};

verus! {

/// Number of random bytes in the nonce of each request.
pub const NONCE_LEN: usize = 16;

/// How the creation time of a request is written (UTC, second precision).
pub const CREATED_FORMAT: &'static str = "%Y-%m-%dT%H:%M:%SZ";

pub const SECURITY_OPEN: &'static str = "\n            <wsse:Security\n              xmlns:wsse=\"http://docs.oasis-open.org/wss/2004/01/oasis-200401-wss-wssecurity-secext-1.0.xsd\"\n              xmlns:wsu=\"http://docs.oasis-open.org/wss/2004/01/oasis-200401-wss-wssecurity-utility-1.0.xsd\">\n              <wsse:UsernameToken>\n                <wsse:Username>";
pub const SECURITY_PASSWORD: &'static str = "</wsse:Username>\n                <wsse:Password Type=\"http://docs.oasis-open.org/wss/2004/01/oasis-200401-wss-username-token-profile-1.0#PasswordDigest\">";
pub const SECURITY_NONCE: &'static str = "</wsse:Password>\n                <wsse:Nonce EncodingType=\"http://docs.oasis-open.org/wss/2004/01/oasis-200401-wss-soap-message-security-1.0#Base64Binary\">";
pub const SECURITY_CREATED: &'static str = "</wsse:Nonce>\n                <wsu:Created>";
pub const SECURITY_CLOSE: &'static str = "</wsu:Created>\n              </wsse:UsernameToken>\n            </wsse:Security>\n            ";

/// The WS-Security password digest: `Base64(SHA-1(nonce + created + password))`,
/// with `created` and `password` taken as their UTF-8 bytes.
pub open spec fn password_digest(nonce: Seq<u8>, created: Seq<char>, password: Seq<char>) -> Seq<char> {
    base64_encode(sha1_digest(nonce + encode_utf8(created) + encode_utf8(password)))
}

/// The WS-Security `UsernameToken` header for `user`, whose password digest is
/// computed from `nonce`, `created` and `password`; the nonce travels Base64
/// encoded.
pub open spec fn auth_header_text(
    user: Seq<char>,
    password: Seq<char>,
    nonce: Seq<u8>,
    created: Seq<char>,
) -> Seq<char> {
    SECURITY_OPEN@ + user + SECURITY_PASSWORD@ + password_digest(nonce, created, password)
        + SECURITY_NONCE@ + base64_encode(nonce) + SECURITY_CREATED@ + created + SECURITY_CLOSE@
}

/// Seconds from the Unix epoch to 10000-01-01T00:00:00Z: every instant before
/// it has a four-digit year.
pub const YEAR_10000_SECS: i64 = 253402300800;

/// The creation-time text chrono writes for `secs` seconds after the Unix
/// epoch with `CREATED_FORMAT`, or `None` where chrono has no date for them.
pub uninterp spec fn utc_text(secs: i64) -> Option<Seq<char>>;

pub open spec fn is_digit(c: char) -> bool {
    '0' <= c <= '9'
}

/// `text` has the form `YYYY-MM-DDTHH:MM:SSZ`.
pub open spec fn is_created_form(text: Seq<char>) -> bool {
    &&& text.len() == 20
    &&& forall|i: int| 0 <= i < 20 && i != 4 && i != 7 && i != 10 && i != 13 && i != 16 && i != 19
        ==> is_digit(#[trigger] text[i])
    &&& text[4] == '-' && text[7] == '-'
    &&& text[10] == 'T'
    &&& text[13] == ':' && text[16] == ':'
    &&& text[19] == 'Z'
}

/// `created` is the text of some instant at or after the Unix epoch; before
/// the year 10000 it has the form `YYYY-MM-DDTHH:MM:SSZ`.
pub open spec fn is_creation_time(created: Seq<char>) -> bool {
    exists|secs: i64|
        0 <= secs && #[trigger] utc_text(secs) == Some(created) && (secs < YEAR_10000_SECS ==> is_created_form(created))
}

/// `header` is a `UsernameToken` header for `user` and `password` with some
/// nonce of `NONCE_LEN` bytes and some creation time.
pub open spec fn is_auth_header_for(user: Seq<char>, password: Seq<char>, header: Seq<char>) -> bool {
    exists|nonce: Seq<u8>, created: Seq<char>|
        nonce.len() == NONCE_LEN && is_creation_time(created)
            && header == #[trigger] auth_header_text(user, password, nonce, created)
}

/// `envelope` is a SOAP envelope around `body` that carries a `UsernameToken`
/// header for `user` and `password`.
pub open spec fn is_envelope_for(user: Seq<char>, password: Seq<char>, body: Seq<char>, envelope: Seq<char>) -> bool {
    exists|header: Seq<char>|
        is_auth_header_for(user, password, header) && envelope == #[trigger] envelope_text(header, body)
}

/// The error comes from the machine: the random source or the clock.
pub open spec fn is_environment_error(e: OnvifError) -> bool {
    e is RandomSourceFailed || e is ClockUnavailable
}

/// Calls `rand::TryRng::try_fill_bytes` on `rand::rngs::SysRng` (the
/// operating system's random source) for 16 bytes. `None` where the source
/// fails; otherwise nothing is claimed of the bytes but their number.
#[verifier::external_body]
fn random_nonce() -> (nonce: Option<Vec<u8>>)
    ensures
        nonce matches Some(n) ==> n@.len() == NONCE_LEN,
{
    let mut bytes = [0u8; 16];
    rand::TryRng::try_fill_bytes(&mut rand::rngs::SysRng, &mut bytes).ok().map(|_| bytes.to_vec())
}

/// Calls `SystemTime::elapsed` on `std::time::UNIX_EPOCH` (the time from the
/// epoch to now) and keeps its whole seconds. `None` where the clock is set
/// before the epoch. The value rests on the clock, so nothing is claimed of
/// it.
#[verifier::external_body]
fn seconds_since_epoch() -> (secs: Option<u64>) {
    std::time::UNIX_EPOCH.elapsed().ok().map(|d| d.as_secs())
}

/// Calls `chrono::DateTime::from_timestamp(secs, 0)` and writes the instant
/// with `format` through `DateTime::format` and `to_string`. The result is
/// named as a function of `secs`; the format is required to be the one the
/// library uses, which chrono accepts. chrono documents `from_timestamp` as
/// `None` only out of its range, and `%Y`, `%m`, `%d`, `%H`, `%M`, `%S` as
/// zero-padded to four and two digits for the years 1 to 9999, so every
/// instant from the epoch to the year 10000 gets the form
/// `YYYY-MM-DDTHH:MM:SSZ`.
#[verifier::external_body]
fn format_utc(secs: i64, format: &str) -> (text: Option<String>)
    requires
        format@ == CREATED_FORMAT@,
    ensures
        match text {
            Some(t) => utc_text(secs) == Some(t@),
            None => utc_text(secs) is None,
        },
        0 <= secs < YEAR_10000_SECS ==> text is Some,
        text matches Some(t) ==> (0 <= secs < YEAR_10000_SECS ==> is_created_form(t@)),
{
    chrono::DateTime::from_timestamp(secs, 0).map(|t| t.format(format).to_string())
}

/// The creation time written for `secs` seconds after the Unix epoch:
/// chrono's text for that instant, or `ClockUnavailable` where `secs` does
/// not fit in `i64` or chrono has no date for it. Every instant before the
/// year 10000 gets a text of the form `YYYY-MM-DDTHH:MM:SSZ`.
pub fn creation_time(secs: u64) -> (res: Result<String, OnvifError>)
    ensures
        match res {
            Ok(t) => secs <= i64::MAX && utc_text(secs as i64) == Some(t@),
            Err(e) => e is ClockUnavailable && (secs > i64::MAX || utc_text(secs as i64) is None),
        },
        secs < YEAR_10000_SECS ==> (res matches Ok(t) && is_created_form(t@)),
{
    if secs > 9223372036854775807u64 {
        return Err(OnvifError::ClockUnavailable);
    }
    match format_utc(secs as i64, CREATED_FORMAT) {
        Some(text) => Ok(text),
        None => Err(OnvifError::ClockUnavailable),
    }
}

/// The current time as the creation time of a request.
pub fn utc_now_created() -> (created: Result<String, OnvifError>)
    ensures
        match created {
            Ok(t) => is_creation_time(t@),
            Err(e) => e is ClockUnavailable,
        },
{
    let secs = match seconds_since_epoch() {
        Some(secs) => secs,
        None => return Err(OnvifError::ClockUnavailable),
    };
    let created = creation_time(secs);
    if let Ok(t) = &created {
        assert(utc_text(secs as i64) == Some(t@));
    }
    created
}

/// The `UsernameToken` header for `user` and `password` with the given nonce
/// and creation time.
pub fn auth_header_with(user: &str, password: &str, nonce: &[u8], created: &str) -> (header: String)
    requires
        4 * ((nonce@.len() + 2) / 3) <= usize::MAX,
    ensures
        header@ == auth_header_text(user@, password@, nonce@, created@),
{
    let with_created = concat_bytes(nonce, created.as_bytes());
    let message = concat_bytes(with_created.as_slice(), password.as_bytes());
    let hash = sha1(message.as_slice());
    let digest = base64_standard(hash.as_slice());
    let nonce_base64 = base64_standard(nonce);
    let mut text = String::from_str(SECURITY_OPEN);
    text.append(user);
    text.append(SECURITY_PASSWORD);
    text.append(digest.as_str());
    text.append(SECURITY_NONCE);
    text.append(nonce_base64.as_str());
    text.append(SECURITY_CREATED);
    text.append(created);
    text.append(SECURITY_CLOSE);
    text
}

/// What the machine supplied for authenticating one request: the nonce
/// bytes (`None` where the random source failed) and the whole seconds since
/// the Unix epoch (`None` where the clock failed).
#[derive(Debug)]
pub struct RequestEntropy {
    pub nonce: Option<Vec<u8>>,
    pub secs: Option<u64>,
}

/// The creation time written for `secs` seconds after the epoch, where there
/// is one.
pub open spec fn clock_text(secs: u64) -> Option<Seq<char>> {
    if secs <= i64::MAX {
        utc_text(secs as i64)
    } else {
        None
    }
}

/// The nonce and creation time that `entropy` gives a request, or the error
/// that stops it: a failed random source first, then a failed clock.
pub open spec fn entropy_stamp(entropy: RequestEntropy) -> Result<(Seq<u8>, Seq<char>), OnvifError> {
    match entropy.nonce {
        None => Err(OnvifError::RandomSourceFailed),
        Some(nonce) => match entropy.secs {
            None => Err(OnvifError::ClockUnavailable),
            Some(secs) => match clock_text(secs) {
                None => Err(OnvifError::ClockUnavailable),
                Some(created) => Ok((nonce@, created)),
            },
        },
    }
}

/// The random source gave a nonce and the clock gave a time that can be
/// written.
pub open spec fn entropy_works(entropy: RequestEntropy) -> bool {
    &&& entropy.nonce is Some
    &&& entropy.secs matches Some(secs) && clock_text(secs) is Some
}

/// The nonce is short enough for its Base64 text to fit in memory.
pub open spec fn entropy_fits(entropy: RequestEntropy) -> bool {
    entropy.nonce matches Some(n) ==> 4 * ((n@.len() + 2) / 3) <= usize::MAX
}

/// `res` is the `UsernameToken` header for `user` and `password` stamped
/// with what `entropy` gives, or the error `entropy` gives.
pub open spec fn header_result(
    user: Seq<char>,
    password: Seq<char>,
    entropy: RequestEntropy,
    res: Result<String, OnvifError>,
) -> bool {
    match entropy_stamp(entropy) {
        Err(error) => res == Err::<String, OnvifError>(error),
        Ok((nonce, created)) => res matches Ok(header) && header@ == auth_header_text(user, password, nonce, created)
            && is_creation_time(created),
    }
}

/// `res` is the envelope around `body` with the header that `entropy`
/// stamps for `user` and `password`, or the error `entropy` gives.
pub open spec fn envelope_result(
    user: Seq<char>,
    password: Seq<char>,
    body: Seq<char>,
    entropy: RequestEntropy,
    res: Result<String, OnvifError>,
) -> bool {
    match entropy_stamp(entropy) {
        Err(error) => res == Err::<String, OnvifError>(error),
        Ok((nonce, created)) => res matches Ok(envelope)
            && envelope@ == envelope_text(auth_header_text(user, password, nonce, created), body)
            && is_creation_time(created),
    }
}

impl RequestEntropy {
    /// Draws a fresh nonce from the random source and reads the clock.
    pub fn draw() -> (entropy: RequestEntropy)
        ensures
            entropy.nonce matches Some(n) ==> n@.len() == NONCE_LEN,
    {
        let nonce = random_nonce();
        let secs = seconds_since_epoch();
        RequestEntropy { nonce, secs }
    }
}

/// The `UsernameToken` header for the camera's user, stamped with what
/// `entropy` supplies.
pub fn build_auth_header_with_entropy(camera_config: &CameraConfig, entropy: &RequestEntropy) -> (res: Result<String, OnvifError>)
    requires
        entropy_fits(*entropy),
    ensures
        header_result(camera_config.user@, camera_config.password@, *entropy, res),
{
    let nonce = match &entropy.nonce {
        Some(nonce) => nonce,
        None => return Err(OnvifError::RandomSourceFailed),
    };
    let secs = match entropy.secs {
        Some(secs) => secs,
        None => return Err(OnvifError::ClockUnavailable),
    };
    let created = match creation_time(secs) {
        Ok(created) => created,
        Err(_) => return Err(OnvifError::ClockUnavailable),
    };
    assert(clock_text(secs) == Some(created@));
    assert(0 <= secs as i64 && utc_text(secs as i64) == Some(created@)
        && ((secs as i64) < YEAR_10000_SECS ==> is_created_form(created@)));
    assert(is_creation_time(created@));
    let header = auth_header_with(
        camera_config.user.as_str(),
        camera_config.password.as_str(),
        nonce.as_slice(),
        created.as_str(),
    );
    Ok(header)
}

/// The SOAP envelope around `body`, authenticated as the camera's user with
/// what `entropy` supplies.
pub fn build_soap_envelope_with_entropy(
    camera_config: &CameraConfig,
    body: String,
    entropy: &RequestEntropy,
) -> (res: Result<String, OnvifError>)
    requires
        entropy_fits(*entropy),
    ensures
        envelope_result(camera_config.user@, camera_config.password@, body@, *entropy, res),
{
    let header = build_auth_header_with_entropy(camera_config, entropy)?;
    let envelope = soap_envelope(header.as_str(), body.as_str());
    Ok(envelope)
}

/// A `UsernameToken` header for the camera's user, with a fresh random nonce
/// and the current time; it fails only where the random source or the clock
/// does.
pub fn build_auth_header(camera_config: &CameraConfig) -> (res: Result<String, OnvifError>)
    ensures
        match res {
            Ok(header) => is_auth_header_for(camera_config.user@, camera_config.password@, header@),
            Err(e) => is_environment_error(e),
        },
{
    let entropy = RequestEntropy::draw();
    let res = build_auth_header_with_entropy(camera_config, &entropy);
    proof {
        if let Ok((nonce, created)) = entropy_stamp(entropy) {
            assert(nonce.len() == NONCE_LEN);
        }
    }
    res
}

/// The SOAP envelope around `body`, authenticated as the camera's user; it
/// fails only where the random source or the clock does.
pub fn build_soap_envelope(camera_config: &CameraConfig, body: String) -> (res: Result<String, OnvifError>)
    ensures
        match res {
            Ok(envelope) => is_envelope_for(camera_config.user@, camera_config.password@, body@, envelope@),
            Err(e) => is_environment_error(e),
        },
{
    let entropy = RequestEntropy::draw();
    let res = build_soap_envelope_with_entropy(camera_config, body, &entropy);
    proof {
        if let Ok((nonce, created)) = entropy_stamp(entropy) {
            assert(nonce.len() == NONCE_LEN);
            let header = auth_header_text(camera_config.user@, camera_config.password@, nonce, created);
            assert(is_auth_header_for(camera_config.user@, camera_config.password@, header));
        }
    }
    res
}

} // verus!
