//! Tokens as JWTs signed with HMAC: what they claim, and when they grant a folder.
use jsonwebtoken::errors::Error as JwtError;
use vstd::prelude::*;

use crate::models::folders::PublicId;
use crate::models::time::{UtcTimestamp, MAX_UTC_SECS, MIN_UTC_SECS, NANOS_PER_SEC};
use crate::text::base64_standard_decodable;

verus! {

#[verifier::external_type_specification]
#[verifier::external_body]
pub struct ExEncodingKey(jsonwebtoken::EncodingKey);

#[verifier::external_type_specification]
#[verifier::external_body]
pub struct ExDecodingKey(jsonwebtoken::DecodingKey);

#[verifier::external_type_specification]
#[verifier::external_body]
pub struct ExJwtError(JwtError);

/// The signing key `jsonwebtoken` makes from a base64 HMAC secret.
pub uninterp spec fn encoding_key_of(secret: Seq<char>) -> jsonwebtoken::EncodingKey;

/// The checking key `jsonwebtoken` makes from a base64 HMAC secret.
pub uninterp spec fn decoding_key_of(secret: Seq<char>) -> jsonwebtoken::DecodingKey;

/// The key to sign tokens with, from `jsonwebtoken::EncodingKey::from_base64_secret`.
///
/// The crate decodes the secret with `base64`'s `STANDARD` engine and fails exactly
/// when that decoding fails; the contract states that, and names the key it makes
/// from the secret.
#[verifier::external_body]
fn encoding_key_from_base64(secret: &str) -> (r: Option<jsonwebtoken::EncodingKey>)
    ensures
        r is Some <==> base64_standard_decodable(secret@),
        r matches Some(k) ==> k == encoding_key_of(secret@),
{
    jsonwebtoken::EncodingKey::from_base64_secret(secret).ok()
}

/// The key to check tokens with, from `jsonwebtoken::DecodingKey::from_base64_secret`.
///
/// As for the encoding key, it fails exactly when `STANDARD` base64 decoding fails,
/// and the key it makes from the secret is named.
#[verifier::external_body]
fn decoding_key_from_base64(secret: &str) -> (r: Option<jsonwebtoken::DecodingKey>)
    ensures
        r is Some <==> base64_standard_decodable(secret@),
        r matches Some(k) ==> k == decoding_key_of(secret@),
{
    jsonwebtoken::DecodingKey::from_base64_secret(secret).ok()
}

/// The longest span a signed duration (`chrono::TimeDelta`) holds, either way, in
/// nanoseconds: `i64::MAX` milliseconds.
pub open spec fn max_delta_nanos() -> int {
    (i64::MAX as int) * 1_000_000
}

/// A signed span of time, as `chrono::TimeDelta` holds it: seconds, and nanoseconds
/// that are never negative.
#[derive(Copy, Clone, Debug, PartialEq, Eq, Structural)]
pub struct SignedDuration {
    pub secs: i64,
    pub nanos: u32,
}

impl SignedDuration {
    pub open spec fn wf(self) -> bool {
        &&& self.nanos < NANOS_PER_SEC
        &&& -max_delta_nanos() <= self.total_nanos() <= max_delta_nanos()
    }

    pub open spec fn total_nanos(self) -> int {
        self.secs * 1_000_000_000 + self.nanos
    }
}

/// Whether an instant, counted in nanoseconds, can be represented.
pub open spec fn representable(total_nanos: int) -> bool {
    MIN_UTC_SECS * 1_000_000_000 <= total_nanos <= MAX_UTC_SECS * 1_000_000_000 + 999_999_999
}

/// The instant `d` after `t`, or `None` when it cannot be represented: what
/// `DateTime::checked_add_signed` gives.
pub fn checked_add_signed(t: UtcTimestamp, d: SignedDuration) -> (r: Option<UtcTimestamp>)
    requires
        t.wf(),
        d.wf(),
    ensures
        r is Some <==> representable(t.total_nanos() + d.total_nanos()),
        r matches Some(u) ==> u.wf() && u.total_nanos() == t.total_nanos() + d.total_nanos(),
{
    let mut secs: i128 = t.secs as i128 + d.secs as i128;
    let mut nanos: u32 = t.nanos + d.nanos;
    if nanos >= NANOS_PER_SEC {
        nanos = nanos - NANOS_PER_SEC;
        secs = secs + 1;
    }
    assert(secs * 1_000_000_000 + nanos == t.total_nanos() + d.total_nanos()) by (nonlinear_arith)
        requires
            secs == t.secs + d.secs || secs == t.secs + d.secs + 1,
            secs == t.secs + d.secs ==> nanos == t.nanos + d.nanos,
            secs == t.secs + d.secs + 1 ==> nanos + 1_000_000_000 == t.nanos + d.nanos;
    if secs < MIN_UTC_SECS as i128 || secs > MAX_UTC_SECS as i128 {
        assert(!representable(t.total_nanos() + d.total_nanos())) by (nonlinear_arith)
            requires
                secs < MIN_UTC_SECS || secs > MAX_UTC_SECS,
                0 <= nanos < 1_000_000_000,
                secs * 1_000_000_000 + nanos == t.total_nanos() + d.total_nanos();
        None
    } else {
        assert(representable(t.total_nanos() + d.total_nanos())) by (nonlinear_arith)
            requires
                MIN_UTC_SECS <= secs <= MAX_UTC_SECS,
                0 <= nanos < 1_000_000_000,
                secs * 1_000_000_000 + nanos == t.total_nanos() + d.total_nanos();
        Some(UtcTimestamp { secs: secs as i64, nanos })
    }
}

/// A failure of the token service.
pub enum Error {
    /// The JWT library failed.
    Jwt(JwtError),
    /// The expiration time of a new token cannot be represented.
    InvalidExpires,
}

/// What a token claims: when it expires and when it was issued, in whole seconds
/// since the epoch, and the folder it grants.
pub struct ModifyFolderClaims {
    pub expiration: i64,
    pub issued_at: i64,
    pub folder: String,
}

/// Signs and checks folder tokens.
pub struct JwtTokenService {
    pub expires: SignedDuration,
    pub encoding_key: jsonwebtoken::EncodingKey,
    pub decoding_key: jsonwebtoken::DecodingKey,
}

impl JwtTokenService {
    /// A token service whose tokens live for `expires`, signed with the HMAC secret
    /// given in base64. The secret must be valid base64 (the server does not start
    /// otherwise); `try_new` checks it.
    pub fn new(expires: SignedDuration, hmac_secret: &str) -> (r: JwtTokenService)
        requires
            base64_standard_decodable(hmac_secret@),
        ensures
            r.expires == expires,
            r.encoding_key == encoding_key_of(hmac_secret@),
            r.decoding_key == decoding_key_of(hmac_secret@),
    {
        let encoding_key = encoding_key_from_base64(hmac_secret).unwrap();
        let decoding_key = decoding_key_from_base64(hmac_secret).unwrap();
        JwtTokenService { expires, encoding_key, decoding_key }
    }

    /// A token service, or `None` when the secret is not valid base64.
    pub fn try_new(expires: SignedDuration, hmac_secret: &str) -> (r: Option<JwtTokenService>)
        ensures
            r is Some <==> base64_standard_decodable(hmac_secret@),
            r matches Some(s) ==> s.expires == expires && s.encoding_key == encoding_key_of(hmac_secret@)
                && s.decoding_key == decoding_key_of(hmac_secret@),
    {
        if crate::text::base64_decodes(hmac_secret) {
            Some(JwtTokenService::new(expires, hmac_secret))
        } else {
            None
        }
    }

    /// The claims of a new token for `folder`: it expires `expires` after
    /// `now_for_expiration` and was issued at `now_for_issue` (the clock is read once
    /// for each). When the expiration cannot be represented, `InvalidExpires`.
    pub fn claims_for(&self, folder: &PublicId, now_for_expiration: UtcTimestamp, now_for_issue: UtcTimestamp) -> (r: Result<ModifyFolderClaims, Error>)
        requires
            self.expires.wf(),
            now_for_expiration.wf(),
            now_for_issue.wf(),
        ensures
            !representable(now_for_expiration.total_nanos() + self.expires.total_nanos()) ==> r matches Err(Error::InvalidExpires),
            representable(now_for_expiration.total_nanos() + self.expires.total_nanos()) ==> (r matches Ok(c) && {
                &&& c.expiration * 1_000_000_000 <= now_for_expiration.total_nanos() + self.expires.total_nanos() < c.expiration * 1_000_000_000 + 1_000_000_000
                &&& c.issued_at == now_for_issue.secs
                &&& c.folder@ == folder@
            }),
    {
        match checked_add_signed(now_for_expiration, self.expires) {
            None => Err(Error::InvalidExpires),
            Some(exp) => Ok(ModifyFolderClaims {
                expiration: exp.secs,
                issued_at: now_for_issue.secs,
                folder: folder.as_str().to_owned(),
            }),
        }
    }
}

/// Whether a token grants `folder`: it decoded and verified (its signature and
/// expiry hold), and the folder it claims is `folder`.
pub fn token_grants_folder(decoded_folder: Option<String>, folder: &PublicId) -> (r: bool)
    ensures
        r == (decoded_folder matches Some(f) && f@ == folder@),
{
    match decoded_folder {
        Some(f) => crate::text::str_eq(f.as_str(), folder.as_str()),
        None => false,
    }
}

} // verus!
