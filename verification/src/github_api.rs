//! The GitHub App identity and the data carried to and from GitHub's API.
//!
//! The client holds the App id and private key and issues the short-lived
//! signed assertions used to mint installation tokens.  The HTTP transport
//! itself lives outside the library; the types here carry its requests and
//! responses as plain values.

use vstd::prelude::*;

verus! {

/// Expiry time for a signed assertion in seconds, well under the ten-minute
/// ceiling GitHub imposes.
pub const EXPIRY_SECONDS: u64 = 60;

#[verifier::external_type_specification]
#[verifier::external_body]
pub struct ExJwtError(jsonwebtoken::errors::Error);

/// What can go wrong talking to GitHub: bad key material when signing, or a
/// transport failure, carried as the transport's own message.
#[derive(Debug)]
pub enum ApiError {
    JwtError(jsonwebtoken::errors::Error),
    NetworkError(String),
}

/// The claim set of one signed assertion.
pub struct Claims {
    pub iat: u64,
    pub exp: u64,
    pub iss: u64,
}

/// The expiry written into claims issued at `now`, saturating at the top of
/// the clock's range.
pub open spec fn claims_exp(now: u64) -> u64 {
    if now <= u64::MAX - EXPIRY_SECONDS {
        (now + EXPIRY_SECONDS) as u64
    } else {
        u64::MAX
    }
}

impl Claims {
    /// Fresh claims for one token exchange: issued at `now`, expiring
    /// `EXPIRY_SECONDS` later, naming the App as issuer.
    pub fn new(app_id: u64, now: u64) -> (c: Claims)
        ensures
            c.iat == now,
            c.exp == claims_exp(now),
            c.iss == app_id,
    {
        let exp = if now <= u64::MAX - EXPIRY_SECONDS {
            now + EXPIRY_SECONDS
        } else {
            u64::MAX
        };
        Claims { iat: now, exp, iss: app_id }
    }
}

/// The RS256-signed assertion for the claim set `{iat, exp, iss}` under the
/// given DER-encoded RSA key: a fixed function of the claims and the key.
pub uninterp spec fn signed_assertion_of(iat: u64, exp: u64, iss: u64, key: Seq<u8>) -> Seq<char>;

/// The modulus length in bytes of RSA key material in PKCS#1 DER form, when
/// the bytes parse as such a key: a fixed function of the bytes.
pub uninterp spec fn rsa_der_modulus_len(key: Seq<u8>) -> Option<usize>;

/// The smallest modulus RS256 can sign with: the 51 bytes of a padded
/// SHA-256 digest plus the 11 bytes PKCS#1 v1.5 padding demands.
pub const MIN_RSA_MODULUS_BYTES: usize = 62;

/// Key material the RS256 signer accepts: it parses as a PKCS#1 DER
/// private key whose modulus is large enough to carry the signature.
pub open spec fn rsa_key_usable(key: Seq<u8>) -> bool {
    match rsa_der_modulus_len(key) {
        Some(n) => n >= MIN_RSA_MODULUS_BYTES,
        None => false,
    }
}

/// Relies on `rsa::RsaPrivateKey::from_pkcs1_der` and
/// `rsa::traits::PublicKeyParts::size` — the very parse the signing backend
/// performs on the same bytes: the key's modulus length, when the bytes
/// parse.
#[verifier::external_body]
fn rsa_modulus_len(key: &Vec<u8>) -> (r: Option<usize>)
    ensures
        r == rsa_der_modulus_len(key@),
{
    <rsa::RsaPrivateKey as rsa::pkcs1::DecodeRsaPrivateKey>::from_pkcs1_der(key).ok().map(
        |k| rsa::traits::PublicKeyParts::size(&k),
    )
}

/// Relies on `jsonwebtoken::errors::new_error`: an error value for key
/// material the signer cannot use.
#[verifier::external_body]
fn jwt_invalid_key_error() -> (r: jsonwebtoken::errors::Error) {
    jsonwebtoken::errors::new_error(jsonwebtoken::errors::ErrorKind::InvalidKeyFormat)
}

/// Relies on `jsonwebtoken::encode` with `Header::new(Algorithm::RS256)` and
/// `EncodingKey::from_rsa_der`: RSASSA-PKCS1-v1_5 signing is deterministic,
/// so a successful result is the one assertion for these claims and this
/// key.  Whether the call succeeds depends on the key material alone —
/// claim serialization cannot fail, and the error path is the key failing
/// to parse as a PKCS#1 DER private key.  The `requires` keeps out the one
/// input on which the call does not return: a key that parses but is too
/// small for the padding makes the backend's infallible signer panic.
#[verifier::external_body]
fn sign_rs256(iat: u64, exp: u64, iss: u64, key: &Vec<u8>) -> (r: Result<
    String,
    jsonwebtoken::errors::Error,
>)
    requires
        rsa_der_modulus_len(key@) matches Some(n) ==> n >= MIN_RSA_MODULUS_BYTES,
    ensures
        (r is Ok) <==> rsa_key_usable(key@),
        r matches Ok(t) ==> t@ == signed_assertion_of(iat, exp, iss, key@),
{
    let mut claims = serde_json::Map::new();
    claims.insert("iat".to_owned(), serde_json::Value::from(iat));
    claims.insert("exp".to_owned(), serde_json::Value::from(exp));
    claims.insert("iss".to_owned(), serde_json::Value::from(iss));
    let header = jsonwebtoken::Header::new(jsonwebtoken::Algorithm::RS256);
    let encoding_key = jsonwebtoken::EncodingKey::from_rsa_der(key);
    jsonwebtoken::encode(&header, &serde_json::Value::Object(claims), &encoding_key)
}

/// The GitHub App identity: its id and private signing key.
pub struct Client {
    app_id: u64,
    private_key: Vec<u8>,
}

impl Client {
    /// The App id this client signs for.
    pub closed spec fn spec_app_id(&self) -> u64 {
        self.app_id
    }

    /// The DER bytes of the App's private key.
    pub closed spec fn spec_private_key(&self) -> Seq<u8> {
        self.private_key@
    }

    pub fn new(app_id: u64, private_key: Vec<u8>) -> (c: Client)
        ensures
            c.spec_app_id() == app_id,
            c.spec_private_key() == private_key@,
    {
        Client { app_id, private_key }
    }

    /// Issue a fresh signed assertion for claims issued at `now`.  The call
    /// succeeds exactly when this client's key material is usable — never
    /// because of the clock or the claim contents — and success yields
    /// exactly the assertion for those claims under this client's key.
    /// Unusable key material, a key too small for the signature padding
    /// included, is refused as a `JwtError` before the signing backend
    /// sees it.
    pub fn new_jwt(&self, now: u64) -> (r: Result<String, ApiError>)
        ensures
            (r is Ok) <==> rsa_key_usable(self.spec_private_key()),
            r matches Ok(t) ==> t@ == signed_assertion_of(
                now,
                claims_exp(now),
                self.spec_app_id(),
                self.spec_private_key(),
            ),
            r matches Err(e) ==> e is JwtError,
    {
        let usable = match rsa_modulus_len(&self.private_key) {
            Some(n) => n >= MIN_RSA_MODULUS_BYTES,
            None => false,
        };
        if !usable {
            return Err(ApiError::JwtError(jwt_invalid_key_error()));
        }
        let claims = Claims::new(self.app_id, now);
        match sign_rs256(claims.iat, claims.exp, claims.iss, &self.private_key) {
            Ok(token) => Ok(token),
            Err(e) => Err(ApiError::JwtError(e)),
        }
    }
}

/// The commit status states GitHub accepts.
#[derive(Debug, PartialEq, Eq, Structural, Clone, Copy)]
pub enum State {
    Error,
    Failure,
    Pending,
    Success,
    Other,
}

/// A commit status to be posted.
#[derive(Debug)]
pub struct NewStatus {
    pub state: State,
    pub context: String,
    pub target_url: Option<String>,
    pub description: Option<String>,
}

/// A commit status as GitHub reports it back.
#[derive(Debug)]
pub struct Status {
    pub state: State,
    pub target_url: Option<String>,
    pub description: Option<String>,
    pub context: Option<String>,
}

/// One commit in a compare range.
#[derive(Debug)]
pub struct Commit {
    pub message: String,
}

#[derive(Debug)]
pub struct CommitInfo {
    pub sha: String,
    pub commit: Commit,
}

/// What GitHub reports for a compare range: the total count and the commits.
#[derive(Debug)]
pub struct CommitList {
    pub total_commits: u64,
    pub commits: Vec<CommitInfo>,
}

impl CommitList {
    /// The commit messages, in range order.
    pub fn messages(&self) -> (r: Vec<String>)
        ensures
            r.deep_view().len() == self.commits@.len(),
            forall|i: int|
                0 <= i < self.commits@.len() ==> r.deep_view()[i] == self.commits@[
                    i
                ].commit.message@,
    {
        let mut out: Vec<String> = Vec::new();
        let mut i: usize = 0;
        while i < self.commits.len()
            invariant
                i <= self.commits@.len(),
                out@.len() == i,
                forall|k: int| 0 <= k < i ==> out@[k]@ == self.commits@[k].commit.message@,
            decreases self.commits@.len() - i,
        {
            out.push(self.commits[i].commit.message.clone());
            i = i + 1;
        }
        proof {
            assert(forall|k: int|
                0 <= k < out@.len() ==> #[trigger] out.deep_view()[k] == out@[k]@);
        }
        out
    }
}

} // verus!
