//! Token validation: header, key lookup, RS256 signature, then claims.
use vstd::prelude::*;
use crate::certificate::{GoogleCertificate, has_kid, pem_for};

verus! {

/// What jsonwebtoken reads from a token's header without checking its
/// signature: `None` where the header cannot be decoded, else its key-id, if any.
pub uninterp spec fn header_kid(token: Seq<char>) -> Option<Option<Seq<char>>>;

/// What jsonwebtoken's RS256 decode makes of a token under the RSA public key
/// with PEM `key_pem`: `None` where the key cannot be made, the signature does
/// not verify or the payload is not a JSON object; else the payload's
/// `issuer_uid` (where it is a string) and `exp` (where it is an `i64`).
pub uninterp spec fn rs256_claims(token: Seq<char>, key_pem: Seq<u8>) -> Option<
    (Option<Seq<char>>, Option<i64>),
>;

pub open spec fn opt_kid_view(k: Option<Option<String>>) -> Option<Option<Seq<char>>> {
    match k {
        None => None,
        Some(None) => Some(None),
        Some(Some(s)) => Some(Some(s@)),
    }
}

pub open spec fn fields_view(f: Option<(Option<String>, Option<i64>)>) -> Option<
    (Option<Seq<char>>, Option<i64>),
> {
    match f {
        None => None,
        Some((issuer, exp)) => Some(
            (
                match issuer {
                    None => None,
                    Some(s) => Some(s@),
                },
                exp,
            ),
        ),
    }
}

/// Relies on jsonwebtoken's `decode_header`: the header's `kid` field, or
/// `None` where the token has no decodable header.
#[verifier::external_body]
fn decode_kid(token: &str) -> (r: Option<Option<String>>)
    ensures
        opt_kid_view(r) == header_kid(token@),
{
    jsonwebtoken::decode_header(token).ok().map(|h| h.kid)
}

/// Relies on jsonwebtoken's `DecodingKey::from_rsa_pem` and `decode` (RS256
/// as the only algorithm, its own clock check of `exp` switched off: expiry is
/// decided against the caller's `now`), and on serde_json's `Value::get`,
/// `as_str` and `as_i64` to take the two claim fields out of the payload.
#[verifier::external_body]
fn decode_rs256(token: &str, key_pem: &[u8]) -> (r: Option<(Option<String>, Option<i64>)>)
    ensures
        fields_view(r) == rs256_claims(token@, key_pem@),
{
    let key = jsonwebtoken::DecodingKey::from_rsa_pem(key_pem).ok()?;
    let mut validation = jsonwebtoken::Validation::new(jsonwebtoken::Algorithm::RS256);
    validation.validate_exp = false;
    let payload = jsonwebtoken::decode::<serde_json::Value>(token, &key, &validation).ok()?.claims;
    let issuer_uid = payload.get("issuer_uid").and_then(|v| v.as_str()).map(String::from);
    Some((issuer_uid, payload.get("exp").and_then(|v| v.as_i64())))
}

/// The claims of a verified token.
pub struct Claims {
    /// issuer
    pub issuer_uid: String,
    /// expiry, unix seconds
    pub exp: i64,
}

/// Why a call is not authenticated.
#[derive(Clone, Copy, Debug, PartialEq, Eq, Structural)]
pub enum AuthError {
    /// no `authorization` header
    NoToken,
    /// the header is not text, or the token's header cannot be decoded or
    /// names no key-id
    Malformed,
    /// the key-id is not in the current set
    UnknownKey,
    /// the signature does not verify, or the payload is not the claims
    InvalidSignature,
    /// the token's expiry lies before now
    Expired,
    /// the issuer is empty
    EmptyIdentity,
    /// the call reached a handler without a verified identity
    MissingIdentity,
}

/// The `authorization` header of a call, as the transport hands it over.
pub enum AuthorizationHeader {
    Missing,
    NotText,
    Text(String),
}

pub open spec fn result_view(r: Result<String, AuthError>) -> Result<Seq<char>, AuthError> {
    match r {
        Ok(s) => Ok(s@),
        Err(e) => Err(e),
    }
}

/// Claims as issuer and expiry.
pub open spec fn claims_view(c: Option<Claims>) -> Option<(Seq<char>, i64)> {
    match c {
        None => None,
        Some(c) => Some((c.issuer_uid@, c.exp)),
    }
}

/// The claims made of decoded fields: both must be there.
pub open spec fn claims_of(f: Option<(Option<Seq<char>>, Option<i64>)>) -> Option<
    (Seq<char>, i64),
> {
    match f {
        Some((Some(issuer), Some(exp))) => Some((issuer, exp)),
        _ => None,
    }
}

/// The verdict on decoded claims (`None`: the signature or payload failed).
pub open spec fn claims_verdict(claims: Option<(Seq<char>, i64)>, now: int) -> Result<
    Seq<char>,
    AuthError,
> {
    match claims {
        None => Err(AuthError::InvalidSignature),
        Some((issuer, exp)) => if now > exp {
            Err(AuthError::Expired)
        } else if issuer.len() == 0 {
            Err(AuthError::EmptyIdentity)
        } else {
            Ok(issuer)
        },
    }
}

/// The verdict on a token whose header gave `kid`, whose key-id is `known`
/// or not, and whose signature step produced `claims`.
pub open spec fn token_verdict(
    kid: Option<Option<Seq<char>>>,
    known: bool,
    claims: Option<(Seq<char>, i64)>,
    now: int,
) -> Result<Seq<char>, AuthError> {
    match kid {
        None => Err(AuthError::Malformed),
        Some(None) => Err(AuthError::Malformed),
        Some(Some(_)) => if !known {
            Err(AuthError::UnknownKey)
        } else {
            claims_verdict(claims, now)
        },
    }
}

/// The verdict on `token` against the entries `kids` at `now`: the RS256
/// decode runs under the key of the entry that the header's key-id names.
pub open spec fn validation_verdict(
    token: Seq<char>,
    kids: Seq<crate::certificate::KeyEntry>,
    now: int,
) -> Result<Seq<char>, AuthError> {
    let kid = header_kid(token)->Some_0->Some_0;
    token_verdict(
        header_kid(token),
        has_kid(kids, kid),
        claims_of(rs256_claims(token, pem_for(kids, kid))),
        now,
    )
}

/// Checks decoded claims at time `now`: expiry first, then the issuer.
pub fn check_claims(claims: Option<Claims>, now: i64) -> (r: Result<String, AuthError>)
    ensures
        result_view(r) == claims_verdict(claims_view(claims), now as int),
{
    match claims {
        None => Err(AuthError::InvalidSignature),
        Some(c) => {
            if now > c.exp {
                Err(AuthError::Expired)
            } else if c.issuer_uid.as_str().is_empty() {
                Err(AuthError::EmptyIdentity)
            } else {
                Ok(c.issuer_uid)
            }
        },
    }
}

/// The claims made of the payload's two fields; `None` where either is
/// missing or of the wrong kind.
pub fn claims_from_fields(issuer_uid: Option<String>, exp: Option<i64>) -> (r: Option<Claims>)
    ensures
        claims_view(r) == claims_of(fields_view(Some((issuer_uid, exp)))),
{
    match (issuer_uid, exp) {
        (Some(issuer_uid), Some(exp)) => Some(Claims { issuer_uid, exp }),
        _ => None,
    }
}

/// Validates `token` against the keys of `cert` at time `now`. Each step
/// rejects with its own reason and stops: header, key-id lookup, signature,
/// expiry, issuer.
pub fn validate(token: &str, cert: &GoogleCertificate, now: i64) -> (r: Result<String, AuthError>)
    requires
        cert.wf(),
    ensures
        result_view(r) == validation_verdict(token@, cert.kids@, now as int),
{
    let kid = match decode_kid(token) {
        None => return Err(AuthError::Malformed),
        Some(None) => return Err(AuthError::Malformed),
        Some(Some(k)) => k,
    };
    let idx = match cert.find(&kid) {
        None => return Err(AuthError::UnknownKey),
        Some(i) => i,
    };
    let claims = match decode_rs256(token, cert.kids[idx].pem.as_slice()) {
        None => None,
        Some((issuer_uid, exp)) => claims_from_fields(issuer_uid, exp),
    };
    check_claims(claims, now)
}

/// Authorizes a call by its `authorization` header against `cert` at `now`.
pub fn authorize(header: &AuthorizationHeader, cert: &GoogleCertificate, now: i64) -> (r: Result<
    String,
    AuthError,
>)
    requires
        cert.wf(),
    ensures
        header is Missing ==> r == Err::<String, AuthError>(AuthError::NoToken),
        header is NotText ==> r == Err::<String, AuthError>(AuthError::Malformed),
        header is Text ==> result_view(r) == validation_verdict(
            header->Text_0@,
            cert.kids@,
            now as int,
        ),
{
    match header {
        AuthorizationHeader::Missing => Err(AuthError::NoToken),
        AuthorizationHeader::NotText => Err(AuthError::Malformed),
        AuthorizationHeader::Text(token) => validate(token.as_str(), cert, now),
    }
}

/// A token whose key-id is not in the set is rejected as `UnknownKey`,
/// whatever its signature and claims.
pub proof fn lemma_unknown_key_rejected(
    token: Seq<char>,
    kids: Seq<crate::certificate::KeyEntry>,
    now: int,
)
    requires
        header_kid(token) is Some && header_kid(token)->Some_0 is Some,
        !has_kid(kids, header_kid(token)->Some_0->Some_0),
    ensures
        validation_verdict(token, kids, now) == Err::<Seq<char>, AuthError>(AuthError::UnknownKey),
{
}

/// A token that verifies under the key of its key-id but expired one second
/// before `now` is rejected as `Expired`, whatever its issuer.
pub proof fn lemma_expired_rejected(
    token: Seq<char>,
    kids: Seq<crate::certificate::KeyEntry>,
    now: int,
)
    requires
        header_kid(token) is Some && header_kid(token)->Some_0 is Some,
        has_kid(kids, header_kid(token)->Some_0->Some_0),
        claims_of(rs256_claims(token, pem_for(kids, header_kid(token)->Some_0->Some_0))) is Some,
        claims_of(rs256_claims(token, pem_for(kids, header_kid(token)->Some_0->Some_0)))->Some_0.1
            == now - 1,
    ensures
        validation_verdict(token, kids, now) == Err::<Seq<char>, AuthError>(AuthError::Expired),
{
}

/// A token that verifies under the key of its key-id, has not expired and
/// names a non-empty issuer yields that issuer as the identity.
pub proof fn lemma_valid_token_accepted(
    token: Seq<char>,
    kids: Seq<crate::certificate::KeyEntry>,
    now: int,
    issuer: Seq<char>,
    exp: i64,
)
    requires
        header_kid(token) is Some && header_kid(token)->Some_0 is Some,
        has_kid(kids, header_kid(token)->Some_0->Some_0),
        rs256_claims(token, pem_for(kids, header_kid(token)->Some_0->Some_0)) == Some(
            (Some(issuer), Some(exp)),
        ),
        now <= exp,
        issuer.len() > 0,
    ensures
        validation_verdict(token, kids, now) == Ok::<Seq<char>, AuthError>(issuer),
{
}

/// Validating the same token twice against the same set at the same time
/// gives the same result: any two results that meet `validate`'s contract
/// are equal.
pub proof fn lemma_validation_repeatable(
    token: Seq<char>,
    kids: Seq<crate::certificate::KeyEntry>,
    now: int,
    first: Result<String, AuthError>,
    second: Result<String, AuthError>,
)
    requires
        result_view(first) == validation_verdict(token, kids, now),
        result_view(second) == validation_verdict(token, kids, now),
    ensures
        result_view(first) == result_view(second),
        first is Ok ==> second is Ok && first->Ok_0@ == second->Ok_0@,
{
}

/// An accepted token's identity is the non-empty issuer of the claims that
/// verified under the key of its key-id, and the token had not expired.
pub proof fn lemma_accepted_identity_is_issuer(
    token: Seq<char>,
    kids: Seq<crate::certificate::KeyEntry>,
    now: int,
)
    requires
        validation_verdict(token, kids, now) is Ok,
    ensures
        header_kid(token) is Some && header_kid(token)->Some_0 is Some,
        has_kid(kids, header_kid(token)->Some_0->Some_0),
        ({
            let c = claims_of(
                rs256_claims(token, pem_for(kids, header_kid(token)->Some_0->Some_0)),
            );
            &&& c is Some
            &&& now <= c->Some_0.1
            &&& c->Some_0.0.len() > 0
            &&& validation_verdict(token, kids, now)->Ok_0 == c->Some_0.0
        }),
{
}

} // verus!
