use jwt_interceptor::certificate::{GoogleCertificate, KeyEntry};
use jwt_interceptor::interceptor::{
    first_step, reject_before_lookup, CallStep, ReadWrite, SharedGoogleCertificate,
};
use jwt_interceptor::server::UsersServerImpl;
use jwt_interceptor::validate::{
    authorize, check_claims, claims_from_fields, validate, AuthError, AuthorizationHeader, Claims,
};

const NOW: i64 = 1_700_000_000;

struct Signer {
    cert_pem: String,
    private_pem: Vec<u8>,
}

fn signer() -> Signer {
    let rsa = openssl::rsa::Rsa::generate(2048).unwrap();
    let private_pem = rsa.private_key_to_pem().unwrap();
    let pkey = openssl::pkey::PKey::from_rsa(rsa).unwrap();
    let mut builder = openssl::x509::X509Builder::new().unwrap();
    builder.set_version(2).unwrap();
    let mut name = openssl::x509::X509NameBuilder::new().unwrap();
    name.append_entry_by_text("CN", "issuer").unwrap();
    let name = name.build();
    builder.set_subject_name(&name).unwrap();
    builder.set_issuer_name(&name).unwrap();
    builder.set_pubkey(&pkey).unwrap();
    let start = openssl::asn1::Asn1Time::days_from_now(0).unwrap();
    let end = openssl::asn1::Asn1Time::days_from_now(1).unwrap();
    builder.set_not_before(&start).unwrap();
    builder.set_not_after(&end).unwrap();
    builder.sign(&pkey, openssl::hash::MessageDigest::sha256()).unwrap();
    let cert_pem = String::from_utf8(builder.build().to_pem().unwrap()).unwrap();
    Signer { cert_pem, private_pem }
}

fn sign(s: &Signer, kid: &str, payload: &str) -> String {
    let mut header = jsonwebtoken::Header::new(jsonwebtoken::Algorithm::RS256);
    header.kid = Some(kid.to_string());
    let claims: serde_json::Value = serde_json::from_str(payload).unwrap();
    let key = jsonwebtoken::EncodingKey::from_rsa_pem(&s.private_pem).unwrap();
    jsonwebtoken::encode(&header, &claims, &key).unwrap()
}

fn payload(issuer: &str, exp: i64) -> String {
    format!("{{\"issuer_uid\":\"{}\",\"exp\":{}}}", issuer, exp)
}

fn store_with(s: &Signer, kid: &str) -> GoogleCertificate {
    let kids = GoogleCertificate::convert_kids(vec![(kid.to_string(), s.cert_pem.clone())]).unwrap();
    GoogleCertificate { kids, expires: NOW + 3 }
}

#[test]
fn valid_token_yields_issuer() {
    let s = signer();
    let cert = store_with(&s, "k1");
    let token = sign(&s, "k1", &payload("abc-123", NOW + 60));
    let header = AuthorizationHeader::Text(token);
    assert_eq!(first_step(&header, &cert, NOW), CallStep::Validate);
    assert_eq!(authorize(&header, &cert, NOW), Ok("abc-123".to_string()));
}

#[test]
fn token_of_absent_key_is_unknown_key() {
    let s = signer();
    let cert = store_with(&s, "k1");
    let token = sign(&s, "k2", &payload("abc-123", NOW + 60));
    assert_eq!(validate(&token, &cert, NOW), Err(AuthError::UnknownKey));
}

#[test]
fn token_expired_one_second_ago_is_expired() {
    let s = signer();
    let cert = store_with(&s, "k1");
    let token = sign(&s, "k1", &payload("abc-123", NOW - 1));
    assert_eq!(validate(&token, &cert, NOW), Err(AuthError::Expired));
}

#[test]
fn token_expiring_now_is_accepted() {
    let s = signer();
    let cert = store_with(&s, "k1");
    let token = sign(&s, "k1", &payload("abc-123", NOW));
    assert_eq!(validate(&token, &cert, NOW), Ok("abc-123".to_string()));
}

#[test]
fn token_signed_by_other_key_is_invalid_signature() {
    let s = signer();
    let other = signer();
    let cert = store_with(&s, "k1");
    let token = sign(&other, "k1", &payload("abc-123", NOW + 60));
    assert_eq!(validate(&token, &cert, NOW), Err(AuthError::InvalidSignature));
}

#[test]
fn token_without_issuer_field_is_invalid_signature() {
    let s = signer();
    let cert = store_with(&s, "k1");
    let token = sign(&s, "k1", &format!("{{\"exp\":{}}}", NOW + 60));
    assert_eq!(validate(&token, &cert, NOW), Err(AuthError::InvalidSignature));
}

#[test]
fn token_with_empty_issuer_is_empty_identity() {
    let s = signer();
    let cert = store_with(&s, "k1");
    let token = sign(&s, "k1", &payload("", NOW + 60));
    assert_eq!(validate(&token, &cert, NOW), Err(AuthError::EmptyIdentity));
}

#[test]
fn validating_twice_gives_same_identity() {
    let s = signer();
    let cert = store_with(&s, "k1");
    let token = sign(&s, "k1", &payload("abc-123", NOW + 60));
    let first = validate(&token, &cert, NOW);
    let second = validate(&token, &cert, NOW);
    assert_eq!(first, Ok("abc-123".to_string()));
    assert_eq!(first, second);
}

#[test]
fn garbage_token_is_malformed() {
    let cert = GoogleCertificate::new(NOW);
    assert_eq!(validate("not a token", &cert, NOW), Err(AuthError::Malformed));
}

#[test]
fn token_without_kid_is_malformed() {
    let cert = GoogleCertificate::new(NOW);
    let token = "eyJhbGciOiJSUzI1NiIsInR5cCI6IkpXVCJ9.eyJpc3N1ZXJfdWlkIjoiYWJjLTEyMyIsImV4cCI6NDEwMjQ0NDgwMH0.c2ln";
    assert_eq!(validate(token, &cert, NOW), Err(AuthError::Malformed));
}

#[test]
fn kid_not_in_empty_set_is_unknown_key() {
    let cert = GoogleCertificate::new(NOW);
    let token = "eyJhbGciOiJSUzI1NiIsInR5cCI6IkpXVCIsImtpZCI6ImsxIn0.eyJpc3N1ZXJfdWlkIjoiYWJjLTEyMyIsImV4cCI6NDEwMjQ0NDgwMH0.c2ln";
    assert_eq!(validate(token, &cert, NOW), Err(AuthError::UnknownKey));
}

#[test]
fn missing_header_is_rejected_before_certificates() {
    let cert = GoogleCertificate::new(NOW);
    assert!(cert.is_expired(NOW));
    let header = AuthorizationHeader::Missing;
    assert_eq!(reject_before_lookup(&header), Some(AuthError::NoToken));
    assert_eq!(reject_before_lookup(&AuthorizationHeader::NotText), None);
    assert_eq!(reject_before_lookup(&AuthorizationHeader::Text("t".to_string())), None);
    assert_eq!(first_step(&header, &cert, NOW), CallStep::Reject(AuthError::NoToken));
    assert_eq!(authorize(&header, &cert, NOW), Err(AuthError::NoToken));
}

#[test]
fn header_that_is_not_text_is_malformed() {
    let cert = GoogleCertificate::new(NOW);
    assert_eq!(authorize(&AuthorizationHeader::NotText, &cert, NOW), Err(AuthError::Malformed));
}

#[test]
fn expired_set_asks_for_refresh() {
    let cert = GoogleCertificate { kids: Vec::new(), expires: NOW };
    let header = AuthorizationHeader::Text("t".to_string());
    assert_eq!(first_step(&header, &cert, NOW), CallStep::Refresh);
    assert_eq!(first_step(&header, &cert, NOW - 1), CallStep::Validate);
}

#[test]
fn new_set_is_empty_and_expired() {
    let cert = GoogleCertificate::new(NOW);
    assert_eq!(cert.expires, NOW - 1);
    assert!(cert.kids.is_empty());
    assert!(cert.is_expired(NOW));
    assert!(!cert.is_expired(NOW - 2));
}

#[test]
fn failed_fetch_leaves_set_unchanged() {
    let s = signer();
    let mut cert = store_with(&s, "k1");
    let expires = cert.expires;
    assert!(!cert.refresh(None, NOW + 10, 3));
    assert_eq!(cert.expires, expires);
    assert_eq!(cert.kids.len(), 1);
    assert_eq!(cert.kids[0].kid, "k1");
}

#[test]
fn successful_fetch_replaces_set() {
    let s = signer();
    let mut cert = GoogleCertificate::new(NOW);
    let kids = GoogleCertificate::convert_kids(vec![("k9".to_string(), s.cert_pem.clone())]);
    assert!(cert.refresh(kids, NOW, 3));
    assert_eq!(cert.expires, NOW + 3);
    assert_eq!(cert.kids.len(), 1);
    assert_eq!(cert.kids[0].kid, "k9");
}

#[test]
fn shared_store_keeps_set_on_failed_fetch() {
    let store = SharedGoogleCertificate::new(NOW);
    let other = store.share();
    assert!(other.install(None, NOW, 3).is_none());
    let cert = store.read();
    assert_eq!(cert.expires, NOW - 1);
    assert!(cert.kids.is_empty());
}

#[test]
fn shared_store_installs_fetched_set() {
    let s = signer();
    let store = SharedGoogleCertificate::new(NOW);
    let kids = GoogleCertificate::convert_kids(vec![("k1".to_string(), s.cert_pem.clone())]);
    let installed = store.share().install(kids, NOW, 3).unwrap();
    assert_eq!(installed.expires, NOW + 3);
    let cert = store.read();
    assert_eq!(cert.expires, NOW + 3);
    assert_eq!(cert.kids[0].kid, "k1");
    let token = sign(&s, "k1", &payload("abc-123", NOW + 60));
    assert_eq!(validate(&token, &cert, NOW), Ok("abc-123".to_string()));
}

#[test]
fn shared_store_write_replaces_set() {
    let store = SharedGoogleCertificate::new(NOW);
    store.write(GoogleCertificate::new(NOW + 100));
    assert_eq!(store.read().expires, NOW + 99);
}

#[test]
fn convert_kids_keeps_order_and_ids() {
    let a = signer();
    let b = signer();
    let kids = GoogleCertificate::convert_kids(vec![
        ("a".to_string(), a.cert_pem.clone()),
        ("b".to_string(), b.cert_pem.clone()),
    ])
    .unwrap();
    let ids: Vec<&str> = kids.iter().map(|e: &KeyEntry| e.kid.as_str()).collect();
    assert_eq!(ids, vec!["a", "b"]);
}

#[test]
fn convert_kids_fails_on_one_bad_certificate() {
    let a = signer();
    let r = GoogleCertificate::convert_kids(vec![
        ("a".to_string(), a.cert_pem.clone()),
        ("b".to_string(), "-----BEGIN CERTIFICATE-----\nAAAA\n-----END CERTIFICATE-----\n".to_string()),
    ]);
    assert!(r.is_none());
}

#[test]
fn convert_kids_fails_on_repeated_kid() {
    let a = signer();
    let r = GoogleCertificate::convert_kids(vec![
        ("a".to_string(), a.cert_pem.clone()),
        ("a".to_string(), a.cert_pem.clone()),
    ]);
    assert!(r.is_none());
}

#[test]
fn convert_kids_of_nothing_is_empty() {
    assert!(GoogleCertificate::convert_kids(Vec::new()).unwrap().is_empty());
}

#[test]
fn find_locates_kid() {
    let a = signer();
    let cert = store_with(&a, "k1");
    assert_eq!(cert.find(&"k1".to_string()), Some(0));
    assert_eq!(cert.find(&"k2".to_string()), None);
}

#[test]
fn check_claims_verdicts() {
    let c = |issuer: &str, exp: i64| Some(Claims { issuer_uid: issuer.to_string(), exp });
    assert_eq!(check_claims(c("abc-123", NOW + 1), NOW), Ok("abc-123".to_string()));
    assert_eq!(check_claims(c("abc-123", NOW - 1), NOW), Err(AuthError::Expired));
    assert_eq!(check_claims(c("", NOW - 1), NOW), Err(AuthError::Expired));
    assert_eq!(check_claims(c("", NOW + 1), NOW), Err(AuthError::EmptyIdentity));
    assert_eq!(check_claims(None, NOW), Err(AuthError::InvalidSignature));
}

#[test]
fn get_user_reads_identity() {
    let server = UsersServerImpl;
    assert_eq!(server.get_user(Some("abc-123".to_string())), Ok("abc-123".to_string()));
    assert_eq!(server.get_user(None), Err(AuthError::MissingIdentity));
}

#[test]
fn claims_need_both_fields() {
    let c = claims_from_fields(Some("abc-123".to_string()), Some(NOW)).unwrap();
    assert_eq!(c.issuer_uid, "abc-123");
    assert_eq!(c.exp, NOW);
    assert!(claims_from_fields(None, Some(NOW)).is_none());
    assert!(claims_from_fields(Some("abc-123".to_string()), None).is_none());
}

#[test]
fn entries_keep_their_own_public_key() {
    let a = signer();
    let b = signer();
    let kids = GoogleCertificate::convert_kids(vec![
        ("a".to_string(), a.cert_pem.clone()),
        ("b".to_string(), b.cert_pem.clone()),
    ])
    .unwrap();
    assert_ne!(kids[0].pem, kids[1].pem);
    let cert = GoogleCertificate { kids, expires: NOW + 3 };
    let token_b = sign(&b, "b", &payload("abc-123", NOW + 60));
    assert_eq!(validate(&token_b, &cert, NOW), Ok("abc-123".to_string()));
    let token_b_as_a = sign(&b, "a", &payload("abc-123", NOW + 60));
    assert_eq!(validate(&token_b_as_a, &cert, NOW), Err(AuthError::InvalidSignature));
}

#[test]
fn token_with_text_exp_is_invalid_signature() {
    let s = signer();
    let cert = store_with(&s, "k1");
    let token = sign(&s, "k1", "{\"issuer_uid\":\"abc-123\",\"exp\":\"soon\"}");
    assert_eq!(validate(&token, &cert, NOW), Err(AuthError::InvalidSignature));
}
