//! The certificate set: verification keys by key-id, and the time at which
//! the set must be fetched again.
use vstd::prelude::*;
use vstd::utf8::encode_utf8;

verus! {

/// What openssl makes of a PEM-encoded X.509 certificate: the PEM of its RSA
/// public key, or nothing where the certificate or its key cannot be read.
pub uninterp spec fn cert_rsa_public_pem(cert_pem: Seq<char>) -> Option<Seq<u8>>;

/// Whether jsonwebtoken accepts the bytes as the PEM of an RSA public key.
pub uninterp spec fn rsa_pem_accepted(pem: Seq<u8>) -> bool;

/// The longest certificate text, in UTF-8 bytes, that openssl reads: its
/// memory buffer asserts a length of at most `c_int::MAX`.
pub const MAX_CERT_PEM_BYTES: usize = 0x7fff_ffff;

/// Relies on openssl's `X509::from_pem`, `X509::public_key`, `PKey::rsa` and
/// `Rsa::public_key_to_pem`: the RSA public key of a certificate, as PEM, or
/// `None` where any of the four steps fails.
#[verifier::external_body]
fn rsa_public_pem(cert_pem: &str) -> (r: Option<Vec<u8>>)
    requires
        encode_utf8(cert_pem@).len() <= MAX_CERT_PEM_BYTES,
    ensures
        r.is_some() == cert_rsa_public_pem(cert_pem@).is_some(),
        r.is_some() ==> r.unwrap()@ == cert_rsa_public_pem(cert_pem@).unwrap(),
{
    openssl::x509::X509::from_pem(cert_pem.as_bytes())
        .and_then(|c| c.public_key())
        .and_then(|k| k.rsa())
        .and_then(|k| k.public_key_to_pem())
        .ok()
}

/// Relies on jsonwebtoken's `DecodingKey::from_rsa_pem`: whether it makes a
/// key of the PEM.
#[verifier::external_body]
fn accepts_rsa_pem(pem: &[u8]) -> (r: bool)
    ensures
        r == rsa_pem_accepted(pem@),
{
    jsonwebtoken::DecodingKey::from_rsa_pem(pem).is_ok()
}

/// A certificate that converts to a verification key: openssl can read it,
/// and jsonwebtoken accepts its RSA public key.
pub open spec fn cert_usable(cert_pem: Seq<char>) -> bool {
    &&& encode_utf8(cert_pem).len() <= MAX_CERT_PEM_BYTES
    &&& cert_rsa_public_pem(cert_pem).is_some()
    &&& rsa_pem_accepted(cert_rsa_public_pem(cert_pem).unwrap())
}

/// One entry of a certificate set: a key-id and the PEM of its RSA public
/// key, from which the verification key is made.
pub struct KeyEntry {
    pub kid: String,
    pub pem: Vec<u8>,
}

/// The public-key PEM of the entry with key-id `kid` (meaningful where
/// `has_kid(entries, kid)`).
pub open spec fn pem_for(entries: Seq<KeyEntry>, kid: Seq<char>) -> Seq<u8> {
    entries[choose|i: int| 0 <= i < entries.len() && entries[i].kid@ == kid].pem@
}

/// No key-id occurs twice.
pub open spec fn kids_unique(entries: Seq<KeyEntry>) -> bool {
    forall|i: int, j: int|
        0 <= i < entries.len() && 0 <= j < entries.len() && i != j ==> entries[i].kid@
            != entries[j].kid@
}

/// Whether some entry has the key-id.
pub open spec fn has_kid(entries: Seq<KeyEntry>, kid: Seq<char>) -> bool {
    exists|i: int| 0 <= i < entries.len() && entries[i].kid@ == kid
}

/// The set of verification keys, and the unix time (seconds) from which it
/// counts as expired.
pub struct GoogleCertificate {
    pub kids: Vec<KeyEntry>,
    pub expires: i64,
}

impl GoogleCertificate {
    /// Key-ids are unique.
    pub open spec fn wf(&self) -> bool {
        kids_unique(self.kids@)
    }

    /// An empty set that is already expired at `now`, so that its first use
    /// fetches the keys.
    pub fn new(now: i64) -> (r: GoogleCertificate)
        requires
            now > i64::MIN,
        ensures
            r.wf(),
            r.kids@.len() == 0,
            r.expires == now - 1,
            r.is_expired_at(now as int),
    {
        GoogleCertificate { kids: Vec::new(), expires: now - 1 }
    }

    pub open spec fn is_expired_at(&self, now: int) -> bool {
        now >= self.expires
    }

    /// Whether the set must be fetched again at `now`.
    pub fn is_expired(&self, now: i64) -> (r: bool)
        ensures
            r == self.is_expired_at(now as int),
    {
        now >= self.expires
    }

    /// The position of the entry with key-id `kid`, if there is one.
    pub fn find(&self, kid: &String) -> (r: Option<usize>)
        requires
            self.wf(),
        ensures
            r.is_some() == has_kid(self.kids@, kid@),
            r.is_some() ==> r.unwrap() < self.kids@.len() && self.kids@[r.unwrap() as int].kid@
                == kid@ && self.kids@[r.unwrap() as int].pem@ == pem_for(self.kids@, kid@),
    {
        let mut i: usize = 0;
        while i < self.kids.len()
            invariant
                i <= self.kids@.len(),
                self.wf(),
                forall|j: int| 0 <= j < i ==> self.kids@[j].kid@ != kid@,
            decreases self.kids@.len() - i,
        {
            if self.kids[i].kid == *kid {
                proof {
                    let c = choose|c: int| 0 <= c < self.kids@.len() && self.kids@[c].kid@ == kid@;
                    assert(0 <= c < self.kids@.len() && self.kids@[c].kid@ == kid@);
                    assert(self.kids@[i as int].kid@ == kid@);
                    if c != i {
                        assert(self.kids@[c].kid@ != self.kids@[i as int].kid@);
                    }
                }
                return Some(i);
            }
            i = i + 1;
        }
        None
    }

    /// Turns key-id / certificate pairs into a set of verification keys, each
    /// entry holding the RSA public key of its own certificate. All or
    /// nothing: `None` as soon as one certificate cannot be used, or a key-id
    /// repeats.
    pub fn convert_kids(input: Vec<(String, String)>) -> (r: Option<Vec<KeyEntry>>)
        ensures
            r.is_some() == (pairs_kids_unique(input@) && forall|i: int|
                0 <= i < input@.len() ==> cert_usable(#[trigger] input@[i].1@)),
            r.is_some() ==> kids_unique(r.unwrap()@) && r.unwrap()@.len() == input@.len()
                && forall|i: int|
                0 <= i < input@.len() ==> #[trigger] r.unwrap()@[i].kid@ == input@[i].0@
                    && r.unwrap()@[i].pem@ == cert_rsa_public_pem(input@[i].1@).unwrap(),
    {
        let mut output: Vec<KeyEntry> = Vec::with_capacity(input.len());
        let mut i: usize = 0;
        while i < input.len()
            invariant
                i <= input@.len(),
                output@.len() == i,
                kids_unique(output@),
                forall|j: int| 0 <= j < i ==> cert_usable(#[trigger] input@[j].1@),
                forall|j: int| 0 <= j < i ==> #[trigger] output@[j].kid@ == input@[j].0@,
                forall|j: int|
                    0 <= j < i ==> #[trigger] output@[j].pem@ == cert_rsa_public_pem(
                        input@[j].1@,
                    ).unwrap(),
            decreases input@.len() - i,
        {
            let kid = &input[i].0;
            let mut k: usize = 0;
            while k < output.len()
                invariant
                    k <= output@.len(),
                    output@.len() == i,
                    i < input@.len(),
                    kid@ == input@[i as int].0@,
                    forall|j: int| 0 <= j < i ==> #[trigger] output@[j].kid@ == input@[j].0@,
                    forall|j: int| 0 <= j < k ==> output@[j].kid@ != kid@,
                decreases output@.len() - k,
            {
                if output[k].kid == *kid {
                    assert(output@[k as int].kid@ == input@[k as int].0@);
                    assert(!pairs_kids_unique(input@));
                    return None;
                }
                k = k + 1;
            }
            if input[i].1.as_str().as_bytes().len() > MAX_CERT_PEM_BYTES {
                assert(!cert_usable(input@[i as int].1@));
                return None;
            }
            let pem = match rsa_public_pem(input[i].1.as_str()) {
                Some(p) => p,
                None => {
                    assert(!cert_usable(input@[i as int].1@));
                    return None;
                },
            };
            if !accepts_rsa_pem(pem.as_slice()) {
                assert(!cert_usable(input@[i as int].1@));
                return None;
            }
            output.push(KeyEntry { kid: kid.clone(), pem });
            i = i + 1;
        }
        proof {
            assert forall|a: int, b: int|
                0 <= a < input@.len() && 0 <= b < input@.len() && a != b implies input@[a].0@
                != input@[b].0@ by {
                assert(output@[a].kid@ == input@[a].0@);
                assert(output@[b].kid@ == input@[b].0@);
            }
        }
        Some(output)
    }
}

/// No key-id occurs twice among the pairs.
pub open spec fn pairs_kids_unique(pairs: Seq<(String, String)>) -> bool {
    forall|i: int, j: int|
        0 <= i < pairs.len() && 0 <= j < pairs.len() && i != j ==> pairs[i].0@ != pairs[j].0@
}

} // verus!
