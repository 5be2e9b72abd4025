//! The per-call decisions of the interceptor, and the certificate store that
//! concurrent calls share.
use vstd::prelude::*;
use vstd::rwlock::{RwLock, RwLockPredicate};
use std::sync::Arc;
use crate::certificate::{GoogleCertificate, KeyEntry, kids_unique};
use crate::validate::{AuthError, AuthorizationHeader};

verus! {

/// What the interceptor does first with a call.
#[derive(Clone, Copy, Debug, PartialEq, Eq, Structural)]
pub enum CallStep {
    /// reject at once, without looking at the certificates
    Reject(AuthError),
    /// the set is expired: fetch it before validating
    Refresh,
    /// validate against the cached set
    Validate,
}

/// The rejection owed before the certificate store is looked at: a call
/// without a token.
pub fn reject_before_lookup(header: &AuthorizationHeader) -> (r: Option<AuthError>)
    ensures
        r == (if header is Missing {
            Some(AuthError::NoToken)
        } else {
            None::<AuthError>
        }),
{
    match header {
        AuthorizationHeader::Missing => Some(AuthError::NoToken),
        _ => None,
    }
}

/// The first step for a call with `header`, given the set cached at `now`.
pub fn first_step(header: &AuthorizationHeader, cert: &GoogleCertificate, now: i64) -> (r:
    CallStep)
    ensures
        header is Missing ==> r == CallStep::Reject(AuthError::NoToken),
        !(header is Missing) ==> (r == CallStep::Refresh) == cert.is_expired_at(now as int),
        !(header is Missing) ==> (r == CallStep::Validate) == !cert.is_expired_at(now as int),
{
    match header {
        AuthorizationHeader::Missing => CallStep::Reject(AuthError::NoToken),
        _ => if cert.is_expired(now) {
            CallStep::Refresh
        } else {
            CallStep::Validate
        },
    }
}

impl GoogleCertificate {
    /// Installs the outcome of a fetch made at `now`: on success the fetched
    /// keys, valid for `ttl` seconds; on failure nothing changes. Returns
    /// whether the set was replaced.
    pub fn refresh(&mut self, fetched: Option<Vec<KeyEntry>>, now: i64, ttl: i64) -> (r: bool)
        requires
            0 <= ttl,
            now + ttl <= i64::MAX,
            fetched.is_some() ==> kids_unique(fetched.unwrap()@),
        ensures
            r == fetched.is_some(),
            fetched.is_none() ==> *final(self) == *old(self),
            fetched.is_some() ==> final(self).kids@ == fetched.unwrap()@ && final(self).expires
                == now + ttl,
            old(self).wf() ==> final(self).wf(),
    {
        match fetched {
            None => false,
            Some(kids) => {
                self.kids = kids;
                self.expires = now + ttl;
                true
            },
        }
    }
}

/// The lock holds well-formed sets only.
pub struct WellFormed;

impl RwLockPredicate<Arc<GoogleCertificate>> for WellFormed {
    open spec fn inv(self, v: Arc<GoogleCertificate>) -> bool {
        v.wf()
    }
}

/// Reading and replacing the shared certificate set.
pub trait ReadWrite {
    /// The current set.
    fn read(&self) -> (r: Arc<GoogleCertificate>)
        ensures
            r.wf(),
    ;

    /// Replaces the current set.
    fn write(&self, cert: GoogleCertificate)
        requires
            cert.wf(),
    ;
}

/// The certificate set shared by all calls: read concurrently, replaced
/// whole under the write lock.
pub struct SharedGoogleCertificate {
    lock: Arc<RwLock<Arc<GoogleCertificate>, WellFormed>>,
}

impl SharedGoogleCertificate {
    /// A store holding an empty set that is already expired at `now`.
    pub fn new(now: i64) -> (r: SharedGoogleCertificate)
        requires
            now > i64::MIN,
    {
        let cert = Arc::new(GoogleCertificate::new(now));
        SharedGoogleCertificate { lock: Arc::new(RwLock::new(cert, Ghost(WellFormed))) }
    }

    /// Another handle on the same store.
    pub fn share(&self) -> (r: SharedGoogleCertificate) {
        SharedGoogleCertificate { lock: self.lock.clone() }
    }

    /// Installs the outcome of a fetch made at `now`, as
    /// `GoogleCertificate::refresh` does: the fetched keys valid for `ttl`
    /// seconds, which are returned; on failure the store is not written and
    /// `None` comes back.
    pub fn install(&self, fetched: Option<Vec<KeyEntry>>, now: i64, ttl: i64) -> (r: Option<
        Arc<GoogleCertificate>,
    >)
        requires
            0 <= ttl,
            now + ttl <= i64::MAX,
            fetched.is_some() ==> kids_unique(fetched.unwrap()@),
        ensures
            r.is_some() == fetched.is_some(),
            r.is_some() ==> r.unwrap().kids@ == fetched.unwrap()@ && r.unwrap().expires == now
                + ttl && r.unwrap().wf(),
    {
        match fetched {
            None => None,
            Some(kids) => {
                let cert = Arc::new(GoogleCertificate { kids, expires: now + ttl });
                let (_old, handle) = self.lock.acquire_write();
                handle.release_write(cert.clone());
                Some(cert)
            },
        }
    }
}

impl ReadWrite for SharedGoogleCertificate {
    fn read(&self) -> (r: Arc<GoogleCertificate>) {
        let handle = self.lock.acquire_read();
        let cert = handle.borrow().clone();
        handle.release_read();
        cert
    }

    fn write(&self, cert: GoogleCertificate) {
        let (_old, handle) = self.lock.acquire_write();
        handle.release_write(Arc::new(cert));
    }
}

} // verus!
