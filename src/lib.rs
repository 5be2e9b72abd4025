//! Verification of identity-provider tokens against a rotating set of RSA
//! signing certificates, and the per-call decisions of an interceptor that
//! keeps that set fresh.
pub mod certificate;
pub mod validate;
pub mod interceptor;
pub mod server;
