//! Building the handshake capability of the encrypted listener from its
//! credential material.
use vstd::prelude::*;
use vstd::utf8::encode_utf8;

verus! {

#[verifier::external_type_specification]
#[verifier::external_body]
pub struct ExIdentity(native_tls::Identity);

#[verifier::external_type_specification]
#[verifier::external_body]
pub struct ExTlsAcceptor(native_tls::TlsAcceptor);

#[verifier::external_type_specification]
#[verifier::external_body]
pub struct ExTlsError(native_tls::Error);

/// Relies on `native_tls::Identity::from_pkcs12`: parses a DER-encoded
/// PKCS #12 archive with the password; whether it succeeds is the TLS
/// library's decision. The password is handed to OpenSSL as a C string,
/// which cannot hold a NUL byte.
pub assume_specification[ native_tls::Identity::from_pkcs12 ](der: &[u8], password: &str) -> (r:
    Result<native_tls::Identity, native_tls::Error>)
    requires
        !encode_utf8(password@).contains(0u8),
;

/// Relies on `native_tls::TlsAcceptor::new`: builds an acceptor with default
/// settings around the identity; whether it succeeds is the TLS library's
/// decision.
pub assume_specification[ native_tls::TlsAcceptor::new ](identity: native_tls::Identity) -> (r:
    Result<native_tls::TlsAcceptor, native_tls::Error>);

/// Which step of building the acceptor failed, with the TLS library's error.
#[derive(Debug)]
pub enum TlsSetupError {
    /// The password holds a NUL byte, which no PKCS #12 password can hold.
    Password,
    /// The identity archive could not be parsed or opened.
    Identity(native_tls::Error),
    /// No acceptor could be built around the identity.
    Acceptor(native_tls::Error),
}

/// Builds the acceptor from a PKCS #12 archive and its password. A
/// password holding a NUL byte is refused before the archive is read; past
/// that, the acceptor is built only from an identity that parsed, and each
/// failure is reported with the step it happened at.
pub fn build_acceptor(der: &[u8], password: &str) -> (r: Result<
    native_tls::TlsAcceptor,
    TlsSetupError,
>)
    ensures
        (r matches Err(TlsSetupError::Password)) <==> encode_utf8(password@).contains(0u8),
{
    if has_nul(password.as_bytes()) {
        return Err(TlsSetupError::Password);
    }
    let identity = match native_tls::Identity::from_pkcs12(der, password) {
        Ok(identity) => identity,
        Err(e) => return Err(TlsSetupError::Identity(e)),
    };
    match native_tls::TlsAcceptor::new(identity) {
        Ok(acceptor) => Ok(acceptor),
        Err(e) => Err(TlsSetupError::Acceptor(e)),
    }
}

/// Whether `b` holds a zero byte.
fn has_nul(b: &[u8]) -> (r: bool)
    ensures
        r == b@.contains(0u8),
{
    let mut i: usize = 0;
    while i < b.len()
        invariant
            i <= b@.len(),
            forall|k: int| 0 <= k < i ==> b@[k] != 0u8,
        decreases b@.len() - i,
    {
        if b[i] == 0 {
            assert(b@[i as int] == 0u8);
            return true;
        }
        i = i + 1;
    }
    false
}

} // verus!
