//! TLS errors.
use vstd::prelude::*;
use rustls::unbuffered::EncodeError as RustlsEncodeError;
use rustls::unbuffered::EncryptError as RustlsEncryptError;
use rustls::Error as RustlsError;
use rustls_pki_types::InvalidDnsNameError as RustlsInvalidDnsNameError;

verus! {

/// Errors reported by the rustls orbit.
#[derive(Debug)]
pub enum TlsError {
    /// Rustls backend reports invalid configuration
    RustlsConfig(RustlsError),
    /// Rustls backend rejects DNS name
    RustlsDns(RustlsInvalidDnsNameError),
    /// Rustls Encode
    RustlsEncode(RustlsEncodeError),
    /// Rustls Handle Records
    RustlsHandleRecords(RustlsError),
    /// Rustls Encrypt discard usize with EncryptError
    RustlsEncrypt(usize, RustlsEncryptError),
    /// Rustls Decrypt discard usize with RustlsError
    RustlsDecrypt(usize, RustlsError),
    /// The connection reached a state the orbit does not handle
    /// (peer closed, closed, or early data); carries the discard.
    RustlsUnhandledState(usize),
}

} // verus!
