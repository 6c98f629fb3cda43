//! The materials of the yTLS server under A/B test: the CA and server
//! certificates and the server's private key, decoded from their PEM
//! documents (the key from its SEC1 form).
use vstd::prelude::*;

verus! {

/// Whether `pem_rfc7468::decode_vec` decodes a PEM document.
pub uninterp spec fn pem_decodes(pem: Seq<u8>) -> bool;

/// The bytes `pem_rfc7468::decode_vec` decodes from a PEM document.
pub uninterp spec fn pem_body(pem: Seq<u8>) -> Seq<u8>;

/// `pem_rfc7468::decode_vec`, keeping the decoded bytes and dropping the
/// label. Claimed: whether it decodes, and what, depends on `pem` alone; the
/// PEM grammar is not restated.
#[verifier::external_body]
fn pem_decode(pem: &[u8]) -> (r: Option<Vec<u8>>)
    ensures
        r is Some <==> pem_decodes(pem@),
        r matches Some(d) ==> d@ == pem_body(pem@),
{
    match pem_rfc7468::decode_vec(pem) {
        Ok((_label, data)) => Some(data),
        Err(_) => None,
    }
}

/// Whether `sec1::EcPrivateKey::try_from` parses DER bytes.
pub uninterp spec fn sec1_parses(der: Seq<u8>) -> bool;

/// The `private_key` field of what `sec1::EcPrivateKey::try_from` parses.
pub uninterp spec fn sec1_key(der: Seq<u8>) -> Seq<u8>;

/// `sec1::EcPrivateKey::try_from`, keeping a copy of the private key bytes.
/// Claimed: whether it parses, and what, depends on `der` alone; the DER
/// grammar is not restated.
#[verifier::external_body]
fn sec1_private_key(der: &[u8]) -> (r: Option<Vec<u8>>)
    ensures
        r is Some <==> sec1_parses(der@),
        r matches Some(k) ==> k@ == sec1_key(der@),
{
    match sec1::EcPrivateKey::try_from(der) {
        Ok(key) => Some(key.private_key.to_vec()),
        Err(_) => None,
    }
}

/// The CA certificate, the server certificate and the server's private key
/// from their PEM documents: the certificates are the decoded PEM bodies, the
/// key is the private key of the SEC1 structure in the key's PEM body. `None`
/// exactly when one of the documents does not decode or the key does not
/// parse.
pub fn ab_ytls_materials(ca_pem: &[u8], cert_pem: &[u8], key_pem: &[u8]) -> (r: Option<
    (Vec<u8>, Vec<u8>, Vec<u8>),
>)
    ensures
        r is Some <==> (pem_decodes(ca_pem@) && pem_decodes(cert_pem@) && pem_decodes(key_pem@)
            && sec1_parses(pem_body(key_pem@))),
        r matches Some(m) ==> {
            &&& m.0@ == pem_body(ca_pem@)
            &&& m.1@ == pem_body(cert_pem@)
            &&& m.2@ == sec1_key(pem_body(key_pem@))
        },
{
    let cert = match pem_decode(cert_pem) {
        Some(c) => c,
        None => return None,
    };
    let key_der = match pem_decode(key_pem) {
        Some(k) => k,
        None => return None,
    };
    let key = match sec1_private_key(key_der.as_slice()) {
        Some(k) => k,
        None => return None,
    };
    let ca = match pem_decode(ca_pem) {
        Some(c) => c,
        None => return None,
    };
    Some((ca, cert, key))
}

} // verus!
