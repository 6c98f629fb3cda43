//! The calls into rustls, rustls-pki-types and rustls-rustcrypto that the
//! rustls orbit makes, each with the contract that it is trusted to meet.
use vstd::prelude::*;
use std::sync::Arc;
use rustls::client::{ClientConfig, ClientConnectionData, UnbufferedClientConnection};
use rustls::server::{ServerConfig, ServerConnectionData, UnbufferedServerConnection};
use rustls::unbuffered::{
    ConnectionState, EncodeError, EncodeTlsData, EncryptError, ReadTraffic, TransmitTlsData,
    WriteTraffic,
};
use rustls::RootCertStore;
use rustls_pki_types::pem::PemObject;
use rustls_pki_types::{CertificateDer, InvalidDnsNameError, PrivateKeyDer, ServerName};

verus! {

#[verifier::external_type_specification]
#[verifier::external_body]
pub struct ExRustlsError(rustls::Error);

#[verifier::external_type_specification]
#[verifier::external_body]
pub struct ExEncodeError(EncodeError);

#[verifier::external_type_specification]
#[verifier::external_body]
pub struct ExEncryptError(EncryptError);

#[verifier::external_type_specification]
#[verifier::external_body]
pub struct ExInvalidDnsNameError(InvalidDnsNameError);

#[verifier::external_type_specification]
#[verifier::external_body]
pub struct ExUnbufferedServerConnection(UnbufferedServerConnection);

#[verifier::external_type_specification]
#[verifier::external_body]
pub struct ExUnbufferedClientConnection(UnbufferedClientConnection);

#[verifier::external_type_specification]
#[verifier::external_body]
pub struct ExServerConnectionData(ServerConnectionData);

#[verifier::external_type_specification]
#[verifier::external_body]
pub struct ExClientConnectionData(ClientConnectionData);

#[verifier::external_type_specification]
#[verifier::external_body]
#[verifier::reject_recursive_types(Data)]
pub struct ExEncodeTlsData<'c, Data>(EncodeTlsData<'c, Data>);

#[verifier::external_type_specification]
#[verifier::external_body]
#[verifier::reject_recursive_types(Data)]
pub struct ExTransmitTlsData<'c, Data>(TransmitTlsData<'c, Data>);

#[verifier::external_type_specification]
#[verifier::external_body]
#[verifier::reject_recursive_types(Data)]
pub struct ExWriteTraffic<'c, Data>(WriteTraffic<'c, Data>);

#[verifier::external_type_specification]
#[verifier::external_body]
#[verifier::reject_recursive_types(Data)]
pub struct ExReadTraffic<'c, 'i, Data>(ReadTraffic<'c, 'i, Data>);

#[verifier::external_type_specification]
#[verifier::external_body]
pub struct ExServerConfig(ServerConfig);

#[verifier::external_type_specification]
#[verifier::external_body]
pub struct ExClientConfig(ClientConfig);

#[verifier::external_type_specification]
#[verifier::external_body]
pub struct ExRootCertStore(RootCertStore);

#[verifier::external_type_specification]
#[verifier::external_body]
pub struct ExCertificateDer<'a>(CertificateDer<'a>);

#[verifier::external_type_specification]
#[verifier::external_body]
pub struct ExPrivateKeyDer<'a>(PrivateKeyDer<'a>);

#[verifier::external_type_specification]
#[verifier::external_body]
pub struct ExServerName<'a>(ServerName<'a>);

/// The state that `process_tls_records` reached, with the handle that each
/// state carries.
#[verifier::reject_recursive_types(Data)]
pub(crate) enum StepState<'c, 'i, Data> {
    /// Application data records can be read.
    ReadTraffic(ReadTraffic<'c, 'i, Data>),
    /// The peer closed the connection.
    PeerClosed,
    /// Both sides closed the connection.
    Closed,
    /// Early data records can be read.
    ReadEarlyData,
    /// A handshake record must be encoded.
    EncodeTlsData(EncodeTlsData<'c, Data>),
    /// Encoded handshake records must be transmitted.
    TransmitTlsData(TransmitTlsData<'c, Data>),
    /// More input is needed to go on with the handshake.
    BlockedHandshake,
    /// The handshake is complete; application data can be encrypted.
    WriteTraffic(WriteTraffic<'c, Data>),
}

/// Whether rustls-pki-types accepts `name` as a DNS name (`DnsName::try_from`).
pub uninterp spec fn valid_dns_name(name: Seq<char>) -> bool;

/// `UnbufferedServerConnection::process_tls_records`: processes the records in
/// `incoming` and reports the number of bytes to discard from its front and the
/// state reached. Claimed: the discard never exceeds the buffer, which the
/// documentation of `UnbufferedStatus::discard` requires of the caller's
/// discard operation; the buffer keeps its length (it may be decrypted in place).
/// Not stated: which state is reached, which depends on the connection's secrets.
#[verifier::external_body]
pub(crate) fn process_server_records<'c, 'i>(
    conn: &'c mut UnbufferedServerConnection,
    incoming: &'i mut [u8],
) -> (r: (usize, Result<StepState<'c, 'i, ServerConnectionData>, rustls::Error>))
    ensures
        r.0 <= old(incoming)@.len(),
        final(incoming)@.len() == old(incoming)@.len(),
{
    let status = conn.process_tls_records(incoming);
    let state = match status.state {
        Ok(ConnectionState::ReadTraffic(t)) => Ok(StepState::ReadTraffic(t)),
        Ok(ConnectionState::PeerClosed) => Ok(StepState::PeerClosed),
        Ok(ConnectionState::Closed) => Ok(StepState::Closed),
        Ok(ConnectionState::ReadEarlyData(_)) => Ok(StepState::ReadEarlyData),
        Ok(ConnectionState::EncodeTlsData(e)) => Ok(StepState::EncodeTlsData(e)),
        Ok(ConnectionState::TransmitTlsData(t)) => Ok(StepState::TransmitTlsData(t)),
        Ok(ConnectionState::BlockedHandshake) => Ok(StepState::BlockedHandshake),
        Ok(ConnectionState::WriteTraffic(w)) => Ok(StepState::WriteTraffic(w)),
        Ok(_) => Ok(StepState::Closed),
        Err(e) => Err(e),
    };
    (status.discard, state)
}

/// `UnbufferedClientConnection::process_tls_records`; the same claims as
/// [`process_server_records`].
#[verifier::external_body]
pub(crate) fn process_client_records<'c, 'i>(
    conn: &'c mut UnbufferedClientConnection,
    incoming: &'i mut [u8],
) -> (r: (usize, Result<StepState<'c, 'i, ClientConnectionData>, rustls::Error>))
    ensures
        r.0 <= old(incoming)@.len(),
        final(incoming)@.len() == old(incoming)@.len(),
{
    let status = conn.process_tls_records(incoming);
    let state = match status.state {
        Ok(ConnectionState::ReadTraffic(t)) => Ok(StepState::ReadTraffic(t)),
        Ok(ConnectionState::PeerClosed) => Ok(StepState::PeerClosed),
        Ok(ConnectionState::Closed) => Ok(StepState::Closed),
        Ok(ConnectionState::ReadEarlyData(_)) => Ok(StepState::ReadEarlyData),
        Ok(ConnectionState::EncodeTlsData(e)) => Ok(StepState::EncodeTlsData(e)),
        Ok(ConnectionState::TransmitTlsData(t)) => Ok(StepState::TransmitTlsData(t)),
        Ok(ConnectionState::BlockedHandshake) => Ok(StepState::BlockedHandshake),
        Ok(ConnectionState::WriteTraffic(w)) => Ok(StepState::WriteTraffic(w)),
        Ok(_) => Ok(StepState::Closed),
        Err(e) => Err(e),
    };
    (status.discard, state)
}

/// `EncodeTlsData::encode` into `out[start..]`. Claimed, as its source shows:
/// on success the record was copied into the first `n` bytes of `out[start..]`
/// and nothing else was written, so `n` fits; on error `out` is unchanged.
/// Not stated: the record's bytes.
#[verifier::external_body]
pub(crate) fn encode_tls_data<'c, Data>(
    e: &mut EncodeTlsData<'c, Data>,
    out: &mut [u8],
    start: usize,
) -> (r: Result<usize, EncodeError>)
    requires
        start <= old(out)@.len(),
    ensures
        final(out)@.len() == old(out)@.len(),
        match r {
            Ok(n) => start + n <= old(out)@.len() && final(out)@.subrange(0, start as int)
                == old(out)@.subrange(0, start as int) && final(out)@.subrange(
                start + n,
                old(out)@.len() as int,
            ) == old(out)@.subrange(start + n, old(out)@.len() as int),
            Err(_) => final(out)@ == old(out)@,
        },
{
    e.encode(&mut out[start..])
}

/// `TransmitTlsData::done`: marks the encoded records as transmitted.
#[verifier::external_body]
pub(crate) fn transmit_done<'c, Data>(t: TransmitTlsData<'c, Data>) {
    t.done()
}

/// `WriteTraffic::encrypt` of `data` into `out[start..]`. Claimed, as its
/// documentation says: on success `n` bytes were written into `out[start..]`,
/// so `n` fits, and the bytes before `start` are untouched; on error `out` is
/// unchanged. As its source shows (`write_plaintext`), empty data encrypts to
/// nothing, and non-empty data to at least one record, so `n > 0`; on success
/// every fragment of `data` was encrypted into the output (`write_fragments`),
/// and each record the RustCrypto ciphers encode holds its whole plaintext
/// plus a header and tag (`encrypted_payload_len` in rustls-rustcrypto), so
/// `n` is at least the length of `data`.
/// Not stated: the ciphertext.
#[verifier::external_body]
pub(crate) fn encrypt_traffic<'c, Data>(
    w: &mut WriteTraffic<'c, Data>,
    data: &[u8],
    out: &mut [u8],
    start: usize,
) -> (r: Result<usize, EncryptError>)
    requires
        start <= old(out)@.len(),
    ensures
        final(out)@.len() == old(out)@.len(),
        match r {
            Ok(n) => {
                &&& start + n <= old(out)@.len()
                &&& final(out)@.subrange(0, start as int) == old(out)@.subrange(0, start as int)
                &&& data@.len() == 0 ==> n == 0 && final(out)@ == old(out)@
                &&& data@.len() > 0 ==> n > 0
                &&& n >= data@.len()
            },
            Err(_) => final(out)@ == old(out)@ && data@.len() > 0,
        },
{
    w.encrypt(data, &mut out[start..])
}

/// `ReadTraffic::next_record`: the next decrypted application record, as its
/// discard count and a copy of its payload. Claimed, as the source brought
/// shows: every record reports a discard of 0. Not stated: the payload.
#[verifier::external_body]
pub(crate) fn next_app_record<'c, 'i, Data>(
    t: &mut ReadTraffic<'c, 'i, Data>,
) -> (r: Option<Result<(usize, Vec<u8>), rustls::Error>>)
    ensures
        r matches Some(Ok(rec)) ==> rec.0 == 0,
{
    match t.next_record() {
        Some(Ok(rec)) => Some(Ok((rec.discard, rec.payload.to_vec()))),
        Some(Err(e)) => Some(Err(e)),
        None => None,
    }
}

/// `is_handshaking` of a server connection, a function of the connection's state.
pub uninterp spec fn server_conn_handshaking(conn: UnbufferedServerConnection) -> bool;

/// `is_handshaking` of a server connection; claimed: it reads the connection's state
/// and changes nothing, so its value is [`server_conn_handshaking`] of the connection.
#[verifier::external_body]
pub(crate) fn server_is_handshaking(conn: &UnbufferedServerConnection) -> (b: bool)
    ensures
        b == server_conn_handshaking(*conn),
{
    conn.is_handshaking()
}

/// `is_handshaking` of a client connection, a function of the connection's state.
pub uninterp spec fn client_conn_handshaking(conn: UnbufferedClientConnection) -> bool;

/// `is_handshaking` of a client connection; claimed: it reads the connection's state
/// and changes nothing, so its value is [`client_conn_handshaking`] of the connection.
#[verifier::external_body]
pub(crate) fn client_is_handshaking(conn: &UnbufferedClientConnection) -> (b: bool)
    ensures
        b == client_conn_handshaking(*conn),
{
    conn.is_handshaking()
}

/// `wants_write` of a server connection, a function of the connection's state.
pub uninterp spec fn server_conn_wants_write(conn: UnbufferedServerConnection) -> bool;

/// `wants_write` of a server connection; claimed: it reads the connection's state
/// and changes nothing, so its value is [`server_conn_wants_write`] of the connection.
#[verifier::external_body]
pub(crate) fn server_wants_write(conn: &UnbufferedServerConnection) -> (b: bool)
    ensures
        b == server_conn_wants_write(*conn),
{
    conn.wants_write()
}

/// `wants_write` of a client connection, a function of the connection's state.
pub uninterp spec fn client_conn_wants_write(conn: UnbufferedClientConnection) -> bool;

/// `wants_write` of a client connection; claimed: it reads the connection's state
/// and changes nothing, so its value is [`client_conn_wants_write`] of the connection.
#[verifier::external_body]
pub(crate) fn client_wants_write(conn: &UnbufferedClientConnection) -> (b: bool)
    ensures
        b == client_conn_wants_write(*conn),
{
    conn.wants_write()
}

/// `wants_read` of a server connection, a function of the connection's state.
pub uninterp spec fn server_conn_wants_read(conn: UnbufferedServerConnection) -> bool;

/// `wants_read` of a server connection; claimed: it reads the connection's state
/// and changes nothing, so its value is [`server_conn_wants_read`] of the connection.
#[verifier::external_body]
pub(crate) fn server_wants_read(conn: &UnbufferedServerConnection) -> (b: bool)
    ensures
        b == server_conn_wants_read(*conn),
{
    conn.wants_read()
}

/// `wants_read` of a client connection, a function of the connection's state.
pub uninterp spec fn client_conn_wants_read(conn: UnbufferedClientConnection) -> bool;

/// `wants_read` of a client connection; claimed: it reads the connection's state
/// and changes nothing, so its value is [`client_conn_wants_read`] of the connection.
#[verifier::external_body]
pub(crate) fn client_wants_read(conn: &UnbufferedClientConnection) -> (b: bool)
    ensures
        b == client_conn_wants_read(*conn),
{
    conn.wants_read()
}

/// Whether a server configuration leaves the maximum fragment size unset
/// (`ServerConfig::max_fragment_size` is `None`).
pub uninterp spec fn fragment_size_unset(config: ServerConfig) -> bool;

/// `UnbufferedServerConnection::new`. Claimed, as its source shows: its one
/// failure is an out-of-range maximum fragment size, so it succeeds when that
/// size is unset.
#[verifier::external_body]
pub(crate) fn new_server_connection(
    config: Arc<ServerConfig>,
) -> (r: Result<UnbufferedServerConnection, rustls::Error>)
    ensures
        fragment_size_unset(*config) ==> r is Ok,
{
    UnbufferedServerConnection::new(config)
}

/// `UnbufferedClientConnection::new`; whether it succeeds depends on the
/// configuration and is not stated.
#[verifier::external_body]
pub(crate) fn new_client_connection(
    config: Arc<ClientConfig>,
    name: ServerName<'static>,
) -> Result<UnbufferedClientConnection, rustls::Error> {
    UnbufferedClientConnection::new(config, name)
}

/// The server name `ServerName::DnsName(DnsName::try_from(name))` gives.
pub uninterp spec fn server_name_of(name: Seq<char>) -> ServerName<'static>;

/// `ServerName::DnsName(DnsName::try_from(name))`: claimed, it succeeds exactly
/// when rustls-pki-types validates `name`, and the name it gives depends on
/// `name` alone.
#[verifier::external_body]
pub(crate) fn dns_server_name(name: &'static str) -> (r: Result<ServerName<'static>, InvalidDnsNameError>)
    ensures
        r is Ok <==> valid_dns_name(name@),
        r matches Ok(n) ==> n == server_name_of(name@),
{
    match rustls_pki_types::DnsName::try_from(name) {
        Ok(d) => Ok(ServerName::DnsName(d)),
        Err(e) => Err(e),
    }
}

/// `ServerName::clone` (derived): claimed, the copy is the same name.
#[verifier::external_body]
pub(crate) fn clone_server_name(n: &ServerName<'static>) -> (r: ServerName<'static>)
    ensures
        r == *n,
{
    n.clone()
}

/// Whether rustls, with the RustCrypto provider, the safe default protocol
/// versions and no client authentication, accepts `chain` and `key` as the
/// server's certificate chain and key.
pub uninterp spec fn server_config_accepted(
    chain: Seq<CertificateDer<'static>>,
    key: PrivateKeyDer<'static>,
) -> bool;

/// The server configuration chain `ServerConfig::builder_with_provider` (with
/// `rustls_rustcrypto::provider()`), `with_safe_default_protocol_versions`,
/// `with_no_client_auth`, `with_single_cert`, stopping at the first error.
/// Claimed: whether it succeeds depends on the chain and key alone (the
/// provider is fixed), and the builder leaves the maximum fragment size unset.
#[verifier::external_body]
pub(crate) fn build_server_config(
    chain: Vec<CertificateDer<'static>>,
    key: PrivateKeyDer<'static>,
) -> (r: Result<ServerConfig, rustls::Error>)
    ensures
        r is Ok <==> server_config_accepted(chain@, key),
        r matches Ok(c) ==> fragment_size_unset(c),
{
    ServerConfig::builder_with_provider(Arc::new(rustls_rustcrypto::provider()))
        .with_safe_default_protocol_versions()?
        .with_no_client_auth()
        .with_single_cert(chain, key)
}

/// `ServerConfig::clone` (derived): claimed, the copy keeps the maximum
/// fragment size.
#[verifier::external_body]
pub(crate) fn clone_server_config(c: &ServerConfig) -> (r: ServerConfig)
    ensures
        fragment_size_unset(r) == fragment_size_unset(*c),
{
    c.clone()
}

/// `ClientConfig::clone`.
#[verifier::external_body]
pub(crate) fn clone_client_config(c: &ClientConfig) -> ClientConfig {
    c.clone()
}

/// `PrivateKeyDer::clone_key`: claimed, the copy has the same form and the
/// same DER bytes (only their ownership may differ), so rustls accepts it with
/// a chain exactly when it accepts the original.
#[verifier::external_body]
pub(crate) fn clone_private_key(k: &PrivateKeyDer<'static>) -> (r: PrivateKeyDer<'static>)
    ensures
        forall|chain: Seq<CertificateDer<'static>>| #[trigger]
            server_config_accepted(chain, r) == server_config_accepted(chain, *k),
{
    k.clone_key()
}

/// `CertificateDer::clone`: claimed, the copy is the same certificate.
#[verifier::external_body]
pub(crate) fn clone_certificate(c: &CertificateDer<'static>) -> (r: CertificateDer<'static>)
    ensures
        r == *c,
{
    c.clone()
}

/// Whether a PEM document holds a certificate that `CertificateDer::from_pem_slice` decodes.
pub uninterp spec fn pem_has_certificate(pem: Seq<u8>) -> bool;

/// Whether a PEM document holds a private key that `PrivateKeyDer::from_pem_slice` decodes.
pub uninterp spec fn pem_has_private_key(pem: Seq<u8>) -> bool;

/// The certificate `CertificateDer::from_pem_slice` decodes from a PEM document.
pub uninterp spec fn pem_certificate(pem: Seq<u8>) -> CertificateDer<'static>;

/// The private key `PrivateKeyDer::from_pem_slice` decodes from a PEM document.
pub uninterp spec fn pem_private_key(pem: Seq<u8>) -> PrivateKeyDer<'static>;

/// `CertificateDer::from_pem_slice`, the first certificate in `pem`. Claimed:
/// whether one is found, and which, depends on `pem` alone; the PEM grammar is
/// not restated.
#[verifier::external_body]
pub(crate) fn certificate_from_pem(pem: &[u8]) -> (r: Option<CertificateDer<'static>>)
    ensures
        r is Some <==> pem_has_certificate(pem@),
        r matches Some(c) ==> c == pem_certificate(pem@),
{
    CertificateDer::from_pem_slice(pem).ok()
}

/// `PrivateKeyDer::from_pem_slice`, the first private key in `pem`. Claimed:
/// whether one is found, and which, depends on `pem` alone; the PEM grammar is
/// not restated.
#[verifier::external_body]
pub(crate) fn private_key_from_pem(pem: &[u8]) -> (r: Option<PrivateKeyDer<'static>>)
    ensures
        r is Some <==> pem_has_private_key(pem@),
        r matches Some(k) ==> k == pem_private_key(pem@),
{
    PrivateKeyDer::from_pem_slice(pem).ok()
}

/// The number of trust anchors a root store holds (`RootCertStore::len`).
pub uninterp spec fn root_store_len(store: RootCertStore) -> nat;

/// `RootCertStore::empty`: a store with no trust anchor.
#[verifier::external_body]
pub(crate) fn empty_root_store() -> (s: RootCertStore)
    ensures
        root_store_len(s) == 0,
{
    RootCertStore::empty()
}

/// Whether webpki parses a certificate as a trust anchor.
pub uninterp spec fn trust_anchor_parses(ca: CertificateDer<'static>) -> bool;

/// `RootCertStore::add`. Claimed, as its source shows: it fails exactly when
/// the certificate does not parse as a trust anchor, which depends on the
/// certificate alone, and then leaves the store unchanged; on success one
/// trust anchor was pushed.
#[verifier::external_body]
pub(crate) fn add_root(store: &mut RootCertStore, ca: CertificateDer<'static>) -> (r: Result<(), rustls::Error>)
    ensures
        r is Ok <==> trust_anchor_parses(ca),
        r is Ok ==> root_store_len(*final(store)) == root_store_len(*old(store)) + 1,
        r is Err ==> *final(store) == *old(store),
{
    store.add(ca)
}

} // verus!
