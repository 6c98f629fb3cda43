//! The rustls blueprint: configuration, client and server entities, and the
//! orbit that drives an unbuffered rustls connection between the Left
//! (ciphertext) and Right (cleartext) sides.
use vstd::prelude::*;
use std::sync::Arc;
use rustls::client::{ClientConfig, UnbufferedClientConnection};
use rustls::server::{ServerConfig, UnbufferedServerConnection};
use rustls::unbuffered::{EncodeError, EncryptError};
use rustls::RootCertStore;
use rustls_pki_types::{CertificateDer, PrivateKeyDer, ServerName};

use crate::ab_io_orbit::{
    left_after_set_lens, lemma_left_buffers_fit, AbIoLeft, AbIoRight, LeftModel, RightModel,
};
use crate::error::TlsError;
use crate::position::TlsPosition;
use crate::rustls_api::{
    add_root, build_server_config, certificate_from_pem, clone_certificate, clone_client_config,
    clone_private_key, clone_server_config, client_is_handshaking, client_wants_read,
    client_wants_write, dns_server_name, empty_root_store, encode_tls_data, encrypt_traffic,
    new_client_connection, new_server_connection, next_app_record, private_key_from_pem,
    pem_has_certificate, pem_has_private_key, process_client_records, process_server_records,
    root_store_len, server_is_handshaking, server_wants_read, server_wants_write, transmit_done,
    valid_dns_name, StepState,
};
use crate::rustls_api::{
    clone_server_name, fragment_size_unset, pem_certificate, pem_private_key,
    server_config_accepted, server_name_of, trust_anchor_parses,
};
use crate::rustls_api::{
    client_conn_handshaking, client_conn_wants_read, client_conn_wants_write,
    server_conn_handshaking, server_conn_wants_read, server_conn_wants_write,
};

verus! {

/// An IP address: version 4 as its four octets, version 6 as its eight
/// 16-bit segments.
#[derive(Clone, Copy, Debug, PartialEq, Eq, Structural)]
pub enum IpAddr {
    /// An IPv4 address.
    V4(u8, u8, u8, u8),
    /// An IPv6 address.
    V6(u16, u16, u16, u16, u16, u16, u16, u16),
}

// ---------------------------------------------------------------------------
// Configuration
// ---------------------------------------------------------------------------

/// How the client names the server it connects to.
#[derive(Clone, Copy, Debug, PartialEq)]
pub enum TlsServerIdentifier {
    /// A DNS host name.
    DnsName(&'static str),
    /// An IP address.
    IpAddr(IpAddr),
}

impl TlsServerIdentifier {
    /// Build with hostname.
    pub fn with_hostname(host: &'static str) -> (r: Result<Self, TlsError>)
        ensures
            r matches Ok(TlsServerIdentifier::DnsName(h)) && h@ == host@,
    {
        Ok(TlsServerIdentifier::DnsName(host))
    }

    /// Build with an IP address.
    pub fn with_ipaddr(addr: IpAddr) -> (r: Result<Self, TlsError>)
        ensures
            r == Ok::<Self, TlsError>(TlsServerIdentifier::IpAddr(addr)),
    {
        Ok(TlsServerIdentifier::IpAddr(addr))
    }

    /// The rustls server name of a DNS identifier; fails exactly when the name
    /// is not a valid DNS name. An IP address identifier is not supported.
    pub fn to_server_name(self) -> (r: Result<ServerName<'static>, TlsError>)
        requires
            self is DnsName,
        ensures
            r is Ok <==> valid_dns_name(self->DnsName_0@),
            r matches Ok(n) ==> n == server_name_of(self->DnsName_0@),
            r is Err ==> r->Err_0 is RustlsDns,
    {
        match self {
            TlsServerIdentifier::DnsName(s) => match dns_server_name(s) {
                Ok(n) => Ok(n),
                Err(e) => Err(TlsError::RustlsDns(e)),
            },
            TlsServerIdentifier::IpAddr(_) => {
                // unreachable: excluded by the precondition
                Err(TlsError::RustlsUnhandledState(0))
            },
        }
    }
}

/// Client configuration: the identity of the server.
#[derive(Clone, Copy, Debug)]
pub struct TlsClientConfig {
    /// The server the client connects to.
    pub server_identifier: TlsServerIdentifier,
}

impl TlsClientConfig {
    /// Build with a [`TlsServerIdentifier`].
    pub fn with_server_id(server_identifier: TlsServerIdentifier) -> (r: Result<Self, TlsError>)
        ensures
            r matches Ok(c) && c.server_identifier == server_identifier,
    {
        Ok(TlsClientConfig { server_identifier })
    }

    /// Build with the server's host name.
    pub fn with_hostname(host: &'static str) -> (r: Result<Self, TlsError>)
        ensures
            r matches Ok(c) && c.server_identifier matches TlsServerIdentifier::DnsName(h) && h@
                == host@,
    {
        let server_identifier = match TlsServerIdentifier::with_hostname(host) {
            Ok(s) => s,
            Err(e) => return Err(e),
        };
        Ok(TlsClientConfig { server_identifier })
    }

    /// Build with the server's IP address.
    pub fn with_ipaddr(addr: IpAddr) -> (r: Result<Self, TlsError>)
        ensures
            r matches Ok(c) && c.server_identifier == TlsServerIdentifier::IpAddr(addr),
    {
        let server_identifier = match TlsServerIdentifier::with_ipaddr(addr) {
            Ok(s) => s,
            Err(e) => return Err(e),
        };
        Ok(TlsClientConfig { server_identifier })
    }

    /// The rustls server name of the configured server, which must be named
    /// by DNS name; fails exactly when that name is not a valid DNS name.
    pub fn rustls_server_name(&self) -> (r: Result<ServerName<'static>, TlsError>)
        requires
            self.server_identifier is DnsName,
        ensures
            r is Ok <==> valid_dns_name(self.server_identifier->DnsName_0@),
            r matches Ok(n) ==> n == server_name_of(self.server_identifier->DnsName_0@),
            r is Err ==> r->Err_0 is RustlsDns,
    {
        self.server_identifier.to_server_name()
    }
}

/// Server configuration: a certificate chain and its private key.
#[derive(Debug)]
pub struct TlsServerConfig {
    rustls_cert_chain: Vec<CertificateDer<'static>>,
    rustls_key_der: PrivateKeyDer<'static>,
}

impl TlsServerConfig {
    /// The certificate chain.
    pub closed spec fn cert_chain(&self) -> Seq<CertificateDer<'static>> {
        self.rustls_cert_chain@
    }

    /// The private key.
    pub closed spec fn key(&self) -> PrivateKeyDer<'static> {
        self.rustls_key_der
    }

    /// Construct with a certificate chain and key.
    pub fn with_certs_and_key(
        chain: Vec<CertificateDer<'static>>,
        rustls_key_der: PrivateKeyDer<'static>,
    ) -> (r: Result<Self, TlsError>)
        ensures
            r matches Ok(c) && c.cert_chain() == chain@ && c.key() == rustls_key_der,
    {
        Ok(TlsServerConfig { rustls_cert_chain: chain, rustls_key_der })
    }

    /// Construct from the DER of the CA certificate, of the signed certificate
    /// and of the key: the chain is `[ca, cert]`.
    pub fn with_ca_cert_and_key(
        ca_der: CertificateDer<'static>,
        cert_der: CertificateDer<'static>,
        private_key_der: PrivateKeyDer<'static>,
    ) -> (r: Result<Self, TlsError>)
        ensures
            r matches Ok(c) && c.cert_chain() == seq![ca_der, cert_der] && c.key()
                == private_key_der,
    {
        let mut chain: Vec<CertificateDer<'static>> = Vec::new();
        chain.push(ca_der);
        chain.push(cert_der);
        proof {
            assert(chain@ =~= seq![ca_der, cert_der]);
        }
        Ok(TlsServerConfig { rustls_cert_chain: chain, rustls_key_der: private_key_der })
    }

    /// The rustls server configuration with the RustCrypto provider, the safe
    /// default protocol versions, no client authentication and this chain and
    /// key; a refusal by rustls is a configuration error.
    pub fn try_into_rustls(self) -> (r: Result<ServerConfig, TlsError>)
        ensures
            r is Ok <==> server_config_accepted(self.cert_chain(), self.key()),
            r matches Ok(c) ==> fragment_size_unset(c),
            r is Err ==> r->Err_0 is RustlsConfig,
    {
        match build_server_config(self.rustls_cert_chain, self.rustls_key_der) {
            Ok(c) => Ok(c),
            Err(e) => Err(TlsError::RustlsConfig(e)),
        }
    }
}

impl Clone for TlsServerConfig {
    /// A copy of the configuration, the key copied with `clone_key`.
    fn clone(&self) -> (c: Self)
        ensures
            c.cert_chain() == self.cert_chain(),
            forall|chain: Seq<CertificateDer<'static>>| #[trigger]
                server_config_accepted(chain, c.key()) == server_config_accepted(chain, self.key()),
    {
        let mut chain: Vec<CertificateDer<'static>> = Vec::new();
        let mut i: usize = 0;
        while i < self.rustls_cert_chain.len()
            invariant
                i <= self.rustls_cert_chain@.len(),
                chain@ == self.rustls_cert_chain@.take(i as int),
            decreases self.rustls_cert_chain@.len() - i,
        {
            chain.push(clone_certificate(&self.rustls_cert_chain[i]));
            proof {
                assert(chain@ =~= self.rustls_cert_chain@.take(i + 1));
            }
            i = i + 1;
        }
        proof {
            assert(chain@ =~= self.rustls_cert_chain@);
        }
        TlsServerConfig {
            rustls_cert_chain: chain,
            rustls_key_der: clone_private_key(&self.rustls_key_der),
        }
    }

}

/// The DER certificate in a PEM document, if there is one.
pub fn load_cert_der_pem(pem: &[u8]) -> (r: Option<CertificateDer<'static>>)
    ensures
        r is Some <==> pem_has_certificate(pem@),
        r matches Some(c) ==> c == pem_certificate(pem@),
{
    certificate_from_pem(pem)
}

/// The DER private key in a PEM document, if there is one.
pub fn load_private_key_der_pem(pem: &[u8]) -> (r: Option<PrivateKeyDer<'static>>)
    ensures
        r is Some <==> pem_has_private_key(pem@),
        r matches Some(k) ==> k == pem_private_key(pem@),
{
    private_key_from_pem(pem)
}

/// A root store that trusts the pinned CA certificate alone; `None` when
/// rustls does not accept the certificate.
pub fn roots(ca_pinned: CertificateDer<'static>) -> (r: Option<RootCertStore>)
    ensures
        r is Some <==> trust_anchor_parses(ca_pinned),
        r matches Some(store) ==> root_store_len(store) == 1,
{
    let mut store = empty_root_store();
    match add_root(&mut store, ca_pinned) {
        Ok(()) => Some(store),
        Err(_) => None,
    }
}


// ---------------------------------------------------------------------------
// Client and server entities
// ---------------------------------------------------------------------------

/// A rustls server: its configuration and the unbuffered connection.
pub struct TlsServer {
    config: TlsServerConfig,
    rustls_config: ServerConfig,
    rustls_server: UnbufferedServerConnection,
}

/// A rustls client: its configuration and the unbuffered connection.
pub struct TlsClient {
    config: TlsClientConfig,
    server_name: ServerName<'static>,
    rustls_config: ClientConfig,
    rustls_client: UnbufferedClientConnection,
}

impl TlsServer {
    /// The configuration the server was built with.
    pub closed spec fn config(&self) -> &TlsServerConfig {
        &self.config
    }

    /// Whether the connection still performs the handshake.
    pub closed spec fn handshaking(&self) -> bool {
        server_conn_handshaking(self.rustls_server)
    }

    /// Whether the connection has records to write.
    pub closed spec fn conn_wants_write(&self) -> bool {
        server_conn_wants_write(self.rustls_server)
    }

    /// Whether the connection wants more input.
    pub closed spec fn conn_wants_read(&self) -> bool {
        server_conn_wants_read(self.rustls_server)
    }

    /// Construct a server from its configuration: the rustls configuration
    /// is built from a copy of it and a connection is opened on it.
    pub fn with_config(config: TlsServerConfig) -> (r: Result<Self, TlsError>)
        ensures
            r is Ok <==> server_config_accepted(config.cert_chain(), config.key()),
            r matches Ok(s) ==> s.config() == config,
            r is Err ==> r->Err_0 is RustlsConfig,
    {
        let rustls_config = match config.clone().try_into_rustls() {
            Ok(c) => c,
            Err(e) => return Err(e),
        };
        let rustls_server = match new_server_connection(
            Arc::new(clone_server_config(&rustls_config)),
        ) {
            Ok(c) => c,
            Err(e) => return Err(TlsError::RustlsConfig(e)),
        };
        Ok(TlsServer { config, rustls_config, rustls_server })
    }

    /// Whether the connection still performs the handshake.
    pub fn is_handshaking(&self) -> (b: bool)
        ensures
            b == self.handshaking(),
    {
        server_is_handshaking(&self.rustls_server)
    }

    /// Whether the connection has records to write.
    pub fn wants_write(&self) -> (b: bool)
        ensures
            b == self.conn_wants_write(),
    {
        server_wants_write(&self.rustls_server)
    }

    /// Whether the connection wants more input.
    pub fn wants_read(&self) -> (b: bool)
        ensures
            b == self.conn_wants_read(),
    {
        server_wants_read(&self.rustls_server)
    }
}

impl TlsClient {
    /// The configuration the client was built with.
    pub closed spec fn config(&self) -> TlsClientConfig {
        self.config
    }

    /// The server name the connection was opened for.
    pub closed spec fn server_name(&self) -> ServerName<'static> {
        self.server_name
    }

    /// Whether the connection still performs the handshake.
    pub closed spec fn handshaking(&self) -> bool {
        client_conn_handshaking(self.rustls_client)
    }

    /// Whether the connection has records to write.
    pub closed spec fn conn_wants_write(&self) -> bool {
        client_conn_wants_write(self.rustls_client)
    }

    /// Whether the connection wants more input.
    pub closed spec fn conn_wants_read(&self) -> bool {
        client_conn_wants_read(self.rustls_client)
    }

    /// Construct a client that connects to the server the configuration
    /// names, with the given rustls client configuration. Fails with a DNS
    /// error exactly when the server's name is not a valid DNS name.
    pub fn with_config(config: TlsClientConfig, rustls_config: ClientConfig) -> (r: Result<
        Self,
        TlsError,
    >)
        requires
            config.server_identifier is DnsName,
        ensures
            r matches Ok(c) ==> c.config() == config,
            r matches Ok(c) ==> c.server_name() == server_name_of(
                config.server_identifier->DnsName_0@,
            ),
            (r matches Err(TlsError::RustlsDns(_))) <==> !valid_dns_name(
                config.server_identifier->DnsName_0@,
            ),
            r is Err ==> (r->Err_0 is RustlsDns || r->Err_0 is RustlsConfig),
    {
        let name = match config.server_identifier.to_server_name() {
            Ok(n) => n,
            Err(e) => return Err(e),
        };
        let server_name = clone_server_name(&name);
        let rustls_client = match new_client_connection(
            Arc::new(clone_client_config(&rustls_config)),
            name,
        ) {
            Ok(c) => c,
            Err(e) => return Err(TlsError::RustlsConfig(e)),
        };
        Ok(TlsClient { config, server_name, rustls_config, rustls_client })
    }

    /// Whether the connection still performs the handshake.
    pub fn is_handshaking(&self) -> (b: bool)
        ensures
            b == self.handshaking(),
    {
        client_is_handshaking(&self.rustls_client)
    }

    /// Whether the connection has records to write.
    pub fn wants_write(&self) -> (b: bool)
        ensures
            b == self.conn_wants_write(),
    {
        client_wants_write(&self.rustls_client)
    }

    /// Whether the connection wants more input.
    pub fn wants_read(&self) -> (b: bool)
        ensures
            b == self.conn_wants_read(),
    {
        client_wants_read(&self.rustls_client)
    }
}

// ---------------------------------------------------------------------------
// The orbit step
// ---------------------------------------------------------------------------

/// What one pass of the rustls state machine produced, as plain values: the
/// discard reported for the Left input, the output written, the records read.
#[allow(inconsistent_fields)]
pub enum RustlsEvent {
    /// `process_tls_records` rejected the records with `error`.
    RecordsFailed { discard: usize, error: rustls::Error },
    /// A handshake record of `written` bytes was encoded into the Left output.
    Encoded { discard: usize, written: usize },
    /// Encoding a handshake record failed.
    EncodeFailed { error: EncodeError },
    /// Encoded records were marked as transmitted.
    Transmitted { discard: usize },
    /// The Right output was encrypted into `written` bytes of Left output.
    Encrypted { discard: usize, written: usize },
    /// Encrypting the Right output failed.
    EncryptFailed { discard: usize, error: EncryptError },
    /// Application data can be sent but the Right side has none.
    AwaitingRight { discard: usize },
    /// Application records were decrypted.
    Decrypted { discard: usize, records: Vec<Vec<u8>> },
    /// Decrypting a record failed after `records` were decrypted.
    DecryptFailed { discard: usize, records: Vec<Vec<u8>>, error: rustls::Error },
    /// The handshake needs more input.
    Blocked { discard: usize },
    /// A state this orbit does not handle (closed, peer closed, early data).
    Unhandled { discard: usize },
}

/// The payloads of `records`, one after the other.
pub open spec fn concat_payloads(records: Seq<Vec<u8>>) -> Seq<u8>
    decreases records.len(),
{
    if records.len() == 0 {
        Seq::empty()
    } else {
        concat_payloads(records.drop_last()) + records.last()@
    }
}

impl RustlsEvent {
    /// The discard the event reports for the Left input.
    pub open spec fn discard(&self) -> usize {
        match self {
            RustlsEvent::RecordsFailed { discard, .. } => *discard,
            RustlsEvent::Encoded { discard, .. } => *discard,
            RustlsEvent::EncodeFailed { .. } => 0,
            RustlsEvent::Transmitted { discard } => *discard,
            RustlsEvent::Encrypted { discard, .. } => *discard,
            RustlsEvent::EncryptFailed { discard, .. } => *discard,
            RustlsEvent::AwaitingRight { discard } => *discard,
            RustlsEvent::Decrypted { discard, .. } => *discard,
            RustlsEvent::DecryptFailed { discard, .. } => *discard,
            RustlsEvent::Blocked { discard } => *discard,
            RustlsEvent::Unhandled { discard } => *discard,
        }
    }

    /// The bytes of Left output the event produced.
    pub open spec fn written(&self) -> usize {
        match self {
            RustlsEvent::Encoded { written, .. } => *written,
            RustlsEvent::Encrypted { written, .. } => *written,
            _ => 0,
        }
    }

    /// The application records the event decrypted.
    pub open spec fn records(&self) -> Seq<Vec<u8>> {
        match self {
            RustlsEvent::Decrypted { records, .. } => records@,
            RustlsEvent::DecryptFailed { records, .. } => records@,
            _ => Seq::empty(),
        }
    }

    /// Whether the pass completes, so that the Left lengths are moved on.
    pub open spec fn completes(&self) -> bool {
        match self {
            RustlsEvent::Encoded { .. } => true,
            RustlsEvent::Transmitted { .. } => true,
            RustlsEvent::Encrypted { .. } => true,
            RustlsEvent::AwaitingRight { .. } => true,
            RustlsEvent::Decrypted { .. } => true,
            RustlsEvent::Blocked { .. } => true,
            _ => false,
        }
    }

    /// The event's discard fits the `in_len` bytes of input and its output
    /// fits the `room` bytes left in the output buffer.
    pub open spec fn fits(&self, in_len: nat, room: int) -> bool {
        self.discard() <= in_len && self.written() <= room
    }

    /// The event is consistent with `out_len` bytes of pending Right output:
    /// it awaits Right output only when none is pending, it encrypts (or fails
    /// to) only when some is pending, and an encryption of all of it writes at
    /// least as many bytes of output.
    pub open spec fn follows_right(&self, out_len: nat) -> bool {
        &&& self is AwaitingRight ==> out_len == 0
        &&& (self is Encrypted || self is EncryptFailed) ==> out_len > 0
        &&& self is Encrypted ==> self.written() > 0 && self.written() >= out_len
    }

    /// What the orbit returns for the event.
    pub open spec fn result(self) -> Result<TlsPosition, TlsError> {
        match self {
            RustlsEvent::RecordsFailed { error, .. } => Err(TlsError::RustlsHandleRecords(error)),
            RustlsEvent::EncodeFailed { error } => Err(TlsError::RustlsEncode(error)),
            RustlsEvent::EncryptFailed { discard, error } => Err(
                TlsError::RustlsEncrypt(discard, error),
            ),
            RustlsEvent::DecryptFailed { discard, error, .. } => Err(
                TlsError::RustlsDecrypt(discard, error),
            ),
            RustlsEvent::Unhandled { discard } => Err(TlsError::RustlsUnhandledState(discard)),
            _ => Ok(TlsPosition::discard_only(self.discard())),
        }
    }
}

/// The Left side after the orbit handled `ev`, `ready` being whether the
/// handshake is over: a completed pass discards the consumed input, keeps the
/// new output and sets the readiness; a blocked handshake also asks to read
/// and marks the input blocked.
pub open spec fn left_after_event(lm: LeftModel, ev: RustlsEvent, ready: bool) -> LeftModel {
    if ev.completes() {
        let lm1 = if ev is Blocked {
            LeftModel { want_read: true, blocked: true, ..lm }
        } else {
            lm
        };
        LeftModel {
            ready,
            ..left_after_set_lens(
                lm1,
                (lm.in_len - ev.discard()) as nat,
                (lm.out_len + ev.written()) as nat,
            )
        }
    } else {
        lm
    }
}

/// The Right side after the orbit handled `ev`: encrypted output is consumed,
/// a wait for output asks for the next input, decrypted records are appended.
pub open spec fn right_after_event(rm: RightModel, ev: RustlsEvent) -> RightModel {
    match ev {
        RustlsEvent::Encrypted { .. } => RightModel { out_bytes: Seq::empty(), out_len: 0, ..rm },
        RustlsEvent::AwaitingRight { .. } => RightModel { want_next_in: true, ..rm },
        RustlsEvent::Decrypted { .. } | RustlsEvent::DecryptFailed { .. } => {
            let added = concat_payloads(ev.records());
            RightModel { in_bytes: rm.in_bytes + added, in_len: rm.in_len + added.len(), ..rm }
        },
        _ => rm,
    }
}

/// Apply what one pass of the state machine produced to the Left and Right
/// sides, `handshaking` being whether the connection still performs the
/// handshake after the pass.
pub fn apply_event(l: &mut AbIoLeft, r: &mut AbIoRight, ev: RustlsEvent, handshaking: bool) -> (res:
    Result<TlsPosition, TlsError>)
    requires
        old(l)@.in_len <= old(l)@.in_bytes.len(),
        old(l)@.out_len <= old(l)@.out_bytes.len(),
        old(r)@.in_len <= old(r)@.in_bytes.len(),
        ev.fits(old(l)@.in_len, old(l)@.out_bytes.len() - old(l)@.out_len),
    ensures
        final(l)@ == left_after_event(old(l)@, ev, !handshaking),
        final(r)@ == right_after_event(old(r)@, ev),
        res == ev.result(),
{
    let ghost ev0 = ev;
    let (in_len, out_len) = l.left_lens();
    match ev {
        RustlsEvent::RecordsFailed { error, .. } => Err(TlsError::RustlsHandleRecords(error)),
        RustlsEvent::EncodeFailed { error } => Err(TlsError::RustlsEncode(error)),
        RustlsEvent::EncryptFailed { discard, error } => Err(TlsError::RustlsEncrypt(discard, error)),
        RustlsEvent::Unhandled { discard } => Err(TlsError::RustlsUnhandledState(discard)),
        RustlsEvent::DecryptFailed { discard, records, error } => {
            add_records(r, &records);
            Err(TlsError::RustlsDecrypt(discard, error))
        },
        RustlsEvent::Decrypted { discard, records } => {
            add_records(r, &records);
            finish_pass(l, in_len, out_len, discard, 0, handshaking)
        },
        RustlsEvent::Encoded { discard, written } => {
            finish_pass(l, in_len, out_len, discard, written, handshaking)
        },
        RustlsEvent::Transmitted { discard } => {
            finish_pass(l, in_len, out_len, discard, 0, handshaking)
        },
        RustlsEvent::Encrypted { discard, written } => {
            r.all_sent_right_out();
            finish_pass(l, in_len, out_len, discard, written, handshaking)
        },
        RustlsEvent::AwaitingRight { discard } => {
            r.set_wants_right_next_in(true);
            finish_pass(l, in_len, out_len, discard, 0, handshaking)
        },
        RustlsEvent::Blocked { discard } => {
            l.set_left_want_read(true);
            l.set_left_in_blocked(true);
            finish_pass(l, in_len, out_len, discard, 0, handshaking)
        },
    }
}

/// Append the payloads of `records` to the Right input, in order.
fn add_records(r: &mut AbIoRight, records: &Vec<Vec<u8>>)
    requires
        old(r)@.in_len <= old(r)@.in_bytes.len(),
    ensures
        final(r)@ == (RightModel {
            in_bytes: old(r)@.in_bytes + concat_payloads(records@),
            in_len: old(r)@.in_len + concat_payloads(records@).len(),
            ..old(r)@
        }),
{
    let mut i: usize = 0;
    while i < records.len()
        invariant
            i <= records@.len(),
            r@ == (RightModel {
                in_bytes: old(r)@.in_bytes + concat_payloads(records@.take(i as int)),
                in_len: old(r)@.in_len + concat_payloads(records@.take(i as int)).len(),
                ..old(r)@
            }),
            r@.in_len <= r@.in_bytes.len(),
        decreases records@.len() - i,
    {
        proof {
            assert(records@.take(i + 1).drop_last() =~= records@.take(i as int));
        }
        r.add_right_in(records[i].as_slice());
        proof {
            assert(r@.in_bytes =~= old(r)@.in_bytes + concat_payloads(records@.take(i + 1)));
        }
        i = i + 1;
    }
    proof {
        assert(records@.take(records@.len() as int) =~= records@);
    }
}

/// Move the Left lengths on after a completed pass and set the readiness;
/// the position reports the discard alone.
fn finish_pass(
    l: &mut AbIoLeft,
    in_len: usize,
    out_len: usize,
    discard: usize,
    written: usize,
    handshaking: bool,
) -> (res: Result<TlsPosition, TlsError>)
    requires
        in_len == old(l)@.in_len,
        out_len == old(l)@.out_len,
        in_len <= old(l)@.in_bytes.len(),
        discard <= in_len,
        out_len + written <= old(l)@.out_bytes.len(),
    ensures
        final(l)@ == (LeftModel {
            ready: !handshaking,
            ..left_after_set_lens(old(l)@, (in_len - discard) as nat, (out_len + written) as nat)
        }),
        res == Ok::<TlsPosition, TlsError>(TlsPosition::discard_only(discard)),
{
    proof {
        lemma_left_buffers_fit(l);
    }
    l.left_set_lens(in_len - discard, out_len + written);
    l.set_ready(!handshaking);
    Ok(TlsPosition::with_discard_only(discard))
}


/// The event that handling `state` gives, `discard` being the discard that
/// `process_tls_records` reported and `right_out` the pending Right output:
/// a failure of `process_tls_records` is reported with its discard; a
/// handshake record is encoded or its encoding fails; encoded records are
/// transmitted; with Right output pending it is encrypted (or the encryption
/// fails), without it the orbit awaits Right output; application records are
/// decrypted (each adds nothing to the discard) or a decryption fails; a
/// blocked handshake is reported as such; the other states are unhandled.
spec fn event_of_state<'c, 'i, Data>(
    discard: usize,
    state: Result<StepState<'c, 'i, Data>, rustls::Error>,
    right_out: Seq<u8>,
    ev: RustlsEvent,
) -> bool {
    match state {
        Err(e) => ev == (RustlsEvent::RecordsFailed { discard, error: e }),
        Ok(StepState::EncodeTlsData(_)) => ev is EncodeFailed || (ev is Encoded && ev.discard()
            == discard),
        Ok(StepState::TransmitTlsData(_)) => ev == (RustlsEvent::Transmitted { discard }),
        Ok(StepState::WriteTraffic(_)) => if right_out.len() > 0 {
            (ev is Encrypted || ev is EncryptFailed) && ev.discard() == discard
        } else {
            ev == (RustlsEvent::AwaitingRight { discard })
        },
        Ok(StepState::ReadTraffic(_)) => (ev is Decrypted || ev is DecryptFailed) && ev.discard()
            == discard,
        Ok(StepState::BlockedHandshake) => ev == (RustlsEvent::Blocked { discard }),
        Ok(_) => ev == (RustlsEvent::Unhandled { discard }),
    }
}

/// Handle the state that `process_tls_records` reached: encode a handshake
/// record, mark records transmitted, encrypt the Right output, read the
/// decrypted records, or note that the handshake is blocked. Output goes into
/// `out[start..]`; `right_out` is the pending Right output.
fn handle_state<'c, 'i, Data>(
    discard: usize,
    state: Result<StepState<'c, 'i, Data>, rustls::Error>,
    in_len: usize,
    out: &mut [u8],
    start: usize,
    right_out: &[u8],
) -> (ev: RustlsEvent)
    requires
        discard <= in_len,
        start <= old(out)@.len(),
    ensures
        event_of_state(discard, state, right_out@, ev),
        ev.follows_right(right_out@.len()),
        ev.fits(in_len as nat, old(out)@.len() - start),
        final(out)@.len() == old(out)@.len(),
        final(out)@.subrange(0, start as int) == old(out)@.subrange(0, start as int),
        ev is Encoded ==> final(out)@.subrange(start + ev.written(), old(out)@.len() as int)
            == old(out)@.subrange(start + ev.written(), old(out)@.len() as int),
        !(ev is Encoded || ev is Encrypted) ==> final(out)@ == old(out)@,
{
    let ghost st = state;
    match state {
        Err(error) => RustlsEvent::RecordsFailed { discard, error },
        Ok(StepState::EncodeTlsData(mut e)) => match encode_tls_data(&mut e, out, start) {
            Ok(written) => RustlsEvent::Encoded { discard, written },
            Err(error) => RustlsEvent::EncodeFailed { error },
        },
        Ok(StepState::TransmitTlsData(t)) => {
            transmit_done(t);
            RustlsEvent::Transmitted { discard }
        },
        Ok(StepState::WriteTraffic(mut w)) => {
            if right_out.len() > 0 {
                match encrypt_traffic(&mut w, right_out, out, start) {
                    Ok(written) => RustlsEvent::Encrypted { discard, written },
                    Err(error) => RustlsEvent::EncryptFailed { discard, error },
                }
            } else {
                RustlsEvent::AwaitingRight { discard }
            }
        },
        Ok(StepState::ReadTraffic(mut t)) => {
            let mut records: Vec<Vec<u8>> = Vec::new();
            let mut d: usize = discard;
            let mut more = true;
            // each record drains received plaintext, so the queue ends long
            // before this bound is reached
            let mut budget: usize = usize::MAX;
            while more && budget > 0
                invariant
                    st == state,
                    st matches Ok(StepState::ReadTraffic(_)),
                    d == discard,
                    discard <= in_len,
                    start <= old(out)@.len(),
                    out@ == old(out)@,
                decreases budget,
            {
                budget = budget - 1;
                match next_app_record(&mut t) {
                    Some(Ok((rec_discard, payload))) => {
                        d = d + rec_discard;
                        records.push(payload);
                    },
                    Some(Err(error)) => {
                        return RustlsEvent::DecryptFailed { discard: d, records, error };
                    },
                    None => {
                        more = false;
                    },
                }
            }
            RustlsEvent::Decrypted { discard: d, records }
        },
        Ok(StepState::BlockedHandshake) => RustlsEvent::Blocked { discard },
        Ok(StepState::PeerClosed) => RustlsEvent::Unhandled { discard },
        Ok(StepState::Closed) => RustlsEvent::Unhandled { discard },
        Ok(StepState::ReadEarlyData) => RustlsEvent::Unhandled { discard },
    }
}

/// The Left side in the middle of a pass: the input is no longer blocked, the
/// pending input may have been decrypted in place (the bytes after it are
/// untouched), and the pending output is kept.
pub open spec fn left_mid_pass(l0: LeftModel, lm: LeftModel) -> bool {
    &&& lm == LeftModel { blocked: false, in_bytes: lm.in_bytes, out_bytes: lm.out_bytes, ..l0 }
    &&& lm.in_bytes.len() == l0.in_bytes.len()
    &&& lm.in_bytes.subrange(l0.in_len as int, l0.in_bytes.len() as int) == l0.in_bytes.subrange(
        l0.in_len as int,
        l0.in_bytes.len() as int,
    )
    &&& lm.out_bytes.len() == l0.out_bytes.len()
    &&& lm.out_bytes.subrange(0, l0.out_len as int) == l0.out_bytes.subrange(0, l0.out_len as int)
}

/// One pass handled the event `ev`: from `l0`, `r0` the Left side went
/// through `lm` in the middle of the pass to `l1`, the Right side to `r1`, and
/// `res` was returned; `handshaking` is whether the connection still performs
/// the handshake after the pass.
pub open spec fn advance_by_event(
    l0: LeftModel,
    r0: RightModel,
    l1: LeftModel,
    r1: RightModel,
    res: Result<TlsPosition, TlsError>,
    handshaking: bool,
    lm: LeftModel,
    ev: RustlsEvent,
) -> bool {
    &&& left_mid_pass(l0, lm)
    &&& ev.fits(l0.in_len, l0.out_bytes.len() - l0.out_len)
    &&& ev.follows_right(r0.out_len)
    &&& l1 == left_after_event(lm, ev, !handshaking)
    &&& r1 == right_after_event(r0, ev)
    &&& res == ev.result()
}

/// One advance of the rustls orbit took the sides from `l0`, `r0` to `l1`,
/// `r1` and returned `res`, `handshaking` being whether the connection still
/// performs the handshake afterwards: for some pass event that fits the
/// buffers and the pending Right output, the sides are what handling it makes
/// of them (a completed pass sets the Left readiness to `!handshaking`) and
/// `res` is its result. Which event rustls produces is left open.
pub open spec fn rustls_advance(
    l0: LeftModel,
    r0: RightModel,
    l1: LeftModel,
    r1: RightModel,
    res: Result<TlsPosition, TlsError>,
    handshaking: bool,
) -> bool {
    exists|lm: LeftModel, ev: RustlsEvent|
        #[trigger] advance_by_event(l0, r0, l1, r1, res, handshaking, lm, ev)
}

/// The sides an orbit advances on: pending lengths within their buffers.
pub open spec fn sides_in_bounds(l: LeftModel, r: RightModel) -> bool {
    &&& l.in_len <= l.in_bytes.len()
    &&& l.out_len <= l.out_bytes.len()
    &&& r.in_len <= r.in_bytes.len()
    &&& r.out_len <= r.out_bytes.len()
}

impl TlsServer {
    /// Advance the state machine once: process the pending Left input, act on
    /// the state reached, and move the Left lengths on.
    pub fn advance_with<B>(&mut self, _u: &mut B, l: &mut AbIoLeft, r: &mut AbIoRight) -> (res:
        Result<TlsPosition, TlsError>)
        requires
            sides_in_bounds(old(l)@, old(r)@),
        ensures
            rustls_advance(old(l)@, old(r)@, final(l)@, final(r)@, res, final(self).handshaking()),
    {
        l.set_left_in_blocked(false);
        let (in_len, out_len) = l.left_lens();
        let ghost l_unblocked = l@;
        let ev = {
            let (in_b, out_v) = l.left_bufs_mut();
            let out_b = out_v.as_mut_slice();
            let right_out = r.buf_right_out();
            let (discard, state) = process_server_records(&mut self.rustls_server, in_b);
            handle_state(discard, state, in_len, out_b, out_len, right_out)
        };
        let ghost lm = l@;
        let ghost ev_g = ev;
        proof {
            assert(lm.in_bytes.subrange(in_len as int, lm.in_bytes.len() as int)
                =~= l_unblocked.in_bytes.subrange(in_len as int, l_unblocked.in_bytes.len() as int));
        }
        let handshaking = server_is_handshaking(&self.rustls_server);
        let res = apply_event(l, r, ev, handshaking);
        proof {
            assert(left_mid_pass(old(l)@, lm));
            assert(l@ == left_after_event(lm, ev_g, !handshaking));
            assert(advance_by_event(old(l)@, old(r)@, l@, r@, res, handshaking, lm, ev_g));
        }
        res
    }
}


impl TlsClient {
    /// Advance the state machine once; the same pass as the server's.
    pub fn advance_with<B>(&mut self, _u: &mut B, l: &mut AbIoLeft, r: &mut AbIoRight) -> (res:
        Result<TlsPosition, TlsError>)
        requires
            sides_in_bounds(old(l)@, old(r)@),
        ensures
            rustls_advance(old(l)@, old(r)@, final(l)@, final(r)@, res, final(self).handshaking()),
    {
        l.set_left_in_blocked(false);
        let (in_len, out_len) = l.left_lens();
        let ghost l_unblocked = l@;
        let ev = {
            let (in_b, out_v) = l.left_bufs_mut();
            let out_b = out_v.as_mut_slice();
            let right_out = r.buf_right_out();
            let (discard, state) = process_client_records(&mut self.rustls_client, in_b);
            handle_state(discard, state, in_len, out_b, out_len, right_out)
        };
        let ghost lm = l@;
        let ghost ev_g = ev;
        proof {
            assert(lm.in_bytes.subrange(in_len as int, lm.in_bytes.len() as int)
                =~= l_unblocked.in_bytes.subrange(in_len as int, l_unblocked.in_bytes.len() as int));
        }
        let handshaking = client_is_handshaking(&self.rustls_client);
        let res = apply_event(l, r, ev, handshaking);
        proof {
            assert(left_mid_pass(old(l)@, lm));
            assert(l@ == left_after_event(lm, ev_g, !handshaking));
            assert(advance_by_event(old(l)@, old(r)@, l@, r@, res, handshaking, lm, ev_g));
        }
        res
    }
}

/// The rustls orbit: a client or a server.
pub enum TlsContext {
    /// A client orbit.
    Client(TlsClient),
    /// A server orbit.
    Server(TlsServer),
}

impl TlsContext {
    /// Advance the client or server state machine once.
    pub fn advance_with<B>(&mut self, u: &mut B, l: &mut AbIoLeft, r: &mut AbIoRight) -> (res:
        Result<TlsPosition, TlsError>)
        requires
            sides_in_bounds(old(l)@, old(r)@),
        ensures
            rustls_advance(old(l)@, old(r)@, final(l)@, final(r)@, res, final(self).handshaking()),
    {
        match self {
            TlsContext::Client(c) => c.advance_with(u, l, r),
            TlsContext::Server(s) => s.advance_with(u, l, r),
        }
    }

    /// Whether the connection still performs the handshake.
    pub open spec fn handshaking(&self) -> bool {
        match self {
            TlsContext::Client(c) => c.handshaking(),
            TlsContext::Server(s) => s.handshaking(),
        }
    }

    /// Whether the connection still performs the handshake.
    pub fn is_handshaking(&self) -> (b: bool)
        ensures
            b == self.handshaking(),
    {
        match self {
            TlsContext::Client(c) => c.is_handshaking(),
            TlsContext::Server(s) => s.is_handshaking(),
        }
    }

    /// Whether the connection has records to write.
    pub open spec fn conn_wants_write(&self) -> bool {
        match self {
            TlsContext::Client(c) => c.conn_wants_write(),
            TlsContext::Server(s) => s.conn_wants_write(),
        }
    }

    /// Whether the connection has records to write.
    pub fn wants_write(&self) -> (b: bool)
        ensures
            b == self.conn_wants_write(),
    {
        match self {
            TlsContext::Client(c) => c.wants_write(),
            TlsContext::Server(s) => s.wants_write(),
        }
    }

    /// Whether the connection wants more input.
    pub open spec fn conn_wants_read(&self) -> bool {
        match self {
            TlsContext::Client(c) => c.conn_wants_read(),
            TlsContext::Server(s) => s.conn_wants_read(),
        }
    }

    /// Whether the connection wants more input.
    pub fn wants_read(&self) -> (b: bool)
        ensures
            b == self.conn_wants_read(),
    {
        match self {
            TlsContext::Client(c) => c.wants_read(),
            TlsContext::Server(s) => s.wants_read(),
        }
    }
}

impl TlsServer {
    /// The server orbit for a configuration.
    pub fn with_configuration(c: TlsServerConfig) -> (r: Result<TlsContext, TlsError>)
        ensures
            r is Ok <==> server_config_accepted(c.cert_chain(), c.key()),
            r matches Ok(ctx) ==> ctx matches TlsContext::Server(s) && s.config() == c,
            r is Err ==> r->Err_0 is RustlsConfig,
    {
        match TlsServer::with_config(c) {
            Ok(s) => Ok(TlsContext::Server(s)),
            Err(e) => Err(e),
        }
    }
}

impl TlsClient {
    /// The client orbit for a configuration and a rustls client configuration.
    pub fn with_configuration(c: TlsClientConfig, rustls_config: ClientConfig) -> (r: Result<
        TlsContext,
        TlsError,
    >)
        requires
            c.server_identifier is DnsName,
        ensures
            r matches Ok(ctx) ==> ctx matches TlsContext::Client(cl) && cl.config() == c
                && cl.server_name() == server_name_of(c.server_identifier->DnsName_0@),
            (r matches Err(TlsError::RustlsDns(_))) <==> !valid_dns_name(
                c.server_identifier->DnsName_0@,
            ),
    {
        match TlsClient::with_config(c, rustls_config) {
            Ok(cl) => Ok(TlsContext::Client(cl)),
            Err(e) => Err(e),
        }
    }
}


// ---------------------------------------------------------------------------
// Laws of an advance
// ---------------------------------------------------------------------------

/// The event behind an advance: the sides and the result of an advance are
/// what handling some event makes of them.
proof fn lemma_advance_event(
    l0: LeftModel,
    r0: RightModel,
    l1: LeftModel,
    r1: RightModel,
    res: Result<TlsPosition, TlsError>,
    handshaking: bool,
) -> (w: (LeftModel, RustlsEvent))
    requires
        rustls_advance(l0, r0, l1, r1, res, handshaking),
    ensures
        advance_by_event(l0, r0, l1, r1, res, handshaking, w.0, w.1),
{
    choose|lm: LeftModel, ev: RustlsEvent|
        #[trigger] advance_by_event(l0, r0, l1, r1, res, handshaking, lm, ev)
}

/// An advance never overwrites or drops the pending Left output: the bytes
/// that were pending stay at the front of the output buffer, the pending
/// length only grows, and it stays within the buffer.
pub proof fn law_advance_keeps_pending_output(
    l0: LeftModel,
    r0: RightModel,
    l1: LeftModel,
    r1: RightModel,
    res: Result<TlsPosition, TlsError>,
    handshaking: bool,
)
    requires
        sides_in_bounds(l0, r0),
        rustls_advance(l0, r0, l1, r1, res, handshaking),
    ensures
        l0.out_len <= l1.out_len <= l1.out_bytes.len(),
        l1.out_bytes.len() == l0.out_bytes.len(),
        l1.out_bytes.subrange(0, l0.out_len as int) == l0.out_bytes.subrange(0, l0.out_len as int),
{
    lemma_advance_event(l0, r0, l1, r1, res, handshaking);
}

/// An advance keeps the pending lengths of both sides within their buffers.
pub proof fn law_advance_keeps_sides_in_bounds(
    l0: LeftModel,
    r0: RightModel,
    l1: LeftModel,
    r1: RightModel,
    res: Result<TlsPosition, TlsError>,
    handshaking: bool,
)
    requires
        sides_in_bounds(l0, r0),
        rustls_advance(l0, r0, l1, r1, res, handshaking),
    ensures
        sides_in_bounds(l1, r1),
{
    lemma_advance_event(l0, r0, l1, r1, res, handshaking);
}

/// A successful advance reports only a discard, which never exceeds the
/// pending input, and the Left input is consumed by exactly that discard; a
/// failed advance leaves both Left lengths as they were.
pub proof fn law_advance_position(
    l0: LeftModel,
    r0: RightModel,
    l1: LeftModel,
    r1: RightModel,
    res: Result<TlsPosition, TlsError>,
    handshaking: bool,
)
    requires
        sides_in_bounds(l0, r0),
        rustls_advance(l0, r0, l1, r1, res, handshaking),
    ensures
        res matches Ok(p) ==> {
            &&& p == TlsPosition::discard_only(p.in_discard)
            &&& p.in_discard <= l0.in_len
            &&& l1.in_len == l0.in_len - p.in_discard
        },
        res is Err ==> l1.in_len == l0.in_len && l1.out_len == l0.out_len,
{
    lemma_advance_event(l0, r0, l1, r1, res, handshaking);
}

/// After a successful advance the Left side is ready exactly when the
/// handshake is over; a failed advance leaves the readiness as it was.
pub proof fn law_advance_readiness(
    l0: LeftModel,
    r0: RightModel,
    l1: LeftModel,
    r1: RightModel,
    res: Result<TlsPosition, TlsError>,
    handshaking: bool,
)
    requires
        sides_in_bounds(l0, r0),
        rustls_advance(l0, r0, l1, r1, res, handshaking),
    ensures
        res is Ok ==> l1.ready == !handshaking,
        res is Err ==> l1.ready == l0.ready,
{
    lemma_advance_event(l0, r0, l1, r1, res, handshaking);
}

/// An advance only appends to the Right input, and it either keeps the Right
/// output or consumes all of it; it consumes it only when some was pending.
pub proof fn law_advance_right_side(
    l0: LeftModel,
    r0: RightModel,
    l1: LeftModel,
    r1: RightModel,
    res: Result<TlsPosition, TlsError>,
    handshaking: bool,
)
    requires
        sides_in_bounds(l0, r0),
        rustls_advance(l0, r0, l1, r1, res, handshaking),
    ensures
        r0.in_bytes.len() <= r1.in_bytes.len(),
        r1.in_bytes.subrange(0, r0.in_bytes.len() as int) == r0.in_bytes,
        r1.in_len - r0.in_len == r1.in_bytes.len() - r0.in_bytes.len(),
        (r1.out_bytes == r0.out_bytes && r1.out_len == r0.out_len) || (r0.out_len > 0
            && r1.out_bytes.len() == 0 && r1.out_len == 0),
        r1.want_next_in != r0.want_next_in ==> r0.out_len == 0,
{
    let (lm, ev) = lemma_advance_event(l0, r0, l1, r1, res, handshaking);
    assert(r1.in_bytes.subrange(0, r0.in_bytes.len() as int) =~= r0.in_bytes);
}

/// After an advance the Left input is blocked only when the handshake needs
/// more input, and then the Left side is asked to read.
pub proof fn law_advance_blocked_wants_read(
    l0: LeftModel,
    r0: RightModel,
    l1: LeftModel,
    r1: RightModel,
    res: Result<TlsPosition, TlsError>,
    handshaking: bool,
)
    requires
        sides_in_bounds(l0, r0),
        rustls_advance(l0, r0, l1, r1, res, handshaking),
    ensures
        l1.blocked ==> l1.want_read,
        !l1.blocked ==> l1.want_read == l0.want_read,
        l1.want_write == l0.want_write,
        l1.shutdown == l0.shutdown,
{
    lemma_advance_event(l0, r0, l1, r1, res, handshaking);
}

/// An advance that consumes the pending Right output encrypts all of it: the
/// Left output grows by at least as many bytes as the Right output held.
pub proof fn law_advance_encrypts_all_right_output(
    l0: LeftModel,
    r0: RightModel,
    l1: LeftModel,
    r1: RightModel,
    res: Result<TlsPosition, TlsError>,
    handshaking: bool,
)
    requires
        sides_in_bounds(l0, r0),
        rustls_advance(l0, r0, l1, r1, res, handshaking),
        r0.out_len > 0,
        r1.out_len == 0,
    ensures
        res is Ok,
        l1.out_len >= l0.out_len + r0.out_len,
{
    lemma_advance_event(l0, r0, l1, r1, res, handshaking);
}

} // verus!
