//! The yTLS blueprint: the server configuration held in fixed-capacity
//! buffers, and the byte plumbing between the Left side and the yTLS server
//! context.
use vstd::prelude::*;
use vstd::string::StringSliceAdditionalSpecFns;

use crate::ab_io_orbit::{left_after_set_lens, lemma_left_buffers_fit, AbIoLeft, LeftModel};

verus! {

#[verifier::external_type_specification]
#[verifier::external_body]
#[verifier::reject_recursive_types(T)]
pub struct ExHeaplessVec<T, const N: usize>(heapless::Vec<T, N>);

/// The bytes that a certificate buffer (a `heapless::Vec<u8, 1024>`) holds.
pub uninterp spec fn cert_buffer_bytes(v: heapless::Vec<u8, 1024>) -> Seq<u8>;

/// The bytes that a key buffer (a `heapless::Vec<u8, 512>`) holds.
pub uninterp spec fn key_buffer_bytes(v: heapless::Vec<u8, 512>) -> Seq<u8>;

/// `heapless::Vec::<u8, 1024>::new`: an empty buffer.
#[verifier::external_body]
fn new_cert_buffer() -> (v: heapless::Vec<u8, 1024>)
    ensures
        cert_buffer_bytes(v) == Seq::<u8>::empty(),
{
    heapless::Vec::<u8, 1024>::new()
}

/// `heapless::Vec::<u8, 1024>::extend_from_slice`: as its source shows, when
/// the bytes do not fit the capacity of 1024 it fails and leaves the buffer
/// unchanged; otherwise it appends them.
#[verifier::external_body]
fn extend_cert_buffer(v: &mut heapless::Vec<u8, 1024>, s: &[u8]) -> (r: Result<(), ()>)
    ensures
        cert_buffer_bytes(*old(v)).len() + s@.len() > 1024 ==> r is Err && cert_buffer_bytes(
            *final(v),
        ) == cert_buffer_bytes(*old(v)),
        cert_buffer_bytes(*old(v)).len() + s@.len() <= 1024 ==> r is Ok && cert_buffer_bytes(
            *final(v),
        ) == cert_buffer_bytes(*old(v)) + s@,
{
    v.extend_from_slice(s)
}

/// `heapless::Vec::<u8, 1024>::as_slice`: the bytes the buffer holds.
#[verifier::external_body]
fn cert_buffer_slice(v: &heapless::Vec<u8, 1024>) -> (r: &[u8])
    ensures
        r@ == cert_buffer_bytes(*v),
{
    v.as_slice()
}

/// `heapless::Vec::<u8, 512>::new`: an empty buffer.
#[verifier::external_body]
fn new_key_buffer() -> (v: heapless::Vec<u8, 512>)
    ensures
        key_buffer_bytes(v) == Seq::<u8>::empty(),
{
    heapless::Vec::<u8, 512>::new()
}

/// `heapless::Vec::<u8, 512>::extend_from_slice`: as its source shows, when
/// the bytes do not fit the capacity of 512 it fails and leaves the buffer
/// unchanged; otherwise it appends them.
#[verifier::external_body]
fn extend_key_buffer(v: &mut heapless::Vec<u8, 512>, s: &[u8]) -> (r: Result<(), ()>)
    ensures
        key_buffer_bytes(*old(v)).len() + s@.len() > 512 ==> r is Err && key_buffer_bytes(
            *final(v),
        ) == key_buffer_bytes(*old(v)),
        key_buffer_bytes(*old(v)).len() + s@.len() <= 512 ==> r is Ok && key_buffer_bytes(
            *final(v),
        ) == key_buffer_bytes(*old(v)) + s@,
{
    v.extend_from_slice(s)
}

/// `heapless::Vec::<u8, 512>::as_slice`: the bytes the buffer holds.
#[verifier::external_body]
fn key_buffer_slice(v: &heapless::Vec<u8, 512>) -> (r: &[u8])
    ensures
        r@ == key_buffer_bytes(*v),
{
    v.as_slice()
}

/// The host name that the server answers to.
pub const SERVER_HOST_NAME: &'static str = "test.rustcryp.to";

/// Why a configuration could not be built.
#[derive(Debug)]
pub enum ConfigError {
    /// The CA certificate exceeds 1024 bytes.
    OversizedCa,
    /// The server certificate exceeds 1024 bytes.
    OversizedCert,
    /// The private key exceeds 512 bytes.
    OversizedPrivateKey,
}

/// Configuration of the yTLS server: the CA certificate, the server
/// certificate and the server's private key, in fixed-capacity buffers.
pub struct TlsServerConfig {
    ca_cert: heapless::Vec<u8, 1024>,
    server_cert: heapless::Vec<u8, 1024>,
    server_private_key: heapless::Vec<u8, 512>,
}

impl TlsServerConfig {
    /// The CA certificate.
    pub closed spec fn ca_cert(&self) -> Seq<u8> {
        cert_buffer_bytes(self.ca_cert)
    }

    /// The server certificate.
    pub closed spec fn cert(&self) -> Seq<u8> {
        cert_buffer_bytes(self.server_cert)
    }

    /// The server's private key.
    pub closed spec fn private_key(&self) -> Seq<u8> {
        key_buffer_bytes(self.server_private_key)
    }

    /// Build from the CA certificate, the server certificate and the key,
    /// checked in that order against their capacities (1024, 1024, 512).
    pub fn with_ca_cert_key(s_ca: &[u8], s_cert: &[u8], s_key: &[u8]) -> (r: Result<
        Self,
        ConfigError,
    >)
        ensures
            s_ca@.len() > 1024 ==> r matches Err(ConfigError::OversizedCa),
            s_ca@.len() <= 1024 && s_cert@.len() > 1024 ==> r matches Err(
                ConfigError::OversizedCert,
            ),
            s_ca@.len() <= 1024 && s_cert@.len() <= 1024 && s_key@.len() > 512 ==> r matches Err(
                ConfigError::OversizedPrivateKey,
            ),
            s_ca@.len() <= 1024 && s_cert@.len() <= 1024 && s_key@.len() <= 512 ==> (r matches Ok(
                c,
            ) && c.ca_cert() == s_ca@ && c.cert() == s_cert@ && c.private_key() == s_key@),
    {
        let mut ca_cert = new_cert_buffer();
        let mut server_cert = new_cert_buffer();
        let mut server_private_key = new_key_buffer();
        if extend_cert_buffer(&mut ca_cert, s_ca).is_err() {
            return Err(ConfigError::OversizedCa);
        }
        if extend_cert_buffer(&mut server_cert, s_cert).is_err() {
            return Err(ConfigError::OversizedCert);
        }
        if extend_key_buffer(&mut server_private_key, s_key).is_err() {
            return Err(ConfigError::OversizedPrivateKey);
        }
        proof {
            assert(Seq::<u8>::empty() + s_ca@ =~= s_ca@);
            assert(Seq::<u8>::empty() + s_cert@ =~= s_cert@);
            assert(Seq::<u8>::empty() + s_key@ =~= s_key@);
        }
        Ok(TlsServerConfig { ca_cert, server_cert, server_private_key })
    }

    /// Whether the indicated host name (SNI) is the one the server answers to:
    /// its UTF-8 bytes are those of [`SERVER_HOST_NAME`].
    pub fn dns_host_name(&self, host: &str) -> (b: bool)
        ensures
            b == (host.spec_bytes() == SERVER_HOST_NAME.spec_bytes()),
    {
        bytes_eq(host.as_bytes(), SERVER_HOST_NAME.as_bytes())
    }

    /// The server's private key.
    pub fn server_private_key(&self) -> (k: &[u8])
        ensures
            k@ == self.private_key(),
    {
        key_buffer_slice(&self.server_private_key)
    }

    /// The certificate chain as certificate ids: the server certificate (0)
    /// then the CA certificate (1).
    pub fn server_cert_chain(&self) -> (ids: &[u8])
        ensures
            ids@ == seq![0u8, 1u8],
    {
        let ids: &[u8] = &[0u8, 1u8];
        proof {
            assert(ids@ =~= seq![0u8, 1u8]);
        }
        ids
    }

    /// The certificate with the given id: 0 is the server certificate, 1 the
    /// CA certificate.
    pub fn server_cert(&self, id: u8) -> (c: &[u8])
        requires
            id <= 1,
        ensures
            id == 0 ==> c@ == self.cert(),
            id == 1 ==> c@ == self.ca_cert(),
    {
        if id == 0 {
            cert_buffer_slice(&self.server_cert)
        } else {
            cert_buffer_slice(&self.ca_cert)
        }
    }
}

/// Whether two byte strings are equal.
pub fn bytes_eq(a: &[u8], b: &[u8]) -> (r: bool)
    ensures
        r == (a@ == b@),
{
    if a.len() != b.len() {
        return false;
    }
    let mut i: usize = 0;
    while i < a.len()
        invariant
            a@.len() == b@.len(),
            i <= a@.len(),
            forall|j: int| 0 <= j < i ==> a@[j] == b@[j],
        decreases a@.len() - i,
    {
        if a[i] != b[i] {
            return false;
        }
        i = i + 1;
    }
    proof {
        assert(a@ =~= b@);
    }
    true
}

/// The unread part of a single Left input buffer: what follows the
/// `discard_in` bytes already consumed.
pub fn left_buf_in(left_in: &[u8], discard_in: usize) -> (r: &[u8])
    requires
        discard_in <= left_in@.len(),
    ensures
        r@ == left_in@.subrange(discard_in as int, left_in@.len() as int),
{
    let (_head, tail) = left_in.split_at(discard_in);
    tail
}

/// Copy an encoded record into the Left output after the `sent_out` bytes
/// already written; returns the new count of written bytes.
pub fn send_record_out(left_out: &mut [u8], sent_out: usize, data: &[u8]) -> (new_sent: usize)
    requires
        sent_out + data@.len() <= old(left_out)@.len(),
    ensures
        new_sent == sent_out + data@.len(),
        final(left_out)@ == old(left_out)@.subrange(0, sent_out as int) + data@ + old(
            left_out,
        )@.subrange(new_sent as int, old(left_out)@.len() as int),
{
    let out_len = left_out.len();
    let mut i: usize = 0;
    while i < data.len()
        invariant
            out_len == left_out@.len(),
            sent_out + data@.len() <= left_out@.len(),
            left_out@.len() == old(left_out)@.len(),
            i <= data@.len(),
            forall|j: int| 0 <= j < sent_out ==> left_out@[j] == old(left_out)@[j],
            forall|j: int| 0 <= j < i ==> left_out@[sent_out + j] == data@[j],
            forall|j: int|
                sent_out + data@.len() <= j < left_out@.len() ==> left_out@[j] == old(
                    left_out,
                )@[j],
        decreases data@.len() - i,
    {
        left_out[sent_out + i] = data[i];
        i = i + 1;
    }
    let new_sent = sent_out + data.len();
    proof {
        assert(left_out@ =~= old(left_out)@.subrange(0, sent_out as int) + data@ + old(
            left_out,
        )@.subrange(new_sent as int, old(left_out)@.len() as int));
    }
    new_sent
}

/// The Left lengths after a pass of the yTLS server context that consumed
/// `discard_in` input bytes and wrote `sent_out` output bytes.
pub fn ytls_left_lens(in_len: usize, out_len: usize, discard_in: usize, sent_out: usize) -> (r: (
    usize,
    usize,
))
    requires
        discard_in <= in_len,
        out_len + sent_out <= usize::MAX,
    ensures
        r.0 == in_len - discard_in,
        r.1 == out_len + sent_out,
{
    let mut new_len_in = in_len;
    let mut new_len_out = out_len;
    if sent_out > 0 {
        new_len_out = new_len_out + sent_out;
    }
    if discard_in > 0 {
        new_len_in = new_len_in - discard_in;
    }
    (new_len_in, new_len_out)
}

/// Finish a pass of the yTLS server context over the Left side: the
/// `discard_in` consumed input bytes are dropped, the `sent_out` bytes
/// written after the pending output join it, and once the handshake is over
/// the Left side is ready and its input no longer blocked.
pub fn ytls_finish_pass(l: &mut AbIoLeft, discard_in: usize, sent_out: usize, handshaking: bool)
    requires
        old(l)@.in_len <= old(l)@.in_bytes.len(),
        discard_in <= old(l)@.in_len,
        old(l)@.out_len + sent_out <= old(l)@.out_bytes.len(),
    ensures
        final(l)@ == left_after_set_lens(
            if handshaking {
                old(l)@
            } else {
                LeftModel { ready: true, blocked: false, ..old(l)@ }
            },
            (old(l)@.in_len - discard_in) as nat,
            (old(l)@.out_len + sent_out) as nat,
        ),
{
    proof {
        lemma_left_buffers_fit(l);
    }
    let (in_len, out_len) = l.left_lens();
    let (new_len_in, new_len_out) = ytls_left_lens(in_len, out_len, discard_in, sent_out);
    if !handshaking {
        l.set_ready(true);
        l.set_left_in_blocked(false);
    }
    l.left_set_lens(new_len_in, new_len_out);
}

} // verus!
