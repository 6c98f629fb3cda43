const CA_PEM: &str = "\
-----BEGIN CERTIFICATE-----\n\
MIIBZTCCAQugAwIBAgIBATAKBggqhkjOPQQDAjAZMRcwFQYDVQQDDA5UZWFwb3Qg\n\
VGVzdCBDQTAgFw0yNDAxMDEwMDAwMDBaGA8yMDk5MDEwMTAwMDAwMFowGTEXMBUG\n\
A1UEAwwOVGVhcG90IFRlc3QgQ0EwWTATBgcqhkjOPQIBBggqhkjOPQMBBwNCAAR7\n\
UuKIo6Nb3pDMTvOGSkjDhZmcVnl+EdriEUsKbZO9j+DNxQr6CLRKFvE3UFfiwlo7\n\
3N1tNlJCbv/sCbHU9+5vo0IwQDAPBgNVHRMBAf8EBTADAQH/MA4GA1UdDwEB/wQE\n\
AwIBhjAdBgNVHQ4EFgQUrALtP4DK6EQnQMSjWqS1x/ljaAkwCgYIKoZIzj0EAwID\n\
SAAwRQIhAKtKYONWva8vSuyrsr3eSHuRGZTXOEAGVDL1DgFRa81zAiA9db7K+7ki\n\
42wk8rjClhZ38hCpgpi0ec9gx3tmy4X7CQ==\n\
-----END CERTIFICATE-----\n\
";
const CERT_PEM: &str = "\
-----BEGIN CERTIFICATE-----\n\
MIIBiDCCAS6gAwIBAgIBAjAKBggqhkjOPQQDAjAZMRcwFQYDVQQDDA5UZWFwb3Qg\n\
VGVzdCBDQTAgFw0yNDAxMDEwMDAwMDBaGA8yMDk5MDEwMTAwMDAwMFowGzEZMBcG\n\
A1UEAwwQdGVzdC5ydXN0Y3J5cC50bzBZMBMGByqGSM49AgEGCCqGSM49AwEHA0IA\n\
BGcza/CR3CxgNcQ2fUiKRcl6bA09mOoRQtyWBry53SKOAQtwqzviK/XERrinZrmr\n\
e62zhaGerpUg3DTLYycYYHmjYzBhMBsGA1UdEQQUMBKCEHRlc3QucnVzdGNyeXAu\n\
dG8wDAYDVR0TAQH/BAIwADATBgNVHSUEDDAKBggrBgEFBQcDATAfBgNVHSMEGDAW\n\
gBSsAu0/gMroRCdAxKNapLXH+WNoCTAKBggqhkjOPQQDAgNIADBFAiEAlF4Ab1jm\n\
8lvZA6PjJjdcc8Aln1+HKRJ/3Ktoj5RhBnMCIGKSdDAWCwrd94WWSjC8rvmxE0Vu\n\
Hdiw+1i0xxxPeZ7Y\n\
-----END CERTIFICATE-----\n\
";
/// The test server's PKCS#8 (P-256) key, as DER.
const KEY_DER: [u8; 138] = [
    0x30, 0x81, 0x87, 0x02, 0x01, 0x00, 0x30, 0x13, 0x06, 0x07, 0x2a, 0x86,
    0x48, 0xce, 0x3d, 0x02, 0x01, 0x06, 0x08, 0x2a, 0x86, 0x48, 0xce, 0x3d,
    0x03, 0x01, 0x07, 0x04, 0x6d, 0x30, 0x6b, 0x02, 0x01, 0x01, 0x04, 0x20,
    0xaf, 0xc3, 0x2d, 0xcd, 0x09, 0xa3, 0x3e, 0x02, 0xab, 0x4b, 0x38, 0xdb,
    0x52, 0xf6, 0x07, 0x5d, 0xb0, 0xf5, 0x82, 0x02, 0xb1, 0x44, 0x16, 0xc1,
    0xf9, 0xa6, 0x83, 0x78, 0xe9, 0x2d, 0x98, 0x27, 0xa1, 0x44, 0x03, 0x42,
    0x00, 0x04, 0x67, 0x33, 0x6b, 0xf0, 0x91, 0xdc, 0x2c, 0x60, 0x35, 0xc4,
    0x36, 0x7d, 0x48, 0x8a, 0x45, 0xc9, 0x7a, 0x6c, 0x0d, 0x3d, 0x98, 0xea,
    0x11, 0x42, 0xdc, 0x96, 0x06, 0xbc, 0xb9, 0xdd, 0x22, 0x8e, 0x01, 0x0b,
    0x70, 0xab, 0x3b, 0xe2, 0x2b, 0xf5, 0xc4, 0x46, 0xb8, 0xa7, 0x66, 0xb9,
    0xab, 0x7b, 0xad, 0xb3, 0x85, 0xa1, 0x9e, 0xae, 0x95, 0x20, 0xdc, 0x34,
    0xcb, 0x63, 0x27, 0x18, 0x60, 0x79,
];

/// The test server's key as a PEM document.
fn key_pem() -> String {
    pem_rfc7468::encode_string("PRIVATE KEY", pem_rfc7468::LineEnding::LF, &KEY_DER).unwrap()
}

use std::sync::Arc;
use yaws_tls::rustls_blueprint::{load_cert_der_pem, load_private_key_der_pem, roots};
use yaws_tls::{
    testing_ctx, IpAddr, TestingCtx, TlsClient, TlsClientConfig, TlsContext, TlsError, TlsServer,
    TlsServerConfig, TlsServerIdentifier,
};

fn ca_der() -> rustls_pki_types::CertificateDer<'static> {
    load_cert_der_pem(CA_PEM.as_bytes()).unwrap()
}

fn server_config() -> TlsServerConfig {
    let cert = load_cert_der_pem(CERT_PEM.as_bytes()).unwrap();
    let key = load_private_key_der_pem(key_pem().as_bytes()).unwrap();
    TlsServerConfig::with_certs_and_key(vec![cert, ca_der()], key).unwrap()
}

fn client_rustls_config() -> rustls::ClientConfig {
    let provider = Arc::new(rustls_rustcrypto::provider());
    rustls::ClientConfig::builder_with_provider(provider)
        .with_safe_default_protocol_versions()
        .unwrap()
        .with_root_certificates(roots(ca_der()).unwrap())
        .with_no_client_auth()
}

fn client_ctx(host: &'static str) -> TestingCtx<TlsContext> {
    let cfg = TlsClientConfig::with_hostname(host).unwrap();
    testing_ctx(TlsClient::with_configuration(cfg, client_rustls_config()).unwrap())
}

fn server_ctx() -> TestingCtx<TlsContext> {
    testing_ctx(TlsServer::with_configuration(server_config()).unwrap())
}

fn spin(ctx: &mut TestingCtx<TlsContext>) -> Vec<Result<yaws_tls::TlsPosition, TlsError>> {
    let mut results = vec![];
    for _ in 0..6 {
        results.push(ctx.o.advance_with(&mut (), &mut ctx.l, &mut ctx.r));
    }
    results
}

fn transfer(from: &mut TestingCtx<TlsContext>, to: &mut TestingCtx<TlsContext>) -> usize {
    let mut pending = from.l.pending_out().to_vec();
    let (in_len, _) = from.l.left_lens();
    from.l.left_set_lens(in_len, 0);
    to.l.copy_in(&mut pending)
}

fn handshake(client: &mut TestingCtx<TlsContext>, server: &mut TestingCtx<TlsContext>) -> bool {
    for _ in 0..20 {
        spin(client);
        transfer(client, server);
        spin(server);
        transfer(server, client);
        if !client.o.is_handshaking() && !server.o.is_handshaking() {
            return true;
        }
    }
    false
}

#[test]
fn server_identifier_with_hostname() {
    let id = TlsServerIdentifier::with_hostname("test.rustcryp.to").unwrap();
    assert_eq!(id, TlsServerIdentifier::DnsName("test.rustcryp.to"));
    assert!(id.to_server_name().is_ok());
}

#[test]
fn server_identifier_invalid_dns_name_is_rejected() {
    let id = TlsServerIdentifier::with_hostname("not a host name!").unwrap();
    assert!(matches!(id.to_server_name(), Err(TlsError::RustlsDns(_))));
}

#[test]
fn server_identifier_with_ipaddr() {
    let addr = IpAddr::V4(127, 0, 0, 1);
    assert_eq!(TlsServerIdentifier::with_ipaddr(addr).unwrap(), TlsServerIdentifier::IpAddr(addr));
    let c = TlsClientConfig::with_ipaddr(addr).unwrap();
    assert_eq!(c.server_identifier, TlsServerIdentifier::IpAddr(addr));
}

#[test]
fn client_config_with_server_id() {
    let id = TlsServerIdentifier::DnsName("example.org");
    assert_eq!(TlsClientConfig::with_server_id(id).unwrap().server_identifier, id);
    assert_eq!(
        TlsClientConfig::with_hostname("example.org").unwrap().server_identifier,
        id
    );
}

#[test]
fn client_with_invalid_host_is_a_dns_error() {
    let cfg = TlsClientConfig::with_hostname("bad host").unwrap();
    let r = TlsClient::with_config(cfg, client_rustls_config());
    assert!(matches!(r, Err(TlsError::RustlsDns(_))));
}

#[test]
fn pem_loading() {
    assert!(load_cert_der_pem(CA_PEM.as_bytes()).is_some());
    assert!(load_cert_der_pem(b"no pem here").is_none());
    assert!(load_private_key_der_pem(key_pem().as_bytes()).is_some());
    assert!(load_private_key_der_pem(CA_PEM.as_bytes()).is_none());
}

#[test]
fn roots_accept_the_ca() {
    assert_eq!(roots(ca_der()).unwrap().len(), 1);
}

#[test]
fn server_config_with_ca_cert_and_key_order() {
    let cert = load_cert_der_pem(CERT_PEM.as_bytes()).unwrap();
    let key = load_private_key_der_pem(key_pem().as_bytes()).unwrap();
    let cfg = TlsServerConfig::with_ca_cert_and_key(ca_der(), cert, key).unwrap();
    let copy = cfg.clone();
    assert!(copy.try_into_rustls().is_ok());
}

#[test]
fn server_builds_from_config() {
    assert!(TlsServer::with_config(server_config()).is_ok());
}

#[test]
fn fresh_server_waits_for_client_hello() {
    let mut server = server_ctx();
    let r = server.o.advance_with(&mut (), &mut server.l, &mut server.r);
    let p = r.unwrap();
    assert_eq!(p.in_discard, 0);
    assert!(server.l.left_in_blocked());
    assert!(server.l.left_want_read());
    assert!(!server.l.is_ready());
}

#[test]
fn client_hello_is_encoded_into_left_output() {
    let mut client = client_ctx("test.rustcryp.to");
    let p = client.o.advance_with(&mut (), &mut client.l, &mut client.r).unwrap();
    // only the discard is reported; the output shows in the Left lengths
    assert_eq!(p.out_send, 0);
    let (_, out_len) = client.l.left_lens();
    assert!(out_len > 0);
    // a TLS handshake record
    assert_eq!(client.l.pending_out()[0], 0x16);
}

#[test]
fn advance_keeps_pending_output() {
    let mut client = client_ctx("test.rustcryp.to");
    client.o.advance_with(&mut (), &mut client.l, &mut client.r).unwrap();
    let before = client.l.pending_out().to_vec();
    spin(&mut client);
    assert_eq!(&client.l.pending_out()[..before.len()], &before[..]);
}

#[test]
fn rustls_handshake_and_application_data() {
    let mut client = client_ctx("test.rustcryp.to");
    let mut server = server_ctx();
    assert!(handshake(&mut client, &mut server));
    assert!(client.l.is_ready());
    assert!(server.l.is_ready());

    client.r.add_right_out(b"GET / HTTP/1.0\r\n\r\n");
    spin(&mut client);
    assert_eq!(client.r.right_lens().1, 0);
    transfer(&mut client, &mut server);
    spin(&mut server);
    assert_eq!(server.r.pending_in(), b"GET / HTTP/1.0\r\n\r\n");

    server.r.clear_pending_in();
    server.r.add_right_out(b"418 I'm a teapot\r\n\r\n");
    spin(&mut server);
    transfer(&mut server, &mut client);
    spin(&mut client);
    assert_eq!(client.r.pending_in(), b"418 I'm a teapot\r\n\r\n");
}

#[test]
fn idle_connection_waits_for_right_output() {
    let mut client = client_ctx("test.rustcryp.to");
    let mut server = server_ctx();
    assert!(handshake(&mut client, &mut server));
    spin(&mut client);
    let r = client.o.advance_with(&mut (), &mut client.l, &mut client.r).unwrap();
    assert_eq!(r.in_discard, 0);
    assert_eq!(client.l.left_lens(), (0, 0));
    assert!(client.r.wants_right_next_in());
}

#[test]
fn wrong_host_fails_the_handshake() {
    let mut client = client_ctx("here.we.fail");
    let mut server = server_ctx();
    assert!(!handshake(&mut client, &mut server));
}

#[test]
fn rejected_records_are_a_handle_records_error() {
    let mut server = server_ctx();
    let mut garbage = [0xffu8; 32];
    server.l.copy_in(&mut garbage);
    let r = server.o.advance_with(&mut (), &mut server.l, &mut server.r);
    assert!(matches!(r, Err(TlsError::RustlsHandleRecords(_))));
    // the Left lengths stay as they were
    assert_eq!(server.l.left_lens(), (32, 0));
    assert!(!server.l.is_ready());
}

#[test]
fn roots_reject_a_non_certificate() {
    let not_a_cert = rustls_pki_types::CertificateDer::from(vec![1u8, 2, 3]);
    assert!(roots(not_a_cert).is_none());
}

#[test]
fn server_rejects_a_key_that_does_not_parse() {
    let key = rustls_pki_types::PrivateKeyDer::Pkcs8(vec![1u8, 2, 3].into());
    let cfg = TlsServerConfig::with_certs_and_key(vec![ca_der()], key).unwrap();
    assert!(matches!(TlsServer::with_config(cfg), Err(TlsError::RustlsConfig(_))));
}
