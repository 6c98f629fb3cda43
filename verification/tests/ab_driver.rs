const CA_PEM: &str = "\
-----BEGIN CERTIFICATE-----\n\
MIIBZTCCAQugAwIBAgIBATAKBggqhkjOPQQDAjAZMRcwFQYDVQQDDA5UZWFwb3Qg\n\
VGVzdCBDQTAgFw0yNDAxMDEwMDAwMDBaGA8yMDk5MDEwMTAwMDAwMFowGTEXMBUG\n\
A1UEAwwOVGVhcG90IFRlc3QgQ0EwWTATBgcqhkjOPQIBBggqhkjOPQMBBwNCAAR7\n\
UuKIo6Nb3pDMTvOGSkjDhZmcVnl+EdriEUsKbZO9j+DNxQr6CLRKFvE3UFfiwlo7\n\
3N1tNlJCbv/sCbHU9+5vo0IwQDAPBgNVHRMBAf8EBTADAQH/MA4GA1UdDwEB/wQE\n\
AwIBhjAdBgNVHQ4EFgQUrALtP4DK6EQnQMSjWqS1x/ljaAkwCgYIKoZIzj0EAwID\n\
SAAwRQIhAKtKYONWva8vSuyrsr3eSHuRGZTXOEAGVDL1DgFRa81zAiA9db7K+7ki\n\
42wk8rjClhZ38hCpgpi0ec9gx3tmy4X7CQ==\n\
-----END CERTIFICATE-----\n\
";
const CERT_PEM: &str = "\
-----BEGIN CERTIFICATE-----\n\
MIIBiDCCAS6gAwIBAgIBAjAKBggqhkjOPQQDAjAZMRcwFQYDVQQDDA5UZWFwb3Qg\n\
VGVzdCBDQTAgFw0yNDAxMDEwMDAwMDBaGA8yMDk5MDEwMTAwMDAwMFowGzEZMBcG\n\
A1UEAwwQdGVzdC5ydXN0Y3J5cC50bzBZMBMGByqGSM49AgEGCCqGSM49AwEHA0IA\n\
BGcza/CR3CxgNcQ2fUiKRcl6bA09mOoRQtyWBry53SKOAQtwqzviK/XERrinZrmr\n\
e62zhaGerpUg3DTLYycYYHmjYzBhMBsGA1UdEQQUMBKCEHRlc3QucnVzdGNyeXAu\n\
dG8wDAYDVR0TAQH/BAIwADATBgNVHSUEDDAKBggrBgEFBQcDATAfBgNVHSMEGDAW\n\
gBSsAu0/gMroRCdAxKNapLXH+WNoCTAKBggqhkjOPQQDAgNIADBFAiEAlF4Ab1jm\n\
8lvZA6PjJjdcc8Aln1+HKRJ/3Ktoj5RhBnMCIGKSdDAWCwrd94WWSjC8rvmxE0Vu\n\
Hdiw+1i0xxxPeZ7Y\n\
-----END CERTIFICATE-----\n\
";
/// The test server's PKCS#8 (P-256) key, as DER.
const KEY_DER: [u8; 138] = [
    0x30, 0x81, 0x87, 0x02, 0x01, 0x00, 0x30, 0x13, 0x06, 0x07, 0x2a, 0x86,
    0x48, 0xce, 0x3d, 0x02, 0x01, 0x06, 0x08, 0x2a, 0x86, 0x48, 0xce, 0x3d,
    0x03, 0x01, 0x07, 0x04, 0x6d, 0x30, 0x6b, 0x02, 0x01, 0x01, 0x04, 0x20,
    0xaf, 0xc3, 0x2d, 0xcd, 0x09, 0xa3, 0x3e, 0x02, 0xab, 0x4b, 0x38, 0xdb,
    0x52, 0xf6, 0x07, 0x5d, 0xb0, 0xf5, 0x82, 0x02, 0xb1, 0x44, 0x16, 0xc1,
    0xf9, 0xa6, 0x83, 0x78, 0xe9, 0x2d, 0x98, 0x27, 0xa1, 0x44, 0x03, 0x42,
    0x00, 0x04, 0x67, 0x33, 0x6b, 0xf0, 0x91, 0xdc, 0x2c, 0x60, 0x35, 0xc4,
    0x36, 0x7d, 0x48, 0x8a, 0x45, 0xc9, 0x7a, 0x6c, 0x0d, 0x3d, 0x98, 0xea,
    0x11, 0x42, 0xdc, 0x96, 0x06, 0xbc, 0xb9, 0xdd, 0x22, 0x8e, 0x01, 0x0b,
    0x70, 0xab, 0x3b, 0xe2, 0x2b, 0xf5, 0xc4, 0x46, 0xb8, 0xa7, 0x66, 0xb9,
    0xab, 0x7b, 0xad, 0xb3, 0x85, 0xa1, 0x9e, 0xae, 0x95, 0x20, 0xdc, 0x34,
    0xcb, 0x63, 0x27, 0x18, 0x60, 0x79,
];

/// The test server's key as a PEM document.
fn key_pem() -> String {
    pem_rfc7468::encode_string("PRIVATE KEY", pem_rfc7468::LineEnding::LF, &KEY_DER).unwrap()
}

use std::sync::Arc;
use yaws_tls::ab_injector::{copy_out_to_client, serve_app_request};
use yaws_tls::rustls_blueprint::{load_cert_der_pem, load_private_key_der_pem, roots};
use yaws_tls::{
    ab_read_injector, teapot_expected_response, teapot_hostname, testing_ctx, AbIoLeft,
    AbIoRight, AppRequest, ExpectedFailure, InjectorError, TestingCtx, TlsClient,
    TlsClientConfig, TlsContext, TlsServer, TlsServerConfig,
};

fn init_server() -> TlsContext {
    let ca = load_cert_der_pem(CA_PEM.as_bytes()).unwrap();
    let cert = load_cert_der_pem(CERT_PEM.as_bytes()).unwrap();
    let key = load_private_key_der_pem(key_pem().as_bytes()).unwrap();
    TlsServer::with_configuration(TlsServerConfig::with_ca_cert_and_key(ca, cert, key).unwrap())
        .unwrap()
}

fn init_server_leaf_first() -> TlsContext {
    let ca = load_cert_der_pem(CA_PEM.as_bytes()).unwrap();
    let cert = load_cert_der_pem(CERT_PEM.as_bytes()).unwrap();
    let key = load_private_key_der_pem(key_pem().as_bytes()).unwrap();
    TlsServer::with_configuration(TlsServerConfig::with_certs_and_key(vec![cert, ca], key).unwrap())
        .unwrap()
}

fn client_ctx(host: &'static str) -> TestingCtx<TlsContext> {
    let ca = load_cert_der_pem(CA_PEM.as_bytes()).unwrap();
    let provider = Arc::new(rustls_rustcrypto::provider());
    let rustls_cfg = rustls::ClientConfig::builder_with_provider(provider)
        .with_safe_default_protocol_versions()
        .unwrap()
        .with_root_certificates(roots(ca).unwrap())
        .with_no_client_auth();
    let cfg = TlsClientConfig::with_hostname(host).unwrap();
    testing_ctx(TlsClient::with_configuration(cfg, rustls_cfg).unwrap())
}

#[test]
fn init_rustls() {
    let mut _test_ctx = testing_ctx(init_server());
}

#[test]
fn testing_ctx_sides() {
    let ctx = testing_ctx(7u32);
    assert_eq!(ctx.o, 7);
    assert_eq!(ctx.l.left_lens(), (0, 0));
    assert_eq!(ctx.l.out_bytes, vec![0u8; 16384]);
    assert_eq!(ctx.l.out_bytes_len, 0);
    assert_eq!(ctx.r.right_lens(), (0, 0));
    assert!(!ctx.l.is_ready());
}

#[test]
fn teapot_hostname_per_failure() {
    assert_eq!(teapot_hostname(&None), "test.rustcryp.to");
    assert_eq!(
        teapot_hostname(&Some(ExpectedFailure::ServerCertVerifyFailed)),
        "here.we.fail"
    );
    assert_eq!(teapot_hostname(&Some(ExpectedFailure::ItsNotATeapot)), "test.rustcryp.to");
}

#[test]
fn teapot_response_per_failure() {
    assert_eq!(teapot_expected_response(&None), "418 I'm a teapot\r\n\r\n");
    assert_eq!(teapot_expected_response(&Some(ExpectedFailure::ItsNotATeapot)), "200 OK");
    assert_eq!(
        teapot_expected_response(&Some(ExpectedFailure::ServerCertVerifyFailed)),
        "418 I'm a teapot\r\n\r\n"
    );
}

#[test]
fn serve_app_request_answers_the_request() {
    let mut r = AbIoRight::default();
    assert_eq!(serve_app_request(&mut r), AppRequest::NoRequest);
    r.add_right_in(b"GET / HTTP/1.0\r\n\r\n");
    assert_eq!(serve_app_request(&mut r), AppRequest::Answered);
    assert_eq!(r.right_lens(), (0, 20));
    assert_eq!(r.buf_right_out(), b"418 I'm a teapot\r\n\r\n");
}

#[test]
fn serve_app_request_rejects_other_requests() {
    let mut r = AbIoRight::default();
    r.add_right_in(b"GET /coffee HTTP/1.0\r\n\r\n");
    assert_eq!(serve_app_request(&mut r), AppRequest::WrongRequest);
    assert_eq!(r.right_lens(), (24, 0));
}

#[test]
fn copy_out_to_client_partial_and_full() {
    let mut l = AbIoLeft::with_out_buffer(b"abcdef".to_vec());
    l.left_set_lens(0, 5);
    let mut small = [0u8; 3];
    assert_eq!(copy_out_to_client(&mut l, &mut small), 3);
    assert_eq!(&small, b"abc");
    assert_eq!(l.left_lens(), (0, 2));
    assert_eq!(l.pending_out(), b"de");
    let mut big = [9u8; 4];
    assert_eq!(copy_out_to_client(&mut l, &mut big), 2);
    assert_eq!(&big, b"de\x09\x09");
    assert_eq!(l.left_lens(), (0, 0));
    assert_eq!(copy_out_to_client(&mut l, &mut big), 0);
}

#[test]
fn injector_without_headroom() {
    let mut server = testing_ctx(init_server_leaf_first());
    let mut to_server = [0u8; 0];
    let r = ab_read_injector(&mut server, &mut [], &mut to_server);
    assert!(matches!(r, Err(InjectorError::NoRxHeadroom)));
}

#[test]
fn teapot_rustls_over_injector() {
    let mut client = client_ctx("test.rustcryp.to");
    let mut server = testing_ctx(init_server_leaf_first());
    let mut answered = false;
    for _ in 0..40 {
        for _ in 0..4 {
            let _ = client.o.advance_with(&mut (), &mut client.l, &mut client.r);
        }
        if !client.o.is_handshaking() && !answered && client.r.right_lens().1 == 0 {
            client.r.add_right_out(b"GET / HTTP/1.0\r\n\r\n");
            answered = true;
            let _ = client.o.advance_with(&mut (), &mut client.l, &mut client.r);
        }
        let mut to_server = client.l.pending_out().to_vec();
        let (in_len, _) = client.l.left_lens();
        client.l.left_set_lens(in_len, 0);
        let mut to_client = [0u8; 4096];
        let fwd = ab_read_injector(&mut server, &mut to_client, &mut to_server).unwrap();
        assert_eq!(fwd.discard_write, to_server.len());
        let n = fwd.read_status.unwrap();
        client.l.copy_in(&mut to_client[..n]);
        if client.r.pending_in() == b"418 I'm a teapot\r\n\r\n" {
            return;
        }
    }
    panic!("no teapot");
}
