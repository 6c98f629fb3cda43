use yaws_tls::ytls_blueprint::{
    bytes_eq, left_buf_in, send_record_out, ytls_left_lens, TlsServerConfig, SERVER_HOST_NAME,
};
use yaws_tls::ConfigError;

#[test]
fn ytls_config_with_ca_cert_key() {
    let c = TlsServerConfig::with_ca_cert_key(b"ca", b"cert", b"key").unwrap();
    assert_eq!(c.server_cert(0), b"cert");
    assert_eq!(c.server_cert(1), b"ca");
    assert_eq!(c.server_private_key(), b"key");
    assert_eq!(c.server_cert_chain(), &[0, 1]);
}

#[test]
fn ytls_config_capacity_edges() {
    assert!(TlsServerConfig::with_ca_cert_key(&[1; 1024], &[2; 1024], &[3; 512]).is_ok());
}

#[test]
fn ytls_config_oversized_ca() {
    let r = TlsServerConfig::with_ca_cert_key(&[1; 1025], &[2; 2000], &[3; 600]);
    assert!(matches!(r, Err(ConfigError::OversizedCa)));
}

#[test]
fn ytls_config_oversized_cert() {
    let r = TlsServerConfig::with_ca_cert_key(&[1; 10], &[2; 1025], &[3; 600]);
    assert!(matches!(r, Err(ConfigError::OversizedCert)));
}

#[test]
fn ytls_config_oversized_key() {
    let r = TlsServerConfig::with_ca_cert_key(&[1; 10], &[2; 10], &[3; 513]);
    assert!(matches!(r, Err(ConfigError::OversizedPrivateKey)));
}

#[test]
fn ytls_dns_host_name() {
    let c = TlsServerConfig::with_ca_cert_key(b"", b"", b"").unwrap();
    assert!(c.dns_host_name("test.rustcryp.to"));
    assert!(c.dns_host_name(SERVER_HOST_NAME));
    assert!(!c.dns_host_name("here.we.fail"));
    assert!(!c.dns_host_name("test.rustcryp.t"));
    assert!(!c.dns_host_name(""));
}

#[test]
fn ytls_bytes_eq() {
    assert!(bytes_eq(b"abc", b"abc"));
    assert!(!bytes_eq(b"abc", b"abd"));
    assert!(!bytes_eq(b"abc", b"ab"));
    assert!(bytes_eq(b"", b""));
}

#[test]
fn ytls_left_buf_in_skips_discard() {
    assert_eq!(left_buf_in(b"abcdef", 2), b"cdef");
    assert_eq!(left_buf_in(b"abc", 3), b"");
}

#[test]
fn ytls_send_record_out_appends_after_sent() {
    let mut out = [0u8; 8];
    let sent = send_record_out(&mut out, 0, b"abc");
    assert_eq!(sent, 3);
    let sent = send_record_out(&mut out, sent, b"de");
    assert_eq!(sent, 5);
    assert_eq!(&out, b"abcde\0\0\0");
}

#[test]
fn ytls_left_lens_after_pass() {
    assert_eq!(ytls_left_lens(10, 4, 3, 20), (7, 24));
    assert_eq!(ytls_left_lens(10, 4, 0, 0), (10, 4));
}
