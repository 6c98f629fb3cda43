use yaws_tls::ab_ytls::ab_ytls_materials;

/// The SEC1 form of a P-256 test key, as DER.
fn sec1_der() -> Vec<u8> {
    let mut der = vec![0x30u8, 0x6b, 0x02, 0x01, 0x01, 0x04, 0x20];
    der.extend((1u8..=32).collect::<Vec<u8>>());
    der.extend([0xa1u8, 0x44, 0x03, 0x42, 0x00, 0x04]);
    der.extend(vec![0x11u8; 64]);
    der
}

fn pem(label: &str, body: &[u8]) -> Vec<u8> {
    pem_rfc7468::encode_string(label, pem_rfc7468::LineEnding::LF, body).unwrap().into_bytes()
}

#[test]
fn materials_decode_certificates_and_key() {
    let ca = pem("CERTIFICATE", &[1, 2, 3]);
    let cert = pem("CERTIFICATE", &[4, 5, 6, 7]);
    let key = pem(&["EC", "PRIVATE", "KEY"].join(" "), &sec1_der());
    let (ca_d, cert_d, key_d) = ab_ytls_materials(&ca, &cert, &key).unwrap();
    assert_eq!(ca_d, vec![1, 2, 3]);
    assert_eq!(cert_d, vec![4, 5, 6, 7]);
    assert_eq!(key_d, (1u8..=32).collect::<Vec<u8>>());
}

#[test]
fn materials_fail_on_bad_documents() {
    let ca = pem("CERTIFICATE", &[1, 2, 3]);
    let key = pem(&["EC", "PRIVATE", "KEY"].join(" "), &sec1_der());
    assert!(ab_ytls_materials(b"not pem", &ca, &key).is_none());
    assert!(ab_ytls_materials(&ca, b"not pem", &key).is_none());
    assert!(ab_ytls_materials(&ca, &ca, b"not pem").is_none());
    // a PEM document whose body is not a SEC1 key
    assert!(ab_ytls_materials(&ca, &ca, &ca).is_none());
}
