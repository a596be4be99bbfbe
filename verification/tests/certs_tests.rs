use charlotte::certs::{
    ca_validity, generate_certificate, generate_key_pair, CertError, CertificateStore,
    CA_VALIDITY_SECS, LAST_CERT_SECOND,
};

fn site_config(
    cert: rcgen::Certificate,
    key: &rcgen::KeyPair,
) -> Result<rustls::ServerConfig, rustls::Error> {
    let key_der = rustls::pki_types::PrivatePkcs8KeyDer::from(key.serialize_der());
    rustls::ServerConfig::builder()
        .with_no_client_auth()
        .with_single_cert(vec![cert.into()], key_der.into())
}

#[test]
fn certificate_authority_signs_site_certificates() {
    let key_pair = generate_key_pair().unwrap();
    let cert = generate_certificate(&key_pair).unwrap();
    assert!(cert.certificate().pem().starts_with("-----BEGIN CERTIFICATE-----"));
    let store = CertificateStore::new(cert.certificate().der(), &key_pair.serialized_der()).unwrap();
    assert_eq!(store.ca_cert_bytes, cert.certificate().der().to_vec());
    let (site_cert, site_key) = match store.generate_cert("example.com") {
        Ok(pair) => pair,
        Err(e) => panic!("{}", e),
    };
    assert!(site_cert.certificate().pem().starts_with("-----BEGIN CERTIFICATE-----"));
    assert!(site_config(site_cert.into_certificate(), &site_key).is_ok());
}

#[test]
fn site_certificate_carries_the_returned_key() {
    let key_pair = generate_key_pair().unwrap();
    let cert = generate_certificate(&key_pair).unwrap();
    let store = CertificateStore::new(cert.certificate().der(), &key_pair.serialized_der()).unwrap();
    let (site_cert, _site_key) = match store.generate_cert("example.com") {
        Ok(pair) => pair,
        Err(e) => panic!("{}", e),
    };
    let other = generate_key_pair().unwrap();
    assert!(site_config(site_cert.into_certificate(), &other).is_err());
    assert!(site_config(cert.into_certificate(), &key_pair).is_ok());
}

#[test]
fn unreadable_key_is_refused() {
    let store = CertificateStore::new(b"not a certificate", b"not a key").unwrap();
    match store.generate_cert("example.com") {
        Err(error) => assert!(error.starts_with("Failed to parse CA key: ")),
        Ok(_) => panic!("a certificate was made"),
    }
}

#[test]
fn unreadable_certificate_is_refused() {
    let key_pair = generate_key_pair().unwrap();
    let store = CertificateStore::new(b"not a certificate", &key_pair.serialized_der()).unwrap();
    match store.generate_cert("example.com") {
        Err(error) => assert!(error.starts_with("Failed to create issuer from CA cert: ")),
        Ok(_) => panic!("a certificate was made"),
    }
}

#[test]
fn cert_error_texts() {
    assert_eq!(
        CertError::KeyPairGeneration("x".to_string()).to_text(),
        "Failed to generate key pair: x"
    );
    assert_eq!(
        CertError::CertificateParamsCreation("y".to_string()).to_text(),
        "Failed to create certificate parameters: y"
    );
    assert_eq!(
        CertError::CertificateSigning("z".to_string()).to_text(),
        "Failed to sign certificate: z"
    );
}

#[test]
fn ca_validity_is_a_year_from_the_clock() {
    assert_eq!(ca_validity(Some(1_700_000_000)), Ok((1_700_000_000, 1_731_536_000)));
    let last_start = LAST_CERT_SECOND - CA_VALIDITY_SECS;
    assert_eq!(ca_validity(Some(last_start)), Ok((last_start, LAST_CERT_SECOND)));
    let refused = CertError::CertificateParamsCreation(
        "the clock reads a time the certificate cannot hold".to_string(),
    );
    assert_eq!(ca_validity(Some(last_start + 1)), Err(CertError::CertificateParamsCreation(
        "the clock reads a time the certificate cannot hold".to_string(),
    )));
    assert_eq!(ca_validity(None), Err(refused));
}
