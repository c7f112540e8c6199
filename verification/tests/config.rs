//! Building the server configuration from certificates and keys, held in
//! memory or in files.
//!
//! No key is kept in this file: each test makes the keys and certificates it
//! needs when it runs.

use rcgen::CertificateParams;
use rcgen::IsCa;
use rcgen::KeyPair;
use rsa::pkcs1::EncodeRsaPrivateKey;
use rsa::pkcs8::EncodePrivateKey;
use rsa::pkcs8::LineEnding;
use rsa::RsaPrivateKey;
use std::io::Error as IoError;
use std::io::ErrorKind;
use tls_termination::assemble::Build;
use tls_termination::config::TlsConfigBuilder;
use tls_termination::error::TlsConfigError;
use tokio_rustls::rustls::pki_types::PrivatePkcs8KeyDer;
use tokio_rustls::rustls::ServerConfig;

/// A private key and the certificate that goes with it, both as PEM.
struct Identity {
    key: String,
    cert: String,
}

fn certificate_for(key_pair: &KeyPair) -> String {
    let params = CertificateParams::new(vec!["localhost".to_string()]).unwrap();
    params.self_signed(key_pair).unwrap().pem()
}

/// Splits the first item off a run of DER: its tag, its content, and the rest.
fn der_item(der: &[u8]) -> (u8, &[u8], &[u8]) {
    let (length, header) = if der[1] < 0x80 {
        (der[1] as usize, 2)
    } else {
        let width = (der[1] & 0x7f) as usize;
        let length = der[2..2 + width].iter().fold(0usize, |sum, byte| sum * 256 + *byte as usize);
        (length, 2 + width)
    };
    (der[0], &der[header..header + length], &der[header + length..])
}

/// The SEC1 key inside a PKCS#8 elliptic-curve key: the content of the octet
/// string that follows the version and the algorithm.
fn sec1_of(pkcs8: &[u8]) -> Vec<u8> {
    let (tag, content, rest) = der_item(pkcs8);
    assert_eq!((tag, rest.len()), (0x30, 0));
    let (tag, version, rest) = der_item(content);
    assert_eq!((tag, version), (0x02, &[0u8][..]));
    let (tag, _algorithm, rest) = der_item(rest);
    assert_eq!(tag, 0x30);
    let (tag, key, _) = der_item(rest);
    assert_eq!(tag, 0x04);
    key.to_vec()
}

/// A generator of numbers that gives the same run each time, so that making
/// an RSA key takes the same time in every run of a test.
struct Repeatable(u64);

impl rand_core::RngCore for Repeatable {
    fn next_u32(&mut self) -> u32 {
        (self.next_u64() >> 32) as u32
    }

    fn next_u64(&mut self) -> u64 {
        self.0 = self.0.wrapping_add(0x9e37_79b9_7f4a_7c15);
        let mut mixed = self.0;
        mixed = (mixed ^ (mixed >> 30)).wrapping_mul(0xbf58_476d_1ce4_e5b9);
        mixed = (mixed ^ (mixed >> 27)).wrapping_mul(0x94d0_49bb_1331_11eb);
        mixed ^ (mixed >> 31)
    }

    fn fill_bytes(&mut self, dest: &mut [u8]) {
        rand_core::impls::fill_bytes_via_next(self, dest)
    }

    fn try_fill_bytes(&mut self, dest: &mut [u8]) -> Result<(), rand_core::Error> {
        self.fill_bytes(dest);
        Ok(())
    }
}

impl rand_core::CryptoRng for Repeatable {}

/// An RSA key of 2048 bits in PKCS#1 form, with its certificate.
fn rsa_identity() -> Identity {
    let key = RsaPrivateKey::new(&mut Repeatable(3), 2048).unwrap();
    let pkcs8 = key.to_pkcs8_der().unwrap();
    let key_pair = KeyPair::from_pkcs8_der_and_sign_algo(
        &PrivatePkcs8KeyDer::from(pkcs8.as_bytes()),
        &rcgen::PKCS_RSA_SHA256,
    )
    .unwrap();
    Identity {
        key: key.to_pkcs1_pem(LineEnding::LF).unwrap().to_string(),
        cert: certificate_for(&key_pair),
    }
}

/// An elliptic-curve key in SEC1 form, with its certificate.
fn ecc_identity() -> Identity {
    let key_pair = KeyPair::generate().unwrap();
    let sec1 = pem::Pem::new("EC PRIVATE KEY", sec1_of(&key_pair.serialize_der()));
    let unix = pem::EncodeConfig::new().set_line_ending(pem::LineEnding::LF);
    Identity { key: pem::encode_config(&sec1, unix), cert: certificate_for(&key_pair) }
}

/// An elliptic-curve key in PKCS#8 form, with its certificate.
fn pkcs8_identity() -> Identity {
    let key_pair = KeyPair::generate().unwrap();
    Identity { key: key_pair.serialize_pem(), cert: certificate_for(&key_pair) }
}

/// The certificate of an authority that signs client certificates.
fn trust_anchor() -> String {
    let key_pair = KeyPair::generate().unwrap();
    let mut params = CertificateParams::new(Vec::<String>::new()).unwrap();
    params.is_ca = IsCa::Ca(rcgen::BasicConstraints::Unconstrained);
    params.self_signed(&key_pair).unwrap().pem()
}

/// A PEM section with this label and this body, which need not be sound.
fn section(label: &str, body: &str) -> String {
    format!("-----BEGIN {label}-----\n{body}\n-----END {label}-----\n")
}

/// The label of the first PEM section in `text`.
fn label_of(text: &str) -> String {
    pem::parse(text).unwrap().tag().to_string()
}

/// A small disk that lives in memory.
struct Disk {
    files: Vec<(&'static str, String)>,
}

impl Disk {
    /// Reads a file as a driver of the build reads a real one.
    fn read(&self, path: &str) -> Result<Vec<u8>, IoError> {
        match self.files.iter().find(|(name, _)| *name == path) {
            Some((_, content)) => Ok(content.as_bytes().to_vec()),
            None => Err(IoError::new(ErrorKind::NotFound, "no such file")),
        }
    }
}

fn rsa_disk() -> Disk {
    let identity = rsa_identity();
    Disk {
        files: vec![
            ("examples/tls/key.rsa", identity.key),
            ("examples/tls/cert.pem", identity.cert),
        ],
    }
}

fn ecc_disk() -> Disk {
    let identity = ecc_identity();
    Disk {
        files: vec![
            ("examples/tls/key.ecc", identity.key),
            ("examples/tls/cert.ecc.pem", identity.cert),
            ("examples/tls/ca.pem", trust_anchor()),
        ],
    }
}

fn no_disk() -> Disk {
    Disk { files: Vec::new() }
}

/// Drives a build to its end, and notes each file that it asked for.
fn drive(
    mut build: Build,
    disk: &Disk,
    asked: &mut Vec<String>,
) -> Result<ServerConfig, TlsConfigError> {
    loop {
        let path = match build.awaits() {
            Some(path) => path.to_string(),
            None => break,
        };
        let content = disk.read(&path);
        asked.push(path);
        build = build.supply(content);
    }
    match build.finish() {
        Ok(result) => result,
        Err(_) => panic!("a build that awaits no file is finished"),
    }
}

fn run_on(disk: &Disk, builder: TlsConfigBuilder) -> Result<ServerConfig, TlsConfigError> {
    drive(builder.build(), disk, &mut Vec::new())
}

fn run(builder: TlsConfigBuilder) -> Result<ServerConfig, TlsConfigError> {
    run_on(&no_disk(), builder)
}

fn h2_then_http11() -> Vec<Vec<u8>> {
    vec![b"h2".to_vec(), b"http/1.1".to_vec()]
}

#[test]
fn file_cert_key() {
    run_on(
        &rsa_disk(),
        TlsConfigBuilder::new()
            .key_path("examples/tls/key.rsa")
            .cert_path("examples/tls/cert.pem"),
    )
    .unwrap();
}

#[test]
fn bytes_cert_key() {
    let Identity { key, cert } = rsa_identity();

    run(TlsConfigBuilder::new()
        .key(key.as_bytes())
        .cert(cert.as_bytes()))
    .unwrap();
}

#[test]
fn file_ecc_cert_key() {
    run_on(
        &ecc_disk(),
        TlsConfigBuilder::new()
            .key_path("examples/tls/key.ecc")
            .cert_path("examples/tls/cert.ecc.pem"),
    )
    .unwrap();
}

#[test]
fn bytes_ecc_cert_key() {
    let Identity { key, cert } = ecc_identity();

    run(TlsConfigBuilder::new()
        .key(key.as_bytes())
        .cert(cert.as_bytes()))
    .unwrap();
}

#[test]
fn cert_key_as_one() {
    let Identity { key, cert } = ecc_identity();
    let combined = format!("{cert}\n{key}");
    run(TlsConfigBuilder::new()
        .key(combined.as_bytes())
        .cert(combined.as_bytes()))
    .unwrap();
}

#[test]
fn generated_keys_come_in_their_formats() {
    assert_eq!(label_of(&ecc_identity().key), "EC PRIVATE KEY");
    assert_eq!(label_of(&pkcs8_identity().key), "PRIVATE KEY");
    assert_eq!(label_of(&ecc_identity().cert), "CERTIFICATE");
}

#[test]
fn in_memory_build_finishes_without_asking_for_a_file() {
    let Identity { key, cert } = ecc_identity();
    let build = TlsConfigBuilder::new().key(key.as_bytes()).cert(cert.as_bytes()).build();
    assert!(build.awaits().is_none());
    assert!(matches!(build, Build::Finished(Ok(_))));
}

#[test]
fn rsa_configuration_advertises_h2_then_http11() {
    let Identity { key, cert } = rsa_identity();
    assert_eq!(label_of(&key), "RSA PRIVATE KEY");
    let config = run(TlsConfigBuilder::new().key(key.as_bytes()).cert(cert.as_bytes())).unwrap();
    assert_eq!(config.alpn_protocols, h2_then_http11());
}

#[test]
fn ecc_configuration_advertises_h2_then_http11() {
    let Identity { key, cert } = ecc_identity();
    let config = run(TlsConfigBuilder::new().key(key.as_bytes()).cert(cert.as_bytes())).unwrap();
    assert_eq!(config.alpn_protocols, h2_then_http11());
}

#[test]
fn pkcs8_key_is_accepted() {
    let Identity { key, cert } = pkcs8_identity();
    let config = run(TlsConfigBuilder::new().key(key.as_bytes()).cert(cert.as_bytes())).unwrap();
    assert_eq!(config.alpn_protocols, h2_then_http11());
}

#[test]
fn file_configuration_advertises_h2_then_http11() {
    let config = run_on(
        &ecc_disk(),
        TlsConfigBuilder::new()
            .key_path("examples/tls/key.ecc")
            .cert_path("examples/tls/cert.ecc.pem"),
    )
    .unwrap();
    assert_eq!(config.alpn_protocols, h2_then_http11());
}

#[test]
fn combined_buffer_builds_like_two_files_with_the_same_content() {
    let Identity { key, cert } = ecc_identity();
    let combined = format!("{cert}\n{key}");
    let from_memory = run(TlsConfigBuilder::new()
        .key(combined.as_bytes())
        .cert(combined.as_bytes()))
    .unwrap();

    let mut build = TlsConfigBuilder::new()
        .key_path("combined-key.pem")
        .cert_path("combined-cert.pem")
        .build();
    assert_eq!(build.awaits(), Some("combined-cert.pem"));
    build = build.supply(Ok(combined.clone().into_bytes()));
    assert_eq!(build.awaits(), Some("combined-key.pem"));
    build = build.supply(Ok(combined.into_bytes()));
    assert!(build.awaits().is_none());
    let from_files = match build.finish() {
        Ok(result) => result.unwrap(),
        Err(_) => panic!("the build still awaits a file"),
    };

    assert_eq!(from_memory.alpn_protocols, from_files.alpn_protocols);
    assert_eq!(from_files.alpn_protocols, h2_then_http11());
}

#[test]
fn files_are_asked_for_in_order_certificate_key_trust_anchor() {
    let mut asked = Vec::new();
    let result = drive(
        TlsConfigBuilder::new()
            .client_auth_required_path("examples/tls/ca.pem")
            .key_path("examples/tls/key.ecc")
            .cert_path("examples/tls/cert.ecc.pem")
            .build(),
        &ecc_disk(),
        &mut asked,
    );
    assert!(result.is_ok());
    assert_eq!(
        asked,
        vec![
            "examples/tls/cert.ecc.pem".to_string(),
            "examples/tls/key.ecc".to_string(),
            "examples/tls/ca.pem".to_string(),
        ]
    );
}

#[test]
fn building_touches_no_file_before_it_is_driven() {
    let build = TlsConfigBuilder::new()
        .key_path("missing/key.pem")
        .cert_path("missing/cert.pem")
        .build();
    assert_eq!(build.awaits(), Some("missing/cert.pem"));
    assert!(matches!(build, Build::Certificate { .. }));
}

#[test]
fn empty_builder_fails_on_the_certificate() {
    match run(TlsConfigBuilder::new()) {
        Err(TlsConfigError::CertParseError) => {}
        _ => panic!("expected CertParseError"),
    }
}

#[test]
fn empty_key_source_is_a_missing_private_key() {
    let cert = ecc_identity().cert;
    match run(TlsConfigBuilder::new().cert(cert.as_bytes())) {
        Err(TlsConfigError::MissingPrivateKey) => {}
        _ => panic!("expected MissingPrivateKey"),
    }
}

#[test]
fn key_source_with_only_a_certificate_is_a_missing_private_key() {
    let cert = ecc_identity().cert;
    match run(TlsConfigBuilder::new().cert(cert.as_bytes()).key(cert.as_bytes())) {
        Err(TlsConfigError::MissingPrivateKey) => {}
        _ => panic!("expected MissingPrivateKey"),
    }
}

#[test]
fn certificate_source_without_a_certificate_is_a_parse_error() {
    let key = ecc_identity().key;
    match run(TlsConfigBuilder::new().cert(b"this is no certificate").key(key.as_bytes())) {
        Err(TlsConfigError::CertParseError) => {}
        _ => panic!("expected CertParseError"),
    }
}

#[test]
fn certificate_source_with_only_a_key_is_a_parse_error() {
    let key = ecc_identity().key;
    match run(TlsConfigBuilder::new().cert(key.as_bytes()).key(key.as_bytes())) {
        Err(TlsConfigError::CertParseError) => {}
        _ => panic!("expected CertParseError"),
    }
}

#[test]
fn certificate_source_with_broken_pem_is_a_parse_error() {
    let key = ecc_identity().key;
    let broken = section("CERTIFICATE", "!!!!");
    match run(TlsConfigBuilder::new().cert(broken.as_bytes()).key(key.as_bytes())) {
        Err(TlsConfigError::CertParseError) => {}
        _ => panic!("expected CertParseError"),
    }
}

#[test]
fn key_source_with_broken_pem_is_an_io_error() {
    let cert = ecc_identity().cert;
    let broken = section("PRIVATE KEY", "!!!!");
    match run(TlsConfigBuilder::new().cert(cert.as_bytes()).key(broken.as_bytes())) {
        Err(TlsConfigError::Io(error)) => assert_eq!(error.kind(), ErrorKind::InvalidData),
        _ => panic!("expected Io"),
    }
}

#[test]
fn key_that_the_engine_refuses_is_an_invalid_key() {
    let cert = ecc_identity().cert;
    let nonsense = section("PRIVATE KEY", "AAAA");
    match run(TlsConfigBuilder::new().cert(cert.as_bytes()).key(nonsense.as_bytes())) {
        Err(TlsConfigError::InvalidKey(_)) => {}
        _ => panic!("expected InvalidKey"),
    }
}

#[test]
fn unreadable_certificate_file_is_an_io_error_and_ends_the_build() {
    let mut asked = Vec::new();
    let result = drive(
        TlsConfigBuilder::new()
            .key_path("examples/tls/key.ecc")
            .cert_path("examples/tls/absent.pem")
            .build(),
        &ecc_disk(),
        &mut asked,
    );
    match result {
        Err(TlsConfigError::Io(error)) => assert_eq!(error.kind(), ErrorKind::NotFound),
        _ => panic!("expected Io"),
    }
    assert_eq!(asked, vec!["examples/tls/absent.pem".to_string()]);
}

#[test]
fn unparsable_certificate_file_ends_the_build_before_the_key_is_read() {
    let mut asked = Vec::new();
    let result = drive(
        TlsConfigBuilder::new()
            .key_path("examples/tls/key.ecc")
            .cert_path("examples/tls/key.ecc")
            .build(),
        &ecc_disk(),
        &mut asked,
    );
    assert!(matches!(result, Err(TlsConfigError::CertParseError)));
    assert_eq!(asked, vec!["examples/tls/key.ecc".to_string()]);
}

#[test]
fn unreadable_key_file_is_an_io_error() {
    let mut asked = Vec::new();
    let result = drive(
        TlsConfigBuilder::new()
            .client_auth_optional_path("examples/tls/ca.pem")
            .key_path("examples/tls/absent.key")
            .cert_path("examples/tls/cert.ecc.pem")
            .build(),
        &ecc_disk(),
        &mut asked,
    );
    match result {
        Err(TlsConfigError::Io(error)) => {
            assert_eq!(error.kind(), ErrorKind::NotFound);
            assert_eq!(error.to_string(), "no such file");
        }
        _ => panic!("expected Io"),
    }
    assert_eq!(
        asked,
        vec!["examples/tls/cert.ecc.pem".to_string(), "examples/tls/absent.key".to_string()]
    );
}

#[test]
fn unreadable_trust_anchor_file_is_an_io_error() {
    let Identity { key, cert } = ecc_identity();
    let result = run(TlsConfigBuilder::new()
        .client_auth_required_path("examples/tls/absent.pem")
        .key(key.as_bytes())
        .cert(cert.as_bytes()));
    match result {
        Err(TlsConfigError::Io(error)) => assert_eq!(error.kind(), ErrorKind::NotFound),
        _ => panic!("expected Io"),
    }
}

#[test]
fn optional_client_auth_with_a_trust_anchor_builds() {
    let Identity { key, cert } = ecc_identity();
    let config = run(TlsConfigBuilder::new()
        .client_auth_optional(trust_anchor().as_bytes())
        .key(key.as_bytes())
        .cert(cert.as_bytes()))
    .unwrap();
    assert_eq!(config.alpn_protocols, h2_then_http11());
}

#[test]
fn required_client_auth_with_a_trust_anchor_builds() {
    let Identity { key, cert } = ecc_identity();
    let config = run(TlsConfigBuilder::new()
        .client_auth_required(trust_anchor().as_bytes())
        .key(key.as_bytes())
        .cert(cert.as_bytes()))
    .unwrap();
    assert_eq!(config.alpn_protocols, h2_then_http11());
}

#[test]
fn trust_anchor_source_without_a_certificate_is_a_parse_error() {
    let Identity { key, cert } = ecc_identity();
    match run(TlsConfigBuilder::new()
        .client_auth_optional(b"")
        .key(key.as_bytes())
        .cert(cert.as_bytes()))
    {
        Err(TlsConfigError::CertParseError) => {}
        _ => panic!("expected CertParseError"),
    }
}

#[test]
fn trust_anchor_that_is_no_certificate_is_a_parse_error() {
    let Identity { key, cert } = ecc_identity();
    let nonsense = section("CERTIFICATE", "AAAA");
    match run(TlsConfigBuilder::new()
        .client_auth_required(nonsense.as_bytes())
        .key(key.as_bytes())
        .cert(cert.as_bytes()))
    {
        Err(TlsConfigError::CertParseError) => {}
        _ => panic!("expected CertParseError"),
    }
}

#[test]
fn trust_anchor_source_with_broken_pem_is_an_io_error() {
    let Identity { key, cert } = ecc_identity();
    let broken = section("CERTIFICATE", "!!!!");
    match run(TlsConfigBuilder::new()
        .client_auth_required(broken.as_bytes())
        .key(key.as_bytes())
        .cert(cert.as_bytes()))
    {
        Err(TlsConfigError::Io(error)) => assert_eq!(error.kind(), ErrorKind::InvalidData),
        _ => panic!("expected Io"),
    }
}

#[test]
fn one_usable_trust_anchor_beside_an_unusable_one_is_enough() {
    let Identity { key, cert } = ecc_identity();
    let nonsense = section("CERTIFICATE", "AAAA");
    let mixed = format!("{nonsense}{}", trust_anchor());
    assert!(run(TlsConfigBuilder::new()
        .client_auth_required(mixed.as_bytes())
        .key(key.as_bytes())
        .cert(cert.as_bytes()))
    .is_ok());
}

#[test]
fn supplying_to_a_finished_build_changes_nothing() {
    let build = TlsConfigBuilder::new().build();
    assert!(matches!(build, Build::Finished(Err(TlsConfigError::CertParseError))));
    let build = build.supply(Ok(ecc_identity().cert.into_bytes()));
    assert!(matches!(build, Build::Finished(Err(TlsConfigError::CertParseError))));
}

#[test]
fn finish_hands_an_unfinished_build_back() {
    let build = TlsConfigBuilder::new().cert_path("examples/tls/cert.pem").build();
    match build.finish() {
        Err(build) => assert_eq!(build.awaits(), Some("examples/tls/cert.pem")),
        Ok(_) => panic!("the build has read no file yet"),
    }
}

#[test]
fn setters_replace_what_was_set_before() {
    let disk = ecc_disk();
    let cert = disk.read("examples/tls/cert.ecc.pem").unwrap();
    let builder = TlsConfigBuilder::new()
        .cert_path("first.pem")
        .cert(&cert)
        .key(b"first")
        .key_path("examples/tls/key.ecc")
        .client_auth_required(trust_anchor().as_bytes())
        .client_auth_off()
        .ocsp_resp(&[1, 2, 3])
        .ocsp_resp(&[4, 5]);
    assert_eq!(builder.ocsp_resp, vec![4u8, 5u8]);
    let mut asked = Vec::new();
    let config = drive(builder.build(), &disk, &mut asked).unwrap();
    assert_eq!(asked, vec!["examples/tls/key.ecc".to_string()]);
    assert_eq!(config.alpn_protocols, h2_then_http11());
}

#[test]
fn error_messages() {
    assert_eq!(TlsConfigError::CertParseError.to_string(), "certificate parse error");
    assert_eq!(
        TlsConfigError::UnknownPrivateKeyFormat.to_string(),
        "unknown private key format"
    );
    assert_eq!(
        TlsConfigError::MissingPrivateKey.to_string(),
        "Identity PEM is missing a private key such as RSA, ECC or PKCS8"
    );
    assert_eq!(TlsConfigError::InvalidIdentityPem.to_string(), "identity PEM is invalid");
    assert_eq!(TlsConfigError::EmptyKey.to_string(), "key contains no private key");
    assert_eq!(
        TlsConfigError::Io(IoError::new(ErrorKind::Other, "disk on fire")).to_string(),
        "disk on fire"
    );
}

#[test]
fn invalid_key_message_ends_with_the_reason_of_the_engine() {
    let cert = ecc_identity().cert;
    let nonsense = section("PRIVATE KEY", "AAAA");
    match run(TlsConfigBuilder::new().cert(cert.as_bytes()).key(nonsense.as_bytes())) {
        Err(error) => match &error {
            TlsConfigError::InvalidKey(reason) => assert_eq!(
                error.to_string(),
                format!("key contains an invalid key, {}", reason)
            ),
            _ => panic!("expected InvalidKey"),
        },
        Ok(_) => panic!("expected InvalidKey"),
    }
}
