use cert_manager_https::controller::{
    Action, CertController, Certificate, CertificateSpec, CertificateStatus, Event,
    FinalizerFailure, ReconcileStep, ServerConfigError,
};
use cert_manager_https::expiration::{Expiration, ParseErrorKind};
use cert_manager_https::pem::{certificate_chain, KeyForm, PemError};
use cert_manager_https::secret::{Secret, SecretData};
use rustls::client::danger::{HandshakeSignatureValid, ServerCertVerified, ServerCertVerifier};
use rustls::client::ResolvesClientCert;
use rustls::pki_types::{CertificateDer, ServerName, UnixTime};
use rustls::sign::CertifiedKey;
use rustls::{
    ClientConfig, ClientConnection, DigitallySignedStruct, ServerConfig, ServerConnection,
    SignatureScheme,
};
use std::sync::Arc;
use tokio::sync::mpsc::error::SendError;

const CERT_ONE: &str = "\
MIIBizCCATGgAwIBAgIUJPmykTHtQjCWtPkmq5pque+vG2gwCgYIKoZIzj0EAwIw\n\
DjEMMAoGA1UEAwwDb25lMCAXDTI2MTExNDIzNDkxMloYDzIxMjYxMDIxMjM0OTEy\n\
WjAOMQwwCgYDVQQDDANvbmUwWTATBgcqhkjOPQIBBggqhkjOPQMBBwNCAARC0XRD\n\
T3NNmwHzD2A6Kdcw6iPoRfJBkgzBk7mYf9WsCJeOODimVvA1hIwgwUKntyTFctKx\n\
6zmelS/UmSDKRiwHo2swaTAdBgNVHQ4EFgQUD1eHcGEnkHjp4vTQ8TraISlxEbYw\n\
HwYDVR0jBBgwFoAUD1eHcGEnkHjp4vTQ8TraISlxEbYwDwYDVR0TAQH/BAUwAwEB\n\
/zAWBgNVHREEDzANggtvbmUuZXhhbXBsZTAKBggqhkjOPQQDAgNIADBFAiBpTbMz\n\
/SveluBTz83nxO68OeA1f0IE5g3mEw1o5NzD+AIhAPFMBp1qaaRDE9wSOalmS3rB\n\
UiW8QP5ZuxbcqB6yGVtJ\n\
";
const KEY_ONE: &str = "\
MIGHAgEAMBMGByqGSM49AgEGCCqGSM49AwEHBG0wawIBAQQg9urqrVuSm5/7CY2x\n\
8CK/GsknjmQVilaZJwTduKW/krKhRANCAARC0XRDT3NNmwHzD2A6Kdcw6iPoRfJB\n\
kgzBk7mYf9WsCJeOODimVvA1hIwgwUKntyTFctKx6zmelS/UmSDKRiwH\n\
";
const SEC1_KEY_ONE: &str = "\
MHcCAQEEIPbq6q1bkpuf+wmNsfAivxrJJ45kFYpWmScE3bilv5KyoAoGCCqGSM49\n\
AwEHoUQDQgAEQtF0Q09zTZsB8w9gOinXMOoj6EXyQZIMwZO5mH/VrAiXjjg4plbw\n\
NYSMIMFCp7ckxXLSses5npUv1JkgykYsBw==\n\
";
const CERT_TWO: &str = "\
MIIBijCCATGgAwIBAgIUHVMN/E5vBTgQRl+1p7CVgKF4e+4wCgYIKoZIzj0EAwIw\n\
DjEMMAoGA1UEAwwDdHdvMCAXDTI2MTExNDIzNDkxMloYDzIxMjYxMDIxMjM0OTEy\n\
WjAOMQwwCgYDVQQDDAN0d28wWTATBgcqhkjOPQIBBggqhkjOPQMBBwNCAAShvImO\n\
K0WhhZ8p5lOODcbjCuZ0FWrIySSCBo4zhO5EpCAheh9fhMU07XYtdGZ19MWhKudy\n\
ZLIfC+Lajnz6T9Iko2swaTAdBgNVHQ4EFgQU2rpY/vtCTFDZ/BnH8rp5gvXLNy8w\n\
HwYDVR0jBBgwFoAU2rpY/vtCTFDZ/BnH8rp5gvXLNy8wDwYDVR0TAQH/BAUwAwEB\n\
/zAWBgNVHREEDzANggt0d28uZXhhbXBsZTAKBggqhkjOPQQDAgNHADBEAiBMEiNp\n\
CgBV51qSZa+MwkeZnAJbCyhl/pQPjZIyxQs1pwIgczSE7JHhJ//Cd3dudaGzxkLx\n\
D5Lf30qWPGBEz3nOSKY=\n\
";
const KEY_TWO: &str = "\
MIGHAgEAMBMGByqGSM49AgEGCCqGSM49AwEHBG0wawIBAQQg23FPg/6D9y0OCTnM\n\
wAY7Mv/TFUK6m7TGbeTEe2rTdHKhRANCAAShvImOK0WhhZ8p5lOODcbjCuZ0FWrI\n\
ySSCBo4zhO5EpCAheh9fhMU07XYtdGZ19MWhKudyZLIfC+Lajnz6T9Ik\n\
";

fn section(label: &str, body: &str) -> String {
    format!("-----BEGIN {label}-----\n{body}-----END {label}-----\n")
}

fn certificate(body: &str) -> String {
    section("CERTIFICATE", body)
}

fn key(form: &str, body: &str) -> String {
    section(&format!("{form} KEY"), body)
}

fn text(bytes: &str) -> Vec<u8> {
    bytes.as_bytes().to_vec()
}

fn secret_data(entries: &[(&str, &str)]) -> SecretData {
    let mut data = SecretData::new();
    for (name, value) in entries {
        assert!(data.insert(name.to_string(), text(value)).is_none());
    }
    data
}

fn usable_data() -> SecretData {
    let crt = certificate(CERT_ONE) + &certificate(CERT_TWO);
    secret_data(&[("ca.crt", "unused"), ("tls.crt", &crt), ("tls.key", &key("PRIVATE", KEY_ONE))])
}

fn certificate_object(not_after: Option<&str>) -> Certificate {
    Certificate {
        spec: CertificateSpec { secret_name: "site-tls".to_string() },
        status: Some(CertificateStatus { not_after: not_after.map(|s| s.to_string()) }),
    }
}

fn status_with(not_after: &str) -> CertificateStatus {
    CertificateStatus { not_after: Some(not_after.to_string()) }
}

const MOMENT: Expiration = Expiration { secs: 1893553445, nanos: 0, offset_secs: 0 };

fn finished(step: ReconcileStep) -> Result<Action, ServerConfigError> {
    match step {
        ReconcileStep::Finish(result) => result,
        _ => panic!("not finished"),
    }
}

/// Accepts any certificate, but checks that the server holds its key, and reports the chain.
#[derive(Debug)]
struct KeyCheck;

impl ServerCertVerifier for KeyCheck {
    fn verify_server_cert(
        &self,
        _end_entity: &CertificateDer<'_>,
        _intermediates: &[CertificateDer<'_>],
        _server_name: &ServerName<'_>,
        _ocsp_response: &[u8],
        _now: UnixTime,
    ) -> Result<ServerCertVerified, rustls::Error> {
        Ok(ServerCertVerified::assertion())
    }

    fn verify_tls12_signature(
        &self,
        message: &[u8],
        cert: &CertificateDer<'_>,
        dss: &DigitallySignedStruct,
    ) -> Result<HandshakeSignatureValid, rustls::Error> {
        let algorithms = rustls::crypto::aws_lc_rs::default_provider().signature_verification_algorithms;
        rustls::crypto::verify_tls12_signature(message, cert, dss, &algorithms)
    }

    fn verify_tls13_signature(
        &self,
        message: &[u8],
        cert: &CertificateDer<'_>,
        dss: &DigitallySignedStruct,
    ) -> Result<HandshakeSignatureValid, rustls::Error> {
        let algorithms = rustls::crypto::aws_lc_rs::default_provider().signature_verification_algorithms;
        rustls::crypto::verify_tls13_signature(message, cert, dss, &algorithms)
    }

    fn supported_verify_schemes(&self) -> Vec<SignatureScheme> {
        rustls::crypto::aws_lc_rs::default_provider()
            .signature_verification_algorithms
            .supported_schemes()
    }
}

/// A client that has certificates, and whom no server may ask for one.
#[derive(Debug)]
struct NeverAsked;

impl ResolvesClientCert for NeverAsked {
    fn resolve(
        &self,
        _root_hint_subjects: &[&[u8]],
        _sigschemes: &[SignatureScheme],
    ) -> Option<Arc<CertifiedKey>> {
        panic!("asked for a certificate")
    }

    fn has_certs(&self) -> bool {
        true
    }
}

/// The chain that a server with this config shows to a client, in a handshake that succeeds.
fn presented_chain(config: Arc<ServerConfig>) -> Vec<Vec<u8>> {
    let client_config = ClientConfig::builder()
        .dangerous()
        .with_custom_certificate_verifier(Arc::new(KeyCheck))
        .with_client_cert_resolver(Arc::new(NeverAsked));
    let name = ServerName::try_from("one.example").unwrap();
    let mut client = ClientConnection::new(Arc::new(client_config), name).unwrap();
    let mut server = ServerConnection::new(config).unwrap();
    while client.is_handshaking() || server.is_handshaking() {
        let mut to_server: Vec<u8> = Vec::new();
        while client.wants_write() {
            client.write_tls(&mut to_server).unwrap();
        }
        let mut rest = to_server.as_slice();
        while !rest.is_empty() {
            server.read_tls(&mut rest).unwrap();
            server.process_new_packets().unwrap();
        }
        let mut to_client: Vec<u8> = Vec::new();
        while server.wants_write() {
            server.write_tls(&mut to_client).unwrap();
        }
        let mut rest = to_client.as_slice();
        while !rest.is_empty() {
            client.read_tls(&mut rest).unwrap();
            client.process_new_packets().unwrap();
        }
    }
    client.peer_certificates().unwrap().iter().map(|cert| cert.to_vec()).collect()
}

fn expected_chain() -> Vec<Vec<u8>> {
    let pem = certificate(CERT_ONE) + &certificate(CERT_TWO);
    certificate_chain(text(&pem)).unwrap()
}

#[test]
fn expiration_is_parsed_exactly() {
    let at = CertController::try_parse_cert_expiration(&status_with("2030-01-02T03:04:05Z")).unwrap();
    assert_eq!((at.secs, at.nanos, at.offset_secs), (1893553445, 0, 0));
}

#[test]
fn expiration_keeps_offset_and_fraction() {
    let status = status_with("2030-01-02T05:04:05.25+02:00");
    let at = CertController::try_parse_cert_expiration(&status).unwrap();
    assert_eq!((at.secs, at.nanos, at.offset_secs), (1893553445, 250_000_000, 7200));
}

#[test]
fn expiration_of_a_leap_second_counts_on() {
    let status = status_with("2016-12-31T23:59:60.5Z");
    let at = CertController::try_parse_cert_expiration(&status).unwrap();
    assert_eq!((at.secs, at.nanos), (1483228799, 1_500_000_000));
}

#[test]
fn missing_expiration_is_reported() {
    let status = CertificateStatus { not_after: None };
    let result = CertController::try_parse_cert_expiration(&status);
    assert!(matches!(result, Err(ServerConfigError::NoExpiration)));
}

fn parse_error(not_after: &str) -> ParseErrorKind {
    match CertController::try_parse_cert_expiration(&status_with(not_after)) {
        Err(ServerConfigError::ExpirationParseError(kind)) => kind,
        _ => panic!("parsed"),
    }
}

#[test]
fn malformed_expirations_are_told_apart() {
    assert_eq!(parse_error(""), ParseErrorKind::TooShort);
    assert_eq!(parse_error("tomorrow"), ParseErrorKind::Invalid);
    assert_eq!(parse_error("2030-13-02T03:04:05Z"), ParseErrorKind::OutOfRange);
    assert_eq!(parse_error("2030-01-02T03:04:05Z tail"), ParseErrorKind::TooLong);
}

#[test]
fn parsed_expiration_maps_each_outcome() {
    assert_eq!(CertController::parsed_expiration(Ok(MOMENT)).unwrap().secs, MOMENT.secs);
    assert!(matches!(
        CertController::parsed_expiration(Err(ParseErrorKind::Impossible)),
        Err(ServerConfigError::ExpirationParseError(ParseErrorKind::Impossible)),
    ));
}

#[test]
fn applying_asks_for_the_secret_of_the_certificate() {
    let cert = certificate_object(Some("2030-01-02T03:04:05Z"));
    match CertController::reconcile(Event::Apply(cert)) {
        ReconcileStep::FetchSecret { secret_name, expiration } => {
            assert_eq!(secret_name, "site-tls");
            assert_eq!(expiration.secs, 1893553445);
        }
        _ => panic!("no secret wanted"),
    }
}

#[test]
fn certificates_without_status_are_refused() {
    let cert = Certificate {
        spec: CertificateSpec { secret_name: "site-tls".to_string() },
        status: None,
    };
    let result = finished(CertController::reconcile(Event::Apply(cert)));
    assert!(matches!(result, Err(ServerConfigError::NoStatus)));
    let result = finished(CertController::apply_cert(&certificate_object(None)));
    assert!(matches!(result, Err(ServerConfigError::NoExpiration)));
}

#[test]
fn cleanup_only_waits_for_changes() {
    let step = CertController::reconcile(Event::Cleanup(certificate_object(None)));
    assert_eq!(finished(step).unwrap(), Action::AwaitChange);
}

#[test]
fn every_failure_is_retried_after_thirty_seconds() {
    let failures = [
        FinalizerFailure::ApplyFailed,
        FinalizerFailure::CleanupFailed,
        FinalizerFailure::AddFinalizer,
        FinalizerFailure::RemoveFinalizer,
        FinalizerFailure::UnnamedObject,
        FinalizerFailure::InvalidFinalizer,
    ];
    for failure in failures {
        assert_eq!(CertController::error_policy(failure), Action::RequeueAfter { secs: 30 });
    }
    assert_eq!(CertController::finalizer_name(), "challenge_server");
}

#[test]
fn missing_secrets_and_data_are_told_apart() {
    let error = kube::Error::LinesCodecMaxLineLengthExceeded;
    let result = finished(CertController::apply_secret(MOMENT, Err(error)));
    assert!(matches!(
        result,
        Err(ServerConfigError::Kube(kube::Error::LinesCodecMaxLineLengthExceeded))
    ));
    let result = finished(CertController::apply_secret(MOMENT, Ok(None)));
    assert!(matches!(result, Err(ServerConfigError::DataNotFound)));
    let result = finished(CertController::apply_secret(MOMENT, Ok(Some(Secret { data: None }))));
    assert!(matches!(result, Err(ServerConfigError::NoSecretData)));
}

#[test]
fn missing_entries_are_reported() {
    let without_key = secret_data(&[("tls.crt", &certificate(CERT_ONE))]);
    let result = CertController::build_server_config(without_key);
    assert!(matches!(result, Err(ServerConfigError::DataNotFound)));
    let without_crt = secret_data(&[("tls.key", &key("PRIVATE", KEY_ONE))]);
    let result = CertController::build_server_config(without_crt);
    assert!(matches!(result, Err(ServerConfigError::DataNotFound)));
}

#[test]
fn undecodable_entries_are_reported_chain_first() {
    let data = secret_data(&[("tls.crt", "-----BEGIN CERTIFICATE--\n"), ("tls.key", "")]);
    match CertController::build_server_config(data) {
        Err(ServerConfigError::Pem(PemError::IllegalSectionStart { line })) => {
            assert_eq!(line, text("-----BEGIN CERTIFICATE--\n"));
        }
        _ => panic!("decoded"),
    }
    let data = secret_data(&[("tls.crt", &certificate(CERT_ONE)), ("tls.key", "")]);
    let result = CertController::build_server_config(data);
    assert!(matches!(result, Err(ServerConfigError::Pem(PemError::NoItemsFound))));
}

#[test]
fn a_key_of_another_certificate_is_refused() {
    let other_key = key("PRIVATE", KEY_TWO);
    let data = secret_data(&[("tls.crt", &certificate(CERT_ONE)), ("tls.key", &other_key)]);
    let result = CertController::build_server_config(data);
    assert!(matches!(result, Err(ServerConfigError::Rustls(_))));
    let result = CertController::built_config(Err(rustls::Error::DecryptError));
    assert!(matches!(result, Err(ServerConfigError::Rustls(rustls::Error::DecryptError))));
}

#[test]
fn the_identity_of_a_secret_is_read() {
    let identity = CertController::read_identity(usable_data()).unwrap();
    assert_eq!(identity.chain, expected_chain());
    assert_eq!(identity.key.form, KeyForm::Pkcs8);
    let decoded = CertController::decoded_identity(
        Err(PemError::SectionTooLarge),
        Err(PemError::NoItemsFound),
    );
    assert!(matches!(decoded, Err(ServerConfigError::Pem(PemError::SectionTooLarge))));
}

#[test]
fn the_config_presents_the_chain_with_its_key() {
    let config = CertController::build_server_config(usable_data()).unwrap();
    assert_eq!(presented_chain(Arc::new(config)), expected_chain());
}

#[test]
fn a_sec1_key_serves_as_well() {
    let sec1 = key("EC PRIVATE", SEC1_KEY_ONE);
    let data = secret_data(&[("tls.crt", &certificate(CERT_ONE)), ("tls.key", &sec1)]);
    let config = CertController::build_server_config(data).unwrap();
    assert_eq!(presented_chain(Arc::new(config)), expected_chain()[..1].to_vec());
}

#[test]
fn the_applied_acceptor_is_that_of_the_certificate() {
    let secret = Secret { data: Some(usable_data()) };
    match CertController::apply_secret(MOMENT, Ok(Some(secret))) {
        ReconcileStep::SendAcceptor(acceptor) => {
            assert_eq!(acceptor.expiration.secs, MOMENT.secs);
            assert_eq!(presented_chain(acceptor.acceptor.config().clone()), expected_chain());
        }
        _ => panic!("no acceptor"),
    }
}

#[test]
fn sending_decides_how_applying_ends() {
    assert_eq!(CertController::acceptor_sent(Ok(())).unwrap(), Action::AwaitChange);
    let secret = Secret { data: Some(usable_data()) };
    let acceptor = match CertController::apply_secret(MOMENT, Ok(Some(secret))) {
        ReconcileStep::SendAcceptor(acceptor) => acceptor,
        _ => panic!("no acceptor"),
    };
    match CertController::acceptor_sent(Err(SendError(acceptor))) {
        Err(ServerConfigError::Send(SendError(back))) => {
            assert_eq!(back.expiration.secs, MOMENT.secs);
        }
        _ => panic!("sent"),
    }
}
