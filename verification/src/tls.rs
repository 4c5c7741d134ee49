//! What a server presents to its clients.

use crate::pem::{chain_view, KeyForm, PrivateKey, PrivateKeyView};
use rustls::pki_types::{CertificateDer, PrivateKeyDer};
use rustls::ServerConfig;
use std::sync::Arc;
use tokio_rustls::TlsAcceptor;
use vstd::prelude::*;

verus! {

/// A chain of certificates, leaf first, and the private key of the leaf.
pub struct TlsIdentity {
    pub chain: Vec<Vec<u8>>,
    pub key: PrivateKey,
}

/// The mathematical content of a [`TlsIdentity`].
pub struct TlsIdentityView {
    pub chain: Seq<Seq<u8>>,
    pub key: PrivateKeyView,
}

impl View for TlsIdentity {
    type V = TlsIdentityView;

    open spec fn view(&self) -> TlsIdentityView {
        TlsIdentityView { chain: chain_view(self.chain@), key: self.key@ }
    }
}

/// `rustls::ServerConfig`, seen only through [`config_identity`].
#[verifier::external_type_specification]
#[verifier::external_body]
pub struct ExServerConfig(ServerConfig);

/// `tokio_rustls::TlsAcceptor`, seen only through [`acceptor_identity`].
#[verifier::external_type_specification]
#[verifier::external_body]
pub struct ExTlsAcceptor(TlsAcceptor);

/// The chain and the key that `config` holds, which it uses for every connection.
pub uninterp spec fn config_identity(config: ServerConfig) -> TlsIdentityView;

/// The chain and the key that `acceptor` holds, which it uses for every connection.
pub uninterp spec fn acceptor_identity(acceptor: TlsAcceptor) -> TlsIdentityView;

/// `config` makes its server ask clients for a certificate.
pub uninterp spec fn config_asks_clients(config: ServerConfig) -> bool;

/// `acceptor` asks clients for a certificate.
pub uninterp spec fn acceptor_asks_clients(acceptor: TlsAcceptor) -> bool;

/// There is a crypto provider with which rustls refuses `identity` with `error`.
pub uninterp spec fn can_be_refused(identity: TlsIdentityView, error: rustls::Error) -> bool;

/// Calls `ServerConfig::builder`, `with_no_client_auth` and `with_single_cert`.
///
/// Trusted: a config that is built holds the chain and the key that were handed in and asks clients
/// for no certificate; an error is a refusal of that chain and key. Which of the two comes is left
/// open, as is the error: the crypto provider of the process decides whether it can load the key and
/// whether the key belongs to the leaf. The crate is built with the one provider that rustls
/// enables by default, so a process that installs no other has that one, and it supports the
/// protocol versions that the builder asks for.
#[verifier::external_body]
pub(crate) fn with_single_cert(identity: TlsIdentity) -> (config: Result<
    ServerConfig,
    rustls::Error,
>)
    ensures
        config matches Ok(config) ==> config_identity(config) == identity@,
        config matches Ok(config) ==> !config_asks_clients(config),
        config matches Err(error) ==> can_be_refused(identity@, error),
{
    let key = match identity.key.form {
        KeyForm::Pkcs1 => PrivateKeyDer::Pkcs1(identity.key.der.into()),
        KeyForm::Sec1 => PrivateKeyDer::Sec1(identity.key.der.into()),
        KeyForm::Pkcs8 => PrivateKeyDer::Pkcs8(identity.key.der.into()),
    };
    let chain = identity.chain.into_iter().map(CertificateDer::from).collect();
    ServerConfig::builder().with_no_client_auth().with_single_cert(chain, key)
}

/// Calls `TlsAcceptor::from`.
///
/// Trusted: the acceptor presents what the config holds, and asks clients for a certificate if the
/// config does.
#[verifier::external_body]
pub(crate) fn tls_acceptor(config: ServerConfig) -> (acceptor: TlsAcceptor)
    ensures
        acceptor_identity(acceptor) == config_identity(config),
        acceptor_asks_clients(acceptor) == config_asks_clients(config),
{
    TlsAcceptor::from(Arc::new(config))
}

/// `TlsAcceptor::clone`.
///
/// Trusted: the copy shares the config of the acceptor, so the two are the same to every caller.
pub assume_specification[ <TlsAcceptor as Clone>::clone ](acceptor: &TlsAcceptor) -> (copy:
    TlsAcceptor)
    ensures
        copy == *acceptor,
;

} // verus!
