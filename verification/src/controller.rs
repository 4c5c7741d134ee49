//! Turning cert-manager certificates into acceptors.
//!
//! Reconciling a certificate alternates between asking the cluster and deciding what to ask next.
//! The decisions are here: [`CertController::reconcile`] gives the first step, and each answer
//! leads to the next one.

use crate::accept::AcceptorWithExpiration;
use crate::expiration::{parse_from_str, parsed_date_time, Expiration, ParseErrorKind};
use crate::pem::{
    all_or_first_error, certificate_chain, certificate_sections, chain_result_view,
    first_private_key, from_pem_slice, key_view, PemError, PemErrorView, PrivateKey, PrivateKeyView,
};
use crate::secret::{Secret, SecretData};
use crate::tls::{
    acceptor_asks_clients, acceptor_identity, can_be_refused, config_asks_clients, config_identity,
    tls_acceptor, with_single_cert, TlsIdentity, TlsIdentityView,
};
use rustls::ServerConfig;
use tokio::sync::mpsc::error::SendError;
use vstd::prelude::*;

verus! {

/// Seconds after which a certificate is tried again when reconciling it has failed.
pub const RETRY_SECS: u64 = 30;

/// A cert-manager certificate, as far as it matters here.
pub struct Certificate {
    pub spec: CertificateSpec,
    pub status: Option<CertificateStatus>,
}

/// What is wanted of a certificate.
pub struct CertificateSpec {
    /// The secret in which cert-manager puts the certificate and its key.
    pub secret_name: String,
}

/// What cert-manager says of a certificate.
pub struct CertificateStatus {
    /// When the certificate in the secret expires.
    pub not_after: Option<String>,
}

/// What happened to a certificate.
pub enum Event {
    /// It was created or changed.
    Apply(Certificate),
    /// It is about to be deleted.
    Cleanup(Certificate),
}

/// When to look at a certificate again.
#[derive(Clone, Copy, Debug, PartialEq, Eq, Structural)]
pub enum Action {
    /// When it changes.
    AwaitChange,
    /// After some seconds, or when it changes.
    RequeueAfter { secs: u64 },
}

/// How reconciling a certificate under a finalizer can fail.
#[derive(Clone, Copy, Debug, PartialEq, Eq, Structural)]
pub enum FinalizerFailure {
    ApplyFailed,
    CleanupFailed,
    AddFinalizer,
    RemoveFinalizer,
    UnnamedObject,
    InvalidFinalizer,
}

/// Why a certificate could not be turned into an acceptor.
#[derive(Debug)]
pub enum ServerConfigError {
    /// The secret has no data.
    NoSecretData,
    /// The status does not say when the certificate expires.
    NoExpiration,
    /// The expiration is not a date and time.
    ExpirationParseError(ParseErrorKind),
    /// The certificate and the key do not make a server config.
    Rustls(rustls::Error),
    /// The certificate has no status.
    NoStatus,
    /// The cluster could not be asked.
    Kube(kube::Error),
    /// The secret, or an entry of it, is missing.
    DataNotFound,
    /// A base64 decoder was specified wrongly.
    Spec(data_encoding::SpecificationError),
    /// Data of the secret is not UTF-8.
    FromUTF8(std::string::FromUtf8Error),
    /// Nobody takes acceptors any more.
    Send(SendError<AcceptorWithExpiration>),
    /// The certificates or the key could not be decoded.
    Pem(PemError),
}

/// The mathematical content of a [`ServerConfigError`].
pub enum ServerConfigErrorView {
    NoSecretData,
    NoExpiration,
    ExpirationParseError(ParseErrorKind),
    Rustls(rustls::Error),
    NoStatus,
    Kube(kube::Error),
    DataNotFound,
    Spec(data_encoding::SpecificationError),
    FromUTF8(std::string::FromUtf8Error),
    Send(SendError<AcceptorWithExpiration>),
    Pem(PemErrorView),
}

impl View for ServerConfigError {
    type V = ServerConfigErrorView;

    open spec fn view(&self) -> ServerConfigErrorView {
        match *self {
            ServerConfigError::NoSecretData => ServerConfigErrorView::NoSecretData,
            ServerConfigError::NoExpiration => ServerConfigErrorView::NoExpiration,
            ServerConfigError::ExpirationParseError(
                kind,
            ) => ServerConfigErrorView::ExpirationParseError(kind),
            ServerConfigError::Rustls(error) => ServerConfigErrorView::Rustls(error),
            ServerConfigError::NoStatus => ServerConfigErrorView::NoStatus,
            ServerConfigError::Kube(error) => ServerConfigErrorView::Kube(error),
            ServerConfigError::DataNotFound => ServerConfigErrorView::DataNotFound,
            ServerConfigError::Spec(error) => ServerConfigErrorView::Spec(error),
            ServerConfigError::FromUTF8(error) => ServerConfigErrorView::FromUTF8(error),
            ServerConfigError::Send(error) => ServerConfigErrorView::Send(error),
            ServerConfigError::Pem(error) => ServerConfigErrorView::Pem(error@),
        }
    }
}

/// Why the controller stopped.
#[derive(Debug)]
pub enum CertControllerError {
    Kube(kube::Error),
    ServerConfig(ServerConfigError),
}

/// What to do next in reconciling a certificate.
pub enum ReconcileStep {
    /// Fetch the secret called `secret_name`; its certificate expires at `expiration`.
    FetchSecret { secret_name: String, expiration: Expiration },
    /// Hand the acceptor to the stream that upgrades connections.
    SendAcceptor(AcceptorWithExpiration),
    /// The certificate is reconciled, or cannot be.
    Finish(Result<Action, ServerConfigError>),
}

/// A result with the content of its error.
pub open spec fn result_view<T>(r: Result<T, ServerConfigError>) -> Result<
    T,
    ServerConfigErrorView,
> {
    match r {
        Ok(value) => Ok(value),
        Err(error) => Err(error@),
    }
}

/// When a certificate with this status expires: its `notAfter`, in the extended form of ISO 8601.
pub open spec fn status_expiration(status: CertificateStatus) -> Result<
    Expiration,
    ServerConfigErrorView,
> {
    match status.not_after {
        None => Err(ServerConfigErrorView::NoExpiration),
        Some(text) => expiration_or_error(parsed_date_time(text@, "%+"@)),
    }
}

/// An expiration that was parsed, or the error for one that was not.
pub open spec fn expiration_or_error(parsed: Result<Expiration, ParseErrorKind>) -> Result<
    Expiration,
    ServerConfigErrorView,
> {
    match parsed {
        Ok(expiration) => Ok(expiration),
        Err(kind) => Err(ServerConfigErrorView::ExpirationParseError(kind)),
    }
}

/// When `cert` expires.
pub open spec fn cert_expiration(cert: Certificate) -> Result<Expiration, ServerConfigErrorView> {
    match cert.status {
        None => Err(ServerConfigErrorView::NoStatus),
        Some(status) => status_expiration(status),
    }
}

/// A chain and a key that were decoded, or the error for the first that was not.
pub open spec fn identity_or_error(
    chain: Result<Seq<Seq<u8>>, PemErrorView>,
    key: Result<PrivateKeyView, PemErrorView>,
) -> Result<TlsIdentityView, ServerConfigErrorView> {
    match (chain, key) {
        (Err(error), _) => Err(ServerConfigErrorView::Pem(error)),
        (Ok(_), Err(error)) => Err(ServerConfigErrorView::Pem(error)),
        (Ok(chain), Ok(key)) => Ok(TlsIdentityView { chain, key }),
    }
}

/// The identity in the data of a secret: the chain under `tls.crt` and the key under `tls.key`.
pub open spec fn secret_identity(data: Map<Seq<char>, Seq<u8>>) -> Result<
    TlsIdentityView,
    ServerConfigErrorView,
> {
    if data.contains_key("tls.key"@) && data.contains_key("tls.crt"@) {
        identity_or_error(
            all_or_first_error(certificate_sections(data["tls.crt"@])),
            first_private_key(data["tls.key"@]),
        )
    } else {
        Err(ServerConfigErrorView::DataNotFound)
    }
}

/// `config` is what can come of data with this identity: a config that holds the identity and asks
/// clients for no certificate, or a refusal of the identity by the TLS library.
pub open spec fn config_for(
    identity: Result<TlsIdentityView, ServerConfigErrorView>,
    config: Result<ServerConfig, ServerConfigError>,
) -> bool {
    match identity {
        Err(error) => config matches Err(e) && e@ == error,
        Ok(identity) => match config {
            Ok(config) => config_identity(config) == identity && !config_asks_clients(config),
            Err(error) => error matches ServerConfigError::Rustls(e) && can_be_refused(identity, e),
        },
    }
}

/// The step that follows once it is known when a certificate expires, or that it is not.
pub open spec fn wants_secret(
    expiration: Result<Expiration, ServerConfigErrorView>,
    secret_name: Seq<char>,
    step: ReconcileStep,
) -> bool {
    match expiration {
        Err(error) => step matches ReconcileStep::Finish(Err(e)) && e@ == error,
        Ok(at) => step matches ReconcileStep::FetchSecret { secret_name: name, expiration }
            && name@ == secret_name && expiration == at,
    }
}

/// `step` is what follows once the cluster was asked for the secret of a certificate that expires
/// at `expiration`.
pub open spec fn follows_secret(
    expiration: Expiration,
    reply: Result<Option<Secret>, kube::Error>,
    step: ReconcileStep,
) -> bool {
    match reply {
        Err(error) => step == ReconcileStep::Finish(Err(ServerConfigError::Kube(error))),
        Ok(None) => step == ReconcileStep::Finish(Err(ServerConfigError::DataNotFound)),
        Ok(Some(secret)) => match secret.data {
            None => step == ReconcileStep::Finish(Err(ServerConfigError::NoSecretData)),
            Some(data) => match secret_identity(data@) {
                Err(error) => step matches ReconcileStep::Finish(Err(e)) && e@ == error,
                Ok(identity) => match step {
                    ReconcileStep::SendAcceptor(acceptor) => {
                        &&& acceptor.expiration == expiration
                        &&& acceptor_identity(acceptor.acceptor) == identity
                        &&& !acceptor_asks_clients(acceptor.acceptor)
                    },
                    ReconcileStep::Finish(Err(error)) => error matches ServerConfigError::Rustls(e)
                        && can_be_refused(identity, e),
                    _ => false,
                },
            },
        },
    }
}

/// Turns certificates into acceptors.
pub struct CertController();

impl CertController {
    /// The name of the finalizer under which certificates are reconciled.
    pub fn finalizer_name() -> (name: &'static str)
        ensures
            name@ == "challenge_server"@,
    {
        "challenge_server"
    }

    /// The first step in reconciling a certificate.
    pub fn reconcile(event: Event) -> (step: ReconcileStep)
        ensures
            match event {
                Event::Apply(cert) => wants_secret(
                    cert_expiration(cert),
                    cert.spec.secret_name@,
                    step,
                ),
                Event::Cleanup(_) => step == ReconcileStep::Finish(Ok(Action::AwaitChange)),
            },
    {
        match event {
            Event::Apply(cert) => Self::apply_cert(&cert),
            Event::Cleanup(cert) => ReconcileStep::Finish(Self::cleanup_cert(&cert)),
        }
    }

    /// Finds out when the certificate expires and asks for its secret.
    pub fn apply_cert(cert: &Certificate) -> (step: ReconcileStep)
        ensures
            wants_secret(cert_expiration(*cert), cert.spec.secret_name@, step),
    {
        let expiration = match &cert.status {
            None => Err(ServerConfigError::NoStatus),
            Some(status) => Self::try_parse_cert_expiration(status),
        };
        Self::request_secret(expiration, &cert.spec.secret_name)
    }

    /// Asks for the secret of a certificate of which it is known when it expires.
    pub fn request_secret(
        expiration: Result<Expiration, ServerConfigError>,
        secret_name: &String,
    ) -> (step: ReconcileStep)
        ensures
            wants_secret(result_view(expiration), secret_name@, step),
            expiration matches Err(error) ==> step == ReconcileStep::Finish(Err(error)),
    {
        match expiration {
            Err(error) => ReconcileStep::Finish(Err(error)),
            Ok(expiration) => ReconcileStep::FetchSecret {
                secret_name: secret_name.clone(),
                expiration,
            },
        }
    }

    /// Makes an acceptor of the secret that was fetched.
    pub fn apply_secret(
        expiration: Expiration,
        reply: Result<Option<Secret>, kube::Error>,
    ) -> (step: ReconcileStep)
        ensures
            follows_secret(expiration, reply, step),
    {
        let secret = match Self::get_secret(reply) {
            Err(error) => {
                return ReconcileStep::Finish(Err(error));
            },
            Ok(secret) => secret,
        };
        match secret.data {
            None => ReconcileStep::Finish(Err(ServerConfigError::NoSecretData)),
            Some(data) => Self::offer_acceptor(expiration, Self::build_server_config(data)),
        }
    }

    /// Wraps a config up as an acceptor to be sent.
    pub fn offer_acceptor(
        expiration: Expiration,
        config: Result<ServerConfig, ServerConfigError>,
    ) -> (step: ReconcileStep)
        ensures
            match config {
                Err(error) => step == ReconcileStep::Finish(Err(error)),
                Ok(config) => step matches ReconcileStep::SendAcceptor(acceptor)
                    && acceptor.expiration == expiration && acceptor_identity(acceptor.acceptor)
                    == config_identity(config) && acceptor_asks_clients(acceptor.acceptor)
                    == config_asks_clients(config),
            },
    {
        match config {
            Err(error) => ReconcileStep::Finish(Err(error)),
            Ok(config) => ReconcileStep::SendAcceptor(
                AcceptorWithExpiration { expiration, acceptor: tls_acceptor(config) },
            ),
        }
    }

    /// What reconciling ends with once the acceptor was sent, or could not be.
    pub fn acceptor_sent(reply: Result<(), SendError<AcceptorWithExpiration>>) -> (r: Result<
        Action,
        ServerConfigError,
    >)
        ensures
            match reply {
                Ok(()) => r == Ok::<Action, ServerConfigError>(Action::AwaitChange),
                Err(error) => r == Err::<Action, ServerConfigError>(ServerConfigError::Send(error)),
            },
    {
        match reply {
            Ok(()) => Ok(Action::AwaitChange),
            Err(error) => Err(ServerConfigError::Send(error)),
        }
    }

    /// Nothing is undone for a certificate that goes: presenting an expired certificate does no
    /// harm as long as a valid one replaces it soon.
    pub fn cleanup_cert(_cert: &Certificate) -> (r: Result<Action, ServerConfigError>)
        ensures
            r == Ok::<Action, ServerConfigError>(Action::AwaitChange),
    {
        Ok(Action::AwaitChange)
    }

    /// Whatever went wrong, the certificate is tried again.
    pub fn error_policy(_failure: FinalizerFailure) -> (action: Action)
        ensures
            action == (Action::RequeueAfter { secs: RETRY_SECS }),
    {
        Action::RequeueAfter { secs: RETRY_SECS }
    }

    /// The secret that the cluster gave.
    pub fn get_secret(reply: Result<Option<Secret>, kube::Error>) -> (r: Result<
        Secret,
        ServerConfigError,
    >)
        ensures
            match reply {
                Err(error) => r == Err::<Secret, ServerConfigError>(ServerConfigError::Kube(error)),
                Ok(None) => r == Err::<Secret, ServerConfigError>(ServerConfigError::DataNotFound),
                Ok(Some(secret)) => r == Ok::<Secret, ServerConfigError>(secret),
            },
    {
        match reply {
            Err(error) => Err(ServerConfigError::Kube(error)),
            Ok(None) => Err(ServerConfigError::DataNotFound),
            Ok(Some(secret)) => Ok(secret),
        }
    }

    /// When a certificate with this status expires.
    pub fn try_parse_cert_expiration(status: &CertificateStatus) -> (r: Result<
        Expiration,
        ServerConfigError,
    >)
        ensures
            result_view(r) == status_expiration(*status),
    {
        match &status.not_after {
            None => Err(ServerConfigError::NoExpiration),
            Some(text) => Self::parsed_expiration(parse_from_str(text.as_str(), "%+")),
        }
    }

    /// The expiration that was parsed.
    pub fn parsed_expiration(parsed: Result<Expiration, ParseErrorKind>) -> (r: Result<
        Expiration,
        ServerConfigError,
    >)
        ensures
            result_view(r) == expiration_or_error(parsed),
    {
        match parsed {
            Ok(expiration) => Ok(expiration),
            Err(kind) => Err(ServerConfigError::ExpirationParseError(kind)),
        }
    }

    /// Builds the config that presents the certificate in the data of a secret.
    pub fn build_server_config(secret_data: SecretData) -> (config: Result<
        ServerConfig,
        ServerConfigError,
    >)
        ensures
            config_for(secret_identity(secret_data@), config),
    {
        match Self::read_identity(secret_data) {
            Err(error) => Err(error),
            Ok(identity) => Self::built_config(with_single_cert(identity)),
        }
    }

    /// The config that the TLS library built.
    pub fn built_config(built: Result<ServerConfig, rustls::Error>) -> (config: Result<
        ServerConfig,
        ServerConfigError,
    >)
        ensures
            match built {
                Ok(built) => config == Ok::<ServerConfig, ServerConfigError>(built),
                Err(error) => config == Err::<ServerConfig, ServerConfigError>(
                    ServerConfigError::Rustls(error),
                ),
            },
    {
        match built {
            Ok(built) => Ok(built),
            Err(error) => Err(ServerConfigError::Rustls(error)),
        }
    }

    /// Reads the certificates and the key out of the data of a secret.
    pub fn read_identity(secret_data: SecretData) -> (identity: Result<
        TlsIdentity,
        ServerConfigError,
    >)
        ensures
            identity_view(identity) == secret_identity(secret_data@),
    {
        proof {
            reveal_strlit("tls.key");
            reveal_strlit("tls.crt");
            assert("tls.key"@[4] != "tls.crt"@[4]);
        }
        let mut secret_data = secret_data;
        let key_data = match secret_data.remove("tls.key") {
            None => {
                return Err(ServerConfigError::DataNotFound);
            },
            Some(data) => data,
        };
        let cert_data = match secret_data.remove("tls.crt") {
            None => {
                return Err(ServerConfigError::DataNotFound);
            },
            Some(data) => data,
        };
        Self::decoded_identity(certificate_chain(cert_data), from_pem_slice(key_data.as_slice()))
    }

    /// Puts together a chain and a key that were decoded.
    pub fn decoded_identity(
        chain: Result<Vec<Vec<u8>>, PemError>,
        key: Result<PrivateKey, PemError>,
    ) -> (identity: Result<TlsIdentity, ServerConfigError>)
        ensures
            identity_view(identity) == identity_or_error(chain_result_view(chain), key_view(key)),
            match (chain, key) {
                (Err(error), _) => identity == Err::<TlsIdentity, ServerConfigError>(
                    ServerConfigError::Pem(error),
                ),
                (Ok(_), Err(error)) => identity == Err::<TlsIdentity, ServerConfigError>(
                    ServerConfigError::Pem(error),
                ),
                (Ok(chain), Ok(key)) => identity == Ok::<TlsIdentity, ServerConfigError>(
                    TlsIdentity { chain, key },
                ),
            },
    {
        let chain = match chain {
            Err(error) => {
                return Err(ServerConfigError::Pem(error));
            },
            Ok(chain) => chain,
        };
        match key {
            Err(error) => Err(ServerConfigError::Pem(error)),
            Ok(key) => Ok(TlsIdentity { chain, key }),
        }
    }
}

/// The content of an identity that was read.
pub open spec fn identity_view(identity: Result<TlsIdentity, ServerConfigError>) -> Result<
    TlsIdentityView,
    ServerConfigErrorView,
> {
    match identity {
        Ok(identity) => Ok(identity@),
        Err(error) => Err(error@),
    }
}

/// The acceptor that comes of applying a certificate presents the chain and the key of the
/// certificate's own secret, asks clients for no certificate, and carries the expiration of the
/// certificate's own status.
pub proof fn applied_acceptor_is_that_of_the_certificate(
    cert: Certificate,
    secret: Secret,
    first: ReconcileStep,
    second: ReconcileStep,
)
    requires
        wants_secret(cert_expiration(cert), cert.spec.secret_name@, first),
        first is FetchSecret ==> follows_secret(
            first->FetchSecret_expiration,
            Ok(Some(secret)),
            second,
        ),
    ensures
        first matches ReconcileStep::FetchSecret { secret_name, .. } ==> secret_name@
            == cert.spec.secret_name@,
        (first is FetchSecret && second is SendAcceptor) ==> {
            &&& secret.data is Some
            &&& secret_identity(secret.data->Some_0@) == Ok::<
                TlsIdentityView,
                ServerConfigErrorView,
            >(acceptor_identity(second->SendAcceptor_0.acceptor))
            &&& !acceptor_asks_clients(second->SendAcceptor_0.acceptor)
            &&& cert_expiration(cert) == Ok::<Expiration, ServerConfigErrorView>(
                second->SendAcceptor_0.expiration,
            )
        },
{
}

/// A certificate of which it is not known when it expires is refused before the cluster is asked
/// for anything, and no acceptor is made of a secret without a readable identity.
pub proof fn unusable_certificates_make_no_acceptor(
    cert: Certificate,
    expiration: Expiration,
    secret: Secret,
    first: ReconcileStep,
    second: ReconcileStep,
)
    requires
        wants_secret(cert_expiration(cert), cert.spec.secret_name@, first),
        follows_secret(expiration, Ok(Some(secret)), second),
    ensures
        cert_expiration(cert) is Err ==> (first matches ReconcileStep::Finish(Err(error)) && error@
            == cert_expiration(cert)->Err_0),
        (secret.data is None || secret_identity(secret.data->Some_0@) is Err) ==> (
        second matches ReconcileStep::Finish(Err(_))),
{
}

/// Applying a certificate succeeds in no other way than by sending an acceptor: neither the
/// certificate nor the secret alone finishes it well.
pub proof fn applying_succeeds_only_by_sending(
    cert: Certificate,
    expiration: Expiration,
    reply: Result<Option<Secret>, kube::Error>,
    first: ReconcileStep,
    second: ReconcileStep,
)
    requires
        wants_secret(cert_expiration(cert), cert.spec.secret_name@, first),
        follows_secret(expiration, reply, second),
    ensures
        first matches ReconcileStep::Finish(r) ==> r is Err,
        second matches ReconcileStep::Finish(r) ==> r is Err,
{
}

} // verus!
