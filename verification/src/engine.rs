//! The boundary to the TLS engine and the PEM reader.
//!
//! Everything in this module is believed, not proved: each item stands for one
//! piece of `rustls` or `rustls_pemfile`, and its contract repeats what that
//! crate's source shows. The rest of the library is verified against these
//! contracts.

use std::sync::Arc;
use tokio_rustls::rustls::pki_types::CertificateDer;
use tokio_rustls::rustls::pki_types::PrivateKeyDer;
use tokio_rustls::rustls::server::danger::ClientCertVerifier;
use tokio_rustls::rustls::server::ClientCertVerifierBuilder;
use tokio_rustls::rustls::server::VerifierBuilderError;
use tokio_rustls::rustls::server::WebPkiClientVerifier;
use tokio_rustls::rustls::RootCertStore;
use tokio_rustls::rustls::ServerConfig;
use vstd::prelude::*;

verus! {

/// `rustls::ServerConfig`, carried through as an opaque value.
#[verifier::external_type_specification]
#[verifier::external_body]
pub struct ExServerConfig(ServerConfig);

/// `rustls::RootCertStore`, carried through as an opaque value.
#[verifier::external_type_specification]
#[verifier::external_body]
pub struct ExRootCertStore(RootCertStore);

/// `rustls::server::ClientCertVerifierBuilder`, carried through as an opaque value.
#[verifier::external_type_specification]
#[verifier::external_body]
pub struct ExClientCertVerifierBuilder(ClientCertVerifierBuilder);

/// `rustls::pki_types::PrivateKeyDer`, carried through as an opaque value.
#[verifier::external_type_specification]
#[verifier::external_body]
pub struct ExPrivateKeyDer<'a>(PrivateKeyDer<'a>);

/// `rustls::Error`, carried through as an opaque value.
#[verifier::external_type_specification]
#[verifier::external_body]
pub struct ExTlsError(tokio_rustls::rustls::Error);

/// `rustls::server::VerifierBuilderError`, carried through as an opaque value.
#[verifier::external_type_specification]
#[verifier::external_body]
pub struct ExVerifierBuilderError(VerifierBuilderError);

/// `std::io::Error`, carried through as an opaque value.
#[verifier::external_type_specification]
#[verifier::external_body]
pub struct ExIoError(std::io::Error);

/// `std::io::ErrorKind`, carried through as an opaque value.
#[verifier::external_type_specification]
#[verifier::external_body]
pub struct ExIoErrorKind(std::io::ErrorKind);

/// A client-certificate verifier of the engine.
///
/// The engine hands verifiers out as `Arc<dyn ClientCertVerifier>`, a trait
/// object, which cannot be declared as an opaque type; this struct holds one.
#[verifier::external_body]
pub struct ClientVerifier {
    inner: Arc<dyn ClientCertVerifier>,
}

/// What `rustls_pemfile::certs` yields on the bytes `pem`: the DER bytes of each
/// `CERTIFICATE` section in order, or the first error of the PEM reader.
pub uninterp spec fn pem_certificates(pem: Seq<u8>) -> Result<Seq<Seq<u8>>, std::io::Error>;

/// What `rustls_pemfile::private_key` yields on the bytes `pem`: the first
/// private key section, none, or the first error of the PEM reader.
pub uninterp spec fn pem_private_key(pem: Seq<u8>) -> Result<
    Option<PrivateKeyDer<'static>>,
    std::io::Error,
>;

/// How many of the DER certificates `certs` the engine can parse as trust anchors.
pub uninterp spec fn trust_anchor_count(certs: Seq<Seq<u8>>) -> nat;

/// The number of trust anchors in a root store.
pub uninterp spec fn root_count(store: RootCertStore) -> nat;

/// The number of trust anchors a verifier under construction was given.
pub uninterp spec fn builder_root_count(builder: ClientCertVerifierBuilder) -> nat;

/// The number of revocation lists a verifier under construction was given.
pub uninterp spec fn builder_revocation_lists(builder: ClientCertVerifierBuilder) -> nat;

/// Whether a verifier under construction admits peers without a certificate.
pub uninterp spec fn builder_admits_anonymous(builder: ClientCertVerifierBuilder) -> bool;

/// Whether a verifier asks the peer for a certificate
/// (`ClientCertVerifier::offer_client_auth`).
pub uninterp spec fn verifier_offers_auth(verifier: ClientVerifier) -> bool;

/// Whether a verifier turns away a peer without a certificate
/// (`ClientCertVerifier::client_auth_mandatory`).
pub uninterp spec fn verifier_demands_auth(verifier: ClientVerifier) -> bool;

/// Whether a configuration asks the peer for a certificate.
pub uninterp spec fn offers_client_auth(config: ServerConfig) -> bool;

/// Whether a configuration turns away a peer without a certificate.
pub uninterp spec fn demands_client_auth(config: ServerConfig) -> bool;

/// The certificate chain a configuration presents, as DER bytes.
pub uninterp spec fn certificate_chain(config: ServerConfig) -> Seq<Seq<u8>>;

/// The private key a configuration signs with.
pub uninterp spec fn signing_key(config: ServerConfig) -> PrivateKeyDer<'static>;

/// The OCSP response a configuration staples; empty where it staples none.
pub uninterp spec fn ocsp_response(config: ServerConfig) -> Seq<u8>;

/// The application protocols a configuration advertises, in order of preference
/// (the field `alpn_protocols`).
pub uninterp spec fn alpn_protocols(config: ServerConfig) -> Seq<Seq<u8>>;

/// The kind of an I/O error (`std::io::Error::kind`).
pub uninterp spec fn io_error_kind(error: std::io::Error) -> std::io::ErrorKind;

/// The message an I/O error was made with by `std::io::Error::new`; none for an
/// error that carries no such payload.
pub uninterp spec fn io_error_payload(error: std::io::Error) -> Option<Seq<char>>;

/// How a path reads in a message: `Debug` of `std::path::Path::display`.
pub uninterp spec fn quoted_path(path: Seq<char>) -> Seq<char>;

/// Calls `rustls_pemfile::certs` on `pem` and collects what it yields, each
/// certificate as its DER bytes. The result is the one named by
/// [`pem_certificates`]: the reader is a function of the bytes alone.
#[verifier::external_body]
pub(crate) fn parse_certificates(pem: &[u8]) -> (r: Result<Vec<Vec<u8>>, std::io::Error>)
    ensures
        r matches Ok(certs) ==> (pem_certificates(pem@) matches Ok(ders) && ders
            == certs.deep_view()),
        r matches Err(e) ==> (pem_certificates(pem@) matches Err(cause) && cause == e),
{
    let mut reader = pem;
    rustls_pemfile::certs(&mut reader).map(|item| item.map(|der| der.as_ref().to_vec())).collect()
}

/// Calls `rustls_pemfile::private_key` on `pem`. The result is the one named by
/// [`pem_private_key`].
#[verifier::external_body]
pub(crate) fn parse_private_key(pem: &[u8]) -> (r: Result<
    Option<PrivateKeyDer<'static>>,
    std::io::Error,
>)
    ensures
        r == pem_private_key(pem@),
{
    let mut reader = pem;
    rustls_pemfile::private_key(&mut reader)
}

/// Calls `RootCertStore::empty`: a store without trust anchors.
#[verifier::external_body]
pub(crate) fn empty_root_store() -> (store: RootCertStore)
    ensures
        root_count(store) == 0,
{
    RootCertStore::empty()
}

/// Calls `RootCertStore::add_parsable_certificates`. The source shows that
/// every certificate is either added or ignored, that the store grows by the
/// number added, and that this number depends on the certificates alone.
#[verifier::external_body]
pub(crate) fn add_parsable_certificates(store: &mut RootCertStore, certs: Vec<Vec<u8>>) -> (r: (
    usize,
    usize,
))
    ensures
        r.0 == trust_anchor_count(certs.deep_view()),
        r.0 + r.1 == certs.len(),
        root_count(*final(store)) == root_count(*old(store)) + r.0,
{
    store.add_parsable_certificates(certs.into_iter().map(CertificateDer::from))
}

/// Calls `WebPkiClientVerifier::builder` on the store behind a new `Arc`. The
/// builder starts with the store's anchors, no revocation lists, and the
/// policy that denies peers without a certificate.
#[verifier::external_body]
pub(crate) fn verifier_builder(roots: RootCertStore) -> (builder: ClientCertVerifierBuilder)
    ensures
        builder_root_count(builder) == root_count(roots),
        builder_revocation_lists(builder) == 0,
        !builder_admits_anonymous(builder),
{
    WebPkiClientVerifier::builder(Arc::new(roots))
}

/// Calls `ClientCertVerifierBuilder::allow_unauthenticated`, which changes the
/// policy for peers without a certificate and nothing else.
#[verifier::external_body]
pub(crate) fn allow_unauthenticated(builder: ClientCertVerifierBuilder) -> (r:
    ClientCertVerifierBuilder)
    ensures
        builder_root_count(r) == builder_root_count(builder),
        builder_revocation_lists(r) == builder_revocation_lists(builder),
        builder_admits_anonymous(r),
{
    builder.allow_unauthenticated()
}

/// Calls `ClientCertVerifierBuilder::build`. Without revocation lists, which
/// could fail to parse, it fails exactly when there is no trust anchor. The
/// verifier it gives offers client authentication, and demands it unless the
/// builder admits anonymous peers.
#[verifier::external_body]
pub(crate) fn build_verifier(builder: ClientCertVerifierBuilder) -> (r: Result<
    ClientVerifier,
    VerifierBuilderError,
>)
    requires
        builder_revocation_lists(builder) == 0,
    ensures
        r is Ok <==> builder_root_count(builder) > 0,
        r matches Ok(v) ==> verifier_offers_auth(v) && (verifier_demands_auth(v)
            <==> !builder_admits_anonymous(builder)),
{
    match builder.build() {
        Ok(inner) => Ok(ClientVerifier { inner }),
        Err(e) => Err(e),
    }
}

/// Calls `WebPkiClientVerifier::no_client_auth`: the verifier that offers no
/// client authentication, which `with_no_client_auth` installs.
#[verifier::external_body]
pub(crate) fn no_client_auth() -> (v: ClientVerifier)
    ensures
        !verifier_offers_auth(v),
        !verifier_demands_auth(v),
{
    ClientVerifier { inner: WebPkiClientVerifier::no_client_auth() }
}

/// Runs the engine's builder: `ServerConfig::builder`, then
/// `with_client_cert_verifier`, then `with_single_cert_with_ocsp`. Whether the
/// engine takes the key is for the engine to say: it loads the key with the
/// help of the system's random source, so nothing is promised of a failure. A
/// configuration that it gives holds the verifier, the chain, the key and the
/// OCSP response it was handed, and advertises no application protocol.
#[verifier::external_body]
pub(crate) fn server_config(
    verifier: ClientVerifier,
    cert_chain: Vec<Vec<u8>>,
    key: PrivateKeyDer<'static>,
    ocsp: Vec<u8>,
) -> (r: Result<ServerConfig, tokio_rustls::rustls::Error>)
    ensures
        r matches Ok(config) ==> {
            &&& offers_client_auth(config) == verifier_offers_auth(verifier)
            &&& demands_client_auth(config) == verifier_demands_auth(verifier)
            &&& certificate_chain(config) == cert_chain.deep_view()
            &&& signing_key(config) == key
            &&& ocsp_response(config) == ocsp@
            &&& alpn_protocols(config) == Seq::<Seq<u8>>::empty()
        },
{
    let chain = cert_chain.into_iter().map(CertificateDer::from).collect();
    ServerConfig::builder().with_client_cert_verifier(verifier.inner).with_single_cert_with_ocsp(
        chain,
        key,
        ocsp,
    )
}

/// Assigns the field `alpn_protocols` of a configuration and leaves the rest.
#[verifier::external_body]
pub(crate) fn set_alpn_protocols(config: &mut ServerConfig, protocols: Vec<Vec<u8>>)
    ensures
        alpn_protocols(*final(config)) == protocols.deep_view(),
        offers_client_auth(*final(config)) == offers_client_auth(*old(config)),
        demands_client_auth(*final(config)) == demands_client_auth(*old(config)),
        certificate_chain(*final(config)) == certificate_chain(*old(config)),
        signing_key(*final(config)) == signing_key(*old(config)),
        ocsp_response(*final(config)) == ocsp_response(*old(config)),
{
    config.alpn_protocols = protocols;
}

/// Calls `Arc::clone`: another handle to the same configuration.
#[verifier::external_body]
pub(crate) fn share_config(config: &Arc<ServerConfig>) -> (shared: Arc<ServerConfig>)
    ensures
        shared == *config,
{
    Arc::clone(config)
}

/// Calls `std::io::Error::kind`.
#[verifier::external_body]
pub(crate) fn kind_of(error: &std::io::Error) -> (kind: std::io::ErrorKind)
    ensures
        kind == io_error_kind(*error),
{
    error.kind()
}

/// Calls `std::io::Error::new` with a message as the payload. The new error is
/// of the kind given and contains the message.
#[verifier::external_body]
pub(crate) fn io_error(kind: std::io::ErrorKind, message: String) -> (error: std::io::Error)
    ensures
        io_error_kind(error) == kind,
        io_error_payload(error) == Some(message@),
{
    std::io::Error::new(kind, message)
}

/// Formats a path as `Debug` of `std::path::Path::display` does, in quotes and
/// with escapes.
#[verifier::external_body]
pub(crate) fn quote_path(path: &str) -> (r: String)
    ensures
        r@ == quoted_path(path@),
{
    format!("{:?}", std::path::Path::new(path).display())
}

} // verus!
