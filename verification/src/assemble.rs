//! Building the server configuration: one pass over certificate, private key
//! and trust anchor, which stops at the first failure.
//!
//! A build never opens a file itself. Where a credential is file-backed the
//! build stops and names the path; whoever drives it reads the file and hands
//! the content, or the failure, back with [`Build::supply`]. A later file is
//! asked for only when everything before it has been accepted.

use crate::config::TlsClientAuth;
use crate::config::TlsClientAuthView;
use crate::config::TlsConfigBuilder;
use crate::config::TlsConfigBuilderView;
use crate::engine::add_parsable_certificates;
use crate::engine::allow_unauthenticated;
use crate::engine::alpn_protocols;
use crate::engine::build_verifier;
use crate::engine::certificate_chain;
use crate::engine::demands_client_auth;
use crate::engine::empty_root_store;
use crate::engine::no_client_auth;
use crate::engine::ocsp_response;
use crate::engine::offers_client_auth;
use crate::engine::parse_certificates;
use crate::engine::parse_private_key;
use crate::engine::pem_certificates;
use crate::engine::pem_private_key;
use crate::engine::root_count;
use crate::engine::server_config;
use crate::engine::set_alpn_protocols;
use crate::engine::signing_key;
use crate::engine::trust_anchor_count;
use crate::engine::verifier_builder;
use crate::engine::verifier_demands_auth;
use crate::engine::verifier_offers_auth;
use crate::engine::ClientVerifier;
use crate::error::TlsConfigError;
use crate::source::Source;
use crate::source::SourceView;
use tokio_rustls::rustls::pki_types::PrivateKeyDer;
use tokio_rustls::rustls::Error as TlsError;
use tokio_rustls::rustls::RootCertStore;
use tokio_rustls::rustls::ServerConfig;
use vstd::prelude::*;

verus! {

/// What reading a credential gave: its bytes, or why it could not be read.
pub type Content = Result<Seq<u8>, std::io::Error>;

/// How a configuration treats a peer's certificate.
#[derive(Clone, Copy, Debug, PartialEq, Eq, Structural)]
pub enum ClientAuth {
    /// None is asked for.
    Off,
    /// One is asked for; a peer without one is let in.
    Optional,
    /// One is asked for; a peer without one is turned away.
    Required,
}

/// Where a build stands.
#[allow(inconsistent_fields)]
pub enum Stage {
    /// The certificate file must be read.
    AwaitCertificate {
        path: Seq<char>,
        key: SourceView,
        client_auth: TlsClientAuthView,
        ocsp_resp: Seq<u8>,
    },
    /// The chain is accepted; the private key file must be read.
    AwaitPrivateKey {
        path: Seq<char>,
        cert_chain: Seq<Seq<u8>>,
        client_auth: TlsClientAuthView,
        ocsp_resp: Seq<u8>,
    },
    /// Chain and key are accepted; the trust anchor file must be read.
    AwaitTrustAnchor {
        path: Seq<char>,
        cert_chain: Seq<Seq<u8>>,
        key: PrivateKeyDer<'static>,
        required: bool,
        ocsp_resp: Seq<u8>,
    },
    /// Every credential is accepted; the engine is handed these.
    Engine {
        cert_chain: Seq<Seq<u8>>,
        key: PrivateKeyDer<'static>,
        client_auth: ClientAuth,
        ocsp_resp: Seq<u8>,
    },
    /// The build has failed.
    Failed(TlsConfigError),
}

/// The protocols every configuration advertises: `h2`, then `http/1.1`.
pub open spec fn advertised_protocols() -> Seq<Seq<u8>> {
    seq![seq![0x68u8, 0x32u8], seq![0x68u8, 0x74u8, 0x74u8, 0x70u8, 0x2fu8, 0x31u8, 0x2eu8, 0x31u8]]
}

/// The certificate chain that a certificate source gives. A source that could
/// not be read fails with its I/O error; bytes that the PEM reader rejects, or
/// that hold no certificate, fail with `CertParseError`.
pub open spec fn certificate_verdict(content: Content) -> Result<Seq<Seq<u8>>, TlsConfigError> {
    match content {
        Err(cause) => Err(TlsConfigError::Io(cause)),
        Ok(pem) => match pem_certificates(pem) {
            Ok(chain) => if chain.len() > 0 {
                Ok(chain)
            } else {
                Err(TlsConfigError::CertParseError)
            },
            Err(_) => Err(TlsConfigError::CertParseError),
        },
    }
}

/// The private key that a key source gives. A source that could not be read,
/// and bytes that the PEM reader rejects, fail with the I/O error; bytes that
/// hold no private key fail with `MissingPrivateKey`.
pub open spec fn private_key_verdict(content: Content) -> Result<
    PrivateKeyDer<'static>,
    TlsConfigError,
> {
    match content {
        Err(cause) => Err(TlsConfigError::Io(cause)),
        Ok(pem) => match pem_private_key(pem) {
            Ok(Some(key)) => Ok(key),
            Ok(None) => Err(TlsConfigError::MissingPrivateKey),
            Err(cause) => Err(TlsConfigError::Io(cause)),
        },
    }
}

/// Whether a trust anchor source is accepted. A source that could not be read,
/// and bytes that the PEM reader rejects, fail with the I/O error; certificates
/// of which the engine can use none as a trust anchor fail with
/// `CertParseError`. Certificates it cannot use beside one that it can are
/// passed over in silence.
pub open spec fn trust_anchor_verdict(content: Content) -> Result<(), TlsConfigError> {
    match content {
        Err(cause) => Err(TlsConfigError::Io(cause)),
        Ok(pem) => match pem_certificates(pem) {
            Ok(anchors) => if trust_anchor_count(anchors) > 0 {
                Ok(())
            } else {
                Err(TlsConfigError::CertParseError)
            },
            Err(cause) => Err(TlsConfigError::Io(cause)),
        },
    }
}

/// Where a build stands once the trust anchor has been read.
pub open spec fn after_trust_anchor(
    cert_chain: Seq<Seq<u8>>,
    key: PrivateKeyDer<'static>,
    required: bool,
    content: Content,
    ocsp_resp: Seq<u8>,
) -> Stage {
    match trust_anchor_verdict(content) {
        Err(error) => Stage::Failed(error),
        Ok(_) => Stage::Engine {
            cert_chain,
            key,
            client_auth: if required {
                ClientAuth::Required
            } else {
                ClientAuth::Optional
            },
            ocsp_resp,
        },
    }
}

/// Where a build with an accepted chain and key goes for its trust anchor.
pub open spec fn seek_trust_anchor(
    cert_chain: Seq<Seq<u8>>,
    key: PrivateKeyDer<'static>,
    required: bool,
    source: SourceView,
    ocsp_resp: Seq<u8>,
) -> Stage {
    match source {
        SourceView::File(path) => Stage::AwaitTrustAnchor {
            path,
            cert_chain,
            key,
            required,
            ocsp_resp,
        },
        SourceView::Memory(pem) => after_trust_anchor(
            cert_chain,
            key,
            required,
            Ok(pem),
            ocsp_resp,
        ),
    }
}

/// Where a build stands once the private key has been read.
pub open spec fn after_private_key(
    cert_chain: Seq<Seq<u8>>,
    content: Content,
    client_auth: TlsClientAuthView,
    ocsp_resp: Seq<u8>,
) -> Stage {
    match private_key_verdict(content) {
        Err(error) => Stage::Failed(error),
        Ok(key) => match client_auth {
            TlsClientAuthView::Off => Stage::Engine {
                cert_chain,
                key,
                client_auth: ClientAuth::Off,
                ocsp_resp,
            },
            TlsClientAuthView::Optional(source) => seek_trust_anchor(
                cert_chain,
                key,
                false,
                source,
                ocsp_resp,
            ),
            TlsClientAuthView::Required(source) => seek_trust_anchor(
                cert_chain,
                key,
                true,
                source,
                ocsp_resp,
            ),
        },
    }
}

/// Where a build stands once the certificate has been read.
pub open spec fn after_certificate(
    content: Content,
    key: SourceView,
    client_auth: TlsClientAuthView,
    ocsp_resp: Seq<u8>,
) -> Stage {
    match certificate_verdict(content) {
        Err(error) => Stage::Failed(error),
        Ok(cert_chain) => match key {
            SourceView::File(path) => Stage::AwaitPrivateKey {
                path,
                cert_chain,
                client_auth,
                ocsp_resp,
            },
            SourceView::Memory(pem) => after_private_key(
                cert_chain,
                Ok(pem),
                client_auth,
                ocsp_resp,
            ),
        },
    }
}

/// Where the build of `builder` stands before any file has been read.
pub open spec fn start(builder: TlsConfigBuilderView) -> Stage {
    match builder.cert {
        SourceView::File(path) => Stage::AwaitCertificate {
            path,
            key: builder.key,
            client_auth: builder.client_auth,
            ocsp_resp: builder.ocsp_resp,
        },
        SourceView::Memory(pem) => after_certificate(
            Ok(pem),
            builder.key,
            builder.client_auth,
            builder.ocsp_resp,
        ),
    }
}

/// Where a build that awaits a file stands once `content` has come of reading
/// it. A build that awaits none stays where it is.
pub open spec fn advance(stage: Stage, content: Content) -> Stage {
    match stage {
        Stage::AwaitCertificate { path, key, client_auth, ocsp_resp } => after_certificate(
            content,
            key,
            client_auth,
            ocsp_resp,
        ),
        Stage::AwaitPrivateKey { path, cert_chain, client_auth, ocsp_resp } => after_private_key(
            cert_chain,
            content,
            client_auth,
            ocsp_resp,
        ),
        Stage::AwaitTrustAnchor {
            path,
            cert_chain,
            key,
            required,
            ocsp_resp,
        } => after_trust_anchor(cert_chain, key, required, content, ocsp_resp),
        Stage::Engine { .. } => stage,
        Stage::Failed(_) => stage,
    }
}

/// The source that stands for `source` once its file has been read and gave
/// `content`: the bytes are held in memory.
pub open spec fn in_memory(source: SourceView, content: Seq<u8>) -> SourceView {
    match source {
        SourceView::File(_) => SourceView::Memory(content),
        SourceView::Memory(_) => source,
    }
}

/// The builder that stands for `builder` once its files have been read:
/// `cert`, `key` and `anchor` are what the certificate, private key and trust
/// anchor files hold.
pub open spec fn loaded(
    builder: TlsConfigBuilderView,
    cert: Seq<u8>,
    key: Seq<u8>,
    anchor: Seq<u8>,
) -> TlsConfigBuilderView {
    TlsConfigBuilderView {
        cert: in_memory(builder.cert, cert),
        key: in_memory(builder.key, key),
        client_auth: match builder.client_auth {
            TlsClientAuthView::Off => TlsClientAuthView::Off,
            TlsClientAuthView::Optional(source) => TlsClientAuthView::Optional(
                in_memory(source, anchor),
            ),
            TlsClientAuthView::Required(source) => TlsClientAuthView::Required(
                in_memory(source, anchor),
            ),
        },
        ocsp_resp: builder.ocsp_resp,
    }
}

/// Where a build ends when every file it asks for can be read: `cert`, `key`
/// and `anchor` are what the certificate, private key and trust anchor files
/// hold.
pub open spec fn completed(stage: Stage, cert: Seq<u8>, key: Seq<u8>, anchor: Seq<u8>) -> Stage {
    let past_certificate = if stage is AwaitCertificate {
        advance(stage, Ok(cert))
    } else {
        stage
    };
    let past_private_key = if past_certificate is AwaitPrivateKey {
        advance(past_certificate, Ok(key))
    } else {
        past_certificate
    };
    if past_private_key is AwaitTrustAnchor {
        advance(past_private_key, Ok(anchor))
    } else {
        past_private_key
    }
}

/// What a builder's client authentication comes to in a configuration.
pub open spec fn client_auth_of(client_auth: TlsClientAuthView) -> ClientAuth {
    match client_auth {
        TlsClientAuthView::Off => ClientAuth::Off,
        TlsClientAuthView::Optional(_) => ClientAuth::Optional,
        TlsClientAuthView::Required(_) => ClientAuth::Required,
    }
}

/// It makes no difference where the bytes come from: a build whose
/// credentials are files, fed what those files hold, ends where the build ends
/// that holds the same bytes in memory. This holds in particular where
/// certificate and key are one and the same buffer.
pub proof fn lemma_source_agnostic(
    builder: TlsConfigBuilderView,
    cert: Seq<u8>,
    key: Seq<u8>,
    anchor: Seq<u8>,
)
    ensures
        completed(start(builder), cert, key, anchor) == start(loaded(builder, cert, key, anchor)),
        !(completed(start(builder), cert, key, anchor) is AwaitCertificate),
        !(completed(start(builder), cert, key, anchor) is AwaitPrivateKey),
        !(completed(start(builder), cert, key, anchor) is AwaitTrustAnchor),
{
}

/// A build stops at the first credential that is not accepted, be it
/// unreadable or unusable: it fails with that credential's error, and no later
/// file is asked for.
pub proof fn lemma_first_failure_ends_build(stage: Stage, content: Content)
    ensures
        stage is AwaitCertificate ==> (certificate_verdict(content) matches Err(error) ==> advance(
            stage,
            content,
        ) == Stage::Failed(error)),
        stage is AwaitPrivateKey ==> (private_key_verdict(content) matches Err(error) ==> advance(
            stage,
            content,
        ) == Stage::Failed(error)),
        stage is AwaitTrustAnchor ==> (trust_anchor_verdict(content) matches Err(error) ==> advance(
            stage,
            content,
        ) == Stage::Failed(error)),
{
}

/// Bytes in which the PEM reader finds an error, or no certificate at all,
/// fail the build with `CertParseError`, whatever the key is.
pub proof fn lemma_unparsable_certificate_fails(builder: TlsConfigBuilderView, pem: Seq<u8>)
    requires
        builder.cert == SourceView::Memory(pem),
        pem_certificates(pem) matches Ok(chain) ==> chain.len() == 0,
    ensures
        start(builder) == Stage::Failed(TlsConfigError::CertParseError),
{
}

/// With a certificate that is accepted, key bytes in which the PEM reader
/// finds no private key fail the build with `MissingPrivateKey`.
pub proof fn lemma_missing_private_key_fails(
    builder: TlsConfigBuilderView,
    cert: Seq<u8>,
    key: Seq<u8>,
)
    requires
        builder.cert == SourceView::Memory(cert),
        builder.key == SourceView::Memory(key),
        certificate_verdict(Ok(cert)) is Ok,
        pem_private_key(key) matches Ok(None),
    ensures
        start(builder) == Stage::Failed(TlsConfigError::MissingPrivateKey),
{
}

/// Without client authentication, a certificate source that holds a chain and
/// a key source that holds a key take the build to the engine, with exactly
/// that chain and key.
pub proof fn lemma_certificate_and_key_reach_engine(
    builder: TlsConfigBuilderView,
    cert: Seq<u8>,
    key: Seq<u8>,
    cert_chain: Seq<Seq<u8>>,
    private_key: PrivateKeyDer<'static>,
)
    requires
        builder.cert == SourceView::Memory(cert),
        builder.key == SourceView::Memory(key),
        builder.client_auth == TlsClientAuthView::Off,
        pem_certificates(cert) matches Ok(chain) && chain == cert_chain,
        cert_chain.len() > 0,
        pem_private_key(key) matches Ok(Some(found)) && found == private_key,
    ensures
        start(builder) == (Stage::Engine {
            cert_chain,
            key: private_key,
            client_auth: ClientAuth::Off,
            ocsp_resp: builder.ocsp_resp,
        }),
{
}

/// Every configuration that a build gives advertises `h2`, then `http/1.1`,
/// and nothing else.
pub proof fn lemma_configuration_advertises_protocols(
    build: Build,
    stage: Stage,
    config: ServerConfig,
)
    requires
        build.realizes(stage),
        build == Build::Finished(Ok(config)),
    ensures
        alpn_protocols(config) == advertised_protocols(),
        advertised_protocols().len() == 2,
        advertised_protocols()[0] == seq![0x68u8, 0x32u8],
        advertised_protocols()[1] == seq![
            0x68u8,
            0x74u8,
            0x74u8,
            0x70u8,
            0x2fu8,
            0x31u8,
            0x2eu8,
            0x31u8,
        ],
{
}

/// Whatever the files hold, a build that reaches the engine hands it the
/// client authentication and the OCSP response that the builder was given.
pub proof fn lemma_engine_gets_what_the_builder_holds(
    builder: TlsConfigBuilderView,
    cert: Seq<u8>,
    key: Seq<u8>,
    anchor: Seq<u8>,
)
    ensures
        completed(start(builder), cert, key, anchor) matches Stage::Engine {
            client_auth,
            ocsp_resp,
            ..
        } ==> client_auth == client_auth_of(builder.client_auth) && ocsp_resp
            == builder.ocsp_resp,
{
    lemma_source_agnostic(builder, cert, key, anchor);
}

/// A configuration that a build gives treats client certificates as the
/// builder said: with `Optional` it asks for one and lets a peer without one
/// in, with `Required` it asks for one and turns a peer without one away, and
/// with `Off` it asks for none.
pub proof fn lemma_configuration_keeps_client_auth(
    builder: TlsConfigBuilderView,
    cert: Seq<u8>,
    key: Seq<u8>,
    anchor: Seq<u8>,
    build: Build,
    config: ServerConfig,
)
    requires
        build.realizes(completed(start(builder), cert, key, anchor)),
        build == Build::Finished(Ok(config)),
    ensures
        offers_client_auth(config) == !(builder.client_auth is Off),
        demands_client_auth(config) == (builder.client_auth is Required),
{
    lemma_source_agnostic(builder, cert, key, anchor);
}

/// A configuration made of these parts: it presents the chain, signs with the
/// key, staples the OCSP response, treats client certificates as `client_auth`
/// says, and advertises [`advertised_protocols`].
pub open spec fn configured(
    config: ServerConfig,
    cert_chain: Seq<Seq<u8>>,
    key: PrivateKeyDer<'static>,
    client_auth: ClientAuth,
    ocsp_resp: Seq<u8>,
) -> bool {
    &&& certificate_chain(config) == cert_chain
    &&& signing_key(config) == key
    &&& ocsp_response(config) == ocsp_resp
    &&& offers_client_auth(config) == (client_auth != ClientAuth::Off)
    &&& demands_client_auth(config) == (client_auth == ClientAuth::Required)
    &&& alpn_protocols(config) == advertised_protocols()
}

/// The content of a file as the specifications see it.
pub open spec fn content_view(content: Result<Vec<u8>, std::io::Error>) -> Content {
    match content {
        Ok(bytes) => Ok(bytes@),
        Err(cause) => Err(cause),
    }
}

/// A build of the server configuration in progress.
#[allow(inconsistent_fields)]
pub enum Build {
    /// The certificate file must be read.
    Certificate { path: String, key: Source, client_auth: TlsClientAuth, ocsp_resp: Vec<u8> },
    /// The private key file must be read.
    PrivateKey {
        path: String,
        cert_chain: Vec<Vec<u8>>,
        client_auth: TlsClientAuth,
        ocsp_resp: Vec<u8>,
    },
    /// The trust anchor file must be read.
    TrustAnchor {
        path: String,
        cert_chain: Vec<Vec<u8>>,
        key: PrivateKeyDer<'static>,
        required: bool,
        ocsp_resp: Vec<u8>,
    },
    /// The build is over.
    Finished(Result<ServerConfig, TlsConfigError>),
}

impl Build {
    /// The stage of a build that awaits a file; none for a finished build.
    pub open spec fn awaited(self) -> Option<Stage> {
        match self {
            Build::Certificate { path, key, client_auth, ocsp_resp } => Some(
                Stage::AwaitCertificate {
                    path: path@,
                    key: key@,
                    client_auth: client_auth@,
                    ocsp_resp: ocsp_resp@,
                },
            ),
            Build::PrivateKey { path, cert_chain, client_auth, ocsp_resp } => Some(
                Stage::AwaitPrivateKey {
                    path: path@,
                    cert_chain: cert_chain.deep_view(),
                    client_auth: client_auth@,
                    ocsp_resp: ocsp_resp@,
                },
            ),
            Build::TrustAnchor { path, cert_chain, key, required, ocsp_resp } => Some(
                Stage::AwaitTrustAnchor {
                    path: path@,
                    cert_chain: cert_chain.deep_view(),
                    key,
                    required,
                    ocsp_resp: ocsp_resp@,
                },
            ),
            Build::Finished(_) => None,
        }
    }

    /// Whether this build stands at `stage`. A build that awaits a file stands
    /// at the stage that holds what it holds. A finished build stands at a
    /// failure if it carries that error. It stands at `Engine` if it carries
    /// what came of handing the engine those parts: a configuration made of
    /// them, or `InvalidKey` with the engine's reason for refusing them.
    pub open spec fn realizes(self, stage: Stage) -> bool {
        match self {
            Build::Finished(Ok(config)) => stage matches Stage::Engine {
                cert_chain,
                key,
                client_auth,
                ocsp_resp,
            } && configured(config, cert_chain, key, client_auth, ocsp_resp),
            Build::Finished(Err(error)) => match stage {
                Stage::Failed(expected) => error == expected,
                Stage::Engine { .. } => error is InvalidKey,
                _ => false,
            },
            _ => self.awaited() == Some(stage),
        }
    }

    /// The path of the file that must be read next; none once the build is over.
    pub open spec fn spec_awaits(self) -> Option<Seq<char>> {
        match self {
            Build::Certificate { path, .. } => Some(path@),
            Build::PrivateKey { path, .. } => Some(path@),
            Build::TrustAnchor { path, .. } => Some(path@),
            Build::Finished(_) => None,
        }
    }

    /// The path of the file that must be read next; none once the build is over.
    pub fn awaits(&self) -> (path: Option<&str>)
        ensures
            match path {
                Some(p) => self.spec_awaits() == Some(p@),
                None => self.spec_awaits() is None,
            },
    {
        match self {
            Build::Certificate { path, .. } => Some(path.as_str()),
            Build::PrivateKey { path, .. } => Some(path.as_str()),
            Build::TrustAnchor { path, .. } => Some(path.as_str()),
            Build::Finished(_) => None,
        }
    }

    /// Hands in what reading the awaited file gave, and goes on to the next
    /// file or to the end. On a finished build nothing changes.
    pub fn supply(self, content: Result<Vec<u8>, std::io::Error>) -> (next: Build)
        ensures
            self.awaited() is None ==> next == self,
            self.awaited() matches Some(stage) ==> next.realizes(
                advance(stage, content_view(content)),
            ),
    {
        match self {
            Build::Certificate { path, key, client_auth, ocsp_resp } => with_certificate(
                content,
                key,
                client_auth,
                ocsp_resp,
            ),
            Build::PrivateKey { path, cert_chain, client_auth, ocsp_resp } => with_private_key(
                cert_chain,
                content,
                client_auth,
                ocsp_resp,
            ),
            Build::TrustAnchor { path, cert_chain, key, required, ocsp_resp } => with_trust_anchor(
                cert_chain,
                key,
                required,
                content,
                ocsp_resp,
            ),
            Build::Finished(result) => Build::Finished(result),
        }
    }

    /// The result of a finished build; the build itself if it still awaits a file.
    pub fn finish(self) -> (r: Result<Result<ServerConfig, TlsConfigError>, Build>)
        ensures
            self matches Build::Finished(result) ==> (r matches Ok(got) && got == result),
            !(self is Finished) ==> (r matches Err(build) && build == self),
    {
        match self {
            Build::Finished(result) => Ok(result),
            other => Err(other),
        }
    }
}

impl TlsConfigBuilder {
    /// Starts the build and takes it as far as it goes without reading a file:
    /// to the end if every credential is held in memory.
    pub fn build(self) -> (build: Build)
        ensures
            build.realizes(start(self@)),
    {
        let TlsConfigBuilder { cert, key, client_auth, ocsp_resp } = self;
        match cert {
            Source::File(path) => Build::Certificate { path, key, client_auth, ocsp_resp },
            Source::Memory(pem) => with_certificate(Ok(pem), key, client_auth, ocsp_resp),
        }
    }
}

/// Reads the certificate chain out of what the certificate source gave.
pub fn read_certificate_chain(content: Result<Vec<u8>, std::io::Error>) -> (r: Result<
    Vec<Vec<u8>>,
    TlsConfigError,
>)
    ensures
        r matches Ok(chain) ==> (certificate_verdict(content_view(content)) matches Ok(expected)
            && expected == chain.deep_view()),
        r matches Err(error) ==> (certificate_verdict(content_view(content)) matches Err(expected)
            && expected == error),
{
    match content {
        Err(cause) => Err(TlsConfigError::Io(cause)),
        Ok(pem) => match parse_certificates(pem.as_slice()) {
            Ok(chain) => if chain.len() > 0 {
                Ok(chain)
            } else {
                Err(TlsConfigError::CertParseError)
            },
            Err(_) => Err(TlsConfigError::CertParseError),
        },
    }
}

/// Reads the private key out of what the key source gave.
pub fn read_private_key(content: Result<Vec<u8>, std::io::Error>) -> (r: Result<
    PrivateKeyDer<'static>,
    TlsConfigError,
>)
    ensures
        r == private_key_verdict(content_view(content)),
{
    match content {
        Err(cause) => Err(TlsConfigError::Io(cause)),
        Ok(pem) => match parse_private_key(pem.as_slice()) {
            Ok(Some(key)) => Ok(key),
            Ok(None) => Err(TlsConfigError::MissingPrivateKey),
            Err(cause) => Err(TlsConfigError::Io(cause)),
        },
    }
}

/// Reads the trust anchors out of what their source gave and collects those
/// that the engine can use in a root store.
pub fn read_trust_anchor(content: Result<Vec<u8>, std::io::Error>) -> (r: Result<
    RootCertStore,
    TlsConfigError,
>)
    ensures
        r matches Ok(store) ==> (content_view(content) matches Ok(pem) && pem_certificates(
            pem,
        ) matches Ok(anchors) && root_count(store) == trust_anchor_count(anchors) && root_count(
            store,
        ) > 0),
        r matches Err(error) ==> (trust_anchor_verdict(content_view(content)) matches Err(expected)
            && expected == error),
{
    match content {
        Err(cause) => Err(TlsConfigError::Io(cause)),
        Ok(pem) => match parse_certificates(pem.as_slice()) {
            Err(cause) => Err(TlsConfigError::Io(cause)),
            Ok(anchors) => {
                let mut store = empty_root_store();
                let (added, _skipped) = add_parsable_certificates(&mut store, anchors);
                if added == 0 {
                    Err(TlsConfigError::CertParseError)
                } else {
                    Ok(store)
                }
            },
        },
    }
}

/// The protocols to advertise, as the engine takes them.
pub fn protocols() -> (list: Vec<Vec<u8>>)
    ensures
        list.deep_view() == advertised_protocols(),
{
    let h2: Vec<u8> = vec![0x68u8, 0x32u8];
    let http11: Vec<u8> = vec![0x68u8, 0x74u8, 0x74u8, 0x70u8, 0x2fu8, 0x31u8, 0x2eu8, 0x31u8];
    let list: Vec<Vec<u8>> = vec![h2, http11];
    assert(list.deep_view() =~~= advertised_protocols());
    list
}

/// Ends a build on what the engine made of its parts: a configuration is set
/// to advertise [`advertised_protocols`], and a refusal is reported as
/// `InvalidKey` with the engine's reason.
pub fn conclude(engine: Result<ServerConfig, TlsError>) -> (r: Result<ServerConfig, TlsConfigError>)
    ensures
        match engine {
            Ok(made) => r matches Ok(config) && configured_like(config, made),
            Err(reason) => r matches Err(TlsConfigError::InvalidKey(cause)) && cause == reason,
        },
{
    match engine {
        Ok(made) => {
            let mut config = made;
            set_alpn_protocols(&mut config, protocols());
            Ok(config)
        },
        Err(reason) => Err(TlsConfigError::InvalidKey(reason)),
    }
}

/// `config` is `made` set to advertise [`advertised_protocols`].
pub open spec fn configured_like(config: ServerConfig, made: ServerConfig) -> bool {
    &&& certificate_chain(config) == certificate_chain(made)
    &&& signing_key(config) == signing_key(made)
    &&& ocsp_response(config) == ocsp_response(made)
    &&& offers_client_auth(config) == offers_client_auth(made)
    &&& demands_client_auth(config) == demands_client_auth(made)
    &&& alpn_protocols(config) == advertised_protocols()
}

/// Hands the accepted parts to the engine and ends the build.
fn assemble(
    verifier: ClientVerifier,
    cert_chain: Vec<Vec<u8>>,
    key: PrivateKeyDer<'static>,
    client_auth: ClientAuth,
    ocsp_resp: Vec<u8>,
) -> (build: Build)
    requires
        verifier_offers_auth(verifier) == (client_auth != ClientAuth::Off),
        verifier_demands_auth(verifier) == (client_auth == ClientAuth::Required),
    ensures
        build.realizes(
            Stage::Engine {
                cert_chain: cert_chain.deep_view(),
                key,
                client_auth,
                ocsp_resp: ocsp_resp@,
            },
        ),
{
    Build::Finished(conclude(server_config(verifier, cert_chain, key, ocsp_resp)))
}

/// Goes on from what the trust anchor source gave.
fn with_trust_anchor(
    cert_chain: Vec<Vec<u8>>,
    key: PrivateKeyDer<'static>,
    required: bool,
    content: Result<Vec<u8>, std::io::Error>,
    ocsp_resp: Vec<u8>,
) -> (build: Build)
    ensures
        build.realizes(
            after_trust_anchor(
                cert_chain.deep_view(),
                key,
                required,
                content_view(content),
                ocsp_resp@,
            ),
        ),
{
    match read_trust_anchor(content) {
        Err(error) => Build::Finished(Err(error)),
        Ok(store) => {
            let strict = verifier_builder(store);
            let builder = if required {
                strict
            } else {
                allow_unauthenticated(strict)
            };
            match build_verifier(builder) {
                Err(_) => Build::Finished(Err(TlsConfigError::CertParseError)),
                Ok(verifier) => assemble(
                    verifier,
                    cert_chain,
                    key,
                    if required {
                        ClientAuth::Required
                    } else {
                        ClientAuth::Optional
                    },
                    ocsp_resp,
                ),
            }
        },
    }
}

/// Goes to the trust anchor of a build with an accepted chain and key.
fn to_trust_anchor(
    cert_chain: Vec<Vec<u8>>,
    key: PrivateKeyDer<'static>,
    required: bool,
    source: Source,
    ocsp_resp: Vec<u8>,
) -> (build: Build)
    ensures
        build.realizes(
            seek_trust_anchor(cert_chain.deep_view(), key, required, source@, ocsp_resp@),
        ),
{
    match source {
        Source::File(path) => Build::TrustAnchor { path, cert_chain, key, required, ocsp_resp },
        Source::Memory(pem) => with_trust_anchor(cert_chain, key, required, Ok(pem), ocsp_resp),
    }
}

/// Goes on from what the private key source gave.
fn with_private_key(
    cert_chain: Vec<Vec<u8>>,
    content: Result<Vec<u8>, std::io::Error>,
    client_auth: TlsClientAuth,
    ocsp_resp: Vec<u8>,
) -> (build: Build)
    ensures
        build.realizes(
            after_private_key(
                cert_chain.deep_view(),
                content_view(content),
                client_auth@,
                ocsp_resp@,
            ),
        ),
{
    match read_private_key(content) {
        Err(error) => Build::Finished(Err(error)),
        Ok(key) => match client_auth {
            TlsClientAuth::Off => assemble(
                no_client_auth(),
                cert_chain,
                key,
                ClientAuth::Off,
                ocsp_resp,
            ),
            TlsClientAuth::Optional(source) => to_trust_anchor(
                cert_chain,
                key,
                false,
                source,
                ocsp_resp,
            ),
            TlsClientAuth::Required(source) => to_trust_anchor(
                cert_chain,
                key,
                true,
                source,
                ocsp_resp,
            ),
        },
    }
}

/// Goes on from what the certificate source gave.
fn with_certificate(
    content: Result<Vec<u8>, std::io::Error>,
    key: Source,
    client_auth: TlsClientAuth,
    ocsp_resp: Vec<u8>,
) -> (build: Build)
    ensures
        build.realizes(after_certificate(content_view(content), key@, client_auth@, ocsp_resp@)),
{
    match read_certificate_chain(content) {
        Err(error) => Build::Finished(Err(error)),
        Ok(cert_chain) => match key {
            Source::File(path) => Build::PrivateKey { path, cert_chain, client_auth, ocsp_resp },
            Source::Memory(pem) => with_private_key(cert_chain, Ok(pem), client_auth, ocsp_resp),
        },
    }
}

} // verus!
