//! The builder that collects what a TLS configuration is made of.

use crate::source::Source;
use crate::source::SourceView;
use vstd::prelude::*;

verus! {

/// TLS client authentication configuration.
pub enum TlsClientAuth {
    /// No client auth.
    Off,
    /// Allow any anonymous or authenticated client; the source holds the trust anchor.
    Optional(Source),
    /// Allow any authenticated client; the source holds the trust anchor.
    Required(Source),
}

/// A [`TlsClientAuth`] as a mathematical value.
pub enum TlsClientAuthView {
    Off,
    Optional(SourceView),
    Required(SourceView),
}

impl View for TlsClientAuth {
    type V = TlsClientAuthView;

    open spec fn view(&self) -> TlsClientAuthView {
        match self {
            TlsClientAuth::Off => TlsClientAuthView::Off,
            TlsClientAuth::Optional(source) => TlsClientAuthView::Optional(source@),
            TlsClientAuth::Required(source) => TlsClientAuthView::Required(source@),
        }
    }
}

/// Builder to set the configuration for the TLS server.
pub struct TlsConfigBuilder {
    pub cert: Source,
    pub key: Source,
    pub client_auth: TlsClientAuth,
    pub ocsp_resp: Vec<u8>,
}

/// A [`TlsConfigBuilder`] as a mathematical value.
pub struct TlsConfigBuilderView {
    pub cert: SourceView,
    pub key: SourceView,
    pub client_auth: TlsClientAuthView,
    pub ocsp_resp: Seq<u8>,
}

impl View for TlsConfigBuilder {
    type V = TlsConfigBuilderView;

    open spec fn view(&self) -> TlsConfigBuilderView {
        TlsConfigBuilderView {
            cert: self.cert@,
            key: self.key@,
            client_auth: self.client_auth@,
            ocsp_resp: self.ocsp_resp@,
        }
    }
}

impl TlsConfigBuilder {
    /// Create a new builder: no certificate, no key, no client authentication
    /// and no OCSP response.
    pub fn new() -> (builder: TlsConfigBuilder)
        ensures
            builder@ == (TlsConfigBuilderView {
                cert: SourceView::Memory(Seq::<u8>::empty()),
                key: SourceView::Memory(Seq::<u8>::empty()),
                client_auth: TlsClientAuthView::Off,
                ocsp_resp: Seq::<u8>::empty(),
            }),
    {
        TlsConfigBuilder {
            key: Source::empty(),
            cert: Source::empty(),
            client_auth: TlsClientAuth::Off,
            ocsp_resp: Vec::new(),
        }
    }

    /// Sets the TLS key via file path. The file is not opened here.
    pub fn key_path(self, path: &str) -> (builder: TlsConfigBuilder)
        ensures
            builder@ == (TlsConfigBuilderView { key: SourceView::File(path@), ..self@ }),
    {
        let mut builder = self;
        builder.key = Source::file(path);
        builder
    }

    /// Sets the TLS key via bytes slice.
    pub fn key(self, key: &[u8]) -> (builder: TlsConfigBuilder)
        ensures
            builder@ == (TlsConfigBuilderView { key: SourceView::Memory(key@), ..self@ }),
    {
        let mut builder = self;
        builder.key = Source::memory(key);
        builder
    }

    /// Specify the file path for the TLS certificate to use. The file is not
    /// opened here.
    pub fn cert_path(self, path: &str) -> (builder: TlsConfigBuilder)
        ensures
            builder@ == (TlsConfigBuilderView { cert: SourceView::File(path@), ..self@ }),
    {
        let mut builder = self;
        builder.cert = Source::file(path);
        builder
    }

    /// Sets the TLS certificate via bytes slice.
    pub fn cert(self, cert: &[u8]) -> (builder: TlsConfigBuilder)
        ensures
            builder@ == (TlsConfigBuilderView { cert: SourceView::Memory(cert@), ..self@ }),
    {
        let mut builder = self;
        builder.cert = Source::memory(cert);
        builder
    }

    /// Sets the trust anchor for optional TLS client authentication via file path.
    ///
    /// Anonymous and authenticated clients will be accepted. If no trust anchor is
    /// provided by any of the `client_auth_` methods, then client authentication is
    /// disabled by default.
    pub fn client_auth_optional_path(self, path: &str) -> (builder: TlsConfigBuilder)
        ensures
            builder@ == (TlsConfigBuilderView {
                client_auth: TlsClientAuthView::Optional(SourceView::File(path@)),
                ..self@
            }),
    {
        let mut builder = self;
        builder.client_auth = TlsClientAuth::Optional(Source::file(path));
        builder
    }

    /// Sets the trust anchor for optional TLS client authentication via bytes slice.
    ///
    /// Anonymous and authenticated clients will be accepted. If no trust anchor is
    /// provided by any of the `client_auth_` methods, then client authentication is
    /// disabled by default.
    pub fn client_auth_optional(self, trust_anchor: &[u8]) -> (builder: TlsConfigBuilder)
        ensures
            builder@ == (TlsConfigBuilderView {
                client_auth: TlsClientAuthView::Optional(SourceView::Memory(trust_anchor@)),
                ..self@
            }),
    {
        let mut builder = self;
        builder.client_auth = TlsClientAuth::Optional(Source::memory(trust_anchor));
        builder
    }

    /// Sets the trust anchor for required TLS client authentication via file path.
    ///
    /// Only authenticated clients will be accepted. If no trust anchor is provided
    /// by any of the `client_auth_` methods, then client authentication is disabled
    /// by default.
    pub fn client_auth_required_path(self, path: &str) -> (builder: TlsConfigBuilder)
        ensures
            builder@ == (TlsConfigBuilderView {
                client_auth: TlsClientAuthView::Required(SourceView::File(path@)),
                ..self@
            }),
    {
        let mut builder = self;
        builder.client_auth = TlsClientAuth::Required(Source::file(path));
        builder
    }

    /// Sets the trust anchor for required TLS client authentication via bytes slice.
    ///
    /// Only authenticated clients will be accepted. If no trust anchor is provided
    /// by any of the `client_auth_` methods, then client authentication is disabled
    /// by default.
    pub fn client_auth_required(self, trust_anchor: &[u8]) -> (builder: TlsConfigBuilder)
        ensures
            builder@ == (TlsConfigBuilderView {
                client_auth: TlsClientAuthView::Required(SourceView::Memory(trust_anchor@)),
                ..self@
            }),
    {
        let mut builder = self;
        builder.client_auth = TlsClientAuth::Required(Source::memory(trust_anchor));
        builder
    }

    /// Turns client authentication off, which is also the default.
    pub fn client_auth_off(self) -> (builder: TlsConfigBuilder)
        ensures
            builder@ == (TlsConfigBuilderView { client_auth: TlsClientAuthView::Off, ..self@ }),
    {
        let mut builder = self;
        builder.client_auth = TlsClientAuth::Off;
        builder
    }

    /// Sets the DER-encoded OCSP response.
    pub fn ocsp_resp(self, ocsp_resp: &[u8]) -> (builder: TlsConfigBuilder)
        ensures
            builder@ == (TlsConfigBuilderView { ocsp_resp: ocsp_resp@, ..self@ }),
    {
        let mut builder = self;
        builder.ocsp_resp = vstd::slice::slice_to_vec(ocsp_resp);
        builder
    }
}

} // verus!
