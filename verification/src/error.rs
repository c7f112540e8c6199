//! Why a TLS configuration could not be built.

use tokio_rustls::rustls::Error as TlsError;
use vstd::prelude::*;
use vstd::string::to_string_from_display_ensures;
use vstd::string::StringExecFns;

verus! {

/// Represents errors that can occur building the TLS configuration.
#[derive(Debug)]
pub enum TlsConfigError {
    /// A credential source could not be read.
    Io(std::io::Error),
    /// An error parsing the certificate.
    CertParseError,
    /// Identity PEM is invalid.
    InvalidIdentityPem,
    /// Identity PEM is missing a private key such as RSA, ECC or PKCS8.
    MissingPrivateKey,
    /// Unknown private key format.
    UnknownPrivateKeyFormat,
    /// An error from an empty key.
    EmptyKey,
    /// An error from an invalid key.
    InvalidKey(TlsError),
}

impl TlsConfigError {
    /// Whether `text` is what this error reads as. For the two variants that
    /// wrap another error the text comes from that error's `Display`, which
    /// `to_string_from_display_ensures` stands for.
    pub open spec fn reads_as(self, text: String) -> bool {
        match self {
            TlsConfigError::Io(err) => to_string_from_display_ensures::<std::io::Error>(&err, text),
            TlsConfigError::CertParseError => text@ == "certificate parse error"@,
            TlsConfigError::UnknownPrivateKeyFormat => text@ == "unknown private key format"@,
            TlsConfigError::MissingPrivateKey => text@
                == "Identity PEM is missing a private key such as RSA, ECC or PKCS8"@,
            TlsConfigError::InvalidIdentityPem => text@ == "identity PEM is invalid"@,
            TlsConfigError::EmptyKey => text@ == "key contains no private key"@,
            TlsConfigError::InvalidKey(err) => exists|cause: String|
                #[trigger] to_string_from_display_ensures::<TlsError>(&err, cause) && text@
                    == "key contains an invalid key, "@ + cause@,
        }
    }

    /// The message of this error.
    pub fn to_string(&self) -> (text: String)
        ensures
            self.reads_as(text),
    {
        match self {
            TlsConfigError::Io(err) => err.to_string(),
            TlsConfigError::CertParseError => String::from_str("certificate parse error"),
            TlsConfigError::UnknownPrivateKeyFormat => String::from_str(
                "unknown private key format",
            ),
            TlsConfigError::MissingPrivateKey => String::from_str(
                "Identity PEM is missing a private key such as RSA, ECC or PKCS8",
            ),
            TlsConfigError::InvalidIdentityPem => String::from_str("identity PEM is invalid"),
            TlsConfigError::EmptyKey => String::from_str("key contains no private key"),
            TlsConfigError::InvalidKey(err) => {
                let cause = err.to_string();
                String::from_str("key contains an invalid key, ").concat(cause.as_str())
            },
        }
    }
}

} // verus!
