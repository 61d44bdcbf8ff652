use vstd::prelude::*;
use vstd::string::*;

verus! {

/// A configuration mistake found while classifying listen addresses.
#[derive(Clone, Copy, Debug, PartialEq, Eq, Structural)]
pub enum ConfigError {
    /// The address carries a scheme other than `tcp://` or `unix://`.
    UnsupportedScheme,
    /// TLS was requested, but certificate, key and CA are not all present.
    IncompleteTlsMaterial,
    /// The configuration lists no address to listen on.
    NoListenAddress,
}

/// The broad category an error belongs to.
#[derive(Clone, Copy, Debug, PartialEq, Eq, Structural)]
pub enum ErrorKind {
    Configuration,
    Io,
    TlsSetup,
}

/// The first failure met while binding. Every such failure is fatal to the
/// whole startup: no partial set of listeners is ever kept.
#[derive(Debug, PartialEq)]
pub enum BindError {
    /// The configuration itself is invalid.
    Configuration(ConfigError),
    /// A socket could not be bound, or a TLS file could not be read.
    Io(String),
    /// The TLS acceptor could not be constructed from the given material.
    TlsSetup(String),
}

impl BindError {
    /// The category of this error.
    pub open spec fn kind_spec(&self) -> ErrorKind {
        match *self {
            BindError::Configuration(_) => ErrorKind::Configuration,
            BindError::Io(_) => ErrorKind::Io,
            BindError::TlsSetup(_) => ErrorKind::TlsSetup,
        }
    }

    pub fn kind(&self) -> (k: ErrorKind)
        ensures
            k == self.kind_spec(),
    {
        match self {
            BindError::Configuration(_) => ErrorKind::Configuration,
            BindError::Io(_) => ErrorKind::Io,
            BindError::TlsSetup(_) => ErrorKind::TlsSetup,
        }
    }

    /// The human-readable description of this error.
    pub open spec fn message_spec(&self) -> Seq<char> {
        match *self {
            BindError::Configuration(ConfigError::UnsupportedScheme) => (
                "invalid protocol [tcp:// | unix://] allowed"@
            ),
            BindError::Configuration(ConfigError::IncompleteTlsMaterial) => (
                "incomplete TLS material: certificate, key and CA must be set together"@
            ),
            BindError::Configuration(ConfigError::NoListenAddress) => (
                "at least one listen address required"@
            ),
            BindError::Io(ref m) => m@,
            BindError::TlsSetup(ref m) => m@,
        }
    }

    pub fn message(&self) -> (m: String)
        ensures
            m@ == self.message_spec(),
    {
        match self {
            BindError::Configuration(ConfigError::UnsupportedScheme) => String::from_str(
                "invalid protocol [tcp:// | unix://] allowed",
            ),
            BindError::Configuration(ConfigError::IncompleteTlsMaterial) => String::from_str(
                "incomplete TLS material: certificate, key and CA must be set together",
            ),
            BindError::Configuration(ConfigError::NoListenAddress) => String::from_str(
                "at least one listen address required",
            ),
            BindError::Io(m) => m.clone(),
            BindError::TlsSetup(m) => m.clone(),
        }
    }
}

} // verus!
