use vstd::prelude::*;

verus! {

/// Paths of the TLS material: certificate chain, private key and CA bundle,
/// each a PEM file. All three must be present together for TLS to be
/// attempted; a partial triple is a configuration error.
#[derive(Clone, Debug)]
pub struct SslConfig {
    pub cert: Option<String>,
    pub cert_key: Option<String>,
    pub cert_ca: Option<String>,
}

/// Mathematical model of [`SslConfig`]: each path as a character sequence.
pub struct SslConfigView {
    pub cert: Option<Seq<char>>,
    pub cert_key: Option<Seq<char>>,
    pub cert_ca: Option<Seq<char>>,
}

impl SslConfigView {
    /// All three pieces of TLS material are present.
    pub open spec fn is_complete(self) -> bool {
        self.cert is Some && self.cert_key is Some && self.cert_ca is Some
    }
}

impl View for SslConfig {
    type V = SslConfigView;

    open spec fn view(&self) -> SslConfigView {
        SslConfigView {
            cert: match self.cert {
                Some(ref s) => Some(s@),
                None => None,
            },
            cert_key: match self.cert_key {
                Some(ref s) => Some(s@),
                None => None,
            },
            cert_ca: match self.cert_ca {
                Some(ref s) => Some(s@),
                None => None,
            },
        }
    }
}

/// Model of an optional TLS bundle.
pub open spec fn ssl_view(s: Option<SslConfig>) -> Option<SslConfigView> {
    match s {
        Some(c) => Some(c@),
        None => None,
    }
}

/// The daemon's whole listen configuration: an ordered list of addresses,
/// plus one optional TLS bundle applied uniformly to every TCP listener.
#[derive(Clone, Debug)]
pub struct DaemonConfig {
    pub hosts: Vec<String>,
    pub ssl: Option<SslConfig>,
}

/// Mathematical model of [`DaemonConfig`].
pub struct DaemonConfigView {
    pub hosts: Seq<Seq<char>>,
    pub ssl: Option<SslConfigView>,
}

impl View for DaemonConfig {
    type V = DaemonConfigView;

    open spec fn view(&self) -> DaemonConfigView {
        DaemonConfigView {
            hosts: Seq::new(self.hosts@.len(), |i: int| self.hosts@[i]@),
            ssl: ssl_view(self.ssl),
        }
    }
}

/// Inner state captured once at startup; immutable afterwards.
#[derive(Clone)]
pub struct SystemStateInner {
    config: DaemonConfig,
}

impl View for SystemStateInner {
    type V = DaemonConfigView;

    closed spec fn view(&self) -> DaemonConfigView {
        self.config@
    }
}

impl SystemStateInner {
    pub fn new(config: DaemonConfig) -> (r: SystemStateInner)
        ensures
            r@ == config@,
    {
        SystemStateInner { config }
    }

    pub fn config(&self) -> (c: &DaemonConfig)
        ensures
            c@ == self@,
    {
        &self.config
    }
}

/// The state threaded through the daemon: today only the configuration.
#[derive(Clone)]
pub struct SystemState {
    inner: SystemStateInner,
}

impl View for SystemState {
    type V = DaemonConfigView;

    closed spec fn view(&self) -> DaemonConfigView {
        self.inner@
    }
}

impl SystemState {
    pub fn new(inner: SystemStateInner) -> (r: SystemState)
        ensures
            r@ == inner@,
    {
        SystemState { inner }
    }

    pub fn config(&self) -> (c: &DaemonConfig)
        ensures
            c@ == self@,
    {
        self.inner.config()
    }
}

} // verus!
