use vstd::prelude::*;

use crate::address::{is_prefix_of, parse_spec, tcp_scheme, unix_scheme, ListenAddress,
    ListenAddressView};
use crate::config::{ssl_view, DaemonConfig, DaemonConfigView, SslConfig, SslConfigView,
    SystemState};
use crate::error::{BindError, ConfigError};

verus! {

/// One bind action of the plan, in the order the configuration gives.
#[derive(Clone, Debug, PartialEq)]
pub enum BindStep {
    /// Bind a Unix domain socket at `path`.
    Uds { path: String },
    /// Bind a plaintext TCP listener at `addr`.
    TcpPlain { addr: String },
    /// Bind a TCP listener wrapped in mutual TLS built from the three
    /// PEM files.
    TcpTls { addr: String, cert: String, cert_key: String, cert_ca: String },
}

/// Mathematical model of [`BindStep`].
pub enum BindStepView {
    Uds { path: Seq<char> },
    TcpPlain { addr: Seq<char> },
    TcpTls { addr: Seq<char>, cert: Seq<char>, cert_key: Seq<char>, cert_ca: Seq<char> },
}

impl View for BindStep {
    type V = BindStepView;

    open spec fn view(&self) -> BindStepView {
        match *self {
            BindStep::Uds { ref path } => BindStepView::Uds { path: path@ },
            BindStep::TcpPlain { ref addr } => BindStepView::TcpPlain { addr: addr@ },
            BindStep::TcpTls { ref addr, ref cert, ref cert_key, ref cert_ca } => (
                BindStepView::TcpTls {
                    addr: addr@,
                    cert: cert@,
                    cert_key: cert_key@,
                    cert_ca: cert_ca@,
                }
            ),
        }
    }
}

/// The models of a sequence of bind steps.
pub open spec fn step_views(s: Seq<BindStep>) -> Seq<BindStepView> {
    Seq::new(s.len(), |i: int| s[i]@)
}

/// What classifying one address under the configured TLS bundle must
/// yield: a Unix socket bind for `unix://`, a mutual-TLS bind for `tcp://`
/// when a complete bundle is configured, a plaintext bind for `tcp://`
/// without one, and an error for an unknown scheme or a partial bundle.
pub open spec fn step_spec(host: Seq<char>, ssl: Option<SslConfigView>) -> Result<
    BindStepView,
    ConfigError,
> {
    match parse_spec(host) {
        Ok(ListenAddressView::Unix { path }) => Ok(BindStepView::Uds { path }),
        Ok(ListenAddressView::Tcp { addr }) => match ssl {
            Some(m) => match (m.cert, m.cert_key, m.cert_ca) {
                (Some(cert), Some(cert_key), Some(cert_ca)) => Ok(
                    BindStepView::TcpTls { addr, cert, cert_key, cert_ca },
                ),
                _ => Err(ConfigError::IncompleteTlsMaterial),
            },
            None => Ok(BindStepView::TcpPlain { addr }),
        },
        Err(e) => Err(e),
    }
}

/// Classifies one address, as [`step_spec`] describes.
pub fn classify_step(host: &str, ssl: &Option<SslConfig>) -> (r: Result<BindStep, BindError>)
    ensures
        (match r {
            Ok(s) => step_spec(host@, ssl_view(*ssl)) is Ok && s@ == step_spec(
                host@,
                ssl_view(*ssl),
            )->Ok_0,
            Err(e) => step_spec(host@, ssl_view(*ssl)) is Err && e == BindError::Configuration(
                step_spec(host@, ssl_view(*ssl))->Err_0,
            ),
        }),
{
    let parsed = match ListenAddress::parse(host) {
        Ok(a) => a,
        Err(e) => {
            return Err(e);
        },
    };
    match parsed {
        ListenAddress::Unix { path } => Ok(BindStep::Uds { path }),
        ListenAddress::Tcp { addr } => match ssl {
            Some(m) => match (&m.cert, &m.cert_key, &m.cert_ca) {
                (Some(cert), Some(cert_key), Some(cert_ca)) => Ok(
                    BindStep::TcpTls {
                        addr,
                        cert: cert.clone(),
                        cert_key: cert_key.clone(),
                        cert_ca: cert_ca.clone(),
                    },
                ),
                _ => Err(BindError::Configuration(ConfigError::IncompleteTlsMaterial)),
            },
            None => Ok(BindStep::TcpPlain { addr }),
        },
    }
}

/// The full plan: every bind action, in input order, and the worker
/// concurrency the server is to run with.
#[derive(Debug)]
pub struct BindPlan {
    pub steps: Vec<BindStep>,
    pub workers: usize,
}

/// Classifies every address of the configuration, in order, into a bind
/// plan with the given worker count. The first invalid address fails the
/// whole plan — nothing after it is classified — and an empty address list
/// is itself a configuration error.
pub fn build_plan(config: &DaemonConfig, workers: usize) -> (r: Result<BindPlan, BindError>)
    ensures
        (match r {
            Ok(plan) => {
                &&& config@.hosts.len() > 0
                &&& plan.steps@.len() == config@.hosts.len()
                &&& forall|i: int|
                    0 <= i < config@.hosts.len() ==> #[trigger] step_spec(
                        config@.hosts[i],
                        config@.ssl,
                    ) is Ok
                &&& forall|i: int|
                    0 <= i < config@.hosts.len() ==> #[trigger] plan.steps@[i]@ == step_spec(
                        config@.hosts[i],
                        config@.ssl,
                    )->Ok_0
                &&& plan.workers == workers
            },
            Err(e) => {
                ||| (config@.hosts.len() == 0 && e == BindError::Configuration(
                    ConfigError::NoListenAddress,
                ))
                ||| (exists|i: int|
                    {
                        &&& 0 <= i < config@.hosts.len()
                        &&& #[trigger] step_spec(config@.hosts[i], config@.ssl) is Err
                        &&& e == BindError::Configuration(
                            step_spec(config@.hosts[i], config@.ssl)->Err_0,
                        )
                        &&& forall|j: int|
                            0 <= j < i ==> #[trigger] step_spec(
                                config@.hosts[j],
                                config@.ssl,
                            ) is Ok
                    })
            },
        }),
{
    let n = config.hosts.len();
    if n == 0 {
        return Err(BindError::Configuration(ConfigError::NoListenAddress));
    }
    let mut steps: Vec<BindStep> = Vec::new();
    let mut i: usize = 0;
    while i < n
        invariant
            n == config@.hosts.len(),
            i <= n,
            steps@.len() == i,
            forall|j: int|
                0 <= j < i ==> #[trigger] step_spec(config@.hosts[j], config@.ssl) is Ok,
            forall|j: int|
                0 <= j < i ==> #[trigger] steps@[j]@ == step_spec(
                    config@.hosts[j],
                    config@.ssl,
                )->Ok_0,
        decreases n - i,
    {
        let host: &String = &config.hosts[i];
        match classify_step(host.as_str(), &config.ssl) {
            Ok(s) => {
                steps.push(s);
            },
            Err(e) => {
                proof {
                    assert(step_spec(config@.hosts[i as int], config@.ssl) is Err);
                }
                return Err(e);
            },
        }
        i += 1;
    }
    Ok(BindPlan { steps, workers })
}

/// Relies on num_cpus::get: the number of logical processing units of the
/// host, always at least one.
#[verifier::external_body]
fn detected_cpus() -> (n: usize)
    ensures
        1 <= n,
{
    num_cpus::get()
}

/// Builds the bind plan for the captured configuration, sizing the worker
/// pool to the number of logical processing units detected on the host.
pub fn plan_server(state: &SystemState) -> (r: Result<BindPlan, BindError>)
    ensures
        (match r {
            Ok(plan) => {
                &&& state@.hosts.len() > 0
                &&& plan.steps@.len() == state@.hosts.len()
                &&& forall|i: int|
                    0 <= i < state@.hosts.len() ==> #[trigger] step_spec(
                        state@.hosts[i],
                        state@.ssl,
                    ) is Ok
                &&& forall|i: int|
                    0 <= i < state@.hosts.len() ==> #[trigger] plan.steps@[i]@ == step_spec(
                        state@.hosts[i],
                        state@.ssl,
                    )->Ok_0
                &&& plan.workers >= 1
            },
            Err(e) => {
                ||| (state@.hosts.len() == 0 && e == BindError::Configuration(
                    ConfigError::NoListenAddress,
                ))
                ||| (exists|i: int|
                    {
                        &&& 0 <= i < state@.hosts.len()
                        &&& #[trigger] step_spec(state@.hosts[i], state@.ssl) is Err
                        &&& e == BindError::Configuration(
                            step_spec(state@.hosts[i], state@.ssl)->Err_0,
                        )
                        &&& forall|j: int|
                            0 <= j < i ==> #[trigger] step_spec(state@.hosts[j], state@.ssl) is Ok
                    })
            },
        }),
{
    let workers = detected_cpus();
    build_plan(state.config(), workers)
}

/// No address starts with both scheme prefixes: they differ in their
/// first character.
proof fn lemma_schemes_distinct(host: Seq<char>)
    ensures
        !(is_prefix_of(tcp_scheme(), host) && is_prefix_of(unix_scheme(), host)),
{
    reveal_strlit("tcp://");
    reveal_strlit("unix://");
    if is_prefix_of(tcp_scheme(), host) && is_prefix_of(unix_scheme(), host) {
        assert(host[0] == 't');
        assert(host[0] == 'u');
    }
}

/// Law: a `tcp://` address with no TLS configured always classifies as a
/// plaintext TCP bind on the scheme-stripped remainder of the address.
pub proof fn lemma_tcp_plain(host: Seq<char>)
    requires
        is_prefix_of(tcp_scheme(), host),
    ensures
        step_spec(host, None) == Ok::<BindStepView, ConfigError>(
            BindStepView::TcpPlain { addr: host.skip(tcp_scheme().len() as int) },
        ),
{
    lemma_schemes_distinct(host);
}

/// Law: a configuration of `tcp://` addresses with no TLS configured
/// classifies wholly as plaintext TCP binds: no step of it can fail, so
/// by the contract of [`build_plan`] a non-empty such configuration
/// always yields a plan.
pub proof fn lemma_all_tcp_plain(cfg: DaemonConfigView)
    requires
        cfg.ssl is None,
        forall|i: int|
            0 <= i < cfg.hosts.len() ==> is_prefix_of(tcp_scheme(), #[trigger] cfg.hosts[i]),
    ensures
        forall|i: int|
            0 <= i < cfg.hosts.len() ==> #[trigger] step_spec(cfg.hosts[i], cfg.ssl) == Ok::<
                BindStepView,
                ConfigError,
            >(BindStepView::TcpPlain { addr: cfg.hosts[i].skip(tcp_scheme().len() as int) }),
{
    assert forall|i: int| 0 <= i < cfg.hosts.len() implies #[trigger] step_spec(
        cfg.hosts[i],
        cfg.ssl,
    ) == Ok::<BindStepView, ConfigError>(
        BindStepView::TcpPlain { addr: cfg.hosts[i].skip(tcp_scheme().len() as int) },
    ) by {
        lemma_tcp_plain(cfg.hosts[i]);
    }
}

/// Law: a `unix://` address always classifies as a Unix socket bind on
/// the scheme-stripped path, whatever TLS bundle is configured — TLS
/// material applies to TCP listeners alone.
pub proof fn lemma_unix(host: Seq<char>, ssl: Option<SslConfigView>)
    requires
        is_prefix_of(unix_scheme(), host),
    ensures
        step_spec(host, ssl) == Ok::<BindStepView, ConfigError>(
            BindStepView::Uds { path: host.skip(unix_scheme().len() as int) },
        ),
{
}

/// Law: a `tcp://` address under a complete TLS bundle classifies as a
/// mutual-TLS bind carrying exactly the three configured PEM paths.
pub proof fn lemma_tcp_tls(host: Seq<char>, m: SslConfigView)
    requires
        is_prefix_of(tcp_scheme(), host),
        m.is_complete(),
    ensures
        step_spec(host, Some(m)) == Ok::<BindStepView, ConfigError>(
            BindStepView::TcpTls {
                addr: host.skip(tcp_scheme().len() as int),
                cert: m.cert->Some_0,
                cert_key: m.cert_key->Some_0,
                cert_ca: m.cert_ca->Some_0,
            },
        ),
{
    lemma_schemes_distinct(host);
}

/// Law: a `tcp://` address under a partial TLS bundle is a configuration
/// error — TLS is never attempted with incomplete material.
pub proof fn lemma_incomplete_tls(host: Seq<char>, m: SslConfigView)
    requires
        is_prefix_of(tcp_scheme(), host),
        !m.is_complete(),
    ensures
        step_spec(host, Some(m)) == Err::<BindStepView, ConfigError>(
            ConfigError::IncompleteTlsMaterial,
        ),
{
    lemma_schemes_distinct(host);
}

/// Law: an address with an unrecognized scheme is rejected outright with
/// a configuration error, whatever TLS bundle is configured. Together
/// with the contract of [`build_plan`], whose error is pinned to the
/// first failing address, this means no address after it is classified.
pub proof fn lemma_unsupported_scheme(host: Seq<char>, ssl: Option<SslConfigView>)
    requires
        !is_prefix_of(tcp_scheme(), host),
        !is_prefix_of(unix_scheme(), host),
    ensures
        step_spec(host, ssl) == Err::<BindStepView, ConfigError>(ConfigError::UnsupportedScheme),
{
}

} // verus!
