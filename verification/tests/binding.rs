use listener_binder::{
    build_plan, plan_server, BindError, BindPlan, BindRun, BindStep, ConfigError, DaemonConfig,
    ErrorKind, ListenAddress, SslConfig, SystemState, SystemStateInner,
};

fn state_of(config: DaemonConfig) -> SystemState {
    SystemState::new(SystemStateInner::new(config))
}

fn full_ssl() -> SslConfig {
    SslConfig {
        cert: Some("/etc/daemon/cert.pem".to_string()),
        cert_key: Some("/etc/daemon/key.pem".to_string()),
        cert_ca: Some("/etc/daemon/ca.pem".to_string()),
    }
}

#[test]
fn parse_tcp_address() {
    let parsed = ListenAddress::parse("tcp://127.0.0.1:9000").unwrap();
    assert_eq!(parsed, ListenAddress::Tcp { addr: "127.0.0.1:9000".to_string() });
}

#[test]
fn parse_unix_address() {
    let parsed = ListenAddress::parse("unix:///run/daemon.sock").unwrap();
    assert_eq!(parsed, ListenAddress::Unix { path: "/run/daemon.sock".to_string() });
}

#[test]
fn parse_rejects_unknown_scheme() {
    let err = ListenAddress::parse("ftp://host:21").unwrap_err();
    assert_eq!(err, BindError::Configuration(ConfigError::UnsupportedScheme));
    assert_eq!(err.kind(), ErrorKind::Configuration);
    assert_eq!(err.message(), "invalid protocol [tcp:// | unix://] allowed");
}

#[test]
fn parse_rejects_empty_string() {
    let err = ListenAddress::parse("").unwrap_err();
    assert_eq!(err, BindError::Configuration(ConfigError::UnsupportedScheme));
}

#[test]
fn parse_strips_the_prefix_only_once() {
    let parsed = ListenAddress::parse("unix:///a/unix://b").unwrap();
    assert_eq!(parsed, ListenAddress::Unix { path: "/a/unix://b".to_string() });
}

#[test]
fn plan_all_tcp_plain() {
    let config = DaemonConfig {
        hosts: vec!["tcp://0.0.0.0:8080".to_string(), "tcp://127.0.0.1:9000".to_string()],
        ssl: None,
    };
    let plan = build_plan(&config, 3).unwrap();
    assert_eq!(plan.steps.len(), 2);
    assert_eq!(plan.steps[0], BindStep::TcpPlain { addr: "0.0.0.0:8080".to_string() });
    assert_eq!(plan.steps[1], BindStep::TcpPlain { addr: "127.0.0.1:9000".to_string() });
    assert_eq!(plan.workers, 3);
}

#[test]
fn plan_unix_socket() {
    let config = DaemonConfig { hosts: vec!["unix:///tmp/daemon.sock".to_string()], ssl: None };
    let plan = build_plan(&config, 1).unwrap();
    assert_eq!(plan.steps, vec![BindStep::Uds { path: "/tmp/daemon.sock".to_string() }]);
}

#[test]
fn plan_keeps_input_order() {
    let config = DaemonConfig {
        hosts: vec!["unix:///run/a.sock".to_string(), "tcp://[::1]:8080".to_string()],
        ssl: None,
    };
    let plan = build_plan(&config, 2).unwrap();
    assert_eq!(
        plan.steps,
        vec![
            BindStep::Uds { path: "/run/a.sock".to_string() },
            BindStep::TcpPlain { addr: "[::1]:8080".to_string() },
        ]
    );
}

#[test]
fn plan_stops_at_first_invalid_scheme() {
    let config = DaemonConfig {
        hosts: vec!["ftp://host:21".to_string(), "tcp://0.0.0.0:8080".to_string()],
        ssl: None,
    };
    let err = build_plan(&config, 2).unwrap_err();
    assert_eq!(err, BindError::Configuration(ConfigError::UnsupportedScheme));
}

#[test]
fn plan_reports_invalid_scheme_in_the_middle() {
    let config = DaemonConfig {
        hosts: vec![
            "tcp://0.0.0.0:8080".to_string(),
            "http://host:80".to_string(),
            "unix:///run/a.sock".to_string(),
        ],
        ssl: None,
    };
    let err = build_plan(&config, 2).unwrap_err();
    assert_eq!(err, BindError::Configuration(ConfigError::UnsupportedScheme));
}

#[test]
fn plan_with_complete_tls_material() {
    let config = DaemonConfig {
        hosts: vec!["tcp://0.0.0.0:8443".to_string()],
        ssl: Some(full_ssl()),
    };
    let plan = build_plan(&config, 2).unwrap();
    assert_eq!(
        plan.steps,
        vec![BindStep::TcpTls {
            addr: "0.0.0.0:8443".to_string(),
            cert: "/etc/daemon/cert.pem".to_string(),
            cert_key: "/etc/daemon/key.pem".to_string(),
            cert_ca: "/etc/daemon/ca.pem".to_string(),
        }]
    );
}

#[test]
fn plan_rejects_partial_tls_material() {
    let config = DaemonConfig {
        hosts: vec!["tcp://0.0.0.0:8443".to_string()],
        ssl: Some(SslConfig {
            cert: Some("/etc/daemon/cert.pem".to_string()),
            cert_key: None,
            cert_ca: None,
        }),
    };
    let err = build_plan(&config, 2).unwrap_err();
    assert_eq!(err, BindError::Configuration(ConfigError::IncompleteTlsMaterial));
    assert_eq!(
        err.message(),
        "incomplete TLS material: certificate, key and CA must be set together"
    );
}

#[test]
fn plan_unix_socket_ignores_tls_material() {
    let config = DaemonConfig {
        hosts: vec!["unix:///run/a.sock".to_string()],
        ssl: Some(full_ssl()),
    };
    let plan = build_plan(&config, 2).unwrap();
    assert_eq!(plan.steps, vec![BindStep::Uds { path: "/run/a.sock".to_string() }]);
}

#[test]
fn plan_rejects_empty_address_list() {
    let config = DaemonConfig { hosts: vec![], ssl: None };
    let err = build_plan(&config, 2).unwrap_err();
    assert_eq!(err, BindError::Configuration(ConfigError::NoListenAddress));
    assert_eq!(err.message(), "at least one listen address required");
}

#[test]
fn plan_server_sizes_workers_to_the_host() {
    let state = state_of(DaemonConfig {
        hosts: vec!["tcp://127.0.0.1:18080".to_string()],
        ssl: None,
    });
    let plan = plan_server(&state).unwrap();
    assert!(plan.workers >= 1);
    assert_eq!(plan.workers, num_cpus::get());
}

#[test]
fn plan_server_propagates_configuration_errors() {
    let state = state_of(DaemonConfig { hosts: vec!["srv://x".to_string()], ssl: None });
    let err = plan_server(&state).unwrap_err();
    assert_eq!(err, BindError::Configuration(ConfigError::UnsupportedScheme));
}

#[test]
fn system_state_hands_back_its_configuration() {
    let state = state_of(DaemonConfig {
        hosts: vec!["tcp://0.0.0.0:8080".to_string()],
        ssl: None,
    });
    assert_eq!(state.config().hosts, vec!["tcp://0.0.0.0:8080".to_string()]);
    assert!(state.config().ssl.is_none());
}

#[test]
fn run_hands_steps_out_in_order() {
    let plan = BindPlan {
        steps: vec![
            BindStep::Uds { path: "/run/a.sock".to_string() },
            BindStep::TcpPlain { addr: "0.0.0.0:8080".to_string() },
        ],
        workers: 4,
    };
    let mut run = BindRun::start(plan);
    assert!(!run.finished());
    assert_eq!(*run.current(), BindStep::Uds { path: "/run/a.sock".to_string() });
    run.note_bound();
    assert!(!run.finished());
    assert_eq!(*run.current(), BindStep::TcpPlain { addr: "0.0.0.0:8080".to_string() });
    run.note_bound();
    assert!(run.finished());
    assert_eq!(run.into_workers(), 4);
}

#[test]
fn run_abort_hands_the_failure_back_unchanged() {
    let plan = BindPlan {
        steps: vec![BindStep::TcpPlain { addr: "0.0.0.0:8080".to_string() }],
        workers: 2,
    };
    let run = BindRun::start(plan);
    let err = run.abort(BindError::Io("address in use".to_string()));
    assert_eq!(err, BindError::Io("address in use".to_string()));
    assert_eq!(err.kind(), ErrorKind::Io);
    assert_eq!(err.message(), "address in use");
}

#[test]
fn tls_setup_errors_keep_their_message() {
    let err = BindError::TlsSetup("certificate/key mismatch".to_string());
    assert_eq!(err.kind(), ErrorKind::TlsSetup);
    assert_eq!(err.message(), "certificate/key mismatch");
}
