use ndns::config::{ConfigError, Configure, EnvValues, UpstreamKind, UpstreamPlan};

fn bytes(s: &str) -> Vec<u8> {
    s.as_bytes().to_vec()
}

fn empty_env() -> EnvValues {
    EnvValues {
        upstream_kind: None,
        upstream_addr: None,
        upstream_uri: None,
        bind_udp: None,
        bind_udp_addr: None,
        bind_h3: None,
        bind_h3_addr: None,
        bind_quic: None,
        bind_quic_addr: None,
        bind_timeout: None,
        bind_hostname: None,
        bind_cert: None,
        bind_private_key: None,
        blocklist_path: None,
    }
}

fn minimal_env() -> EnvValues {
    let mut env = empty_env();
    env.upstream_addr = Some(bytes("203.0.113.1:53"));
    env.bind_udp_addr = Some(bytes("127.0.0.1:5300"));
    env
}

#[test]
fn missing_upstream_addr_is_fatal() {
    let r = Configure::new(empty_env());
    assert!(matches!(r, Err(ConfigError::MissingUpstreamAddr)));
}

#[test]
fn defaults_resolve_to_udp() {
    let c = Configure::new(minimal_env()).expect("minimal settings are valid");
    assert_eq!(c.upstream_kind, UpstreamKind::Udp);
    assert_eq!(c.upstream_addr, bytes("203.0.113.1:53"));
    assert_eq!(c.bind_udp, Some(bytes("127.0.0.1:5300")));
    assert_eq!(c.bind_h3, None);
    assert_eq!(c.bind_quic, None);
    assert_eq!(c.bind_timeout_secs, None);
}

#[test]
fn invalid_upstream_kind_is_fatal() {
    let mut env = minimal_env();
    env.upstream_kind = Some(bytes("tcp"));
    assert!(matches!(Configure::new(env), Err(ConfigError::InvalidUpstreamKind)));
}

#[test]
fn bind_udp_on_needs_its_addr() {
    let mut env = minimal_env();
    env.bind_udp_addr = None;
    assert!(matches!(Configure::new(env), Err(ConfigError::MissingBindUdpAddr)));
}

#[test]
fn bind_udp_can_be_switched_off() {
    let mut env = minimal_env();
    env.bind_udp = Some(bytes("false"));
    env.bind_udp_addr = None;
    let c = Configure::new(env).expect("udp switched off needs no address");
    assert_eq!(c.bind_udp, None);
}

#[test]
fn invalid_bool_is_fatal() {
    let mut env = minimal_env();
    env.bind_h3 = Some(bytes("yes"));
    assert!(matches!(Configure::new(env), Err(ConfigError::InvalidBool)));
}

#[test]
fn bind_h3_on_needs_its_addr() {
    let mut env = minimal_env();
    env.bind_h3 = Some(bytes("true"));
    assert!(matches!(Configure::new(env), Err(ConfigError::MissingBindH3Addr)));
}

#[test]
fn bind_quic_on_needs_its_addr() {
    let mut env = minimal_env();
    env.bind_quic = Some(bytes("true"));
    assert!(matches!(Configure::new(env), Err(ConfigError::MissingBindQuicAddr)));
}

#[test]
fn timeout_parses_decimal_seconds() {
    let mut env = minimal_env();
    env.bind_timeout = Some(bytes("30"));
    let c = Configure::new(env).expect("a decimal timeout is valid");
    assert_eq!(c.bind_timeout_secs, Some(30));
}

#[test]
fn timeout_rejects_non_digits() {
    let mut env = minimal_env();
    env.bind_timeout = Some(bytes("12x"));
    assert!(matches!(Configure::new(env), Err(ConfigError::InvalidTimeout)));
}

#[test]
fn timeout_accepts_u64_max_and_rejects_overflow() {
    let mut env = minimal_env();
    env.bind_timeout = Some(bytes("18446744073709551615"));
    let c = Configure::new(env).expect("u64::MAX fits");
    assert_eq!(c.bind_timeout_secs, Some(u64::MAX));

    let mut env = minimal_env();
    env.bind_timeout = Some(bytes("18446744073709551616"));
    assert!(matches!(Configure::new(env), Err(ConfigError::InvalidTimeout)));
}

#[test]
fn udp_plan_needs_no_uri() {
    let c = Configure::new(minimal_env()).expect("minimal settings are valid");
    assert!(matches!(c.plan_upstream(), Ok(UpstreamPlan::Udp)));
}

#[test]
fn h3_plan_needs_a_uri() {
    let mut env = minimal_env();
    env.upstream_kind = Some(bytes("h3"));
    let c = Configure::new(env).expect("kind h3 is valid");
    assert!(matches!(c.plan_upstream(), Err(ConfigError::MissingUpstreamUri)));
}

#[test]
fn h3_plan_extracts_host_and_path() {
    let mut env = minimal_env();
    env.upstream_kind = Some(bytes("h3"));
    env.upstream_uri = Some(String::from("h3://dns.example.net/dns-query"));
    let c = Configure::new(env).expect("kind h3 is valid");
    match c.plan_upstream() {
        Ok(UpstreamPlan::H3 { host, path }) => {
            assert_eq!(host, bytes("dns.example.net"));
            assert_eq!(path, bytes("/dns-query"));
        }
        other => panic!("expected an H3 plan, got {:?}", other.is_ok()),
    }
}

#[test]
fn h3_plan_rejects_wrong_scheme() {
    let mut env = minimal_env();
    env.upstream_kind = Some(bytes("h3"));
    env.upstream_uri = Some(String::from("https://dns.example.net/dns-query"));
    let c = Configure::new(env).expect("kind h3 is valid");
    assert!(matches!(c.plan_upstream(), Err(ConfigError::WrongUriScheme)));
}

#[test]
fn quic_plan_extracts_host() {
    let mut env = minimal_env();
    env.upstream_kind = Some(bytes("quic"));
    env.upstream_uri = Some(String::from("quic://dns.example.net"));
    let c = Configure::new(env).expect("kind quic is valid");
    match c.plan_upstream() {
        Ok(UpstreamPlan::Quic { host }) => assert_eq!(host, bytes("dns.example.net")),
        other => panic!("expected a QUIC plan, got {:?}", other.is_ok()),
    }
}

#[test]
fn quic_plan_rejects_unparsable_uri() {
    let mut env = minimal_env();
    env.upstream_kind = Some(bytes("quic"));
    env.upstream_uri = Some(String::from("not a uri"));
    let c = Configure::new(env).expect("kind quic is valid");
    assert!(matches!(c.plan_upstream(), Err(ConfigError::InvalidUpstreamUri)));
}

#[test]
fn quic_plan_needs_a_host() {
    let mut env = minimal_env();
    env.upstream_kind = Some(bytes("quic"));
    env.upstream_uri = Some(String::from("quic:opaque-data"));
    let c = Configure::new(env).expect("kind quic is valid");
    assert!(matches!(c.plan_upstream(), Err(ConfigError::MissingUriHost)));
}
