use vstd::prelude::*;

verus! {

/// A configuration error, fatal at startup: the process refuses to serve
/// with a broken upstream or listener configuration.
#[derive(PartialEq, Eq, Structural, Clone, Copy, Debug)]
pub enum ConfigError {
    InvalidUpstreamKind,
    MissingUpstreamAddr,
    InvalidBool,
    MissingBindUdpAddr,
    MissingBindH3Addr,
    MissingBindQuicAddr,
    InvalidTimeout,
    MissingUpstreamUri,
    InvalidUpstreamUri,
    WrongUriScheme,
    MissingUriHost,
}

/// The transport kind of the upstream resolver connection, selected once at
/// startup.
#[derive(PartialEq, Eq, Structural, Clone, Copy, Debug)]
pub enum UpstreamKind {
    Udp,
    H3,
    Quic,
}

/// The bytes of the name `udp`.
pub open spec fn udp_name() -> Seq<u8> {
    seq!['u' as u8, 'd' as u8, 'p' as u8]
}

/// The bytes of the name `h3`.
pub open spec fn h3_name() -> Seq<u8> {
    seq!['h' as u8, '3' as u8]
}

/// The bytes of the name `quic`.
pub open spec fn quic_name() -> Seq<u8> {
    seq!['q' as u8, 'u' as u8, 'i' as u8, 'c' as u8]
}

/// The bytes of the word `true`.
pub open spec fn true_name() -> Seq<u8> {
    seq!['t' as u8, 'r' as u8, 'u' as u8, 'e' as u8]
}

/// The bytes of the word `false`.
pub open spec fn false_name() -> Seq<u8> {
    seq!['f' as u8, 'a' as u8, 'l' as u8, 's' as u8, 'e' as u8]
}

/// How an upstream-kind name parses: one of `udp`, `h3`, `quic`.
pub open spec fn parse_kind_spec(s: Seq<u8>) -> Result<UpstreamKind, ConfigError> {
    if s == udp_name() {
        Ok(UpstreamKind::Udp)
    } else if s == h3_name() {
        Ok(UpstreamKind::H3)
    } else if s == quic_name() {
        Ok(UpstreamKind::Quic)
    } else {
        Err(ConfigError::InvalidUpstreamKind)
    }
}

/// How a boolean setting parses: exactly `true` or `false`.
pub open spec fn parse_bool_spec(s: Seq<u8>) -> Result<bool, ConfigError> {
    if s == true_name() {
        Ok(true)
    } else if s == false_name() {
        Ok(false)
    } else {
        Err(ConfigError::InvalidBool)
    }
}

/// An ASCII decimal digit.
pub open spec fn is_digit(b: u8) -> bool {
    48 <= b && b <= 57
}

/// Every byte of `s` is a decimal digit.
pub open spec fn all_digits(s: Seq<u8>) -> bool {
    forall|i: int| 0 <= i < s.len() ==> is_digit(s[i])
}

/// The value of a decimal digit string.
pub open spec fn dec_val(s: Seq<u8>) -> int
    decreases s.len(),
{
    if s.len() == 0 {
        0
    } else {
        dec_val(s.drop_last()) * 10 + (s[s.len() - 1] as int - 48)
    }
}

/// How a decimal setting parses: a non-empty digit string whose value fits
/// in a `u64`.
pub open spec fn parse_u64_spec(s: Seq<u8>) -> Option<u64> {
    if s.len() > 0 && all_digits(s) && dec_val(s) <= u64::MAX {
        Some(dec_val(s) as u64)
    } else {
        None
    }
}

proof fn lemma_dec_val_nonneg(s: Seq<u8>)
    requires
        all_digits(s),
    ensures
        dec_val(s) >= 0,
    decreases s.len(),
{
    if s.len() > 0 {
        assert(forall|i: int| 0 <= i < s.drop_last().len() ==> is_digit(s.drop_last()[i]));
        lemma_dec_val_nonneg(s.drop_last());
    }
}

proof fn lemma_dec_val_prefix(s: Seq<u8>, i: int)
    requires
        all_digits(s),
        0 <= i <= s.len(),
    ensures
        dec_val(s.subrange(0, i)) <= dec_val(s),
    decreases s.len() - i,
{
    if i == s.len() {
        assert(s.subrange(0, i) =~= s);
    } else {
        lemma_dec_val_prefix(s, i + 1);
        let t = s.subrange(0, i + 1);
        assert(t.drop_last() =~= s.subrange(0, i));
        assert(forall|j: int| 0 <= j < s.subrange(0, i).len() ==> is_digit(s.subrange(0, i)[j]));
        lemma_dec_val_nonneg(s.subrange(0, i));
        assert(dec_val(t) == dec_val(s.subrange(0, i)) * 10 + (s[i] as int - 48));
        assert(dec_val(s.subrange(0, i)) <= dec_val(t));
    }
}

/// Parses a non-empty decimal digit string into a `u64`, refusing overflow.
pub fn parse_u64(s: &Vec<u8>) -> (r: Option<u64>)
    ensures
        r == parse_u64_spec(s@),
{
    if s.len() == 0 {
        return None;
    }
    let n: usize = s.len();
    let mut acc: u64 = 0;
    let mut i: usize = 0;
    while i < n
        invariant
            0 < n == s@.len(),
            0 <= i <= n,
            all_digits(s@.subrange(0, i as int)),
            acc == dec_val(s@.subrange(0, i as int)),
        decreases n - i,
    {
        let b = s[i];
        if b < 48 || b > 57 {
            return None;
        }
        let d: u64 = (b - 48) as u64;
        let ghost pre = s@.subrange(0, i as int);
        let ghost cur = s@.subrange(0, i as int + 1);
        proof {
            assert(cur.drop_last() =~= pre);
            assert(forall|j: int| 0 <= j < cur.len() ==> is_digit(cur[j]));
        }
        if acc > 1844674407370955161u64 || (acc == 1844674407370955161u64 && d > 5) {
            proof {
                assert(dec_val(cur) == acc * 10 + d);
                assert(dec_val(cur) > u64::MAX);
                if all_digits(s@) && dec_val(s@) <= u64::MAX {
                    lemma_dec_val_prefix(s@, i as int + 1);
                    assert(false);
                }
            }
            return None;
        }
        acc = acc * 10 + d;
        i += 1;
    }
    assert(s@.subrange(0, n as int) =~= s@);
    Some(acc)
}

/// Runtime comparison against the name `udp`.
pub fn is_udp_name(s: &Vec<u8>) -> (r: bool)
    ensures
        r == (s@ == udp_name()),
{
    let r = s.len() == 3 && s[0] == 'u' as u8 && s[1] == 'd' as u8 && s[2] == 'p' as u8;
    proof {
        if r {
            assert(s@ =~= udp_name());
        } else {
            if s@ == udp_name() {
                assert(s@.len() == 3 && s@[0] == 'u' as u8 && s@[1] == 'd' as u8 && s@[2] == 'p'
                    as u8);
            }
        }
    }
    r
}

/// Runtime comparison against the name `h3`.
pub fn is_h3_name(s: &Vec<u8>) -> (r: bool)
    ensures
        r == (s@ == h3_name()),
{
    let r = s.len() == 2 && s[0] == 'h' as u8 && s[1] == '3' as u8;
    proof {
        if r {
            assert(s@ =~= h3_name());
        } else {
            if s@ == h3_name() {
                assert(s@.len() == 2 && s@[0] == 'h' as u8 && s@[1] == '3' as u8);
            }
        }
    }
    r
}

/// Runtime comparison against the name `quic`.
pub fn is_quic_name(s: &Vec<u8>) -> (r: bool)
    ensures
        r == (s@ == quic_name()),
{
    let r = s.len() == 4 && s[0] == 'q' as u8 && s[1] == 'u' as u8 && s[2] == 'i' as u8 && s[3]
        == 'c' as u8;
    proof {
        if r {
            assert(s@ =~= quic_name());
        } else {
            if s@ == quic_name() {
                assert(s@.len() == 4 && s@[0] == 'q' as u8 && s@[1] == 'u' as u8 && s@[2] == 'i'
                    as u8 && s@[3] == 'c' as u8);
            }
        }
    }
    r
}

/// Parses a boolean setting: exactly `true` or `false`.
pub fn parse_bool(s: &Vec<u8>) -> (r: Result<bool, ConfigError>)
    ensures
        r == parse_bool_spec(s@),
{
    let is_true = s.len() == 4 && s[0] == 't' as u8 && s[1] == 'r' as u8 && s[2] == 'u' as u8
        && s[3] == 'e' as u8;
    proof {
        if is_true {
            assert(s@ =~= true_name());
        } else {
            if s@ == true_name() {
                assert(s@.len() == 4 && s@[0] == 't' as u8 && s@[1] == 'r' as u8 && s@[2] == 'u'
                    as u8 && s@[3] == 'e' as u8);
            }
        }
    }
    if is_true {
        return Ok(true);
    }
    let is_false = s.len() == 5 && s[0] == 'f' as u8 && s[1] == 'a' as u8 && s[2] == 'l' as u8
        && s[3] == 's' as u8 && s[4] == 'e' as u8;
    proof {
        if is_false {
            assert(s@ =~= false_name());
        } else {
            if s@ == false_name() {
                assert(s@.len() == 5 && s@[0] == 'f' as u8 && s@[1] == 'a' as u8 && s@[2] == 'l'
                    as u8 && s@[3] == 's' as u8 && s@[4] == 'e' as u8);
            }
        }
    }
    if is_false {
        return Ok(false);
    }
    Err(ConfigError::InvalidBool)
}

impl UpstreamKind {
    /// Parses an upstream-kind name: one of `udp`, `h3`, `quic`.
    pub fn parse(s: &Vec<u8>) -> (r: Result<UpstreamKind, ConfigError>)
        ensures
            r == parse_kind_spec(s@),
    {
        if is_udp_name(s) {
            Ok(UpstreamKind::Udp)
        } else if is_h3_name(s) {
            Ok(UpstreamKind::H3)
        } else if is_quic_name(s) {
            Ok(UpstreamKind::Quic)
        } else {
            Err(ConfigError::InvalidUpstreamKind)
        }
    }
}

/// The raw settings handed in at startup, each absent or present, exactly
/// as the bootstrap layer found them.
pub struct EnvValues {
    pub upstream_kind: Option<Vec<u8>>,
    pub upstream_addr: Option<Vec<u8>>,
    pub upstream_uri: Option<String>,
    pub bind_udp: Option<Vec<u8>>,
    pub bind_udp_addr: Option<Vec<u8>>,
    pub bind_h3: Option<Vec<u8>>,
    pub bind_h3_addr: Option<Vec<u8>>,
    pub bind_quic: Option<Vec<u8>>,
    pub bind_quic_addr: Option<Vec<u8>>,
    pub bind_timeout: Option<Vec<u8>>,
    pub bind_hostname: Option<Vec<u8>>,
    pub bind_cert: Option<Vec<u8>>,
    pub bind_private_key: Option<Vec<u8>>,
    pub blocklist_path: Option<Vec<u8>>,
}

/// The validated configuration of the process.
pub struct Configure {
    pub upstream_kind: UpstreamKind,
    pub upstream_addr: Vec<u8>,
    pub upstream_uri: Option<String>,
    pub bind_udp: Option<Vec<u8>>,
    pub bind_h3: Option<Vec<u8>>,
    pub bind_quic: Option<Vec<u8>>,
    pub bind_timeout_secs: Option<u64>,
    pub bind_hostname: Option<Vec<u8>>,
    pub bind_cert: Option<Vec<u8>>,
    pub bind_private_key: Option<Vec<u8>>,
    pub blocklist_path: Option<Vec<u8>>,
}

/// How the upstream kind setting resolves: absent means `udp`.
pub open spec fn parse_kind_opt_spec(o: Option<Vec<u8>>) -> Result<UpstreamKind, ConfigError> {
    match o {
        None => Ok(UpstreamKind::Udp),
        Some(s) => parse_kind_spec(s@),
    }
}

/// How a boolean setting resolves: absent means its default.
pub open spec fn bool_with_default_spec(o: Option<Vec<u8>>, default: bool) -> Result<
    bool,
    ConfigError,
> {
    match o {
        None => Ok(default),
        Some(s) => parse_bool_spec(s@),
    }
}

/// What `Configure::new` produces for given raw settings: the first failing
/// check wins, in the order the settings are read.
pub open spec fn new_spec(env: EnvValues) -> Result<Configure, ConfigError> {
    match parse_kind_opt_spec(env.upstream_kind) {
        Err(e) => Err(e),
        Ok(kind) => match env.upstream_addr {
            None => Err(ConfigError::MissingUpstreamAddr),
            Some(addr) => match bool_with_default_spec(env.bind_udp, true) {
                Err(e) => Err(e),
                Ok(udp_on) => if udp_on && env.bind_udp_addr is None {
                    Err(ConfigError::MissingBindUdpAddr)
                } else {
                    match bool_with_default_spec(env.bind_h3, false) {
                        Err(e) => Err(e),
                        Ok(h3_on) => if h3_on && env.bind_h3_addr is None {
                            Err(ConfigError::MissingBindH3Addr)
                        } else {
                            match bool_with_default_spec(env.bind_quic, false) {
                                Err(e) => Err(e),
                                Ok(quic_on) => if quic_on && env.bind_quic_addr is None {
                                    Err(ConfigError::MissingBindQuicAddr)
                                } else {
                                    match timeout_spec(env.bind_timeout) {
                                    Err(e) => Err(e),
                                    Ok(t) => Ok(Configure {
                                        upstream_kind: kind,
                                        upstream_addr: addr,
                                        upstream_uri: env.upstream_uri,
                                        bind_udp: if udp_on {
                                            env.bind_udp_addr
                                        } else {
                                            None
                                        },
                                        bind_h3: if h3_on {
                                            env.bind_h3_addr
                                        } else {
                                            None
                                        },
                                        bind_quic: if quic_on {
                                            env.bind_quic_addr
                                        } else {
                                            None
                                        },
                                        bind_timeout_secs: t,
                                        bind_hostname: env.bind_hostname,
                                        bind_cert: env.bind_cert,
                                        bind_private_key: env.bind_private_key,
                                        blocklist_path: env.blocklist_path,
                                    }),
                                    }
                                },
                            }
                        },
                    }
                },
            },
        },
    }
}

/// How the bind timeout resolves: absent means the default (kept as `None`),
/// present means a decimal number of seconds.
pub open spec fn timeout_spec(o: Option<Vec<u8>>) -> Result<Option<u64>, ConfigError> {
    match o {
        None => Ok(None),
        Some(s) => match parse_u64_spec(s@) {
            None => Err(ConfigError::InvalidTimeout),
            Some(v) => Ok(Some(v)),
        },
    }
}

/// Everything the transport layer needs to open the one upstream
/// connection.
pub enum UpstreamPlan {
    Udp,
    H3 { host: Vec<u8>, path: Vec<u8> },
    Quic { host: Vec<u8> },
}

/// The scheme, host and path that URL parsing yields for a text, when it
/// parses at all; a function of the text alone.
pub uninterp spec fn uri_parts_of(s: Seq<char>) -> Option<(Seq<u8>, Option<Seq<u8>>, Seq<u8>)>;

/// The parts of a parsed URL, as plain bytes.
pub struct UriParts {
    pub scheme: Vec<u8>,
    pub host: Option<Vec<u8>>,
    pub path: Vec<u8>,
}

/// Relies on url::Url::parse and the accessors Url::scheme, Url::host_str
/// and Url::path: parsing either fails or yields a URL whose scheme, host
/// and path depend on the input text alone.
#[verifier::external_body]
fn parse_uri(s: &str) -> (r: Option<UriParts>)
    ensures
        (r is Some) == (uri_parts_of(s@) is Some),
        r matches Some(p) ==> (uri_parts_of(s@) matches Some(t) && p.scheme@ == t.0 && ((
        p.host is Some) == (t.1 is Some)) && (p.host matches Some(h) ==> (t.1 matches Some(th)
            && h@ == th)) && p.path@ == t.2),
{
    match url::Url::parse(s) {
        Ok(u) => Some(
            UriParts {
                scheme: u.scheme().as_bytes().to_vec(),
                host: u.host_str().map(|h| h.as_bytes().to_vec()),
                path: u.path().as_bytes().to_vec(),
            },
        ),
        Err(_) => None,
    }
}

/// What `Configure::plan_upstream` yields: `udp` needs nothing more; `h3`
/// and `quic` need a URI with the matching scheme and a host, and `h3` also
/// hands the path on.
pub open spec fn plan_ok(c: Configure, r: Result<UpstreamPlan, ConfigError>) -> bool {
    match c.upstream_kind {
        UpstreamKind::Udp => r == Ok::<UpstreamPlan, ConfigError>(UpstreamPlan::Udp),
        UpstreamKind::H3 => match c.upstream_uri {
            None => r == Err::<UpstreamPlan, ConfigError>(ConfigError::MissingUpstreamUri),
            Some(u) => match uri_parts_of(u@) {
                None => r == Err::<UpstreamPlan, ConfigError>(ConfigError::InvalidUpstreamUri),
                Some(t) => if t.0 != h3_name() {
                    r == Err::<UpstreamPlan, ConfigError>(ConfigError::WrongUriScheme)
                } else {
                    match t.1 {
                        None => r == Err::<UpstreamPlan, ConfigError>(ConfigError::MissingUriHost),
                        Some(th) => (r matches Ok(UpstreamPlan::H3 { host, path }) && host@ == th
                            && path@ == t.2),
                    }
                },
            },
        },
        UpstreamKind::Quic => match c.upstream_uri {
            None => r == Err::<UpstreamPlan, ConfigError>(ConfigError::MissingUpstreamUri),
            Some(u) => match uri_parts_of(u@) {
                None => r == Err::<UpstreamPlan, ConfigError>(ConfigError::InvalidUpstreamUri),
                Some(t) => if t.0 != quic_name() {
                    r == Err::<UpstreamPlan, ConfigError>(ConfigError::WrongUriScheme)
                } else {
                    match t.1 {
                        None => r == Err::<UpstreamPlan, ConfigError>(ConfigError::MissingUriHost),
                        Some(th) => (r matches Ok(UpstreamPlan::Quic { host }) && host@ == th),
                    }
                },
            },
        },
    }
}

impl Configure {
    /// Validates the raw settings into a configuration: the upstream kind
    /// (default `udp`), the required upstream address, the per-transport
    /// bind switches with their addresses, and the decimal bind timeout.
    pub fn new(env: EnvValues) -> (r: Result<Configure, ConfigError>)
        ensures
            r == new_spec(env),
    {
        let ghost env0 = env;
        let EnvValues {
            upstream_kind,
            upstream_addr,
            upstream_uri,
            bind_udp,
            bind_udp_addr,
            bind_h3,
            bind_h3_addr,
            bind_quic,
            bind_quic_addr,
            bind_timeout,
            bind_hostname,
            bind_cert,
            bind_private_key,
            blocklist_path,
        } = env;
        let kind = match upstream_kind {
            None => UpstreamKind::Udp,
            Some(s) => match UpstreamKind::parse(&s) {
                Ok(k) => k,
                Err(e) => {
                    return Err(e);
                }
            },
        };
        let addr = match upstream_addr {
            None => {
                return Err(ConfigError::MissingUpstreamAddr);
            }
            Some(a) => a,
        };
        let udp_on = match bind_udp {
            None => true,
            Some(s) => match parse_bool(&s) {
                Ok(b) => b,
                Err(e) => {
                    return Err(e);
                }
            },
        };
        if udp_on && bind_udp_addr.is_none() {
            return Err(ConfigError::MissingBindUdpAddr);
        }
        let h3_on = match bind_h3 {
            None => false,
            Some(s) => match parse_bool(&s) {
                Ok(b) => b,
                Err(e) => {
                    return Err(e);
                }
            },
        };
        if h3_on && bind_h3_addr.is_none() {
            return Err(ConfigError::MissingBindH3Addr);
        }
        let quic_on = match bind_quic {
            None => false,
            Some(s) => match parse_bool(&s) {
                Ok(b) => b,
                Err(e) => {
                    return Err(e);
                }
            },
        };
        if quic_on && bind_quic_addr.is_none() {
            return Err(ConfigError::MissingBindQuicAddr);
        }
        let timeout_secs: Option<u64> = match bind_timeout {
            None => None,
            Some(s) => match parse_u64(&s) {
                Some(v) => Some(v),
                None => {
                    return Err(ConfigError::InvalidTimeout);
                }
            },
        };
        Ok(Configure {
            upstream_kind: kind,
            upstream_addr: addr,
            upstream_uri,
            bind_udp: if udp_on {
                bind_udp_addr
            } else {
                None
            },
            bind_h3: if h3_on {
                bind_h3_addr
            } else {
                None
            },
            bind_quic: if quic_on {
                bind_quic_addr
            } else {
                None
            },
            bind_timeout_secs: timeout_secs,
            bind_hostname,
            bind_cert,
            bind_private_key,
            blocklist_path,
        })
    }

    /// Checks the upstream transport selection: which URI parts the selected
    /// kind needs, and what the transport layer gets to connect with.
    pub fn plan_upstream(&self) -> (r: Result<UpstreamPlan, ConfigError>)
        ensures
            plan_ok(*self, r),
    {
        match self.upstream_kind {
            UpstreamKind::Udp => Ok(UpstreamPlan::Udp),
            UpstreamKind::H3 => {
                let uri = match &self.upstream_uri {
                    Some(u) => u,
                    None => {
                        return Err(ConfigError::MissingUpstreamUri);
                    }
                };
                let parts = match parse_uri(uri.as_str()) {
                    Some(p) => p,
                    None => {
                        return Err(ConfigError::InvalidUpstreamUri);
                    }
                };
                if !is_h3_name(&parts.scheme) {
                    return Err(ConfigError::WrongUriScheme);
                }
                let host = match parts.host {
                    Some(h) => h,
                    None => {
                        return Err(ConfigError::MissingUriHost);
                    }
                };
                Ok(UpstreamPlan::H3 { host, path: parts.path })
            }
            UpstreamKind::Quic => {
                let uri = match &self.upstream_uri {
                    Some(u) => u,
                    None => {
                        return Err(ConfigError::MissingUpstreamUri);
                    }
                };
                let parts = match parse_uri(uri.as_str()) {
                    Some(p) => p,
                    None => {
                        return Err(ConfigError::InvalidUpstreamUri);
                    }
                };
                if !is_quic_name(&parts.scheme) {
                    return Err(ConfigError::WrongUriScheme);
                }
                let host = match parts.host {
                    Some(h) => h,
                    None => {
                        return Err(ConfigError::MissingUriHost);
                    }
                };
                Ok(UpstreamPlan::Quic { host })
            }
        }
    }
}

} // verus!
