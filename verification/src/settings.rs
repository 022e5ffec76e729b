//! The instance's own configuration, built once and handed to whoever needs it.

use vstd::prelude::*;
use vstd::string::*;

verus! {

/// The number of remote fetches that one activity may cause.
pub const FEDERATION_HTTP_FETCH_LIMIT: i32 = 25;

/// The number of delivery workers where the site row does not say.
pub const DEFAULT_WORKER_COUNT: u64 = 64;

/// How this instance is reached.
pub struct Settings {
    /// Host name, with the port where it is not the default one.
    pub hostname: String,
    /// Whether the instance is served over TLS.
    pub tls_enabled: bool,
}

/// The site row, as far as federation reads it.
#[derive(Clone, Copy, Debug, PartialEq, Eq, Structural)]
pub struct LocalSite {
    pub federation_enabled: bool,
    pub federation_worker_count: i32,
}

/// The protocol that goes with a TLS setting.
pub open spec fn protocol_string(tls_enabled: bool) -> Seq<char> {
    if tls_enabled {
        "https"@
    } else {
        "http"@
    }
}

/// A host name up to its first colon.
pub open spec fn host_without_port(hostname: Seq<char>) -> Seq<char>
    decreases hostname.len(),
{
    if hostname.len() == 0 || hostname[0] == ':' {
        Seq::empty()
    } else {
        seq![hostname[0]] + host_without_port(hostname.drop_first())
    }
}

/// What `host_without_port` returns is a prefix of the host name that holds no colon, and it
/// ends at a colon or at the end of the name.
pub proof fn lemma_host_without_port(hostname: Seq<char>)
    ensures
        host_without_port(hostname).len() <= hostname.len(),
        host_without_port(hostname) == hostname.take(host_without_port(hostname).len() as int),
        !host_without_port(hostname).contains(':'),
        host_without_port(hostname).len() < hostname.len() ==> hostname[host_without_port(
            hostname,
        ).len() as int] == ':',
    decreases hostname.len(),
{
    if hostname.len() == 0 || hostname[0] == ':' {
        assert(host_without_port(hostname) =~= hostname.take(0));
    } else {
        let rest = hostname.drop_first();
        lemma_host_without_port(rest);
        let h = host_without_port(rest);
        let n = h.len() as int;
        assert(host_without_port(hostname) =~= hostname.take(n + 1)) by {
            assert(h == rest.take(n));
            assert forall|i: int| 0 <= i < n + 1 implies (seq![hostname[0]] + h)[i]
                == hostname.take(n + 1)[i] by {
                if i > 0 {
                    assert(h[i - 1] == rest.take(n)[i - 1]);
                }
            }
        }
        assert forall|i: int| 0 <= i < n + 1 implies (seq![hostname[0]] + h)[i] != ':' by {
            if i > 0 {
                assert(h.contains(h[i - 1]));
            }
        }
        if n + 1 < hostname.len() {
            assert(rest[n] == hostname[n + 1]);
        }
    }
}

impl Settings {
    /// `https` with TLS, `http` without.
    pub fn get_protocol_string(&self) -> (protocol: &'static str)
        ensures
            protocol@ == protocol_string(self.tls_enabled),
    {
        if self.tls_enabled {
            "https"
        } else {
            "http"
        }
    }

    pub open spec fn protocol_and_hostname(&self) -> Seq<char> {
        protocol_string(self.tls_enabled) + "://"@ + self.hostname@
    }

    /// The protocol, `://`, and the host name.
    pub fn get_protocol_and_hostname(&self) -> (base: String)
        ensures
            base@ == self.protocol_and_hostname(),
    {
        let mut base = String::from_str(self.get_protocol_string());
        base.append("://");
        base.append(self.hostname.as_str());
        base
    }

    /// The host name without its port.
    pub fn get_hostname_without_port(&self) -> (host: String)
        ensures
            host@ == host_without_port(self.hostname@),
    {
        let mut host = String::new();
        let mut done = false;
        proof {
            assert(self.hostname@.skip(0) =~= self.hostname@);
            assert(host@ + host_without_port(self.hostname@) =~= host_without_port(
                self.hostname@,
            ));
        }
        for c in it: self.hostname.as_str().chars()
            invariant
                it.seq() == self.hostname@,
                done ==> host@ == host_without_port(self.hostname@),
                !done ==> host_without_port(self.hostname@) == host@ + host_without_port(
                    self.hostname@.skip(it.index() as int),
                ),
        {
            proof {
                let k = it.index() as int;
                assert(self.hostname@.skip(k).drop_first() =~= self.hostname@.skip(k + 1));
                assert(self.hostname@.skip(k)[0] == c);
            }
            if !done {
                if c == ':' {
                    done = true;
                    assert(host@ + Seq::<char>::empty() =~= host@);
                } else {
                    let ghost before = host@;
                    host.push(c);
                    assert(before + (seq![c] + host_without_port(
                        self.hostname@.skip(it.index() as int + 1),
                    )) =~= before.push(c) + host_without_port(
                        self.hostname@.skip(it.index() as int + 1),
                    ));
                }
            }
        }
        proof {
            if !done {
                assert(self.hostname@.skip(self.hostname@.len() as int).len() == 0);
                assert(host@ + Seq::<char>::empty() =~= host@);
            }
        }
        host
    }
}

/// What the federation machinery is set up with. Built once at start and passed on.
pub struct FederationConfig {
    pub domain: String,
    pub http_fetch_limit: i32,
    pub worker_count: u64,
    pub debug: bool,
    pub http_signature_compat: bool,
}

/// The worker count that a site row gives: its own number, read as unsigned.
pub open spec fn worker_count_of(local_site: Option<LocalSite>) -> int {
    match local_site {
        Some(site) => if site.federation_worker_count >= 0 {
            site.federation_worker_count as int
        } else {
            0x1_0000_0000_0000_0000 + site.federation_worker_count
        },
        None => DEFAULT_WORKER_COUNT as int,
    }
}

/// Builds the federation configuration from the settings and the site row; the row may be
/// missing.
pub fn local_instance(settings: &Settings, local_site: Option<LocalSite>, debug: bool) -> (config:
    FederationConfig)
    ensures
        config.domain@ == settings.hostname@,
        config.http_fetch_limit == FEDERATION_HTTP_FETCH_LIMIT,
        config.worker_count == worker_count_of(local_site),
        config.debug == debug,
        config.http_signature_compat,
{
    let worker_count: u64 = match local_site {
        Some(site) => {
            let count: i32 = site.federation_worker_count;
            if count >= 0 {
                count as u64
            } else {
                u64::MAX - ((-(count + 1)) as u64)
            }
        },
        None => DEFAULT_WORKER_COUNT,
    };
    FederationConfig {
        domain: settings.hostname.clone(),
        http_fetch_limit: FEDERATION_HTTP_FETCH_LIMIT,
        worker_count,
        debug,
        http_signature_compat: true,
    }
}

} // verus!
