//! Which remote domains this instance talks to.

use crate::error::{DenyReason, FederationError};
use crate::iri::Iri;
use crate::settings::{host_without_port, protocol_string, LocalSite, Settings};
use vstd::prelude::*;
use vstd::string::*;

verus! {

/// A known instance.
pub struct Instance {
    pub id: i32,
    pub domain: String,
}

/// The domains of a list of instances.
pub open spec fn domains_of(instances: Seq<Instance>) -> Set<Seq<char>> {
    Set::new(|d: Seq<char>| exists|i: int| 0 <= i < instances.len() && instances[i].domain@ == d)
}

/// The policy that one evaluation goes by.
pub struct PolicySnapshot {
    pub federation_enabled: bool,
    /// `None`: every domain that is not blocked is allowed.
    pub allowlist: Option<Set<Seq<char>>>,
    /// `None`: no domain is blocked.
    pub blocklist: Option<Set<Seq<char>>>,
}

/// The site row and the instance lists, as read for one evaluation. A list that was read
/// empty is held as absent: it restricts nothing.
pub struct LocalSiteData {
    local_site: Option<LocalSite>,
    allowed_instances: Option<Vec<Instance>>,
    blocked_instances: Option<Vec<Instance>>,
}

impl View for LocalSiteData {
    type V = PolicySnapshot;

    closed spec fn view(&self) -> PolicySnapshot {
        PolicySnapshot {
            federation_enabled: match self.local_site {
                Some(site) => site.federation_enabled,
                None => true,
            },
            allowlist: match self.allowed_instances {
                Some(list) => Some(domains_of(list@)),
                None => None,
            },
            blocklist: match self.blocked_instances {
                Some(list) => Some(domains_of(list@)),
                None => None,
            },
        }
    }
}

/// The snapshot that the three reads give.
pub open spec fn snapshot_of(
    local_site: Option<LocalSite>,
    allowed: Seq<Instance>,
    blocked: Seq<Instance>,
) -> PolicySnapshot {
    PolicySnapshot {
        federation_enabled: match local_site {
            Some(site) => site.federation_enabled,
            None => true,
        },
        allowlist: if allowed.len() == 0 {
            None
        } else {
            Some(domains_of(allowed))
        },
        blocklist: if blocked.len() == 0 {
            None
        } else {
            Some(domains_of(blocked))
        },
    }
}

/// Puts together what was read from the site table and the instance tables. A site row
/// that could not be read counts as missing, and federation is then enabled; a list that
/// could not be read fails the whole, with the store's own error.
pub fn fetch_local_site_data(
    local_site: Result<LocalSite, FederationError>,
    allowed: Result<Vec<Instance>, FederationError>,
    blocked: Result<Vec<Instance>, FederationError>,
) -> (data: Result<LocalSiteData, FederationError>)
    ensures
        match (allowed, blocked) {
            (Ok(a), Ok(b)) => data is Ok && data->Ok_0@ == snapshot_of(local_site.ok(), a@, b@),
            (Err(e), _) => data == Err::<LocalSiteData, FederationError>(e),
            (Ok(_), Err(e)) => data == Err::<LocalSiteData, FederationError>(e),
        },
{
    let local_site = match local_site {
        Ok(site) => Some(site),
        Err(_) => None,
    };
    let allowed = match allowed {
        Ok(list) => list,
        Err(e) => {
            return Err(e);
        },
    };
    let blocked = match blocked {
        Ok(list) => list,
        Err(e) => {
            return Err(e);
        },
    };
    let allowed_instances = if allowed.len() == 0 {
        None
    } else {
        Some(allowed)
    };
    let blocked_instances = if blocked.len() == 0 {
        None
    } else {
        Some(blocked)
    };
    Ok(LocalSiteData { local_site, allowed_instances, blocked_instances })
}

/// What the policy says of one domain.
#[derive(Clone, Copy, Debug, PartialEq, Eq, Structural)]
pub enum Decision {
    Allow,
    Deny(DenyReason),
}

/// The policy, rule by rule; the first rule that applies decides.
pub open spec fn evaluate_spec(
    domain: Seq<char>,
    scheme: Seq<char>,
    local_domain: Seq<char>,
    protocol: Seq<char>,
    policy: PolicySnapshot,
    strict: bool,
) -> Decision {
    if domain == local_domain {
        Decision::Allow
    } else if !policy.federation_enabled {
        Decision::Deny(DenyReason::FederationDisabled)
    } else if scheme != protocol {
        Decision::Deny(DenyReason::InvalidScheme)
    } else if policy.blocklist is Some && policy.blocklist->0.contains(domain) {
        Decision::Deny(DenyReason::DomainBlocked)
    } else if strict && policy.allowlist is Some && !policy.allowlist->0.insert(
        local_domain,
    ).contains(domain) {
        Decision::Deny(DenyReason::ForbiddenByStrictAllowlist)
    } else if !strict && policy.allowlist is Some && !policy.allowlist->0.contains(domain) {
        Decision::Deny(DenyReason::DomainNotInAllowlist)
    } else {
        Decision::Allow
    }
}

/// Whether a domain is among those of a list.
fn domain_listed(list: &Vec<Instance>, domain: &String) -> (listed: bool)
    ensures
        listed == domains_of(list@).contains(domain@),
{
    let mut i: usize = 0;
    while i < list.len()
        invariant
            i <= list.len(),
            forall|j: int| 0 <= j < i ==> list[j].domain@ != domain@,
        decreases list.len() - i,
    {
        if list[i].domain == *domain {
            return true;
        }
        i += 1;
    }
    false
}

/// Decides whether a domain may take part, given the scheme that its identifier came with,
/// this instance's own domain and protocol, and the policy. `strict` is for what is or
/// belongs to a community.
pub fn evaluate(
    domain: &String,
    scheme: &String,
    local_domain: &String,
    protocol: &String,
    policy: &LocalSiteData,
    strict: bool,
) -> (decision: Decision)
    ensures
        decision == evaluate_spec(domain@, scheme@, local_domain@, protocol@, policy@, strict),
{
    if *domain == *local_domain {
        return Decision::Allow;
    }
    let federation_enabled = match &policy.local_site {
        Some(site) => site.federation_enabled,
        None => true,
    };
    if !federation_enabled {
        return Decision::Deny(DenyReason::FederationDisabled);
    }
    if !(*scheme == *protocol) {
        return Decision::Deny(DenyReason::InvalidScheme);
    }
    if let Some(blocked) = &policy.blocked_instances {
        if domain_listed(blocked, domain) {
            return Decision::Deny(DenyReason::DomainBlocked);
        }
    }
    if let Some(allowed) = &policy.allowed_instances {
        if !domain_listed(allowed, domain) {
            if strict {
                return Decision::Deny(DenyReason::ForbiddenByStrictAllowlist);
            } else {
                return Decision::Deny(DenyReason::DomainNotInAllowlist);
            }
        }
    }
    Decision::Allow
}

/// What the policy says of an identifier, for this instance's settings.
pub open spec fn check_spec(
    domain: Seq<char>,
    scheme: Seq<char>,
    policy: PolicySnapshot,
    settings: Settings,
    strict: bool,
) -> Decision {
    evaluate_spec(
        domain,
        scheme,
        host_without_port(settings.hostname@),
        protocol_string(settings.tls_enabled),
        policy,
        strict,
    )
}

/// Checks whether an identifier is allowed for sending or receiving, in permissive mode: the
/// instance's own domain always is; otherwise federation must be enabled, the scheme must be
/// the configured protocol, the domain must not be blocked and, where an allowlist is
/// active, must be on it.
pub fn check_apub_id_valid(apub_id: &Iri, local_site_data: &LocalSiteData, settings: &Settings) -> (res:
    Result<(), DenyReason>)
    requires
        apub_id.domain is Some,
    ensures
        match check_spec(apub_id@.domain->0, apub_id@.scheme, local_site_data@, *settings, false) {
            Decision::Allow => res is Ok,
            Decision::Deny(reason) => res == Err::<(), DenyReason>(reason),
        },
{
    let local_domain = settings.get_hostname_without_port();
    let protocol = String::from_str(settings.get_protocol_string());
    match &apub_id.domain {
        Some(domain) => {
            match evaluate(domain, &apub_id.scheme, &local_domain, &protocol, local_site_data, false) {
                Decision::Allow => Ok(()),
                Decision::Deny(reason) => Err(reason),
            }
        },
        // Without a domain there is nothing that the policy could allow.
        None => Err(DenyReason::InvalidScheme),
    }
}

/// As `check_apub_id_valid`, in the mode that the caller names. Strict mode is for a remote
/// community, and for a post or comment in a community.
pub fn check_apub_id_valid_with_strictness(
    apub_id: &Iri,
    is_strict: bool,
    local_site_data: &LocalSiteData,
    settings: &Settings,
) -> (res: Result<(), FederationError>)
    requires
        apub_id.domain is Some,
    ensures
        match check_spec(
            apub_id@.domain->0,
            apub_id@.scheme,
            local_site_data@,
            *settings,
            is_strict,
        ) {
            Decision::Allow => res is Ok,
            Decision::Deny(reason) => res == Err::<(), FederationError>(
                FederationError::DomainRejected(reason),
            ),
        },
{
    let local_domain = settings.get_hostname_without_port();
    let protocol = String::from_str(settings.get_protocol_string());
    match &apub_id.domain {
        Some(domain) => {
            match evaluate(
                domain,
                &apub_id.scheme,
                &local_domain,
                &protocol,
                local_site_data,
                is_strict,
            ) {
                Decision::Allow => Ok(()),
                Decision::Deny(reason) => Err(FederationError::DomainRejected(reason)),
            }
        },
        // Without a domain there is nothing that the policy could allow.
        None => Err(FederationError::MalformedActivity),
    }
}

/// Checks the identifiers that the transport meets against the policy it was given.
pub struct VerifyUrlData {
    pub local_site_data: LocalSiteData,
    pub settings: Settings,
}

impl VerifyUrlData {
    /// Whether the transport may fetch from or deliver to this identifier.
    pub fn verify(&self, url: &Iri) -> (res: Result<(), DenyReason>)
        requires
            url.domain is Some,
        ensures
            match check_spec(url@.domain->0, url@.scheme, self.local_site_data@, self.settings, false) {
                Decision::Allow => res is Ok,
                Decision::Deny(reason) => res == Err::<(), DenyReason>(reason),
            },
    {
        check_apub_id_valid(url, &self.local_site_data, &self.settings)
    }
}

/// A blocked domain is denied whatever the allowlist holds, in either mode, unless it is
/// the instance's own domain.
pub proof fn lemma_blocked_domain_is_denied(
    domain: Seq<char>,
    scheme: Seq<char>,
    local_domain: Seq<char>,
    protocol: Seq<char>,
    policy: PolicySnapshot,
    strict: bool,
)
    requires
        policy.blocklist is Some,
        policy.blocklist->0.contains(domain),
        domain != local_domain,
    ensures
        evaluate_spec(domain, scheme, local_domain, protocol, policy, strict) is Deny,
        policy.federation_enabled && scheme == protocol ==> evaluate_spec(
            domain,
            scheme,
            local_domain,
            protocol,
            policy,
            strict,
        ) == Decision::Deny(DenyReason::DomainBlocked),
{
}

/// In permissive mode a domain that an active allowlist leaves out is denied, unless it is
/// the instance's own domain.
pub proof fn lemma_unlisted_domain_is_denied(
    domain: Seq<char>,
    scheme: Seq<char>,
    local_domain: Seq<char>,
    protocol: Seq<char>,
    policy: PolicySnapshot,
)
    requires
        policy.allowlist is Some,
        !policy.allowlist->0.contains(domain),
        domain != local_domain,
    ensures
        evaluate_spec(domain, scheme, local_domain, protocol, policy, false) is Deny,
{
}

/// The instance's own domain is allowed under every policy and in either mode.
pub proof fn lemma_local_domain_is_allowed(
    local_domain: Seq<char>,
    scheme: Seq<char>,
    protocol: Seq<char>,
    policy: PolicySnapshot,
    strict: bool,
)
    ensures
        evaluate_spec(local_domain, scheme, local_domain, protocol, policy, strict)
            == Decision::Allow,
{
}

} // verus!
