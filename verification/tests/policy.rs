use apub_engine::error::{DenyReason, FederationError};
use apub_engine::iri::Iri;
use apub_engine::policy::{
    check_apub_id_valid, check_apub_id_valid_with_strictness, evaluate, fetch_local_site_data,
    Decision, Instance, LocalSiteData, VerifyUrlData,
};
use apub_engine::settings::{local_instance, LocalSite, Settings};

fn instances(domains: &[&str]) -> Vec<Instance> {
    domains
        .iter()
        .enumerate()
        .map(|(i, d)| Instance { id: i as i32 + 1, domain: d.to_string() })
        .collect()
}

fn policy(enabled: bool, allowed: &[&str], blocked: &[&str]) -> LocalSiteData {
    fetch_local_site_data(
        Ok(LocalSite { federation_enabled: enabled, federation_worker_count: 8 }),
        Ok(instances(allowed)),
        Ok(instances(blocked)),
    )
    .unwrap()
}

fn settings() -> Settings {
    Settings { hostname: "lemmy.local:8536".to_string(), tls_enabled: true }
}

fn decide(domain: &str, scheme: &str, data: &LocalSiteData, strict: bool) -> Decision {
    evaluate(
        &domain.to_string(),
        &scheme.to_string(),
        &"lemmy.local".to_string(),
        &"https".to_string(),
        data,
        strict,
    )
}

#[test]
fn local_domain_is_allowed_under_every_policy() {
    let closed = policy(false, &["friend.example"], &["lemmy.local"]);
    assert_eq!(decide("lemmy.local", "http", &closed, true), Decision::Allow);
    assert_eq!(decide("lemmy.local", "http", &closed, false), Decision::Allow);
}

#[test]
fn federation_disabled_denies_remote_domains() {
    let data = policy(false, &[], &[]);
    assert_eq!(
        decide("remote.example", "https", &data, false),
        Decision::Deny(DenyReason::FederationDisabled)
    );
}

#[test]
fn wrong_scheme_is_denied() {
    let data = policy(true, &[], &[]);
    assert_eq!(
        decide("remote.example", "http", &data, false),
        Decision::Deny(DenyReason::InvalidScheme)
    );
}

#[test]
fn blocked_domain_is_denied_even_if_allowed() {
    let data = policy(true, &["evil.example"], &["evil.example"]);
    assert_eq!(
        decide("evil.example", "https", &data, false),
        Decision::Deny(DenyReason::DomainBlocked)
    );
    assert_eq!(
        decide("evil.example", "https", &data, true),
        Decision::Deny(DenyReason::DomainBlocked)
    );
}

#[test]
fn allowlist_excludes_unlisted_domains() {
    let data = policy(true, &["friend.example"], &[]);
    assert_eq!(
        decide("other.example", "https", &data, false),
        Decision::Deny(DenyReason::DomainNotInAllowlist)
    );
    assert_eq!(
        decide("other.example", "https", &data, true),
        Decision::Deny(DenyReason::ForbiddenByStrictAllowlist)
    );
    assert_eq!(decide("friend.example", "https", &data, false), Decision::Allow);
    assert_eq!(decide("friend.example", "https", &data, true), Decision::Allow);
}

#[test]
fn empty_lists_restrict_nothing() {
    let data = policy(true, &[], &[]);
    assert_eq!(decide("anyone.example", "https", &data, false), Decision::Allow);
    assert_eq!(decide("anyone.example", "https", &data, true), Decision::Allow);
}

#[test]
fn missing_site_row_means_federation_enabled() {
    let data =
        fetch_local_site_data(Err(FederationError::StorageFailure), Ok(vec![]), Ok(vec![])).unwrap();
    assert_eq!(decide("remote.example", "https", &data, false), Decision::Allow);
}

#[test]
fn unreadable_lists_fail_with_the_stores_error() {
    let site = LocalSite { federation_enabled: true, federation_worker_count: 1 };
    let no_allowlist =
        fetch_local_site_data(Ok(site), Err(FederationError::StorageFailure), Ok(vec![]));
    assert!(matches!(no_allowlist, Err(FederationError::StorageFailure)));
    let no_blocklist =
        fetch_local_site_data(Ok(site), Ok(vec![]), Err(FederationError::StorageFailure));
    assert!(matches!(no_blocklist, Err(FederationError::StorageFailure)));
}

#[test]
fn deny_reasons_have_their_messages() {
    assert_eq!(DenyReason::FederationDisabled.message(), "federation disabled");
    assert_eq!(DenyReason::InvalidScheme.message(), "invalid scheme");
    assert_eq!(DenyReason::DomainBlocked.message(), "domain blocked");
    assert_eq!(
        DenyReason::ForbiddenByStrictAllowlist.message(),
        "forbidden by strict allowlist"
    );
    assert_eq!(DenyReason::DomainNotInAllowlist.message(), "domain not in allowlist");
    assert_eq!(
        FederationError::DomainRejected(DenyReason::DomainBlocked).message(),
        "domain blocked"
    );
    assert_eq!(FederationError::Forbidden.message(), "only local admin can remove community");
    assert_eq!(FederationError::MalformedActivity.message(), "malformed activity");
    assert_eq!(FederationError::ActorMismatch.message(), "actor mismatch");
    assert_eq!(FederationError::ObjectNotFound.message(), "object not found");
    assert_eq!(FederationError::NotImplemented.message(), "not implemented");
    assert_eq!(FederationError::StorageFailure.message(), "storage failure");
}

#[test]
fn identifiers_are_parsed_into_their_parts() {
    let iri = Iri::parse("HTTPS://Example.COM/u/alice").unwrap();
    assert_eq!(iri.text, "https://example.com/u/alice");
    assert_eq!(iri.scheme, "https");
    assert_eq!(iri.domain.as_deref(), Some("example.com"));

    let bare = Iri::parse("https://example.com").unwrap();
    assert_eq!(bare.text, "https://example.com/");

    let by_address = Iri::parse("https://127.0.0.1/index.html").unwrap();
    assert_eq!(by_address.domain, None);

    assert!(Iri::parse("not a url").is_none());
    assert!(Iri::parse("").is_none());
}

#[test]
fn identifiers_are_the_same_when_their_normal_forms_are() {
    let a = Iri::parse("https://Example.com").unwrap();
    let b = Iri::parse("https://example.com/").unwrap();
    let c = Iri::parse("https://example.com/other").unwrap();
    assert!(a.same(&b));
    assert!(!a.same(&c));
}

#[test]
fn check_apub_id_valid_applies_permissive_policy() {
    let data = policy(true, &["friend.example"], &["evil.example"]);
    let s = settings();
    let local = Iri::parse("https://lemmy.local/post/1").unwrap();
    let friend = Iri::parse("https://friend.example/post/1").unwrap();
    let evil = Iri::parse("https://evil.example/post/1").unwrap();
    let other = Iri::parse("https://other.example/post/1").unwrap();
    let plain = Iri::parse("http://friend.example/post/1").unwrap();
    assert_eq!(check_apub_id_valid(&local, &data, &s), Ok(()));
    assert_eq!(check_apub_id_valid(&friend, &data, &s), Ok(()));
    assert_eq!(check_apub_id_valid(&evil, &data, &s), Err(DenyReason::DomainBlocked));
    assert_eq!(check_apub_id_valid(&other, &data, &s), Err(DenyReason::DomainNotInAllowlist));
    assert_eq!(check_apub_id_valid(&plain, &data, &s), Err(DenyReason::InvalidScheme));
}

#[test]
fn check_apub_id_valid_with_strictness_names_the_mode() {
    let data = policy(true, &["friend.example"], &[]);
    let s = settings();
    let other = Iri::parse("https://other.example/c/main").unwrap();
    let local = Iri::parse("https://lemmy.local/c/main").unwrap();
    assert_eq!(
        check_apub_id_valid_with_strictness(&other, true, &data, &s),
        Err(FederationError::DomainRejected(DenyReason::ForbiddenByStrictAllowlist))
    );
    assert_eq!(
        check_apub_id_valid_with_strictness(&other, false, &data, &s),
        Err(FederationError::DomainRejected(DenyReason::DomainNotInAllowlist))
    );
    assert_eq!(check_apub_id_valid_with_strictness(&local, true, &data, &s), Ok(()));
}

#[test]
fn url_verifier_uses_its_own_policy() {
    let verifier = VerifyUrlData {
        local_site_data: policy(true, &[], &["evil.example"]),
        settings: settings(),
    };
    let evil = Iri::parse("https://evil.example/inbox").unwrap();
    let fine = Iri::parse("https://fine.example/inbox").unwrap();
    assert_eq!(verifier.verify(&evil), Err(DenyReason::DomainBlocked));
    assert_eq!(verifier.verify(&fine), Ok(()));
}

#[test]
fn settings_give_protocol_and_host() {
    let s = settings();
    assert_eq!(s.get_protocol_string(), "https");
    assert_eq!(s.get_protocol_and_hostname(), "https://lemmy.local:8536");
    assert_eq!(s.get_hostname_without_port(), "lemmy.local");

    let plain = Settings { hostname: "example.org".to_string(), tls_enabled: false };
    assert_eq!(plain.get_protocol_string(), "http");
    assert_eq!(plain.get_protocol_and_hostname(), "http://example.org");
    assert_eq!(plain.get_hostname_without_port(), "example.org");

    let odd = Settings { hostname: ":8536".to_string(), tls_enabled: false };
    assert_eq!(odd.get_hostname_without_port(), "");
    let two = Settings { hostname: "a:1:2".to_string(), tls_enabled: false };
    assert_eq!(two.get_hostname_without_port(), "a");
}

#[test]
fn local_instance_reads_the_worker_count() {
    let s = settings();
    let none = local_instance(&s, None, false);
    assert_eq!(none.worker_count, 64);
    assert_eq!(none.http_fetch_limit, 25);
    assert_eq!(none.domain, "lemmy.local:8536");
    assert!(none.http_signature_compat);
    assert!(!none.debug);

    let some = local_instance(
        &s,
        Some(LocalSite { federation_enabled: true, federation_worker_count: 12 }),
        true,
    );
    assert_eq!(some.worker_count, 12);
    assert!(some.debug);

    let negative = local_instance(
        &s,
        Some(LocalSite { federation_enabled: true, federation_worker_count: -1 }),
        false,
    );
    assert_eq!(negative.worker_count, u64::MAX);
    let lowest = local_instance(
        &s,
        Some(LocalSite { federation_enabled: true, federation_worker_count: i32::MIN }),
        false,
    );
    assert_eq!(lowest.worker_count, i32::MIN as u64);
}

#[test]
fn identifier_without_domain_is_never_allowed() {
    let data = policy(true, &[], &[]);
    let s = settings();
    let by_address = Iri::parse("https://127.0.0.1/post/1").unwrap();
    assert!(check_apub_id_valid(&by_address, &data, &s).is_err());
    assert_eq!(
        check_apub_id_valid_with_strictness(&by_address, false, &data, &s),
        Err(FederationError::MalformedActivity)
    );
    assert_eq!(
        check_apub_id_valid_with_strictness(&by_address, true, &data, &s),
        Err(FederationError::MalformedActivity)
    );
}
