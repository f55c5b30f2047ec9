use dynhost::config::{accounts_from_sections, ConfigSection};
use dynhost::ovh::{
    classify_update_response, update_requests, update_url, DynHostAccount, UpdateOutcome,
};

fn classify(status: u16, body: &str, ip: &str) -> UpdateOutcome {
    classify_update_response(status, &body.to_string(), &ip.to_string())
}

#[test]
fn good_body_means_updated() {
    assert!(matches!(classify(200, "good 1.2.3.4", "1.2.3.4"), UpdateOutcome::Updated));
    assert!(matches!(classify(200, "good 1.2.3.4 extra", "1.2.3.4"), UpdateOutcome::Updated));
}

#[test]
fn nochg_body_means_no_change() {
    assert!(matches!(classify(200, "nochg 1.2.3.4", "1.2.3.4"), UpdateOutcome::NoChange));
}

#[test]
fn other_text_fails_with_the_body() {
    match classify(200, "abuse", "1.2.3.4") {
        UpdateOutcome::Failed(m) => assert_eq!(m, "abuse"),
        _ => panic!("expected a failure"),
    }
    match classify(200, "good 5.6.7.8", "1.2.3.4") {
        UpdateOutcome::Failed(m) => assert_eq!(m, "good 5.6.7.8"),
        _ => panic!("expected a failure: the body names another address"),
    }
}

#[test]
fn failing_status_fails_naming_it() {
    match classify(404, "good 1.2.3.4", "1.2.3.4") {
        UpdateOutcome::Failed(m) => assert_eq!(m, "HTTP status 404"),
        _ => panic!("expected a failure"),
    }
    match classify(500, "", "1.2.3.4") {
        UpdateOutcome::Failed(m) => assert_eq!(m, "HTTP status 500"),
        _ => panic!("expected a failure"),
    }
}

#[test]
fn update_url_carries_domain_and_address() {
    let url = update_url(&"a.example.com".to_string(), &"10.0.0.1".to_string());
    assert_eq!(
        url,
        "https://www.ovh.com/nic/update?system=dyndns&hostname=a.example.com&myip=10.0.0.1"
    );
}

#[test]
fn one_request_per_account() {
    let accounts = vec![
        DynHostAccount {
            domain: "a.example.com".to_string(),
            username: "u1".to_string(),
            password: "p1".to_string(),
        },
        DynHostAccount {
            domain: "b.example.com".to_string(),
            username: "u2".to_string(),
            password: "p2".to_string(),
        },
    ];
    let reqs = update_requests(&accounts, &"10.0.0.1".to_string());
    assert_eq!(reqs.len(), 2);
    assert_eq!(
        reqs[0].url,
        "https://www.ovh.com/nic/update?system=dyndns&hostname=a.example.com&myip=10.0.0.1"
    );
    assert_eq!(reqs[0].username, "u1");
    assert_eq!(reqs[0].password, "p1");
    assert_eq!(
        reqs[1].url,
        "https://www.ovh.com/nic/update?system=dyndns&hostname=b.example.com&myip=10.0.0.1"
    );
    assert_eq!(reqs[1].username, "u2");
    assert_eq!(reqs[1].password, "p2");
}

fn section(name: &str, entries: &[(&str, Option<&str>)]) -> ConfigSection {
    ConfigSection {
        name: name.to_string(),
        entries: entries
            .iter()
            .map(|(k, v)| (k.to_string(), v.map(|s| s.to_string())))
            .collect(),
    }
}

#[test]
fn complete_sections_become_accounts() {
    let sections = vec![
        section(
            "one",
            &[("domain", Some("a.example.com")), ("username", Some("u")), ("password", Some("p"))],
        ),
        section("broken", &[("domain", Some("b.example.com")), ("username", Some("u2"))]),
        section(
            "two",
            &[("password", Some("p3")), ("domain", Some("c.example.com")), ("username", Some("u3"))],
        ),
    ];
    let accounts = accounts_from_sections(&sections);
    assert_eq!(accounts.len(), 2);
    assert_eq!(accounts[0].domain, "a.example.com");
    assert_eq!(accounts[0].username, "u");
    assert_eq!(accounts[0].password, "p");
    assert_eq!(accounts[1].domain, "c.example.com");
    assert_eq!(accounts[1].username, "u3");
    assert_eq!(accounts[1].password, "p3");
}

#[test]
fn valueless_keys_become_empty_fields() {
    let sections = vec![section(
        "one",
        &[("domain", None), ("username", Some("u")), ("password", Some("p"))],
    )];
    let accounts = accounts_from_sections(&sections);
    assert_eq!(accounts.len(), 1);
    assert_eq!(accounts[0].domain, "");
    assert_eq!(accounts[0].username, "u");
}

#[test]
fn no_complete_section_no_accounts() {
    let sections = vec![section("empty", &[]), section("half", &[("domain", Some("d"))])];
    assert_eq!(accounts_from_sections(&sections).len(), 0);
}
