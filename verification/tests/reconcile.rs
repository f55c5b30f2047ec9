use dynhost::funbox::ApiError;
use dynhost::ovh::{update_requests, DynHostAccount};
use dynhost::reconcile::{poll_delay_seconds, LoginStep, LoopState, PollStep, Reconciler};

#[test]
fn starts_polling_with_no_address() {
    let r = Reconciler::new();
    assert!(r.state == LoopState::Polling);
    assert_eq!(r.last_ip, "");
}

#[test]
fn invalid_address_waits_and_keeps_polling() {
    let mut r = Reconciler::new();
    let d = r.on_poll(Ok("999.1.1.1".to_string()));
    match &d {
        PollStep::InvalidIp(ip) => assert_eq!(ip, "999.1.1.1"),
        _ => panic!("expected the invalid-address step"),
    }
    assert_eq!(poll_delay_seconds(&d), 15);
    assert!(r.state == LoopState::Polling);
    assert_eq!(r.last_ip, "");
}

#[test]
fn unchanged_address_waits_a_second() {
    let mut r = Reconciler::new();
    r.on_poll(Ok("10.0.0.1".to_string()));
    let d = r.on_poll(Ok("10.0.0.1".to_string()));
    assert!(matches!(d, PollStep::Unchanged));
    assert_eq!(poll_delay_seconds(&d), 1);
    assert_eq!(r.last_ip, "10.0.0.1");
}

#[test]
fn transient_failure_waits_thirty_seconds() {
    let mut r = Reconciler::new();
    let d = r.on_poll(Err(ApiError::Message("connection reset".to_string())));
    match &d {
        PollStep::Transient(m) => assert_eq!(m, "connection reset"),
        _ => panic!("expected the transient step"),
    }
    assert_eq!(poll_delay_seconds(&d), 30);
    assert!(r.state == LoopState::Polling);
}

#[test]
fn unauthorized_while_polling_forces_reauthentication() {
    let mut r = Reconciler::new();
    r.on_poll(Ok("10.0.0.1".to_string()));
    let d = r.on_poll(Err(ApiError::Unauthorized));
    assert!(matches!(d, PollStep::Reauthenticate));
    assert!(r.state == LoopState::AwaitingReauthentication);
    assert_eq!(r.last_ip, "10.0.0.1");
}

#[test]
fn message_failure_never_forces_reauthentication() {
    let mut r = Reconciler::new();
    let d = r.on_poll(Err(ApiError::Message("boom".to_string())));
    assert!(!matches!(d, PollStep::Reauthenticate));
    assert!(r.state == LoopState::Polling);
}

#[test]
fn successful_relogin_resumes_polling() {
    let mut r = Reconciler::new();
    r.on_poll(Ok("10.0.0.1".to_string()));
    r.on_poll(Err(ApiError::Unauthorized));
    let d = r.on_login(Ok(()));
    assert!(matches!(d, LoginStep::Resume));
    assert!(r.state == LoopState::Polling);
    assert_eq!(r.last_ip, "10.0.0.1");
}

#[test]
fn failed_relogin_terminates() {
    let mut r = Reconciler::new();
    r.on_poll(Err(ApiError::Unauthorized));
    let d = r.on_login(Err(ApiError::Message("denied".to_string())));
    match d {
        LoginStep::FatalError(m) => assert_eq!(m, "denied"),
        _ => panic!("expected the fatal step"),
    }
    assert!(r.state == LoopState::Terminated);
}

#[test]
fn repeated_unauthorized_terminates_distinctly() {
    let mut r = Reconciler::new();
    r.on_poll(Err(ApiError::Unauthorized));
    let d = r.on_login(Err(ApiError::Unauthorized));
    assert!(matches!(d, LoginStep::FatalUnauthorized));
    assert!(r.state == LoopState::Terminated);
}

#[test]
fn one_update_pass_per_distinct_new_address() {
    let accounts = vec![DynHostAccount {
        domain: "a.example.com".to_string(),
        username: "u".to_string(),
        password: "p".to_string(),
    }];
    let mut r = Reconciler::new();
    let mut provider_calls: Vec<String> = Vec::new();

    for reported in ["10.0.0.1", "10.0.0.1", "10.0.0.2"] {
        let d = r.on_poll(Ok(reported.to_string()));
        if let PollStep::Changed(ip) = &d {
            for req in update_requests(&accounts, ip) {
                provider_calls.push(req.url);
            }
        }
    }

    assert_eq!(provider_calls.len(), 2);
    assert!(provider_calls[0].ends_with("&myip=10.0.0.1"));
    assert!(provider_calls[0].contains("hostname=a.example.com"));
    assert!(provider_calls[1].ends_with("&myip=10.0.0.2"));
    assert_eq!(r.last_ip, "10.0.0.2");
}

#[test]
fn invalid_and_repeated_addresses_never_update() {
    let mut r = Reconciler::new();
    let mut updates: usize = 0;
    for reported in ["bogus", "10.0.0.1", "10.0.0.1", "10.0.0.300", "10.0.0.1"] {
        let d = r.on_poll(Ok(reported.to_string()));
        if matches!(d, PollStep::Changed(_)) {
            updates += 1;
        }
    }
    assert_eq!(updates, 1);
    assert_eq!(r.last_ip, "10.0.0.1");
}
