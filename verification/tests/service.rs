use std::collections::HashMap;

use token_service::auth::{
    Action, AuthService, Event, Pending, Request, TokenError, MAX_CONNECT_TIME,
    MIGRATION_EXPIRY, RECONNECT_FREQUENCY,
};
use token_service::cache::{Failure, Pipe, RedisFault};
use token_service::redis_auth::DAY_IN_SECONDS;
use token_service::token::Token;

/// A stand-in for the remote store: a map with expiry times, which can be
/// switched off and on.
struct Remote {
    up: bool,
    data: HashMap<String, (String, u64)>,
    probes: u64,
    sends: u64,
}

fn remote(up: bool) -> Remote {
    Remote { up, data: HashMap::new(), probes: 0, sends: 0 }
}

fn dropped() -> Failure {
    Failure::Fault(RedisFault { connection_dropped: true, unrecoverable: false, type_error: false })
}

fn absent() -> Failure {
    Failure::Fault(RedisFault { connection_dropped: false, unrecoverable: false, type_error: true })
}

fn send(remote: &mut Remote, pipe: Pipe) -> Result<(), Failure> {
    remote.sends += 1;
    if !remote.up {
        return Err(Failure::Unconnected);
    }
    for command in pipe.commands {
        if command.if_absent && remote.data.contains_key(&command.key) {
            continue;
        }
        remote.data.insert(command.key, (command.value, command.expiry_sec));
    }
    Ok(())
}

fn fetch(remote: &Remote, key: &str) -> Result<String, Failure> {
    if !remote.up {
        return Err(dropped());
    }
    match remote.data.get(key) {
        Some((value, _)) => Ok(value.clone()),
        None => Err(absent()),
    }
}

/// Performs actions against the stand-in until the request is served.
fn settle(service: &mut AuthService, remote: &mut Remote, first: Action) -> Action {
    let mut action = first;
    loop {
        let event = match action {
            Action::Connect { addr, seconds } => {
                assert_eq!(addr, "redis://store");
                assert_eq!(seconds, MAX_CONNECT_TIME);
                remote.probes += 1;
                Event::Connected(remote.up)
            }
            Action::Send(pipe) => Event::Sent(send(remote, pipe)),
            Action::Fetch(key) => Event::Fetched(fetch(remote, &key)),
            done => return done,
        };
        action = service.resume(event).unwrap();
    }
}

fn issue_token(service: &mut AuthService, remote: &mut Remote, user_id: u64) -> Token {
    let first = service.generate_user_token(user_id);
    match settle(service, remote, first) {
        Action::Issued(token) => token,
        _ => panic!("an issue ends with a token"),
    }
}

fn validate(
    service: &mut AuthService,
    remote: &mut Remote,
    user_id: u64,
    text: &str,
) -> Result<bool, TokenError> {
    let first = service.validate(user_id, text);
    match settle(service, remote, first) {
        Action::Validated(verdict) => verdict,
        _ => panic!("a validation ends with a verdict"),
    }
}

#[test]
fn issued_token_validates_then_is_replaced_remotely() {
    let mut store = remote(true);
    let mut service = AuthService::new("redis://store", true);
    assert!(service.is_online());
    assert_eq!(validate(&mut service, &mut store, 42, &Token { bits: 7 }.to_string()), Ok(false));
    let first = issue_token(&mut service, &mut store, 42);
    assert_eq!(validate(&mut service, &mut store, 42, &first.to_string()), Ok(true));
    let second = issue_token(&mut service, &mut store, 42);
    assert_ne!(first, second);
    assert_eq!(validate(&mut service, &mut store, 42, &first.to_string()), Ok(false));
    assert_eq!(validate(&mut service, &mut store, 42, &second.to_string()), Ok(true));
    assert!(service.is_online());
    assert_eq!(store.probes, 0);
}

#[test]
fn issued_token_validates_then_is_replaced_in_memory() {
    let mut store = remote(false);
    let mut service = AuthService::new("redis://store", false);
    assert!(!service.is_online());
    let first = issue_token(&mut service, &mut store, 42);
    assert_eq!(validate(&mut service, &mut store, 42, &first.to_string()), Ok(true));
    let second = issue_token(&mut service, &mut store, 42);
    assert_ne!(first, second);
    assert_eq!(validate(&mut service, &mut store, 42, &first.to_string()), Ok(false));
    assert_eq!(validate(&mut service, &mut store, 42, &second.to_string()), Ok(true));
    assert_eq!(validate(&mut service, &mut store, 43, &second.to_string()), Ok(false));
    assert!(!service.is_online());
    assert_eq!(service.misses(), 6);
    assert!(store.data.is_empty());
}

#[test]
fn remote_store_down_still_issues_and_validates() {
    let mut store = remote(false);
    let mut service = AuthService::new("redis://store", true);
    let token = issue_token(&mut service, &mut store, 7);
    assert!(!service.is_online());
    assert_eq!(service.misses(), 1);
    assert_eq!(validate(&mut service, &mut store, 7, &token.to_string()), Ok(true));
    assert!(!service.is_online());
    assert_eq!(service.misses(), 2);
    assert_eq!(
        validate(&mut service, &mut store, 7, "not-a-uuid"),
        Err(TokenError::MalformedToken)
    );
    assert_eq!(service.misses(), 2);
}

#[test]
fn malformed_token_is_refused_on_either_store() {
    let mut store = remote(true);
    let mut online = AuthService::new("redis://store", true);
    let mut offline = AuthService::new("redis://store", false);
    for text in ["", "not-a-uuid", "550e8400-e29b-41d4-a716-44665544000", "zzzzzzzz-e29b-41d4-a716-446655440000"] {
        assert_eq!(validate(&mut online, &mut store, 1, text), Err(TokenError::MalformedToken));
        assert_eq!(validate(&mut offline, &mut store, 1, text), Err(TokenError::MalformedToken));
    }
    assert!(online.is_online());
    assert!(!offline.is_online());
    assert_eq!(offline.misses(), 0);
    assert_eq!(store.probes, 0);
    assert_eq!(online.pending(), Pending::Idle);
}

#[test]
fn failed_read_demotes_and_reports_unavailable() {
    let mut store = remote(true);
    let mut service = AuthService::new("redis://store", true);
    let token = issue_token(&mut service, &mut store, 9);
    store.up = false;
    assert_eq!(
        validate(&mut service, &mut store, 9, &token.to_string()),
        Err(TokenError::BackendUnavailable)
    );
    assert!(!service.is_online());
    assert_eq!(service.misses(), 1);
    // the registry in memory starts empty: the token is unknown there
    assert_eq!(validate(&mut service, &mut store, 9, &token.to_string()), Ok(false));
}

#[test]
fn one_probe_per_request_served_from_memory() {
    assert_eq!(RECONNECT_FREQUENCY, 1);
    let mut store = remote(false);
    let mut service = AuthService::new("redis://store", false);
    let first = service.generate_user_token(3);
    match &first {
        Action::Connect { addr, seconds } => {
            assert_eq!(addr, "redis://store");
            assert_eq!(*seconds, 1);
        }
        _ => panic!("a probe is due"),
    }
    assert_eq!(service.pending(), Pending::Probing(Request::Issue { user_id: 3 }));
    assert!(matches!(settle(&mut service, &mut store, first), Action::Issued(_)));
    assert_eq!(store.probes, 1);
    assert_eq!(store.sends, 0);
    issue_token(&mut service, &mut store, 4);
    assert_eq!(store.probes, 2);
}

#[test]
fn tokens_issued_offline_validate_after_reconnect() {
    let mut store = remote(false);
    let mut service = AuthService::new("redis://store", false);
    let a = issue_token(&mut service, &mut store, 1);
    let b = issue_token(&mut service, &mut store, 2);
    let c = issue_token(&mut service, &mut store, 18446744073709551615);
    assert_eq!(service.misses(), 3);
    store.up = true;
    let probes = store.probes;
    assert_eq!(validate(&mut service, &mut store, 1, &a.to_string()), Ok(true));
    assert_eq!(store.probes, probes + 1);
    assert!(service.is_online());
    assert_eq!(service.misses(), 0);
    assert_eq!(validate(&mut service, &mut store, 2, &b.to_string()), Ok(true));
    assert_eq!(validate(&mut service, &mut store, 18446744073709551615, &c.to_string()), Ok(true));
    assert_eq!(validate(&mut service, &mut store, 2, &a.to_string()), Ok(false));
    assert_eq!(store.probes, probes + 1);
    assert_eq!(store.data.get("1"), Some(&(a.to_string(), MIGRATION_EXPIRY)));
    assert_eq!(store.data.get(&a.to_string()), Some(&("1".to_string(), MIGRATION_EXPIRY)));
    assert_eq!(store.data.get("18446744073709551615"), Some(&(c.to_string(), 120)));
    assert_eq!(store.data.len(), 6);
}

#[test]
fn failed_migration_keeps_serving_from_memory() {
    let mut store = remote(false);
    let mut service = AuthService::new("redis://store", false);
    let token = issue_token(&mut service, &mut store, 5);
    let first = service.validate(5, &token.to_string());
    assert!(matches!(first, Action::Connect { .. }));
    let second = service.resume(Event::Connected(true)).unwrap();
    match &second {
        Action::Send(pipe) => assert_eq!(pipe.commands.len(), 2),
        _ => panic!("the tokens are carried over"),
    }
    assert_eq!(service.pending(), Pending::Migrating(Request::Validate { user_id: 5, token }));
    let third = service.resume(Event::Sent(Err(dropped()))).unwrap();
    assert!(matches!(third, Action::Validated(Ok(true))));
    assert!(!service.is_online());
    assert_eq!(service.misses(), 2);
}

#[test]
fn remote_issue_writes_both_directions_for_twelve_hours() {
    let mut store = remote(true);
    let mut service = AuthService::new("redis://store", true);
    let token = issue_token(&mut service, &mut store, 42);
    assert_eq!(DAY_IN_SECONDS, 43200);
    assert_eq!(store.data.get("42"), Some(&(token.to_string(), 43200)));
    assert_eq!(store.data.get(&token.to_string()), Some(&("42".to_string(), 43200)));
    assert_eq!(store.data.len(), 2);
}

#[test]
fn unexpected_event_is_refused() {
    let mut service = AuthService::new("redis://store", true);
    assert!(service.resume(Event::Connected(true)).is_none());
    let first = service.generate_user_token(1);
    assert!(matches!(first, Action::Send(_)));
    assert!(service.resume(Event::Connected(true)).is_none());
    assert!(service.resume(Event::Fetched(Ok("x".to_string()))).is_none());
    assert!(matches!(service.pending(), Pending::Storing { user_id: 1, .. }));
    assert!(matches!(service.resume(Event::Sent(Ok(()))), Some(Action::Issued(_))));
    assert_eq!(service.pending(), Pending::Idle);
}

#[test]
fn absent_key_or_foreign_value_is_invalid() {
    let mut store = remote(true);
    let mut service = AuthService::new("redis://store", true);
    let token = Token::generate();
    assert_eq!(validate(&mut service, &mut store, 8, &token.to_string()), Ok(false));
    store.data.insert("8".to_string(), ("garbage".to_string(), 5));
    assert_eq!(validate(&mut service, &mut store, 8, &token.to_string()), Ok(false));
    store.data.insert("8".to_string(), (token.to_string().to_uppercase(), 5));
    assert_eq!(validate(&mut service, &mut store, 8, &token.to_string()), Ok(true));
    assert!(service.is_online());
}
