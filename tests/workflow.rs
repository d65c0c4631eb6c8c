use account_link::audit::{AuditEntry, LogLevel};
use account_link::error::{ErrorKind, MyError};
use account_link::token::derive_token;
use account_link::workflow::{
    create_user, delete_user, og_update_user, update_user, Action, Event, Flow, PlayerData, Reply,
    Session, Stage, Step,
};

struct Record {
    token: String,
    external_id: u64,
    beta: bool,
    writes: u32,
}

struct Outcome {
    logs: Vec<AuditEntry>,
    answer: Result<Reply, MyError>,
    actions: Vec<String>,
}

// Runs a session against an in-memory store and an authority that grants `roles`.
fn run(start: (Session, Step), store: &mut Vec<Record>, roles: Vec<String>) -> Outcome {
    let (mut session, mut step) = start;
    let mut logs = Vec::new();
    let mut actions = Vec::new();
    let mut written: u64 = 0;
    loop {
        if let Some(entry) = step.log {
            logs.push(entry);
        }
        let event = match step.action {
            Action::Connect => {
                actions.push("connect".to_string());
                Event::Connected
            }
            Action::FetchByToken(t) => {
                actions.push("fetch_by_token".to_string());
                match store.iter().find(|r| r.token == t) {
                    Some(r) => Event::Found(r.external_id),
                    None => Event::Missing("no row".to_string()),
                }
            }
            Action::FetchById(id) => {
                actions.push("fetch_by_id".to_string());
                match store.iter().find(|r| r.external_id == id) {
                    Some(r) => Event::Found(r.external_id),
                    None => Event::Missing("no row".to_string()),
                }
            }
            Action::Update { token, beta } => {
                actions.push("update".to_string());
                match store.iter_mut().find(|r| r.token == token) {
                    Some(r) => {
                        r.beta = beta;
                        r.writes += 1;
                        written = r.external_id;
                        Event::Stored(written)
                    }
                    None => Event::StoreFailed("no row".to_string()),
                }
            }
            Action::Create { token, external_id, beta } => {
                actions.push("create".to_string());
                if store.iter().any(|r| r.token == token || r.external_id == external_id) {
                    Event::Conflict("unique violation".to_string())
                } else {
                    store.push(Record { token, external_id, beta, writes: 0 });
                    written = external_id;
                    Event::Stored(written)
                }
            }
            Action::SyncRoles => {
                actions.push("sync_roles".to_string());
                assert!(written != 0);
                Event::Roles(roles.clone())
            }
            Action::Finish(answer) => {
                assert!(session.stage == Stage::Done);
                return Outcome { logs, answer, actions };
            }
        };
        let next = session.step(event);
        session = next.0;
        step = next.1;
    }
}

fn message(outcome: &Outcome) -> String {
    match &outcome.answer {
        Ok(Reply::Message(m)) => m.clone(),
        _ => panic!("expected a message"),
    }
}

fn linked(token: &str, external_id: u64) -> Record {
    Record { token: token.to_string(), external_id, beta: false, writes: 0 }
}

#[test]
fn token_is_hmac_sha1_in_lowercase_hex() {
    let t = derive_token("The quick brown fox ", "jumps over the lazy dog", "key");
    assert_eq!(t, "de7c9b85b8b78aa6bc8a7a36f70a90701c9db4d9");
}

#[test]
fn token_is_deterministic_and_keyed() {
    let a = derive_token("me@example.com", "bearer", "secret");
    let b = derive_token("me@example.com", "bearer", "secret");
    assert_eq!(a, b);
    assert_eq!(a.len(), 40);
    assert!(a.chars().all(|c| c.is_ascii_digit() || ('a'..='f').contains(&c)));
    assert_ne!(a, derive_token("me@example.com", "bearer", "other"));
    assert_ne!(a, derive_token("me@example.com", "bearer2", "secret"));
    assert_ne!(a, derive_token("you@example.com", "bearer", "secret"));
}

#[test]
fn legacy_update_end_to_end() {
    let token = derive_token("p1", "t1", "k");
    let mut store = vec![linked(&token, 42)];
    let query = PlayerData { player_id: "p1".to_string() };
    let out = run(og_update_user(&query, "t1", true, "k"), &mut store, vec!["EarlyBird".to_string()]);
    assert_eq!(
        message(&out),
        "The request was successful, you've gained the following roles: EarlyBird"
    );
    assert_eq!(out.logs.len(), 1);
    assert!(out.logs[0].level == LogLevel::Informational);
    assert_eq!(out.logs[0].message, "user with ID 42 gained the following roles: EarlyBird");
    assert!(store[0].beta);
    assert_eq!(store[0].writes, 1);
}

#[test]
fn update_lists_roles_in_authority_order() {
    let token = derive_token("a@b.c", "tok", "k");
    let mut store = vec![linked(&token, 7)];
    let roles = vec!["Veteran".to_string(), "Beta".to_string()];
    let out = run(update_user("a@b.c", "tok", "Beta", "k"), &mut store, roles);
    assert_eq!(
        message(&out),
        "The request was successful, you've gained the following roles: Veteran, Beta"
    );
    assert_eq!(out.logs[0].message, "user with ID 7 gained the following roles: Veteran, Beta");
    assert!(store[0].beta);
}

#[test]
fn update_with_no_new_roles() {
    let token = derive_token("a@b.c", "tok", "k");
    let mut store = vec![linked(&token, 7)];
    let out = run(update_user("a@b.c", "tok", "beta", "k"), &mut store, vec![]);
    assert_eq!(
        message(&out),
        "The request was successful, but you've already gained all of the possible roles with your current progress"
    );
    assert_eq!(out.logs[0].message, "user with ID 7 had a successful request but gained no roles");
    assert!(!store[0].beta);
}

#[test]
fn update_without_record_fails_and_creates_nothing() {
    let mut store = Vec::new();
    let out = run(update_user("a@b.c", "tok", "Beta", "k"), &mut store, vec![]);
    match out.answer {
        Err(e) => {
            assert!(e == MyError::NotLinked);
            assert!(e.kind() == ErrorKind::InternalError);
        }
        Ok(_) => panic!("expected an error"),
    }
    assert!(store.is_empty());
    assert_eq!(out.logs.len(), 1);
    assert!(out.logs[0].level == LogLevel::Failure);
    let token = derive_token("a@b.c", "tok", "k");
    assert!(out.logs[0].message.contains(&token));
    assert!(out.logs[0].message.contains("no row"));
}

#[test]
fn create_with_default_attributes_synchronizes_roles() {
    let mut store = Vec::new();
    let out = run(create_user("a@b.c", "tok", Some("Beta"), 99, false, "k"), &mut store, vec!["Newcomer".to_string()]);
    assert_eq!(
        message(&out),
        "The request was successful, you've gained the following roles: Newcomer"
    );
    assert_eq!(store.len(), 1);
    assert!(store[0].beta);
    assert_eq!(store[0].token, derive_token("a@b.c", "tok", "k"));
    assert_eq!(out.actions, vec!["connect", "fetch_by_token", "fetch_by_id", "create", "sync_roles"]);
    // both probes' misses are recorded, then the roles
    assert_eq!(out.logs.len(), 3);
    assert!(out.logs[2].message == "user with ID 99 gained the following roles: Newcomer");
}

#[test]
fn create_with_explicit_attributes_returns_record() {
    let mut store = Vec::new();
    let out = run(create_user("a@b.c", "tok", None, 99, true, "k"), &mut store, vec![]);
    assert!(matches!(out.answer, Ok(Reply::Created)));
    assert_eq!(store.len(), 1);
    assert!(!store[0].beta);
    assert!(!out.actions.contains(&"sync_roles".to_string()));
    let last = out.logs.last().unwrap();
    assert!(last.level == LogLevel::Successful);
    assert_eq!(last.message, "created userdata for user of id '99'");
}

#[test]
fn create_twice_leaves_one_record() {
    let mut store = Vec::new();
    let first = run(create_user("a@b.c", "tok", None, 5, false, "k"), &mut store, vec![]);
    assert!(first.answer.is_ok());
    let second = run(create_user("a@b.c", "tok", None, 5, false, "k"), &mut store, vec![]);
    assert!(matches!(second.answer, Err(MyError::AlreadyLinked)));
    assert_eq!(store.len(), 1);
    let third = run(create_user("a@b.c", "tok", None, 6, false, "k"), &mut store, vec![]);
    match third.answer {
        Err(e) => {
            assert!(e == MyError::TokenBoundElsewhere);
            assert!(e.kind() == ErrorKind::BadRequest);
            assert_eq!(e.message(), "This account is already bound to another discord id");
        }
        Ok(_) => panic!("expected a conflict"),
    }
    assert_eq!(store.len(), 1);
    assert!(!third.actions.contains(&"create".to_string()));
    let token = derive_token("a@b.c", "tok", "k");
    for out in [&second, &third] {
        let last = out.logs.last().unwrap();
        assert!(last.level == LogLevel::Failure);
        assert!(last.message.contains(&token));
        assert!(last.message.contains("found a record with external id 5"));
    }
    assert_eq!(
        second.logs.last().unwrap().message,
        format!(
            "Error with a user\n\ntoken: {}\n\nYou're already linked, please use the update endpoint: found a record with external id 5",
            token
        )
    );
}

#[test]
fn create_with_taken_external_id_is_bad_request() {
    let mut store = vec![linked("someone-else", 5)];
    let out = run(create_user("a@b.c", "tok", Some("Beta"), 5, false, "k"), &mut store, vec![]);
    match out.answer {
        Err(e) => {
            assert!(e == MyError::IdBoundElsewhere);
            assert!(e.kind() == ErrorKind::BadRequest);
            assert_eq!(e.message(), "This discord id is already bound to another account");
        }
        Ok(_) => panic!("expected a conflict"),
    }
    assert_eq!(store.len(), 1);
    assert_eq!(store[0].token, "someone-else");
    assert_eq!(store[0].writes, 0);
    let last = out.logs.last().unwrap();
    assert!(last.level == LogLevel::Failure);
    assert!(last.message.contains(&derive_token("a@b.c", "tok", "k")));
}

#[test]
fn create_stops_when_a_probe_fails_in_the_store() {
    let (s, _) = create_user("a@b.c", "tok", None, 9, false, "k");
    let (s, _) = s.step(Event::Connected);
    let (s, step) = s.step(Event::LookupFailed("connection reset".to_string()));
    assert!(s.stage == Stage::Done);
    assert!(matches!(step.action, Action::Finish(Err(MyError::LookupFailed))));
    assert!(MyError::LookupFailed.kind() == ErrorKind::InternalError);
    assert!(step.log.unwrap().message.contains("connection reset"));

    let (s, _) = create_user("a@b.c", "tok", None, 9, false, "k");
    let (s, _) = s.step(Event::Connected);
    let (s, _) = s.step(Event::Missing("no row".to_string()));
    let (_, step) = s.step(Event::LookupFailed("timeout".to_string()));
    assert!(matches!(step.action, Action::Finish(Err(MyError::LookupFailed))));
}

#[test]
fn create_that_loses_a_race_is_a_conflict() {
    let (s, _) = create_user("a@b.c", "tok", None, 9, false, "k");
    let (s, _) = s.step(Event::Connected);
    let (s, _) = s.step(Event::Missing("no row".to_string()));
    let (s, step) = s.step(Event::Missing("no row".to_string()));
    assert!(matches!(step.action, Action::Create { external_id: 9, beta: false, .. }));
    let (_, step) = s.step(Event::Conflict("duplicate key".to_string()));
    match step.action {
        Action::Finish(Err(e)) => {
            assert!(e == MyError::LinkConflict);
            assert!(e.kind() == ErrorKind::BadRequest);
        }
        _ => panic!("expected a conflict"),
    }
    assert!(step.log.unwrap().level == LogLevel::Failure);
}

#[test]
fn update_conflict_is_an_update_failure() {
    let (s, _) = update_user("a@b.c", "tok", "", "k");
    let (s, _) = s.step(Event::Connected);
    let (s, _) = s.step(Event::Found(4));
    let (_, step) = s.step(Event::Conflict("duplicate key".to_string()));
    assert!(matches!(step.action, Action::Finish(Err(MyError::UpdateFailed))));
}

#[test]
fn update_with_failing_lookup_is_not_linked() {
    let (s, _) = update_user("a@b.c", "tok", "", "k");
    let (s, _) = s.step(Event::Connected);
    let (_, step) = s.step(Event::LookupFailed("timeout".to_string()));
    assert!(matches!(step.action, Action::Finish(Err(MyError::NotLinked))));
}

#[test]
fn starters_carry_a_forty_digit_token() {
    let (s, _) = og_update_user(&PlayerData { player_id: "p1".to_string() }, "t1", false, "k");
    assert_eq!(s.token, derive_token("p1", "t1", "k"));
    assert_eq!(s.token.len(), 40);
    let (u, _) = update_user("p1", "t1", "Beta", "k");
    assert_eq!(u.token, s.token);
    assert!(u.beta);
}

#[test]
fn delete_is_verify_only() {
    let token = derive_token("a@b.c", "tok", "k");
    let mut store = vec![linked(&token, 3)];
    let out = run(delete_user("a@b.c", "tok", "k"), &mut store, vec![]);
    assert!(matches!(out.answer, Ok(Reply::NoContent)));
    assert!(out.logs.is_empty());
    assert_eq!(store.len(), 1);
    assert_eq!(store[0].writes, 0);
    let again = run(delete_user("a@b.c", "tok", "k"), &mut store, vec![]);
    assert!(matches!(again.answer, Ok(Reply::NoContent)));
}

#[test]
fn delete_without_record_fails() {
    let mut store = Vec::new();
    let out = run(delete_user("a@b.c", "tok", "k"), &mut store, vec![]);
    assert!(matches!(out.answer, Err(MyError::DeleteFailed)));
    assert!(out.logs[0].level == LogLevel::Failure);
}

#[test]
fn connection_failure_is_logged_without_token() {
    let (session, _) = update_user("a@b.c", "tok", "Beta", "k");
    let (session, step) = session.step(Event::ConnectFailed("pool exhausted".to_string()));
    assert!(session.stage == Stage::Done);
    assert!(matches!(step.action, Action::Finish(Err(MyError::ClientUnavailable))));
    let entry = step.log.unwrap();
    assert!(entry.level == LogLevel::Failure);
    assert_eq!(
        entry.message,
        "request failed at creating database client, please try again: pool exhausted"
    );
}

#[test]
fn store_and_role_failures_are_classified() {
    let (s, _) = update_user("a@b.c", "tok", "Beta", "k");
    let token = s.token.clone();
    let (s, _) = s.step(Event::Connected);
    let (s, step) = s.step(Event::Found(1));
    assert!(matches!(step.action, Action::Update { beta: true, .. }));
    let (_, step) = s.step(Event::StoreFailed("disk full".to_string()));
    assert!(matches!(step.action, Action::Finish(Err(MyError::UpdateFailed))));
    assert_eq!(
        step.log.unwrap().message,
        format!(
            "Error with a user\n\ntoken: {}\n\nThe request has unfortunately failed the update: disk full",
            token
        )
    );

    let (s, _) = create_user("a@b.c", "tok", None, 9, false, "k");
    assert!(s.flow == Flow::Create);
    let (s, _) = s.step(Event::Connected);
    let (s, _) = s.step(Event::Missing("no row".to_string()));
    let (s, _) = s.step(Event::Missing("no row".to_string()));
    let (_, step) = s.step(Event::StoreFailed("boom".to_string()));
    assert!(matches!(step.action, Action::Finish(Err(MyError::CreateFailed))));

    let (s, _) = og_update_user(&PlayerData { player_id: "p".to_string() }, "t", false, "k");
    let (s, _) = s.step(Event::Connected);
    let (s, _) = s.step(Event::Found(2));
    let (s, step) = s.step(Event::Stored(2));
    assert!(matches!(step.action, Action::SyncRoles));
    assert!(s.external_id == 2);
    let (_, step) = s.step(Event::RolesFailed("api down".to_string()));
    assert!(matches!(step.action, Action::Finish(Err(MyError::RoleSyncFailed))));
    assert!(step.log.unwrap().level == LogLevel::Failure);
}

#[test]
fn error_kinds_and_messages() {
    assert!(MyError::NotFound.kind() == ErrorKind::NotFound);
    assert!(MyError::AlreadyLinked.kind() == ErrorKind::InternalError);
    assert_eq!(MyError::AlreadyLinked.message(), "You're already linked, please use the update endpoint");
    assert_eq!(
        MyError::NotLinked.message(),
        "Failed at retrieving existing data, you may not have your account linked yet"
    );
}
