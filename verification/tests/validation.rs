use identity_provider::config::AuthConfig;
use identity_provider::idp::{PgIDPContext, Validation};
use identity_provider::session::{CachedSession, Session};
use identity_provider::time::Timestamp;
use std::collections::HashMap;

const ID: &str = "67e55044-10b1-426f-9247-bb680e5fe0c8";
const OTHER_ID: &str = "936da01f-9abd-4d9d-80c7-02af85c822a8";

/// A session store in memory that counts how often it is asked.
struct CountingStore {
    sessions: HashMap<String, Timestamp>,
    lookups: usize,
}

fn store_with(sessions: &[(&str, Timestamp)]) -> CountingStore {
    CountingStore {
        sessions: sessions.iter().map(|(id, end)| (id.to_string(), *end)).collect(),
        lookups: 0,
    }
}

fn provider(lifetime: u32, limit: usize) -> PgIDPContext {
    PgIDPContext::new(&AuthConfig {
        session_lifetime_seconds: lifetime,
        invalid_sessions_cache_limit: limit,
    })
}

/// Runs both steps of a validation against the store, as a caller does.
fn validate(idp: &mut PgIDPContext, store: &mut CountingStore, id: &str, now: Timestamp) -> bool {
    match idp.begin_validate_at(id, &now) {
        Validation::Decided(valid) => valid,
        Validation::AskStore => {
            store.lookups += 1;
            let stored = store.sessions.get(id).copied();
            idp.complete_validate_at(id.to_owned(), stored, &now)
        }
    }
}

#[test]
fn new_provider_takes_its_settings() {
    let idp = provider(3600, 7);
    assert_eq!(idp.session_lifetime_seconds(), 3600);
    assert_eq!(idp.cached_sessions(), 0);
    assert_eq!(idp.cached(ID), None);
}

#[test]
fn malformed_identifiers_are_refused_without_asking_the_store() {
    let mut idp = provider(3600, 4);
    let mut store = store_with(&[]);
    let now = Timestamp::new(1000, 0);
    let malformed = [
        "",
        "not-a-uuid",
        "67e55044-10b1-426f-9247-bb680e5fe0c",
        "67e55044-10b1-426f-9247-bb680e5fe0c8a",
        "67e55044-10b1-426f-9247-bb680e5fe0cg",
        "67e55044_10b1_426f_9247_bb680e5fe0c8",
        "67e5504-410b1-426f-9247-bb680e5fe0c8",
        " 67e55044-10b1-426f-9247-bb680e5fe0c",
        "67e55044-10b1-426f-9247-bb680e5fe0c\u{e9}",
        "\u{ff16}7e55044-10b1-426f-9247-bb680e5fe0c8",
    ];
    for id in malformed {
        assert_eq!(idp.begin_validate_at(id, &now), Validation::Decided(false));
        assert!(!validate(&mut idp, &mut store, id, now));
        assert_eq!(idp.begin_validate(id), Validation::Decided(false));
    }
    assert_eq!(store.lookups, 0);
    assert_eq!(idp.cached_sessions(), 0);
}

#[test]
fn only_the_hyphenated_form_is_an_identifier() {
    let mut idp = provider(3600, 4);
    let now = Timestamp::new(1000, 0);
    let other_forms = [
        "67e5504410b1426f9247bb680e5fe0c8",
        "urn:uuid:67e55044-10b1-426f-9247-bb680e5fe0c8",
        "{67e55044-10b1-426f-9247-bb680e5fe0c8}",
    ];
    for id in other_forms {
        assert_eq!(idp.begin_validate_at(id, &now), Validation::Decided(false));
    }
    assert_eq!(idp.cached_sessions(), 0);
}

#[test]
fn hexadecimal_digits_of_either_case_are_accepted() {
    let mut idp = provider(3600, 4);
    let now = Timestamp::new(1000, 0);
    assert_eq!(
        idp.begin_validate_at("F9168C5E-CEB2-4faa-B6BF-329BF39FA1E4", &now),
        Validation::AskStore
    );
    assert_eq!(
        idp.begin_validate_at("00000000-0000-0000-0000-000000000000", &now),
        Validation::AskStore
    );
}

#[test]
fn unknown_identifier_is_sent_to_the_store() {
    let mut idp = provider(3600, 4);
    assert_eq!(idp.begin_validate_at(ID, &Timestamp::new(1000, 0)), Validation::AskStore);
    assert_eq!(idp.begin_validate(ID), Validation::AskStore);
    assert_eq!(idp.cached_sessions(), 0);
}

#[test]
fn session_found_live_in_the_store_is_valid_and_cached() {
    let mut idp = provider(3600, 4);
    let now = Timestamp::new(1000, 0);
    let end = Timestamp::new(1000, 1);
    assert!(idp.complete_validate_at(ID.to_owned(), Some(end), &now));
    assert_eq!(idp.cached(ID), Some(CachedSession { expires: Some(end), invalid: false }));
    assert_eq!(idp.begin_validate_at(ID, &now), Validation::Decided(true));
}

#[test]
fn session_found_expired_in_the_store_is_invalid_and_cached() {
    let mut idp = provider(3600, 4);
    let now = Timestamp::new(1000, 0);
    assert!(!idp.complete_validate_at(ID.to_owned(), Some(now), &now));
    assert_eq!(idp.cached(ID), Some(CachedSession { expires: Some(now), invalid: true }));
    assert_eq!(idp.begin_validate_at(ID, &Timestamp::new(0, 0)), Validation::Decided(false));
}

#[test]
fn session_missing_from_the_store_is_invalid_and_cached() {
    let mut idp = provider(3600, 4);
    let now = Timestamp::new(1000, 0);
    assert!(!idp.complete_validate_at(ID.to_owned(), None, &now));
    assert_eq!(idp.cached(ID), Some(CachedSession { expires: None, invalid: true }));
    assert_eq!(idp.begin_validate_at(ID, &now), Validation::Decided(false));
}

#[test]
fn repeated_validation_asks_the_store_once() {
    let mut idp = provider(3600, 4);
    let end = Timestamp::new(5000, 0);
    let mut store = store_with(&[(ID, end)]);
    for secs in [1000, 1001, 2000, 4999] {
        assert!(validate(&mut idp, &mut store, ID, Timestamp::new(secs, 0)));
    }
    assert_eq!(store.lookups, 1);
    assert_eq!(idp.cached(ID), Some(CachedSession { expires: Some(end), invalid: false }));
}

#[test]
fn forged_identifier_asks_the_store_once() {
    let mut idp = provider(3600, 4);
    let mut store = store_with(&[(ID, Timestamp::new(5000, 0))]);
    for secs in [1000, 1001, 2000] {
        assert!(!validate(&mut idp, &mut store, OTHER_ID, Timestamp::new(secs, 0)));
    }
    assert_eq!(store.lookups, 1);
}

#[test]
fn cached_session_runs_out_without_asking_the_store() {
    let mut idp = provider(3600, 4);
    let end = Timestamp::new(5000, 0);
    let mut store = store_with(&[(ID, end)]);
    assert!(validate(&mut idp, &mut store, ID, Timestamp::new(4999, 999_999_999)));
    assert!(!validate(&mut idp, &mut store, ID, end));
    assert!(!validate(&mut idp, &mut store, ID, Timestamp::new(4000, 0)));
    assert_eq!(store.lookups, 1);
    assert_eq!(idp.cached(ID), Some(CachedSession { expires: Some(end), invalid: true }));
}

#[test]
fn login_then_validate_before_and_after_the_end() {
    let mut idp = provider(3600, 4);
    let mut store = store_with(&[]);
    let t0 = Timestamp::new(1_700_000_000, 250);
    let session = idp.issue_session(ID.to_owned(), &t0);
    assert_eq!(session.expires, Timestamp::new(1_700_003_600, 250));
    store.sessions.insert(session.session_id.clone(), session.expires);
    let kept: Result<Session, _> = idp.complete_authenticate::<()>(session, Ok(()));
    assert!(kept.is_ok());

    assert!(validate(&mut idp, &mut store, ID, Timestamp::new(1_700_001_800, 250)));
    assert!(!validate(&mut idp, &mut store, ID, Timestamp::new(1_700_003_601, 250)));
    assert_eq!(
        idp.cached(ID),
        Some(CachedSession { expires: Some(Timestamp::new(1_700_003_600, 250)), invalid: true })
    );
    assert_eq!(store.lookups, 0);
}

#[test]
fn issued_session_is_valid_up_to_the_last_nanosecond() {
    let mut idp = provider(60, 4);
    let t0 = Timestamp::new(500, 10);
    let session = idp.issue_session(ID.to_owned(), &t0);
    assert!(idp.complete_authenticate::<()>(session, Ok(())).is_ok());
    assert_eq!(idp.begin_validate_at(ID, &t0), Validation::Decided(true));
    assert_eq!(idp.begin_validate_at(ID, &Timestamp::new(560, 9)), Validation::Decided(true));
    assert_eq!(idp.begin_validate_at(ID, &Timestamp::new(560, 10)), Validation::Decided(false));
}

#[test]
fn many_forged_identifiers_do_not_fill_the_cache() {
    let limit = 3;
    let mut idp = provider(3600, limit);
    let mut store = store_with(&[]);
    let now = Timestamp::new(1000, 0);
    for i in 0..50u32 {
        let id = format!("00000000-0000-0000-0000-{i:012x}");
        assert!(!validate(&mut idp, &mut store, &id, now));
        assert!(idp.cached_sessions() <= limit);
    }
    assert_eq!(store.lookups, 50);
    assert_eq!(idp.cached_sessions(), limit);
}

#[test]
fn validation_by_the_clock() {
    let mut idp = provider(3600, 4);
    let now = chrono::Utc::now().timestamp();
    assert!(idp.complete_validate(ID.to_owned(), Some(Timestamp::new(now + 3600, 0))));
    assert_eq!(idp.begin_validate(ID), Validation::Decided(true));
    assert!(!idp.complete_validate(OTHER_ID.to_owned(), Some(Timestamp::new(now - 3600, 0))));
    assert_eq!(idp.begin_validate(OTHER_ID), Validation::Decided(false));
    assert!(!idp.complete_validate("936da01f-9abd-4d9d-80c7-02af85c822a9".to_owned(), None));
}
