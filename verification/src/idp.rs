//! The identity provider: it validates sessions against the cache and the
//! store, logs users in and registers them.
//!
//! The store is not reached from here. Each operation that needs it comes
//! in two steps: the first says what to ask the store, the second takes the
//! store's answer. Steps whose name ends in `_at` take the current instant
//! as an argument; their namesakes read the clock.

use crate::cache::{lemma_insert_wf, CacheModel, SessionCache, MAX_QUEUE_LIMIT};
use crate::config::AuthConfig;
use crate::domain::Credentials;
use crate::error::{DbErrorOps, IDPError, IDPErrorKind};
use crate::ids::{is_issued_session_id, is_session_id, is_valid_session_id, random_uuid_text};
use crate::password::{bcrypt_hash, bcrypt_verify, is_hash_of_cost, password_check, DEFAULT_COST};
use crate::session::{CachedSession, Session};
use crate::time::{clock_shows, utc_now, Timestamp};
use bcrypt::BcryptError;
use vstd::prelude::*;

verus! {

/// What the first step of a validation found.
#[derive(Clone, Copy, Debug, PartialEq, Eq, Structural)]
pub enum Validation {
    /// The session is valid, or it is not; the store need not be asked.
    Decided(bool),
    /// The cache does not know the identifier: its end is to be loaded from
    /// the store and handed to the second step.
    AskStore,
}

/// The identity provider as a mathematical value: its cache and the number
/// of seconds that a session lasts.
pub struct IdpModel {
    pub cache: CacheModel,
    pub lifetime: nat,
}

/// The identity provider: the cache of sessions and the lifetime of a
/// session.
pub struct PgIDPContext {
    session_cache: SessionCache,
    session_lifetime: u32,
}

impl View for PgIDPContext {
    type V = IdpModel;

    closed spec fn view(&self) -> IdpModel {
        IdpModel { cache: self.session_cache@, lifetime: self.session_lifetime as nat }
    }
}

/// The store's answer shows a session that has not run out at `now`.
pub open spec fn stored_session_is_live(stored: Option<Timestamp>, now: Timestamp) -> bool {
    stored matches Some(end) && end.is_after(now)
}

/// The kind of error in which the attempt to log in with `supplied` ends
/// where the store holds `stored` for the login; nothing where the attempt
/// is accepted. An unknown login and a password that does not match both
/// end in `AuthenticationFailed`; a password that cannot be checked against
/// the stored hash ends in `CryptoError`.
pub open spec fn login_failure(supplied: Credentials, stored: Option<Credentials>) -> Option<
    IDPErrorKind,
> {
    match stored {
        None => Some(IDPErrorKind::AuthenticationFailed),
        Some(known) => match password_check(supplied.password@, known.password@) {
            Some(true) => None,
            Some(false) => Some(IDPErrorKind::AuthenticationFailed),
            None => Some(IDPErrorKind::CryptoError),
        },
    }
}

/// What a login comes to once the password has been checked: success on a
/// match, `AuthenticationFailed` on a mismatch, `CryptoError` where the
/// check itself failed.
pub open spec fn password_verdict<PoolErr>(checked: Result<bool, BcryptError>) -> Result<
    (),
    IDPError<PoolErr>,
> {
    match checked {
        Ok(true) => Ok(()),
        Ok(false) => Err(IDPError::AuthenticationFailed),
        Err(error) => Err(IDPError::CryptoError(error)),
    }
}

/// The error of a registration that the store refused with `error`:
/// `UsernameTaken` where the error reports a value that is there already,
/// else `RegistrationError` with the store's error.
pub open spec fn registration_failure<PoolErr>(
    error: PoolErr,
    unique_violation: bool,
) -> IDPError<PoolErr> {
    if unique_violation {
        IDPError::UsernameTaken
    } else {
        IDPError::RegistrationError(error)
    }
}

impl IdpModel {
    /// What the first step of validating `id` at `now` finds.
    pub open spec fn validation(self, id: Seq<char>, now: Timestamp) -> Validation {
        if !is_session_id(id) {
            Validation::Decided(false)
        } else {
            match self.cache.lookup_answer(id, now) {
                Some(valid) => Validation::Decided(valid),
                None => Validation::AskStore,
            }
        }
    }

    /// The provider after the first step of validating `id` at `now`. A text
    /// that is no session identifier leaves the cache untouched.
    pub open spec fn after_validation(self, id: Seq<char>, now: Timestamp) -> IdpModel {
        if !is_session_id(id) {
            self
        } else {
            IdpModel { cache: self.cache.after_lookup(id, now), lifetime: self.lifetime }
        }
    }

    /// The provider after `id` has been through the first step of a
    /// validation once at each of the instants `nows`, in their order.
    pub open spec fn after_validations(self, id: Seq<char>, nows: Seq<Timestamp>) -> IdpModel
        decreases nows.len(),
    {
        if nows.len() == 0 {
            self
        } else {
            self.after_validations(id, nows.drop_last()).after_validation(id, nows.last())
        }
    }

    /// What the two steps of validating `id` at `now` answer together, where
    /// the store holds `stored` for `id`.
    pub open spec fn validity(self, id: Seq<char>, stored: Option<Timestamp>, now: Timestamp) -> bool {
        match self.validation(id, now) {
            Validation::Decided(valid) => valid,
            Validation::AskStore => stored_session_is_live(stored, now),
        }
    }

    /// The provider after the two steps of validating `id` at `now`, where
    /// the store holds `stored` for `id`.
    pub open spec fn after_validity(
        self,
        id: Seq<char>,
        stored: Option<Timestamp>,
        now: Timestamp,
    ) -> IdpModel {
        match self.validation(id, now) {
            Validation::Decided(_) => self.after_validation(id, now),
            Validation::AskStore => self.after_validation(id, now).after_store_answer(
                id,
                stored,
                now,
            ),
        }
    }

    /// The cache knows nothing of `id` that differs from a session that
    /// ends at `expires`: it holds no entry for `id`, or the entry of that
    /// session, not marked invalid.
    pub open spec fn agrees_with_store(self, id: Seq<char>, expires: Timestamp) -> bool {
        self.cache.entries.contains_key(id) ==> self.cache.entries[id] == CachedSession {
            expires: Some(expires),
            invalid: false,
        }
    }

    /// The provider after the store has answered `stored` for `id` at `now`.
    pub open spec fn after_store_answer(
        self,
        id: Seq<char>,
        stored: Option<Timestamp>,
        now: Timestamp,
    ) -> IdpModel {
        IdpModel {
            cache: self.cache.insert(id, CachedSession::of_store_answer(stored, now)),
            lifetime: self.lifetime,
        }
    }

    /// The provider after a session with the identifier `id` and the end
    /// `expires` has been issued and cached.
    pub open spec fn after_login(self, id: Seq<char>, expires: Timestamp) -> IdpModel {
        IdpModel {
            cache: self.cache.insert(id, CachedSession { expires: Some(expires), invalid: false }),
            lifetime: self.lifetime,
        }
    }
}

impl PgIDPContext {
    /// The cache's queue still takes identifiers.
    pub closed spec fn accepting(&self) -> bool {
        self.session_cache.accepting()
    }

    /// The provider's cache is well formed.
    pub open spec fn wf(&self) -> bool {
        self@.cache.wf() && self.accepting()
    }

    /// A provider with an empty cache and the settings of `auth_config`.
    pub fn new(auth_config: &AuthConfig) -> (idp: PgIDPContext)
        requires
            0 < auth_config.invalid_sessions_cache_limit <= MAX_QUEUE_LIMIT,
        ensures
            idp.wf(),
            idp@.cache == CacheModel::empty(auth_config.invalid_sessions_cache_limit as nat),
            idp@.lifetime == auth_config.session_lifetime_seconds,
    {
        PgIDPContext {
            session_cache: SessionCache::new(auth_config.invalid_sessions_cache_limit),
            session_lifetime: auth_config.session_lifetime_seconds,
        }
    }

    /// The number of seconds that a session lasts.
    pub fn session_lifetime_seconds(&self) -> (seconds: u32)
        ensures
            seconds == self@.lifetime,
    {
        self.session_lifetime
    }

    /// What the cache holds under `session_id`, if anything.
    pub fn cached(&self, session_id: &str) -> (found: Option<CachedSession>)
        ensures
            found == if self@.cache.entries.contains_key(session_id@) {
                Some(self@.cache.entries[session_id@])
            } else {
                None
            },
    {
        self.session_cache.get(session_id)
    }

    /// The number of entries in the cache.
    pub fn cached_sessions(&self) -> (n: usize)
        ensures
            n == self@.cache.entries.dom().len(),
    {
        self.session_cache.len()
    }

    /// First step of a validation, at `now`. A text that is no session
    /// identifier is turned down at once, and the cache is not touched. A
    /// known identifier is answered from the cache; an entry found run out
    /// is invalidated there. For an unknown identifier the store is to be
    /// asked.
    pub fn begin_validate_at(&mut self, session_id: &str, now: &Timestamp) -> (step: Validation)
        requires
            old(self).wf(),
        ensures
            final(self).wf(),
            step == old(self)@.validation(session_id@, *now),
            final(self)@ == old(self)@.after_validation(session_id@, *now),
    {
        if !is_valid_session_id(session_id) {
            Validation::Decided(false)
        } else {
            match self.session_cache.lookup(session_id, now) {
                Some(valid) => Validation::Decided(valid),
                None => Validation::AskStore,
            }
        }
    }

    /// First step of a validation, at the instant the clock shows. Whatever
    /// the clock shows, a text that is no session identifier is turned down
    /// without a change to the cache, and the store is to be asked for just
    /// the identifiers that the cache does not know.
    pub fn begin_validate(&mut self, session_id: &str) -> (step: Validation)
        requires
            old(self).wf(),
        ensures
            final(self).wf(),
            !is_session_id(session_id@) ==> step == Validation::Decided(false),
            !is_session_id(session_id@) ==> final(self)@ == old(self)@,
            step is AskStore <==> is_session_id(session_id@)
                && !old(self)@.cache.entries.contains_key(session_id@),
            exists|now: Timestamp|
                clock_shows(now) && step == #[trigger] old(self)@.validation(session_id@, now)
                    && final(self)@ == old(self)@.after_validation(session_id@, now),
    {
        let now = utc_now();
        self.begin_validate_at(session_id, &now)
    }

    /// Second step of a validation, at `now`: `stored` is the end that the
    /// store holds for `session_id`, or nothing where it holds none. The
    /// session is valid if that end is still ahead. The answer is cached
    /// either way, so that the store is not asked again.
    pub fn complete_validate_at(
        &mut self,
        session_id: String,
        stored: Option<Timestamp>,
        now: &Timestamp,
    ) -> (valid: bool)
        requires
            old(self).wf(),
        ensures
            final(self).wf(),
            valid == stored_session_is_live(stored, *now),
            final(self)@ == old(self)@.after_store_answer(session_id@, stored, *now),
    {
        proof {
            lemma_insert_wf(self@.cache, session_id@, CachedSession::of_store_answer(stored, *now));
        }
        let session = CachedSession::from_store_answer(stored, now);
        let valid = !session.invalid;
        self.session_cache.insert(session_id, session);
        valid
    }

    /// Second step of a validation, at the instant the clock shows. A
    /// session that the store does not hold is never valid.
    pub fn complete_validate(&mut self, session_id: String, stored: Option<Timestamp>) -> (valid:
        bool)
        requires
            old(self).wf(),
        ensures
            final(self).wf(),
            stored is None ==> !valid,
            exists|now: Timestamp|
                clock_shows(now) && valid == #[trigger] stored_session_is_live(stored, now)
                    && final(self)@ == old(self)@.after_store_answer(session_id@, stored, now),
    {
        let now = utc_now();
        self.complete_validate_at(session_id, stored, &now)
    }

    /// What a login comes to once the password has been checked, with
    /// `checked` as the result of the check.
    pub fn after_password_check<PoolErr>(checked: Result<bool, BcryptError>) -> (verdict: Result<
        (),
        IDPError<PoolErr>,
    >)
        ensures
            verdict == password_verdict::<PoolErr>(checked),
    {
        match checked {
            Ok(true) => Ok(()),
            Ok(false) => Err(IDPError::AuthenticationFailed),
            Err(error) => Err(IDPError::CryptoError(error)),
        }
    }

    /// Checks the credentials that a client `supplied` against those that
    /// the store holds for the login, if it holds any. An unknown login and
    /// a wrong password give the same error.
    pub fn check_credentials<PoolErr>(
        supplied: &Credentials,
        stored: &Option<Credentials>,
    ) -> (verdict: Result<(), IDPError<PoolErr>>)
        ensures
            match login_failure(*supplied, *stored) {
                None => verdict is Ok,
                Some(kind) => verdict is Err && verdict->Err_0.kind_of() == kind,
            },
    {
        match stored {
            None => Err(IDPError::AuthenticationFailed),
            Some(known) => Self::after_password_check(
                bcrypt_verify(supplied.password.as_str(), known.password.as_str()),
            ),
        }
    }

    /// The session with the identifier `session_id` that is issued at `now`:
    /// it ends a lifetime later.
    pub fn issue_session(&self, session_id: String, now: &Timestamp) -> (session: Session)
        requires
            now.secs + self@.lifetime <= i64::MAX,
        ensures
            session.session_id == session_id,
            session.expires == now.shifted(self@.lifetime),
    {
        Session { session_id, expires: now.plus_seconds(self.session_lifetime) }
    }

    /// First step of a login, at `now`: checks the credentials and, where
    /// they hold, issues a session with a new random identifier, written as
    /// a random UUID in lower case, which is to be saved in the store. The
    /// cache is not touched yet.
    pub fn begin_authenticate_at<PoolErr>(
        &self,
        supplied: &Credentials,
        stored: &Option<Credentials>,
        now: &Timestamp,
    ) -> (issued: Result<Session, IDPError<PoolErr>>)
        requires
            now.secs + self@.lifetime <= i64::MAX,
        ensures
            match login_failure(*supplied, *stored) {
                None => issued is Ok,
                Some(kind) => issued is Err && issued->Err_0.kind_of() == kind,
            },
            issued matches Ok(session) ==> is_issued_session_id(session.session_id@),
            issued matches Ok(session) ==> session.expires == now.shifted(self@.lifetime),
    {
        match Self::check_credentials::<PoolErr>(supplied, stored) {
            Err(error) => Err(error),
            Ok(()) => Ok(self.issue_session(random_uuid_text(), now)),
        }
    }

    /// First step of a login, at the instant the clock shows: the session
    /// ends a lifetime after an instant that the clock can show.
    pub fn begin_authenticate<PoolErr>(
        &self,
        supplied: &Credentials,
        stored: &Option<Credentials>,
    ) -> (issued: Result<Session, IDPError<PoolErr>>)
        ensures
            match login_failure(*supplied, *stored) {
                None => issued is Ok,
                Some(kind) => issued is Err && issued->Err_0.kind_of() == kind,
            },
            issued matches Ok(session) ==> is_issued_session_id(session.session_id@),
            issued matches Ok(session) ==> exists|now: Timestamp|
                clock_shows(now) && session.expires == #[trigger] now.shifted(self@.lifetime),
    {
        let now = utc_now();
        self.begin_authenticate_at(supplied, stored, &now)
    }

    /// Second step of a login: `saved` is what saving `session` in the store
    /// gave. A saved session is cached as valid and returned. A session that
    /// could not be saved is dropped, the cache stays as it is, and the
    /// store's error is returned as `AuthenticationError`.
    pub fn complete_authenticate<PoolErr>(
        &mut self,
        session: Session,
        saved: Result<(), PoolErr>,
    ) -> (outcome: Result<Session, IDPError<PoolErr>>)
        requires
            old(self).wf(),
        ensures
            final(self).wf(),
            match saved {
                Ok(()) => {
                    &&& outcome == Ok::<Session, IDPError<PoolErr>>(session)
                    &&& final(self)@ == old(self)@.after_login(session.session_id@, session.expires)
                },
                Err(error) => {
                    &&& outcome == Err::<Session, IDPError<PoolErr>>(
                        IDPError::AuthenticationError(error),
                    )
                    &&& final(self)@ == old(self)@
                },
            },
    {
        match saved {
            Err(error) => Err(IDPError::AuthenticationError(error)),
            Ok(()) => {
                proof {
                    lemma_insert_wf(self@.cache, session.session_id@, session.cached());
                }
                self.session_cache.insert(session.session_id.clone(), session.to_cached());
                Ok(session)
            },
        }
    }

    /// The credentials to save for `login` once its password has been
    /// hashed, with `hashed` as the result of the hashing: the login with the
    /// hash for a password, or a `CryptoError` where hashing failed.
    pub fn after_password_hash<PoolErr>(
        login: &str,
        hashed: Result<String, BcryptError>,
    ) -> (prepared: Result<Credentials, IDPError<PoolErr>>)
        ensures
            match hashed {
                Ok(hash) => {
                    &&& prepared matches Ok(credentials)
                    &&& credentials.login@ == login@
                    &&& credentials.password == hash
                },
                Err(error) => prepared matches Err(IDPError::CryptoError(cause)) && cause == error,
            },
    {
        match hashed {
            Err(error) => Err(IDPError::CryptoError(error)),
            Ok(hash) => Ok(Credentials { login: login.to_owned(), password: hash }),
        }
    }

    /// First step of a registration: the credentials to save for `login`,
    /// with `password` hashed at the default cost. The hash shows that cost
    /// and matches the password. Where hashing fails the error is a
    /// `CryptoError`.
    pub fn begin_add_user<PoolErr>(login: &str, password: &str) -> (prepared: Result<
        Credentials,
        IDPError<PoolErr>,
    >)
        ensures
            match prepared {
                Ok(credentials) => {
                    &&& credentials.login@ == login@
                    &&& is_hash_of_cost(credentials.password@, DEFAULT_COST)
                    &&& password_check(password@, credentials.password@) == Some(true)
                },
                Err(error) => error is CryptoError,
            },
    {
        Self::after_password_hash(login, bcrypt_hash(password, DEFAULT_COST))
    }

    /// The error of a registration that the store refused with `error`, of
    /// which `unique_violation` tells whether it reports a value that is
    /// there already.
    pub fn registration_error<PoolErr>(error: PoolErr, unique_violation: bool) -> (failure:
        IDPError<PoolErr>)
        ensures
            failure == registration_failure(error, unique_violation),
    {
        if unique_violation {
            IDPError::UsernameTaken
        } else {
            IDPError::RegistrationError(error)
        }
    }

    /// Second step of a registration: `saved` is what saving the credentials
    /// in the store gave. Saved credentials complete the registration. A
    /// refusal is asked whether it reports a login that is taken: if so the
    /// error is `UsernameTaken`, else `RegistrationError` with the store's
    /// error.
    pub fn complete_add_user<PoolErr: DbErrorOps>(saved: Result<(), PoolErr>) -> (outcome: Result<
        (),
        IDPError<PoolErr>,
    >)
        ensures
            match saved {
                Ok(()) => outcome == Ok::<(), IDPError<PoolErr>>(()),
                Err(error) => exists|unique_violation: bool|
                    outcome == Err::<(), IDPError<PoolErr>>(
                        #[trigger] registration_failure(error, unique_violation),
                    ),
            },
    {
        match saved {
            Ok(()) => Ok(()),
            Err(error) => {
                let unique_violation = error.is_unique_violation();
                Err(Self::registration_error(error, unique_violation))
            },
        }
    }
}

/// A text that is no session identifier is turned down by the first step
/// of a validation, whatever the cache holds: the store is not asked, and
/// the cache stays as it is.
pub proof fn lemma_malformed_identifier_is_refused(m: IdpModel, id: Seq<char>, now: Timestamp)
    requires
        !is_session_id(id),
    ensures
        m.validation(id, now) == Validation::Decided(false),
        m.after_validation(id, now) == m,
{
}

/// A session that has just been issued and cached is found valid at every
/// instant before its end, and invalid at its end and at every instant
/// after it. The store is asked at none of them.
pub proof fn lemma_issued_session_is_valid_until_its_end(
    m: IdpModel,
    id: Seq<char>,
    expires: Timestamp,
    now: Timestamp,
)
    requires
        is_session_id(id),
    ensures
        m.after_login(id, expires).validation(id, now) == Validation::Decided(expires.is_after(now)),
        expires.is_after(now) ==> m.after_login(id, expires).validation(id, now)
            == Validation::Decided(true),
        now.is_after(expires) || now == expires ==> m.after_login(id, expires).validation(id, now)
            == Validation::Decided(false),
{
}

/// A session that the store holds is found valid at every instant before
/// its end and invalid from its end on, whether the cache knows it or the
/// store has to be asked. Before its end the cache goes on to agree with the
/// store, so the same holds of every validation that follows.
pub proof fn lemma_stored_session_is_valid_until_its_end(
    m: IdpModel,
    id: Seq<char>,
    expires: Timestamp,
    now: Timestamp,
)
    requires
        is_session_id(id),
        m.agrees_with_store(id, expires),
    ensures
        m.validity(id, Some(expires), now) == expires.is_after(now),
        expires.is_after(now) ==> m.after_validity(id, Some(expires), now).agrees_with_store(
            id,
            expires,
        ),
        expires.is_after(now) ==> m.after_validity(
            id,
            Some(expires),
            now,
        ).cache.entries.contains_key(id),
{
}

/// A login with an unknown name and a login with a known name and a
/// password that does not match end in the same kind of error.
pub proof fn lemma_unknown_login_and_wrong_password_end_alike(
    unknown: Credentials,
    wrong: Credentials,
    known: Credentials,
)
    requires
        password_check(wrong.password@, known.password@) == Some(false),
    ensures
        login_failure(unknown, None) == login_failure(wrong, Some(known)),
        login_failure(unknown, None) == Some(IDPErrorKind::AuthenticationFailed),
{
}

/// Once the store's answer for a session that has not run out is cached,
/// every later validation of that session before its end is answered from
/// the cache with `true`: the store is not asked again, and the cache does
/// not change.
pub proof fn lemma_repeated_validation_is_answered_from_cache(
    m: IdpModel,
    id: Seq<char>,
    end: Timestamp,
    first: Timestamp,
    later: Seq<Timestamp>,
)
    requires
        is_session_id(id),
        end.is_after(first),
        forall|i: int| 0 <= i < later.len() ==> end.is_after(#[trigger] later[i]),
    ensures
        m.after_store_answer(id, Some(end), first).after_validations(id, later)
            == m.after_store_answer(id, Some(end), first),
        forall|i: int|
            0 <= i < later.len() ==> (#[trigger] m.after_store_answer(
                id,
                Some(end),
                first,
            ).after_validations(id, later.take(i))).validation(id, later[i])
                == Validation::Decided(true),
    decreases later.len(),
{
    let populated = m.after_store_answer(id, Some(end), first);
    if later.len() > 0 {
        let before = later.drop_last();
        lemma_repeated_validation_is_answered_from_cache(m, id, end, first, before);
        assert forall|i: int| 0 <= i < later.len() implies (#[trigger] populated.after_validations(
            id,
            later.take(i),
        )).validation(id, later[i]) == Validation::Decided(true) by {
            if i < before.len() {
                assert(later.take(i) =~= before.take(i));
            } else {
                assert(later.take(i) =~= before);
            }
        }
    }
}

} // verus!
