//! The configuration store: the url/token/path triple that describes how to
//! reach the secret backend, its validation rules, and whole-value
//! update/read operations over the live configuration.

use vstd::prelude::*;
use vstd::rwlock::{RwLock, RwLockPredicate};

verus! {

/// Connection parameters for the secret backend.
///
/// A value is valid when all three fields are non-empty; an invalid value is
/// never installed as the live configuration.
#[derive(Debug, Clone)]
pub struct SecretStore {
    pub url: String,
    pub token: String,
    pub path: String,
}

/// The error reported when a candidate configuration fails validation.
#[derive(Debug, Clone)]
pub struct InvalidSecretStoreError {
    pub details: String,
}

/// A configuration is valid exactly when url, token and path are all
/// non-empty.
pub open spec fn store_valid(s: SecretStore) -> bool {
    s.url@.len() > 0 && s.token@.len() > 0 && s.path@.len() > 0
}

/// The reason reported for an invalid configuration: the fields are checked
/// in the fixed order path, token, url, and the first empty one wins.
pub open spec fn validation_reason(s: SecretStore) -> Seq<char> {
    if s.path@.len() == 0 {
        "secret path cannot be empty"@
    } else if s.token@.len() == 0 {
        "token cannot be empty"@
    } else {
        "url cannot be empty"@
    }
}

impl InvalidSecretStoreError {
    pub fn new(msg: &str) -> (r: InvalidSecretStoreError)
        ensures
            r.details@ == msg@,
    {
        InvalidSecretStoreError { details: String::from_str(msg) }
    }

    /// The human-readable reason carried by the error.
    pub fn description(&self) -> (r: &str)
        ensures
            r@ == self.details@,
    {
        self.details.as_str()
    }
}

impl SecretStore {
    /// An independent deep copy of `s`: a snapshot that later mutation of
    /// `s` cannot reach.
    pub fn new(s: &SecretStore) -> (r: SecretStore)
        ensures
            r == *s,
    {
        SecretStore {
            url: s.url.clone(),
            token: s.token.clone(),
            path: s.path.clone(),
        }
    }

    /// Checks the three non-emptiness rules in their fixed order and reports
    /// the first failure.
    pub fn validate(&self) -> (r: Result<(), InvalidSecretStoreError>)
        ensures
            r is Ok <==> store_valid(*self),
            r matches Err(e) ==> e.details@ == validation_reason(*self),
    {
        if self.path.as_str().unicode_len() == 0 {
            Err(InvalidSecretStoreError::new("secret path cannot be empty"))
        } else if self.token.as_str().unicode_len() == 0 {
            Err(InvalidSecretStoreError::new("token cannot be empty"))
        } else if self.url.as_str().unicode_len() == 0 {
            Err(InvalidSecretStoreError::new("url cannot be empty"))
        } else {
            Ok(())
        }
    }
}

/// What the update protocol answers: either the candidate was installed, or
/// it was rejected with the first validation failure and nothing changed.
#[derive(Debug, Clone)]
pub enum UpdateResponse {
    Updated,
    Rejected(InvalidSecretStoreError),
}

impl UpdateResponse {
    /// The status word of the update protocol's answer: `updated` on
    /// success, `error` on a validation failure.
    pub fn status(&self) -> (r: &str)
        ensures
            *self is Updated ==> r@ == "updated"@,
            *self is Rejected ==> r@ == "error"@,
    {
        match self {
            UpdateResponse::Updated => "updated",
            UpdateResponse::Rejected(_) => "error",
        }
    }

    /// The reason of a rejection, absent on success.
    pub fn reason(&self) -> (r: Option<&str>)
        ensures
            *self is Updated ==> r is None,
            *self matches UpdateResponse::Rejected(e) ==> r matches Some(m) && m@ == e.details@,
    {
        match self {
            UpdateResponse::Updated => None,
            UpdateResponse::Rejected(e) => Some(e.details.as_str()),
        }
    }
}

/// The live configuration after offering `cand` as an update to `live`:
/// a valid candidate replaces the whole value, an invalid one changes
/// nothing.
pub open spec fn store_after_update(live: SecretStore, cand: SecretStore) -> SecretStore {
    if store_valid(cand) {
        cand
    } else {
        live
    }
}

/// Replaces the live configuration wholesale. Validation is the caller's
/// duty; the designated validated path is [`register_secret_store`].
pub fn write_secret_store(live: &mut SecretStore, store: SecretStore)
    ensures
        *final(live) == store,
{
    *live = store;
}

/// An independent snapshot of the live configuration, safe to use after the
/// store is mutated again.
pub fn read_secret_store(live: &SecretStore) -> (r: SecretStore)
    ensures
        r == *live,
{
    SecretStore::new(live)
}

/// The read endpoint's answer: the current configuration, as a snapshot.
pub fn get_secret_store(live: &SecretStore) -> (r: SecretStore)
    ensures
        r == *live,
{
    read_secret_store(live)
}

/// The update endpoint: validates `store` and either installs it wholesale
/// or leaves the live configuration untouched and reports the first
/// validation failure.
pub fn register_secret_store(live: &mut SecretStore, store: SecretStore) -> (r: UpdateResponse)
    ensures
        *final(live) == store_after_update(*old(live), store),
        store_valid(store) ==> r is Updated,
        !store_valid(store) ==> (r matches UpdateResponse::Rejected(e)
            && e.details@ == validation_reason(store)),
{
    let valid = store.validate();
    match valid {
        Ok(()) => {
            write_secret_store(live, store);
            UpdateResponse::Updated
        },
        Err(e) => UpdateResponse::Rejected(e),
    }
}

/// An update with an invalid candidate leaves the live configuration
/// exactly as it was.
pub proof fn lemma_rejected_update_keeps_store(live: SecretStore, cand: SecretStore)
    requires
        !store_valid(cand),
    ensures
        store_after_update(live, cand) == live,
{
}

/// An update with a valid candidate installs it in its entirety, whatever
/// was live before.
pub proof fn lemma_valid_update_installs(live: SecretStore, cand: SecretStore)
    requires
        store_valid(cand),
    ensures
        store_after_update(live, cand) == cand,
{
}

/// Updating twice with the same candidate stores the same configuration as
/// updating once.
pub proof fn lemma_update_idempotent(live: SecretStore, cand: SecretStore)
    ensures
        store_after_update(store_after_update(live, cand), cand)
            == store_after_update(live, cand),
{
}

/// An update is all-or-nothing: the live configuration afterwards is either
/// the old value or the candidate, never a mix of their fields.
pub proof fn lemma_update_atomic(live: SecretStore, cand: SecretStore)
    ensures
        store_after_update(live, cand) == live || store_after_update(live, cand) == cand,
{
}

/// A configuration with every field still at its empty starting value.
pub open spec fn initial_store(s: SecretStore) -> bool {
    s.url@.len() == 0 && s.token@.len() == 0 && s.path@.len() == 0
}

/// The invariant of the live configuration: it is either still the initial
/// all-empty value or it passed validation in full. A partially filled
/// triple is never live.
pub struct LiveConfigInvariant;

impl RwLockPredicate<SecretStore> for LiveConfigInvariant {
    open spec fn inv(self, v: SecretStore) -> bool {
        store_valid(v) || initial_store(v)
    }
}

/// The single source of truth for the backend connection parameters, safe
/// under concurrent access: readers share the lock, an update holds it
/// exclusively for the whole validate-and-replace step, so no reader ever
/// observes a partially written configuration.
///
/// The functional behaviour of the two operations is carried by
/// [`register_secret_store`] and [`read_secret_store`], which act on the
/// value while the lock is held.
pub struct ConfigStore {
    lock: RwLock<SecretStore, LiveConfigInvariant>,
}

impl ConfigStore {
    /// A store holding the initial, all-empty (and hence invalid)
    /// configuration.
    pub fn new() -> ConfigStore {
        ConfigStore { lock: RwLock::new(SecretStore::default(), Ghost(LiveConfigInvariant)) }
    }

    /// An independent snapshot of the live configuration, taken under
    /// shared access: concurrent reads proceed together and never block one
    /// another. Every snapshot satisfies the live-configuration invariant.
    pub fn read(&self) -> (r: SecretStore)
        ensures
            store_valid(r) || initial_store(r),
    {
        let handle = self.lock.acquire_read();
        let r = read_secret_store(handle.borrow());
        handle.release_read();
        r
    }

    /// Validates `cand` and replaces the live configuration wholesale on
    /// success, under exclusive access; a rejected candidate leaves the
    /// live configuration exactly as it was and reports the first
    /// validation failure.
    pub fn update(&self, cand: SecretStore) -> (r: UpdateResponse)
        ensures
            store_valid(cand) ==> r is Updated,
            !store_valid(cand) ==> (r matches UpdateResponse::Rejected(e)
                && e.details@ == validation_reason(cand)),
    {
        let (mut live, write_handle) = self.lock.acquire_write();
        let response = register_secret_store(&mut live, cand);
        write_handle.release_write(live);
        response
    }
}

impl Default for SecretStore {
    /// The configuration at process start: all fields empty, itself invalid.
    fn default() -> (r: SecretStore)
        ensures
            r.url@ == Seq::<char>::empty(),
            r.token@ == Seq::<char>::empty(),
            r.path@ == Seq::<char>::empty(),
            !store_valid(r),
    {
        SecretStore { url: String::new(), token: String::new(), path: String::new() }
    }
}

} // verus!
