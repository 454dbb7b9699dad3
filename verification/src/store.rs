//! The secret-store capability and the create-then-update upsert protocol.
//!
//! [`SecretManager`] is what the engines drive: fetch by name and an
//! idempotent create-or-update. [`SecretBackend`] is the lower-level
//! capability a concrete store exposes: separate create, update and fetch
//! calls. The upsert protocol in [`upsert_secret`] turns a backend into a
//! manager: it attempts creation first (with metadata) and falls back to an
//! update that resends only the value, so an update can never alter the
//! metadata recorded at creation.
//!
//! Both capabilities carry an abstract view: `secrets()` is the store's
//! contents as a map from name to stored secret, and `events()` is the
//! sequence of calls observed so far, oldest first, which the engine
//! contracts use to state ordering and fail-fast behaviour.

use crate::config::MetadataView;
use crate::config::SecretMetadata;
use crate::error::SyncError;
use crate::secret::classify_bytes;
use crate::secret::lemma_classify_preserves_bytes;
use crate::secret::secret_bytes;
use crate::secret::Secret;
use crate::secret::SecretValue;
use vstd::prelude::*;
use vstd::string::StringExecFns;

verus! {

/// What the store holds under one name: the current value and the metadata
/// attached when the secret was created.
pub struct StoredSecret {
    /// The secret's current value.
    pub value: SecretValue,
    /// The metadata recorded when the secret was created.
    pub meta: MetadataView,
}

/// The abstract contents of a secret store.
pub type StoreModel = Map<Seq<char>, StoredSecret>;

/// A stored secret from its parts.
pub open spec fn stored(value: SecretValue, meta: MetadataView) -> StoredSecret {
    StoredSecret { value, meta }
}

/// Create-or-update on the abstract store: the value is always replaced;
/// the metadata is kept when the secret already exists and taken from the
/// caller only when this upsert creates it.
pub open spec fn upsert_model(
    s: StoreModel,
    name: Seq<char>,
    value: SecretValue,
    meta: MetadataView,
) -> StoreModel {
    if s.contains_key(name) {
        s.insert(name, stored(value, s[name].meta))
    } else {
        s.insert(name, stored(value, meta))
    }
}

/// One observable call against a [`SecretManager`].
pub enum StoreEvent {
    /// A fetch of the named secret.
    Get { name: Seq<char> },
    /// An upsert of the named secret with the declared value and metadata.
    Put { name: Seq<char>, value: SecretValue, meta: MetadataView },
}

/// A `Get` event.
pub open spec fn get_event(name: Seq<char>) -> StoreEvent {
    StoreEvent::Get { name }
}

/// A `Put` event.
pub open spec fn put_event(name: Seq<char>, value: SecretValue, meta: MetadataView) -> StoreEvent {
    StoreEvent::Put { name, value, meta }
}

/// One observable call against a [`SecretBackend`].
pub enum BackendEvent {
    /// A creation attempt carrying value and metadata.
    Create { name: Seq<char>, value: SecretValue, meta: MetadataView },
    /// An update carrying only the value, never metadata.
    Update { name: Seq<char>, value: SecretValue },
    /// A fetch of the named secret.
    Fetch { name: Seq<char> },
}

/// A `Create` event.
pub open spec fn create_event(name: Seq<char>, value: SecretValue, meta: MetadataView) -> BackendEvent {
    BackendEvent::Create { name, value, meta }
}

/// An `Update` event.
pub open spec fn update_event(name: Seq<char>, value: SecretValue) -> BackendEvent {
    BackendEvent::Update { name, value }
}

/// A `Fetch` event.
pub open spec fn fetch_event(name: Seq<char>) -> BackendEvent {
    BackendEvent::Fetch { name }
}

/// The backend's answer to a creation attempt. `AlreadyExists` is a
/// distinguished signal that the upsert protocol consumes; it never reaches
/// the engine's callers.
#[derive(Debug, PartialEq, Eq)]
pub enum CreateError {
    /// A secret of that name already exists; the store was left unchanged.
    AlreadyExists,
    /// Any other backend failure, with its message.
    Other { message: String },
}

/// The secret-store capability the engines drive: fetch by name and
/// idempotent create-or-update. A backend implementation may fail any call
/// for transport reasons, so success is never owed; but every outcome must
/// respect the abstract store and append exactly one event.
pub trait SecretManager {
    /// The abstract contents of the store.
    spec fn secrets(&self) -> StoreModel;

    /// The calls observed against this store, oldest first.
    spec fn events(&self) -> Seq<StoreEvent>;

    /// Fetches the secret's current value. A missing secret is reported as
    /// the distinguished `SecretNotFound`, carrying the requested name.
    fn get_secret(&mut self, name: &str) -> (r: Result<Secret, SyncError>)
        ensures
            final(self).secrets() == old(self).secrets(),
            final(self).events() == old(self).events().push(get_event(name@)),
            r matches Ok(v) ==> old(self).secrets().contains_key(name@) && v@ == old(self).secrets()[name@].value,
            r matches Err(e) ==> e is SecretNotFound || e is BackendError,
            r matches Err(SyncError::SecretNotFound { name: n }) ==> n@ == name@ && !old(self).secrets().contains_key(name@),
    ;

    /// Idempotent create-or-update: on success the store holds the new value
    /// under the name, with the metadata kept from creation time.
    fn set_secret(&mut self, name: &str, value: Secret, metadata: &SecretMetadata) -> (r: Result<
        (),
        SyncError,
    >)
        ensures
            final(self).events() == old(self).events().push(
                put_event(name@, value@, metadata@),
            ),
            r is Ok ==> final(self).secrets() == upsert_model(
                old(self).secrets(),
                name@,
                value@,
                metadata@,
            ),
            r matches Err(e) ==> e is BackendError,
    ;
}

/// The low-level store capability: separate create, update and fetch calls,
/// as a remote secrets API exposes them. The upsert protocol drives it.
pub trait SecretBackend {
    /// The abstract contents of the store.
    spec fn secrets(&self) -> StoreModel;

    /// The calls observed against this backend, oldest first.
    spec fn events(&self) -> Seq<BackendEvent>;

    /// Attempts to create the secret with its value and metadata. When the
    /// name is already taken the backend answers `AlreadyExists` and leaves
    /// the store unchanged.
    fn create_secret(&mut self, name: &str, value: &Secret, metadata: &SecretMetadata) -> (r:
        Result<(), CreateError>)
        ensures
            final(self).events() == old(self).events().push(
                create_event(name@, value@, metadata@),
            ),
            r is Ok ==> !old(self).secrets().contains_key(name@) && final(self).secrets() == old(self).secrets().insert(name@, stored(value@, metadata@)),
            r matches Err(CreateError::AlreadyExists) ==> old(self).secrets().contains_key(name@)
                && final(self).secrets() == old(self).secrets(),
    ;

    /// Updates the value of an existing secret. The call carries no
    /// metadata, so the metadata recorded at creation time is kept.
    fn update_secret(&mut self, name: &str, value: &Secret) -> (r: Result<(), SyncError>)
        ensures
            final(self).events() == old(self).events().push(update_event(name@, value@)),
            r is Ok ==> old(self).secrets().contains_key(name@) && final(self).secrets() == old(self).secrets().insert(name@, stored(value@, old(self).secrets()[name@].meta)),
            r matches Err(e) ==> e is BackendError,
    ;

    /// Fetches the secret's current value; a missing name is the
    /// distinguished `SecretNotFound`, carrying the requested name.
    fn fetch_secret(&mut self, name: &str) -> (r: Result<Secret, SyncError>)
        ensures
            final(self).secrets() == old(self).secrets(),
            final(self).events() == old(self).events().push(fetch_event(name@)),
            r matches Ok(v) ==> old(self).secrets().contains_key(name@) && v@ == old(self).secrets()[name@].value,
            r matches Err(e) ==> e is SecretNotFound || e is BackendError,
            r matches Err(SyncError::SecretNotFound { name: n }) ==> n@ == name@ && !old(self).secrets().contains_key(name@),
    ;
}

/// What the upsert protocol does after its creation attempt.
#[derive(Debug, PartialEq, Eq)]
pub enum UpsertFollowUp {
    /// The creation succeeded; the upsert is complete.
    Done,
    /// The secret already exists; send exactly one update carrying only the
    /// value, never metadata.
    UpdateValue,
}

/// The upsert protocol's decision after a creation attempt: stop on
/// success, fall back to a metadata-free update when the secret already
/// exists, and surface any other failure as a backend error.
pub fn upsert_follow_up(create_result: Result<(), CreateError>) -> (r: Result<
    UpsertFollowUp,
    SyncError,
>)
    ensures
        create_result is Ok <==> r matches Ok(UpsertFollowUp::Done),
        create_result matches Err(CreateError::AlreadyExists) <==> r matches Ok(
            UpsertFollowUp::UpdateValue,
        ),
        r matches Err(e) ==> (e matches SyncError::BackendError { message: m } && (
        create_result matches Err(CreateError::Other { message }) && m@ == message@)),
{
    match create_result {
        Ok(()) => Ok(UpsertFollowUp::Done),
        Err(CreateError::AlreadyExists) => Ok(UpsertFollowUp::UpdateValue),
        Err(CreateError::Other { message }) => Err(SyncError::BackendError { message }),
    }
}

/// The upsert protocol: attempt creation first, carrying the value and the
/// declared metadata; when the backend reports that the secret already
/// exists, fall back to an update that resends only the value. Creation is
/// always attempted first, an update happens only on the already-exists
/// path, and an update never carries metadata.
pub fn upsert_secret<B: SecretBackend>(
    backend: &mut B,
    name: &str,
    value: Secret,
    metadata: &SecretMetadata,
) -> (r: Result<(), SyncError>)
    ensures
        r is Ok ==> final(backend).secrets() == upsert_model(
            old(backend).secrets(),
            name@,
            value@,
            metadata@,
        ),
        r is Ok && !old(backend).secrets().contains_key(name@) ==> final(backend).events() == old(backend).events().push(create_event(name@, value@, metadata@)),
        r is Ok && old(backend).secrets().contains_key(name@) ==> final(backend).events() == old(backend).events().push(create_event(name@, value@, metadata@)).push(
            update_event(name@, value@),
        ),
        r is Err ==> final(backend).events() == old(backend).events().push(
            create_event(name@, value@, metadata@),
        ) || final(backend).events() == old(backend).events().push(
            create_event(name@, value@, metadata@),
        ).push(update_event(name@, value@)),
        r matches Err(e) ==> e is BackendError,
{
    let created = backend.create_secret(name, &value, metadata);
    match upsert_follow_up(created) {
        Ok(UpsertFollowUp::Done) => Ok(()),
        Ok(UpsertFollowUp::UpdateValue) => {
            match backend.update_secret(name, &value) {
                Ok(()) => Ok(()),
                Err(e) => Err(annotate_error("failed to update secret: ", e)),
            }
        },
        Err(e) => Err(e),
    }
}

/// Prefixes a backend error's message with the failed operation; other error
/// kinds pass through unchanged.
pub fn annotate_error(context: &str, e: SyncError) -> (r: SyncError)
    ensures
        r is BackendError <==> e is BackendError,
        r is SecretNotFound <==> e is SecretNotFound,
        r is FileNotFound <==> e is FileNotFound,
        r is IoError <==> e is IoError,
        r is FilterEmpty <==> e is FilterEmpty,
        e is SecretNotFound || e is FileNotFound || e is FilterEmpty ==> r == e,
        e matches SyncError::BackendError { message } ==> (r matches SyncError::BackendError {
            message: m,
        } && m@ == context@ + message@),
        e matches SyncError::IoError { message } ==> (r matches SyncError::IoError {
            message: m,
        } && m@ == context@ + message@),
{
    match e {
        SyncError::BackendError { message } => {
            let mut s = String::from_str(context);
            s.append(message.as_str());
            SyncError::BackendError { message: s }
        },
        SyncError::IoError { message } => {
            let mut s = String::from_str(context);
            s.append(message.as_str());
            SyncError::IoError { message: s }
        },
        other => other,
    }
}

/// A secret manager over a low-level backend: a fetch serves `get_secret`,
/// and the upsert protocol serves `set_secret`.
pub struct BackendSecretManager<B> {
    /// The backend the protocol drives.
    pub backend: B,
    /// The manager-level calls observed so far.
    pub events: Ghost<Seq<StoreEvent>>,
}

impl<B: SecretBackend> BackendSecretManager<B> {
    /// Wraps a backend; no calls have been observed yet.
    pub fn new(backend: B) -> (r: Self)
        ensures
            r.secrets() == backend.secrets(),
            r.backend == backend,
            r.events() == Seq::<StoreEvent>::empty(),
    {
        BackendSecretManager { backend, events: Ghost(Seq::empty()) }
    }
}

impl<B: SecretBackend> SecretManager for BackendSecretManager<B> {
    open spec fn secrets(&self) -> StoreModel {
        self.backend.secrets()
    }

    open spec fn events(&self) -> Seq<StoreEvent> {
        self.events@
    }

    fn get_secret(&mut self, name: &str) -> (r: Result<Secret, SyncError>) {
        let r = self.backend.fetch_secret(name);
        self.events = Ghost(self.events@.push(get_event(name@)));
        r
    }

    fn set_secret(&mut self, name: &str, value: Secret, metadata: &SecretMetadata) -> (r: Result<
        (),
        SyncError,
    >) {
        let ghost v = value@;
        let r = upsert_secret(&mut self.backend, name, value, metadata);
        self.events = Ghost(self.events@.push(put_event(name@, v, metadata@)));
        r
    }
}

/// Idempotent upsert: a second upsert with the same name, value and declared
/// metadata leaves the store exactly as the first one did — the first call
/// creates or updates, the second changes nothing further.
pub proof fn lemma_upsert_idempotent(
    s: StoreModel,
    name: Seq<char>,
    value: SecretValue,
    meta: MetadataView,
)
    ensures
        upsert_model(upsert_model(s, name, value, meta), name, value, meta) == upsert_model(
            s,
            name,
            value,
            meta,
        ),
{
    let s1 = upsert_model(s, name, value, meta);
    assert(upsert_model(s1, name, value, meta) =~= s1);
}

/// Create-only metadata: once an upsert has created a secret, any later
/// upsert of the same name keeps the metadata from that creating call, even
/// when the later call declares different metadata and a different value.
pub proof fn lemma_upsert_metadata_create_only(
    s: StoreModel,
    name: Seq<char>,
    v1: SecretValue,
    m1: MetadataView,
    v2: SecretValue,
    m2: MetadataView,
)
    requires
        !s.contains_key(name),
    ensures
        upsert_model(upsert_model(s, name, v1, m1), name, v2, m2)[name].meta == m1,
        upsert_model(upsert_model(s, name, v1, m1), name, v2, m2)[name].value == v2,
{
}

/// Round trip: after a push stores file bytes (classified as text or
/// binary), a pull of the same secret writes back exactly those bytes.
pub proof fn lemma_push_pull_round_trip(
    s: StoreModel,
    name: Seq<char>,
    meta: MetadataView,
    b: Seq<u8>,
)
    ensures
        secret_bytes(upsert_model(s, name, classify_bytes(b), meta)[name].value) == b,
{
    lemma_classify_preserves_bytes(b);
}

} // verus!
