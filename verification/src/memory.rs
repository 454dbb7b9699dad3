//! In-memory secret backend and filesystem: deterministic, verified
//! implementations of the two capabilities.
//!
//! Both keep their contents as an association list in which the latest pair
//! of a key is the one that counts, and record every call in an operation
//! log, so tests can substitute them for the real backend and filesystem and
//! then inspect both the final state and the exact call sequence.

use crate::config::SecretMetadata;
use crate::error::SyncError;
use crate::fs::FileSystem;
use crate::fs::FsEvent;
use crate::secret::Secret;
use crate::store::BackendEvent;
use crate::store::CreateError;
use crate::store::SecretBackend;
use crate::store::StoreModel;
use crate::store::StoredSecret;
use vstd::pervasive::VecAdditionalExecFns;
use vstd::prelude::*;
use vstd::slice::slice_to_vec;
use vstd::string::StringExecFns;

verus! {

/// The map an association list stands for; a later pair overrides an
/// earlier one of the same key.
pub open spec fn assoc_map<V>(s: Seq<(Seq<char>, V)>) -> Map<Seq<char>, V>
    decreases s.len(),
{
    if s.len() == 0 {
        Map::empty()
    } else {
        assoc_map(s.drop_last()).insert(s.last().0, s.last().1)
    }
}

/// The map holds exactly the listed keys.
pub proof fn lemma_assoc_contains<V>(s: Seq<(Seq<char>, V)>, key: Seq<char>)
    ensures
        assoc_map(s).contains_key(key) <==> exists|i: int| 0 <= i < s.len() && s[i].0 == key,
    decreases s.len(),
{
    if s.len() > 0 {
        let prefix = s.drop_last();
        lemma_assoc_contains(prefix, key);
        if s.last().0 == key {
            assert(s[s.len() - 1].0 == key);
        } else {
            if assoc_map(s).contains_key(key) {
                let i = choose|i: int| 0 <= i < prefix.len() && prefix[i].0 == key;
                assert(s[i].0 == key);
            }
            if exists|i: int| 0 <= i < s.len() && s[i].0 == key {
                let i = choose|i: int| 0 <= i < s.len() && s[i].0 == key;
                assert(prefix[i].0 == key);
            }
        }
    }
}

/// The latest pair of a key is the map's value at that key.
pub proof fn lemma_assoc_lookup<V>(s: Seq<(Seq<char>, V)>, i: int)
    requires
        0 <= i < s.len(),
        forall|j: int| i < j < s.len() ==> s[j].0 != s[i].0,
    ensures
        assoc_map(s).contains_key(s[i].0),
        assoc_map(s)[s[i].0] == s[i].1,
    decreases s.len(),
{
    if i < s.len() - 1 {
        let prefix = s.drop_last();
        lemma_assoc_lookup(prefix, i);
        assert(s.last().0 != s[i].0);
    }
}

/// Replacing the value at a key's latest pair updates the map at that key
/// alone.
pub proof fn lemma_assoc_update<V>(s: Seq<(Seq<char>, V)>, i: int, v: V)
    requires
        0 <= i < s.len(),
        forall|j: int| i < j < s.len() ==> s[j].0 != s[i].0,
    ensures
        assoc_map(s.update(i, (s[i].0, v))) == assoc_map(s).insert(s[i].0, v),
    decreases s.len(),
{
    let t = s.update(i, (s[i].0, v));
    if i == s.len() - 1 {
        assert(t.drop_last() =~= s.drop_last());
        assert(assoc_map(t) =~= assoc_map(s).insert(s[i].0, v));
    } else {
        let prefix = s.drop_last();
        lemma_assoc_update(prefix, i, v);
        assert(t.drop_last() =~= prefix.update(i, (s[i].0, v)));
        assert(s.last().0 != s[i].0);
        assert(assoc_map(t) =~= assoc_map(s).insert(s[i].0, v));
    }
}

/// One secret held by the in-memory backend.
struct MemEntry {
    name: String,
    value: Secret,
    metadata: SecretMetadata,
}

/// The key/value view of the backend's entry list.
spec fn entry_views(s: Seq<MemEntry>) -> Seq<(Seq<char>, StoredSecret)> {
    s.map_values(|e: MemEntry| (e.name@, crate::store::stored(e.value@, e.metadata@)))
}

/// Finds the latest entry holding `name`, if any.
fn find_entry(entries: &Vec<MemEntry>, name: &str) -> (r: Option<usize>)
    ensures
        r matches Some(i) ==> i < entries@.len() && entries@[i as int].name@ == name@ && (forall|
            j: int,
        |
            i < j < entries@.len() ==> entries@[j].name@ != name@),
        r is None ==> forall|j: int| 0 <= j < entries@.len() ==> entries@[j].name@ != name@,
{
    let key = name.to_owned();
    let mut i: usize = entries.len();
    while i > 0
        invariant
            i <= entries@.len(),
            key@ == name@,
            forall|j: int| i <= j < entries@.len() ==> entries@[j].name@ != name@,
        decreases i,
    {
        i = i - 1;
        if entries[i].name == key {
            return Some(i);
        }
    }
    None
}

/// One call recorded by the in-memory backend.
#[derive(Debug, PartialEq, Eq)]
pub enum BackendOp {
    /// A creation attempt carrying value and metadata.
    Create { name: String, value: Secret, metadata: SecretMetadata },
    /// An update carrying only the value.
    Update { name: String, value: Secret },
    /// A fetch of the named secret.
    Fetch { name: String },
}

impl View for BackendOp {
    type V = BackendEvent;

    open spec fn view(&self) -> BackendEvent {
        match self {
            BackendOp::Create { name, value, metadata } => crate::store::create_event(
                name@,
                value@,
                metadata@,
            ),
            BackendOp::Update { name, value } => crate::store::update_event(name@, value@),
            BackendOp::Fetch { name } => crate::store::fetch_event(name@),
        }
    }
}

/// An in-memory secret store: a deterministic, verified [`SecretBackend`]
/// that records every call, for tests and as the reference implementation.
pub struct MemBackend {
    entries: Vec<MemEntry>,
    ops: Vec<BackendOp>,
}

impl MemBackend {
    /// An empty store with an empty call log.
    pub fn new() -> (r: Self)
        ensures
            r.secrets() == Map::<Seq<char>, StoredSecret>::empty(),
            r.events() == Seq::<BackendEvent>::empty(),
    {
        let r = MemBackend { entries: Vec::new(), ops: Vec::new() };
        proof {
            assert(entry_views(r.entries@) =~= Seq::<(Seq<char>, StoredSecret)>::empty());
            assert(r.ops@.map_values(|op: BackendOp| op@) =~= Seq::<BackendEvent>::empty());
        }
        r
    }

    /// The value and creation metadata stored under `name`, when present.
    pub fn get_stored(&self, name: &str) -> (r: Option<(Secret, SecretMetadata)>)
        ensures
            r is Some <==> self.secrets().contains_key(name@),
            r matches Some(p) ==> p.0@ == self.secrets()[name@].value && p.1@
                == self.secrets()[name@].meta,
    {
        proof {
            lemma_assoc_contains(entry_views(self.entries@), name@);
        }
        match find_entry(&self.entries, name) {
            Some(i) => {
                proof {
                    lemma_assoc_lookup(entry_views(self.entries@), i as int);
                }
                Some((self.entries[i].value.clone(), self.entries[i].metadata.clone()))
            },
            None => None,
        }
    }

    /// The calls recorded so far, oldest first.
    pub fn ops(&self) -> (r: &Vec<BackendOp>)
        ensures
            r@.map_values(|op: BackendOp| op@) == self.events(),
    {
        &self.ops
    }
}

impl SecretBackend for MemBackend {
    closed spec fn secrets(&self) -> StoreModel {
        assoc_map(entry_views(self.entries@))
    }

    closed spec fn events(&self) -> Seq<BackendEvent> {
        self.ops@.map_values(|op: BackendOp| op@)
    }

    fn create_secret(&mut self, name: &str, value: &Secret, metadata: &SecretMetadata) -> (r:
        Result<(), CreateError>) {
        let ghost views0 = entry_views(self.entries@);
        let ghost events0 = self.ops@.map_values(|op: BackendOp| op@);
        let found = find_entry(&self.entries, name);
        self.ops.push(
            BackendOp::Create {
                name: name.to_owned(),
                value: value.clone(),
                metadata: metadata.clone(),
            },
        );
        proof {
            assert(self.ops@.map_values(|op: BackendOp| op@) =~= events0.push(
                crate::store::create_event(name@, value@, metadata@),
            ));
            lemma_assoc_contains(views0, name@);
        }
        match found {
            Some(i) => {
                proof {
                    assert(views0[i as int].0 == name@);
                }
                Err(CreateError::AlreadyExists)
            },
            None => {
                self.entries.push(
                    MemEntry {
                        name: name.to_owned(),
                        value: value.clone(),
                        metadata: metadata.clone(),
                    },
                );
                proof {
                    let views1 = entry_views(self.entries@);
                    assert(views1 =~= views0.push(
                        (name@, crate::store::stored(value@, metadata@)),
                    ));
                    assert(views1.drop_last() =~= views0);
                }
                Ok(())
            },
        }
    }

    fn update_secret(&mut self, name: &str, value: &Secret) -> (r: Result<(), SyncError>) {
        let ghost views0 = entry_views(self.entries@);
        let ghost events0 = self.ops@.map_values(|op: BackendOp| op@);
        let found = find_entry(&self.entries, name);
        self.ops.push(BackendOp::Update { name: name.to_owned(), value: value.clone() });
        proof {
            assert(self.ops@.map_values(|op: BackendOp| op@) =~= events0.push(
                crate::store::update_event(name@, value@),
            ));
            lemma_assoc_contains(views0, name@);
        }
        match found {
            Some(i) => {
                let name_kept = self.entries[i].name.clone();
                let metadata_kept = self.entries[i].metadata.clone();
                proof {
                    lemma_assoc_lookup(views0, i as int);
                    lemma_assoc_update(
                        views0,
                        i as int,
                        crate::store::stored(value@, views0[i as int].1.meta),
                    );
                }
                self.entries.set(
                    i,
                    MemEntry { name: name_kept, value: value.clone(), metadata: metadata_kept },
                );
                proof {
                    assert(entry_views(self.entries@) =~= views0.update(
                        i as int,
                        (views0[i as int].0, crate::store::stored(value@, views0[i as int].1.meta)),
                    ));
                }
                Ok(())
            },
            None => Err(
                SyncError::BackendError {
                    message: String::from_str("cannot update a secret that does not exist"),
                },
            ),
        }
    }

    fn fetch_secret(&mut self, name: &str) -> (r: Result<Secret, SyncError>) {
        let ghost views0 = entry_views(self.entries@);
        let ghost events0 = self.ops@.map_values(|op: BackendOp| op@);
        let found = find_entry(&self.entries, name);
        self.ops.push(BackendOp::Fetch { name: name.to_owned() });
        proof {
            assert(self.ops@.map_values(|op: BackendOp| op@) =~= events0.push(
                crate::store::fetch_event(name@),
            ));
            lemma_assoc_contains(views0, name@);
        }
        match found {
            Some(i) => {
                proof {
                    lemma_assoc_lookup(views0, i as int);
                }
                Ok(self.entries[i].value.clone())
            },
            None => Err(SyncError::SecretNotFound { name: name.to_owned() }),
        }
    }
}

/// One file held by the in-memory filesystem.
struct MemFile {
    path: String,
    bytes: Vec<u8>,
}

/// The key/value view of the filesystem's file list.
spec fn file_views(s: Seq<MemFile>) -> Seq<(Seq<char>, Seq<u8>)> {
    s.map_values(|f: MemFile| (f.path@, f.bytes@))
}

/// Finds the latest file at `path`, if any.
fn find_file(files: &Vec<MemFile>, path: &str) -> (r: Option<usize>)
    ensures
        r matches Some(i) ==> i < files@.len() && files@[i as int].path@ == path@ && (forall|
            j: int,
        |
            i < j < files@.len() ==> files@[j].path@ != path@),
        r is None ==> forall|j: int| 0 <= j < files@.len() ==> files@[j].path@ != path@,
{
    let key = path.to_owned();
    let mut i: usize = files.len();
    while i > 0
        invariant
            i <= files@.len(),
            key@ == path@,
            forall|j: int| i <= j < files@.len() ==> files@[j].path@ != path@,
        decreases i,
    {
        i = i - 1;
        if files[i].path == key {
            return Some(i);
        }
    }
    None
}

/// One call recorded by the in-memory filesystem.
#[derive(Debug, PartialEq, Eq)]
pub enum FileOp {
    /// A read of the file at the path.
    Read { path: String },
    /// A write of the bytes to the file at the path.
    Write { path: String, bytes: Vec<u8> },
}

impl View for FileOp {
    type V = FsEvent;

    open spec fn view(&self) -> FsEvent {
        match self {
            FileOp::Read { path } => crate::fs::read_event(path@),
            FileOp::Write { path, bytes } => crate::fs::write_event(path@, bytes@),
        }
    }
}

/// An in-memory filesystem: a deterministic, verified [`FileSystem`] that
/// records every call, for tests and as the reference implementation.
pub struct MemFileSystem {
    files: Vec<MemFile>,
    ops: Vec<FileOp>,
}

impl MemFileSystem {
    /// An empty filesystem with an empty call log.
    pub fn new() -> (r: Self)
        ensures
            r.files() == Map::<Seq<char>, Seq<u8>>::empty(),
            r.events() == Seq::<FsEvent>::empty(),
    {
        let r = MemFileSystem { files: Vec::new(), ops: Vec::new() };
        proof {
            assert(file_views(r.files@) =~= Seq::<(Seq<char>, Seq<u8>)>::empty());
            assert(r.ops@.map_values(|op: FileOp| op@) =~= Seq::<FsEvent>::empty());
        }
        r
    }

    /// The bytes stored at `path`, when present.
    pub fn get_file(&self, path: &str) -> (r: Option<Vec<u8>>)
        ensures
            r is Some <==> self.files().contains_key(path@),
            r matches Some(v) ==> v@ == self.files()[path@],
    {
        proof {
            lemma_assoc_contains(file_views(self.files@), path@);
        }
        match find_file(&self.files, path) {
            Some(i) => {
                proof {
                    lemma_assoc_lookup(file_views(self.files@), i as int);
                }
                Some(slice_to_vec(self.files[i].bytes.as_slice()))
            },
            None => None,
        }
    }

    /// The calls recorded so far, oldest first.
    pub fn ops(&self) -> (r: &Vec<FileOp>)
        ensures
            r@.map_values(|op: FileOp| op@) == self.events(),
    {
        &self.ops
    }
}

impl FileSystem for MemFileSystem {
    closed spec fn files(&self) -> Map<Seq<char>, Seq<u8>> {
        assoc_map(file_views(self.files@))
    }

    closed spec fn events(&self) -> Seq<FsEvent> {
        self.ops@.map_values(|op: FileOp| op@)
    }

    fn read_file(&mut self, path: &str) -> (r: Result<Vec<u8>, SyncError>) {
        let ghost views0 = file_views(self.files@);
        let ghost events0 = self.ops@.map_values(|op: FileOp| op@);
        let found = find_file(&self.files, path);
        self.ops.push(FileOp::Read { path: path.to_owned() });
        proof {
            assert(self.ops@.map_values(|op: FileOp| op@) =~= events0.push(
                crate::fs::read_event(path@),
            ));
            lemma_assoc_contains(views0, path@);
        }
        match found {
            Some(i) => {
                proof {
                    lemma_assoc_lookup(views0, i as int);
                }
                Ok(slice_to_vec(self.files[i].bytes.as_slice()))
            },
            None => Err(SyncError::FileNotFound { path: path.to_owned() }),
        }
    }

    fn write_file(&mut self, path: &str, bytes: &[u8]) -> (r: Result<(), SyncError>) {
        let ghost views0 = file_views(self.files@);
        let ghost events0 = self.ops@.map_values(|op: FileOp| op@);
        let found = find_file(&self.files, path);
        self.ops.push(FileOp::Write { path: path.to_owned(), bytes: slice_to_vec(bytes) });
        proof {
            assert(self.ops@.map_values(|op: FileOp| op@) =~= events0.push(
                crate::fs::write_event(path@, bytes@),
            ));
            lemma_assoc_contains(views0, path@);
        }
        match found {
            Some(i) => {
                let path_kept = self.files[i].path.clone();
                proof {
                    lemma_assoc_update(views0, i as int, bytes@);
                }
                self.files.set(i, MemFile { path: path_kept, bytes: slice_to_vec(bytes) });
                proof {
                    assert(file_views(self.files@) =~= views0.update(
                        i as int,
                        (views0[i as int].0, bytes@),
                    ));
                }
                Ok(())
            },
            None => {
                self.files.push(MemFile { path: path.to_owned(), bytes: slice_to_vec(bytes) });
                proof {
                    let views1 = file_views(self.files@);
                    assert(views1 =~= views0.push((path@, bytes@)));
                    assert(views1.drop_last() =~= views0);
                }
                Ok(())
            },
        }
    }
}

} // verus!
