//! The pull engine: copy each selected secret's current value into its file.
//!
//! Entries are processed strictly sequentially, in declaration order, and the
//! run stops at the first failure: entries before it are already written,
//! entries after it are never touched. The contracts state this over the
//! capabilities' event sequences.

use crate::config::SecretFile;
use crate::error::SyncError;
use crate::fs::resolve_path;
use crate::fs::resolved_path;
use crate::fs::write_event;
use crate::fs::FileSystem;
use crate::fs::FsEvent;
use crate::secret::secret_bytes;
use crate::store::get_event;
use crate::store::SecretManager;
use crate::store::StoreEvent;
use crate::store::StoreModel;
use vstd::prelude::*;

verus! {

/// The store events one pull of `entries` makes: a get per entry, in
/// declaration order.
pub open spec fn pull_store_events(entries: Seq<SecretFile>) -> Seq<StoreEvent> {
    entries.map_values(|e: SecretFile| get_event(e.secret@))
}

/// The file events a successful pull of `entries` makes: one write per
/// entry, in declaration order, carrying its secret's bytes.
pub open spec fn pull_fs_events(
    secrets: StoreModel,
    working: Seq<char>,
    entries: Seq<SecretFile>,
) -> Seq<FsEvent> {
    entries.map_values(
        |e: SecretFile|
            write_event(resolved_path(working, e.path@), secret_bytes(secrets[e.secret@].value)),
    )
}

/// The file contents after a successful pull: every entry's resolved path
/// holds its secret's bytes, later entries overriding earlier ones.
pub open spec fn pull_files_model(
    files0: Map<Seq<char>, Seq<u8>>,
    secrets: StoreModel,
    working: Seq<char>,
    entries: Seq<SecretFile>,
) -> Map<Seq<char>, Seq<u8>>
    decreases entries.len(),
{
    if entries.len() == 0 {
        files0
    } else {
        pull_files_model(files0, secrets, working, entries.drop_last()).insert(
            resolved_path(working, entries.last().path@),
            secret_bytes(secrets[entries.last().secret@].value),
        )
    }
}

/// Downloads one secret into its file: fetch the secret, resolve the entry's
/// path against the working directory, write the secret's bytes there.
pub fn pull_secret_file<Fs: FileSystem, S: SecretManager>(
    fs: &mut Fs,
    secret: &mut S,
    working_path: &str,
    file: &SecretFile,
) -> (r: Result<(), SyncError>)
    ensures
        final(secret).secrets() == old(secret).secrets(),
        final(secret).events() == old(secret).events().push(get_event(file.secret@)),
        r is Ok ==> old(secret).secrets().contains_key(file.secret@) && final(fs).events() == old(fs).events().push(
            write_event(
                resolved_path(working_path@, file.path@),
                secret_bytes(old(secret).secrets()[file.secret@].value),
            ),
        ) && final(fs).files() == old(fs).files().insert(
            resolved_path(working_path@, file.path@),
            secret_bytes(old(secret).secrets()[file.secret@].value),
        ),
        r is Err ==> (final(fs).files() == old(fs).files() && final(fs).events() == old(fs).events()) || (old(secret).secrets().contains_key(file.secret@) && final(fs).events()
            == old(fs).events().push(
            write_event(
                resolved_path(working_path@, file.path@),
                secret_bytes(old(secret).secrets()[file.secret@].value),
            ),
        )),
        !old(secret).secrets().contains_key(file.secret@) ==> r is Err && final(fs).files() == old(fs).files() && final(fs).events() == old(fs).events(),
        r matches Err(e) ==> e is SecretNotFound || e is BackendError || e is IoError,
        r matches Err(SyncError::SecretNotFound { name: n }) ==> n@ == file.secret@ && !old(secret).secrets().contains_key(file.secret@),
{
    let value = match secret.get_secret(file.secret.as_str()) {
        Ok(v) => v,
        Err(e) => {
            return Err(e);
        },
    };
    let file_path = resolve_path(working_path, file.path.as_str());
    let bytes = value.into_bytes();
    fs.write_file(file_path.as_str(), bytes.as_slice())
}

/// After a failed pull of `entries`: some entry `k` failed, every entry
/// before `k` was fully pulled, entry `k`'s fetch happened (and its write at
/// most), and no operation was made for any entry after `k`.
pub open spec fn pull_failed_state(
    secrets: StoreModel,
    sev0: Seq<StoreEvent>,
    sev1: Seq<StoreEvent>,
    fev0: Seq<FsEvent>,
    fev1: Seq<FsEvent>,
    fmap0: Map<Seq<char>, Seq<u8>>,
    fmap1: Map<Seq<char>, Seq<u8>>,
    working: Seq<char>,
    entries: Seq<SecretFile>,
    k: int,
) -> bool {
    &&& 0 <= k < entries.len()
    &&& (forall|i: int| 0 <= i < k ==> secrets.contains_key(#[trigger] entries[i].secret@))
    &&& sev1 == sev0 + pull_store_events(entries.take(k + 1))
    &&& {
        ||| (fev1 == fev0 + pull_fs_events(secrets, working, entries.take(k)) && fmap1 == pull_files_model(
            fmap0,
            secrets,
            working,
            entries.take(k),
        ))
        ||| (secrets.contains_key(entries[k].secret@) && fev1 == fev0 + pull_fs_events(
            secrets,
            working,
            entries.take(k + 1),
        ))
    }
}

/// Downloads a collection of secret files, strictly sequentially and in the
/// given order, stopping at the first failure and propagating it.
pub fn pull_secret_files<Fs: FileSystem, S: SecretManager>(
    fs: &mut Fs,
    secret: &mut S,
    working_path: &str,
    files: &Vec<SecretFile>,
) -> (r: Result<(), SyncError>)
    ensures
        final(secret).secrets() == old(secret).secrets(),
        r is Ok ==> {
            &&& forall|i: int|
                0 <= i < files@.len() ==> old(secret).secrets().contains_key(
                    #[trigger] files@[i].secret@,
                )
            &&& final(secret).events() == old(secret).events() + pull_store_events(files@)
            &&& final(fs).events() == old(fs).events() + pull_fs_events(
                old(secret).secrets(),
                working_path@,
                files@,
            )
            &&& final(fs).files() == pull_files_model(
                old(fs).files(),
                old(secret).secrets(),
                working_path@,
                files@,
            )
        },
        r is Err ==> exists|k: int|
            pull_failed_state(
                old(secret).secrets(),
                old(secret).events(),
                final(secret).events(),
                old(fs).events(),
                final(fs).events(),
                old(fs).files(),
                final(fs).files(),
                working_path@,
                files@,
                k,
            ),
        r matches Err(e) ==> e is SecretNotFound || e is BackendError || e is IoError,
{
    let ghost secrets = old(secret).secrets();
    let mut i: usize = 0;
    while i < files.len()
        invariant
            i <= files@.len(),
            secret.secrets() == secrets,
            secrets == old(secret).secrets(),
            secret.events() == old(secret).events() + pull_store_events(files@.take(i as int)),
            fs.events() == old(fs).events() + pull_fs_events(
                secrets,
                working_path@,
                files@.take(i as int),
            ),
            fs.files() == pull_files_model(
                old(fs).files(),
                secrets,
                working_path@,
                files@.take(i as int),
            ),
            forall|j: int| 0 <= j < i ==> secrets.contains_key(#[trigger] files@[j].secret@),
        decreases files@.len() - i,
    {
        let ghost prev = files@.take(i as int);
        let result = pull_secret_file(fs, secret, working_path, &files[i]);
        proof {
            assert(files@.take(i + 1).drop_last() =~= prev);
            assert(files@.take(i + 1).last() == files@[i as int]);
            assert(pull_store_events(files@.take(i + 1)) =~= pull_store_events(prev).push(
                get_event(files@[i as int].secret@),
            ));
            assert(secret.events() =~= old(secret).events() + pull_store_events(
                files@.take(i + 1),
            ));
            assert(pull_fs_events(secrets, working_path@, files@.take(i + 1)) =~= pull_fs_events(
                secrets,
                working_path@,
                prev,
            ).push(
                write_event(
                    resolved_path(working_path@, files@[i as int].path@),
                    secret_bytes(secrets[files@[i as int].secret@].value),
                ),
            ));
        }
        match result {
            Ok(()) => {},
            Err(e) => {
                proof {
                    assert(pull_failed_state(
                        secrets,
                        old(secret).events(),
                        secret.events(),
                        old(fs).events(),
                        fs.events(),
                        old(fs).files(),
                        fs.files(),
                        working_path@,
                        files@,
                        i as int,
                    ));
                }
                return Err(e);
            },
        }
        i = i + 1;
        proof {
            assert(fs.events() =~= old(fs).events() + pull_fs_events(
                secrets,
                working_path@,
                files@.take(i as int),
            ));
        }
    }
    proof {
        assert(files@.take(files@.len() as int) =~= files@);
    }
    Ok(())
}

} // verus!
