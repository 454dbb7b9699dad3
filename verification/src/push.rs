//! The push engine: copy each selected file's contents into its secret.
//!
//! A file's bytes are classified as text when they are valid UTF-8 and as
//! binary otherwise, then upserted under the entry's secret name with the
//! entry's declared metadata — which only a creating upsert records. Entries
//! are processed strictly sequentially, in declaration order, stopping at
//! the first failure.

use crate::config::SecretFile;
use crate::error::SyncError;
use crate::fs::read_event;
use crate::fs::resolve_path;
use crate::fs::resolved_path;
use crate::fs::FileSystem;
use crate::fs::FsEvent;
use crate::secret::classify_bytes;
use crate::secret::Secret;
use crate::store::annotate_error;
use crate::store::put_event;
use crate::store::upsert_model;
use crate::store::SecretManager;
use crate::store::StoreEvent;
use crate::store::StoreModel;
use vstd::prelude::*;

verus! {

/// The file events one push of `entries` makes: a read per entry, in
/// declaration order.
pub open spec fn push_fs_events(working: Seq<char>, entries: Seq<SecretFile>) -> Seq<FsEvent> {
    entries.map_values(|e: SecretFile| read_event(resolved_path(working, e.path@)))
}

/// The store events a successful push of `entries` makes: one upsert per
/// entry, in declaration order, carrying the classified file bytes and the
/// entry's declared metadata.
pub open spec fn push_store_events(
    files_map: Map<Seq<char>, Seq<u8>>,
    working: Seq<char>,
    entries: Seq<SecretFile>,
) -> Seq<StoreEvent> {
    entries.map_values(
        |e: SecretFile|
            put_event(
                e.secret@,
                classify_bytes(files_map[resolved_path(working, e.path@)]),
                e.metadata@,
            ),
    )
}

/// The store contents after a successful push: every entry's file bytes
/// upserted in declaration order.
pub open spec fn push_store_model(
    secrets0: StoreModel,
    files_map: Map<Seq<char>, Seq<u8>>,
    working: Seq<char>,
    entries: Seq<SecretFile>,
) -> StoreModel
    decreases entries.len(),
{
    if entries.len() == 0 {
        secrets0
    } else {
        upsert_model(
            push_store_model(secrets0, files_map, working, entries.drop_last()),
            entries.last().secret@,
            classify_bytes(files_map[resolved_path(working, entries.last().path@)]),
            entries.last().metadata@,
        )
    }
}

/// Uploads one file into its secret: resolve the entry's path against the
/// working directory, read the file, classify its bytes as text or binary,
/// and upsert them under the entry's secret name.
pub fn push_secret_file<Fs: FileSystem, S: SecretManager>(
    fs: &mut Fs,
    secret: &mut S,
    working_path: &str,
    file: &SecretFile,
) -> (r: Result<(), SyncError>)
    ensures
        final(fs).files() == old(fs).files(),
        final(fs).events() == old(fs).events().push(
            read_event(resolved_path(working_path@, file.path@)),
        ),
        r is Ok ==> old(fs).files().contains_key(resolved_path(working_path@, file.path@)) && final(secret).events() == old(secret).events().push(
            put_event(
                file.secret@,
                classify_bytes(old(fs).files()[resolved_path(working_path@, file.path@)]),
                file.metadata@,
            ),
        ) && final(secret).secrets() == upsert_model(
            old(secret).secrets(),
            file.secret@,
            classify_bytes(old(fs).files()[resolved_path(working_path@, file.path@)]),
            file.metadata@,
        ),
        r is Err ==> (final(secret).events() == old(secret).events() && final(secret).secrets()
            == old(secret).secrets()) || (old(fs).files().contains_key(
            resolved_path(working_path@, file.path@),
        ) && final(secret).events() == old(secret).events().push(
            put_event(
                file.secret@,
                classify_bytes(old(fs).files()[resolved_path(working_path@, file.path@)]),
                file.metadata@,
            ),
        )),
        !old(fs).files().contains_key(resolved_path(working_path@, file.path@)) ==> r is Err
            && final(secret).events() == old(secret).events() && final(secret).secrets() == old(secret).secrets(),
        r matches Err(e) ==> e is FileNotFound || e is IoError || e is BackendError,
        r matches Err(SyncError::FileNotFound { path: p }) ==> p@ == resolved_path(
            working_path@,
            file.path@,
        ) && !old(fs).files().contains_key(resolved_path(working_path@, file.path@)),
{
    let file_path = resolve_path(working_path, file.path.as_str());
    let bytes = match fs.read_file(file_path.as_str()) {
        Ok(v) => v,
        Err(e) => {
            return Err(e);
        },
    };
    let value = Secret::from_bytes(bytes);
    match secret.set_secret(file.secret.as_str(), value, &file.metadata) {
        Ok(()) => Ok(()),
        Err(e) => Err(annotate_error("failed to store secret: ", e)),
    }
}

/// After a failed push of `entries`: some entry `k` failed, every entry
/// before `k` was fully pushed, entry `k`'s read happened (and its upsert at
/// most), and no operation was made for any entry after `k`.
pub open spec fn push_failed_state(
    files_map: Map<Seq<char>, Seq<u8>>,
    fev0: Seq<FsEvent>,
    fev1: Seq<FsEvent>,
    sev0: Seq<StoreEvent>,
    sev1: Seq<StoreEvent>,
    smap0: StoreModel,
    smap1: StoreModel,
    working: Seq<char>,
    entries: Seq<SecretFile>,
    k: int,
) -> bool {
    &&& 0 <= k < entries.len()
    &&& (forall|i: int|
        0 <= i < k ==> files_map.contains_key(resolved_path(working, #[trigger] entries[i].path@)))
    &&& fev1 == fev0 + push_fs_events(working, entries.take(k + 1))
    &&& {
        ||| (sev1 == sev0 + push_store_events(files_map, working, entries.take(k)) && smap1
            == push_store_model(smap0, files_map, working, entries.take(k)))
        ||| (files_map.contains_key(resolved_path(working, entries[k].path@)) && sev1 == sev0
            + push_store_events(files_map, working, entries.take(k + 1)))
    }
}

/// Uploads a collection of secret files, strictly sequentially and in the
/// given order, stopping at the first failure and propagating it.
pub fn push_secret_files<Fs: FileSystem, S: SecretManager>(
    fs: &mut Fs,
    secret: &mut S,
    working_path: &str,
    files: &Vec<SecretFile>,
) -> (r: Result<(), SyncError>)
    ensures
        final(fs).files() == old(fs).files(),
        r is Ok ==> {
            &&& forall|i: int|
                0 <= i < files@.len() ==> old(fs).files().contains_key(
                    resolved_path(working_path@, #[trigger] files@[i].path@),
                )
            &&& final(fs).events() == old(fs).events() + push_fs_events(working_path@, files@)
            &&& final(secret).events() == old(secret).events() + push_store_events(
                old(fs).files(),
                working_path@,
                files@,
            )
            &&& final(secret).secrets() == push_store_model(
                old(secret).secrets(),
                old(fs).files(),
                working_path@,
                files@,
            )
        },
        r is Err ==> exists|k: int|
            push_failed_state(
                old(fs).files(),
                old(fs).events(),
                final(fs).events(),
                old(secret).events(),
                final(secret).events(),
                old(secret).secrets(),
                final(secret).secrets(),
                working_path@,
                files@,
                k,
            ),
        r matches Err(e) ==> e is FileNotFound || e is IoError || e is BackendError,
{
    let ghost files_map = old(fs).files();
    let mut i: usize = 0;
    while i < files.len()
        invariant
            i <= files@.len(),
            fs.files() == files_map,
            files_map == old(fs).files(),
            fs.events() == old(fs).events() + push_fs_events(working_path@, files@.take(i as int)),
            secret.events() == old(secret).events() + push_store_events(
                files_map,
                working_path@,
                files@.take(i as int),
            ),
            secret.secrets() == push_store_model(
                old(secret).secrets(),
                files_map,
                working_path@,
                files@.take(i as int),
            ),
            forall|j: int|
                0 <= j < i ==> files_map.contains_key(
                    resolved_path(working_path@, #[trigger] files@[j].path@),
                ),
        decreases files@.len() - i,
    {
        let ghost prev = files@.take(i as int);
        let result = push_secret_file(fs, secret, working_path, &files[i]);
        proof {
            assert(files@.take(i + 1).drop_last() =~= prev);
            assert(files@.take(i + 1).last() == files@[i as int]);
            assert(push_fs_events(working_path@, files@.take(i + 1)) =~= push_fs_events(
                working_path@,
                prev,
            ).push(read_event(resolved_path(working_path@, files@[i as int].path@))));
            assert(fs.events() =~= old(fs).events() + push_fs_events(
                working_path@,
                files@.take(i + 1),
            ));
            assert(push_store_events(files_map, working_path@, files@.take(i + 1))
                =~= push_store_events(files_map, working_path@, prev).push(
                put_event(
                    files@[i as int].secret@,
                    classify_bytes(
                        files_map[resolved_path(working_path@, files@[i as int].path@)],
                    ),
                    files@[i as int].metadata@,
                ),
            ));
        }
        match result {
            Ok(()) => {},
            Err(e) => {
                proof {
                    assert(push_failed_state(
                        files_map,
                        old(fs).events(),
                        fs.events(),
                        old(secret).events(),
                        secret.events(),
                        old(secret).secrets(),
                        secret.secrets(),
                        working_path@,
                        files@,
                        i as int,
                    ));
                }
                return Err(e);
            },
        }
        i = i + 1;
        proof {
            assert(secret.events() =~= old(secret).events() + push_store_events(
                files_map,
                working_path@,
                files@.take(i as int),
            ));
        }
    }
    proof {
        assert(files@.take(files@.len() as int) =~= files@);
    }
    Ok(())
}

} // verus!
