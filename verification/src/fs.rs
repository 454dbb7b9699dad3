//! The filesystem capability and entry path resolution.
//!
//! [`FileSystem`] abstracts the host filesystem as a map from path to file
//! bytes, plus the sequence of calls observed so far. The engines resolve
//! each entry's declared path against the run's working directory — the
//! manifest's containing directory, never the process's current directory —
//! before touching a file.

use crate::error::SyncError;
use vstd::prelude::*;
use vstd::string::StrSliceExecFns;
use vstd::string::StringExecFns;

verus! {

/// One observable call against a [`FileSystem`].
pub enum FsEvent {
    /// A read of the file at the path.
    Read { path: Seq<char> },
    /// A write of the bytes to the file at the path.
    Write { path: Seq<char>, bytes: Seq<u8> },
}

/// A `Read` event.
pub open spec fn read_event(path: Seq<char>) -> FsEvent {
    FsEvent::Read { path }
}

/// A `Write` event.
pub open spec fn write_event(path: Seq<char>, bytes: Seq<u8>) -> FsEvent {
    FsEvent::Write { path, bytes }
}

/// The filesystem capability: read a file's bytes and write bytes to a path,
/// creating parent directories as needed. `files()` is the abstract map from
/// path to contents; `events()` the calls observed so far, oldest first.
pub trait FileSystem {
    /// The abstract contents of the filesystem.
    spec fn files(&self) -> Map<Seq<char>, Seq<u8>>;

    /// The calls observed against this filesystem, oldest first.
    spec fn events(&self) -> Seq<FsEvent>;

    /// Reads the file at `path`. A missing file is reported as the
    /// distinguished `FileNotFound`, carrying the requested path.
    fn read_file(&mut self, path: &str) -> (r: Result<Vec<u8>, SyncError>)
        ensures
            final(self).files() == old(self).files(),
            final(self).events() == old(self).events().push(read_event(path@)),
            r matches Ok(v) ==> old(self).files().contains_key(path@) && v@ == old(self).files()[path@],
            r matches Err(e) ==> e is FileNotFound || e is IoError,
            r matches Err(SyncError::FileNotFound { path: p }) ==> p@ == path@ && !old(self).files().contains_key(path@),
    ;

    /// Writes `bytes` to the file at `path`, creating the parent directory
    /// tree when absent. Directories may remain created even when the write
    /// itself fails, so a failed write leaves the file map unspecified.
    fn write_file(&mut self, path: &str, bytes: &[u8]) -> (r: Result<(), SyncError>)
        ensures
            final(self).events() == old(self).events().push(write_event(path@, bytes@)),
            r is Ok ==> final(self).files() == old(self).files().insert(path@, bytes@),
            r matches Err(e) ==> e is IoError,
    ;
}

/// True of an absolute path: one that starts with the separator.
pub open spec fn is_absolute_path(p: Seq<char>) -> bool {
    p.len() > 0 && p[0] == '/'
}

/// The path an entry resolves to: an absolute path stands as it is; a
/// relative one is appended to the working directory, with a separator
/// unless the working directory already ends in one.
pub open spec fn resolved_path(working: Seq<char>, path: Seq<char>) -> Seq<char> {
    if is_absolute_path(path) {
        path
    } else if working.len() > 0 && working[working.len() - 1] == '/' {
        working + path
    } else {
        working + "/"@ + path
    }
}

/// Resolves an entry's declared path against the run's working directory.
pub fn resolve_path(working: &str, path: &str) -> (r: String)
    ensures
        r@ == resolved_path(working@, path@),
{
    let path_len = path.unicode_len();
    if path_len > 0 && path.get_char(0) == '/' {
        path.to_owned()
    } else {
        let working_len = working.unicode_len();
        let mut r = working.to_owned();
        if working_len == 0 || working.get_char(working_len - 1) != '/' {
            r.append("/");
        }
        r.append(path);
        r
    }
}

} // verus!
