//! Selection of the manifest entries that take part in a run.
//!
//! A filter names entries directly and/or gives shell-style glob patterns;
//! an entry is selected when its manifest name is listed **or** matches any
//! pattern. A filter with neither field selects every entry. Selection keeps
//! the manifest's declaration order, and filtering a non-empty manifest down
//! to nothing is a distinguished error rather than a silent no-op.

use crate::config::SecretFile;
use crate::error::SyncError;
use vstd::prelude::*;

verus! {

/// Which declared entries a run operates on.
pub struct TargetFilter {
    /// Entry names to match exactly.
    pub names: Option<Vec<String>>,
    /// Shell-style glob patterns matched against entry names.
    pub globs: Option<Vec<String>>,
}

/// What fast_glob::glob_match answers for a pattern and a name; a pure
/// function of the two character sequences.
pub uninterp spec fn glob_matches(pattern: Seq<char>, name: Seq<char>) -> bool;

/// Relies on fast_glob::glob_match: shell-style glob matching (`*`, `?`,
/// character classes, braces) of a pattern against an entry name.
#[verifier::external_body]
fn glob_match(pattern: &str, name: &str) -> (r: bool)
    ensures
        r == glob_matches(pattern@, name@),
{
    fast_glob::glob_match(pattern.as_bytes(), name.as_bytes())
}

/// Whether any name in the list is exactly `name`.
pub open spec fn name_listed(names: Seq<String>, name: Seq<char>) -> bool {
    exists|i: int| 0 <= i < names.len() && names[i]@ == name
}

/// Whether any pattern in the list glob-matches `name`.
pub open spec fn any_glob_matches(globs: Seq<String>, name: Seq<char>) -> bool {
    exists|i: int| 0 <= i < globs.len() && glob_matches(globs[i]@, name)
}

/// Whether the filter declares no names and no patterns at all: both lists
/// empty or absent. Such a filter selects every entry.
pub open spec fn filter_is_empty(filter: &TargetFilter) -> bool {
    &&& match filter.names {
        Some(ns) => ns@.len() == 0,
        None => true,
    }
    &&& match filter.globs {
        Some(gs) => gs@.len() == 0,
        None => true,
    }
}

/// Whether the filter selects an entry name: an empty filter matches
/// everything; otherwise the name must be listed or match some pattern
/// (either suffices).
pub open spec fn filter_selects(filter: &TargetFilter, name: Seq<char>) -> bool {
    if filter_is_empty(filter) {
        true
    } else {
        (filter.names matches Some(ns) && name_listed(ns@, name)) || (
        filter.globs matches Some(gs) && any_glob_matches(gs@, name))
    }
}

/// Whether the filter selects the entry name.
pub fn filter_matches(filter: &TargetFilter, name: &String) -> (r: bool)
    ensures
        r == filter_selects(filter, name@),
{
    let names_empty = match filter.names.as_ref() {
        Some(ns) => ns.len() == 0,
        None => true,
    };
    let globs_empty = match filter.globs.as_ref() {
        Some(gs) => gs.len() == 0,
        None => true,
    };
    if names_empty && globs_empty {
        return true;
    }
    match filter.names.as_ref() {
        Some(ns) => {
            let mut i: usize = 0;
            while i < ns.len()
                invariant
                    i <= ns@.len(),
                    filter.names is Some && filter.names->0 == *ns,
                    forall|j: int| 0 <= j < i ==> ns@[j]@ != name@,
                decreases ns@.len() - i,
            {
                if ns[i] == *name {
                    proof {
                        assert(ns@[i as int]@ == name@);
                        assert(name_listed(ns@, name@));
                    }
                    return true;
                }
                i = i + 1;
            }
        },
        None => {},
    }
    match filter.globs.as_ref() {
        Some(gs) => {
            let mut i: usize = 0;
            while i < gs.len()
                invariant
                    i <= gs@.len(),
                    filter.globs is Some && filter.globs->0 == *gs,
                    forall|j: int| 0 <= j < i ==> !glob_matches(gs@[j]@, name@),
                decreases gs@.len() - i,
            {
                if glob_match(gs[i].as_str(), name.as_str()) {
                    proof {
                        assert(glob_matches(gs@[i as int]@, name@));
                        assert(any_glob_matches(gs@, name@));
                    }
                    return true;
                }
                i = i + 1;
            }
        },
        None => {},
    }
    false
}

/// The name/entry view of a manifest's declared entry list.
pub open spec fn entries_view(entries: Seq<(String, SecretFile)>) -> Seq<
    (Seq<char>, crate::config::SecretFileView),
> {
    entries.map_values(|p: (String, SecretFile)| (p.0@, p.1@))
}

/// The entries a filter selects, in declaration order.
pub open spec fn select_model(
    entries: Seq<(Seq<char>, crate::config::SecretFileView)>,
    filter: &TargetFilter,
) -> Seq<crate::config::SecretFileView>
    decreases entries.len(),
{
    if entries.len() == 0 {
        Seq::empty()
    } else {
        let rest = select_model(entries.drop_last(), filter);
        if filter_selects(filter, entries.last().0) {
            rest.push(entries.last().1)
        } else {
            rest
        }
    }
}

/// An empty filter selects every entry, unchanged and in declaration order.
pub proof fn lemma_empty_filter_selects_all(
    entries: Seq<(Seq<char>, crate::config::SecretFileView)>,
    filter: &TargetFilter,
)
    requires
        filter_is_empty(filter),
    ensures
        select_model(entries, filter) == entries.map_values(
            |p: (Seq<char>, crate::config::SecretFileView)| p.1,
        ),
    decreases entries.len(),
{
    let all = entries.map_values(|p: (Seq<char>, crate::config::SecretFileView)| p.1);
    if entries.len() == 0 {
        assert(select_model(entries, filter) =~= all);
    } else {
        lemma_empty_filter_selects_all(entries.drop_last(), filter);
        assert(all =~= entries.drop_last().map_values(
            |p: (Seq<char>, crate::config::SecretFileView)| p.1,
        ).push(entries.last().1));
    }
}

/// Filters the manifest's entries, returning the selected files in their
/// original declaration order.
pub fn filter_files(files: &Vec<(String, SecretFile)>, filter: &TargetFilter) -> (r: Vec<
    SecretFile,
>)
    ensures
        r@.map_values(|f: SecretFile| f@) == select_model(entries_view(files@), filter),
{
    let mut r: Vec<SecretFile> = Vec::new();
    let mut i: usize = 0;
    while i < files.len()
        invariant
            i <= files@.len(),
            r@.map_values(|f: SecretFile| f@) == select_model(
                entries_view(files@.take(i as int)),
                filter,
            ),
        decreases files@.len() - i,
    {
        let (name, file) = &files[i];
        let ghost prefix = entries_view(files@.take(i as int));
        if filter_matches(filter, name) {
            r.push(file.clone());
        }
        i = i + 1;
        proof {
            let next = entries_view(files@.take(i as int));
            assert(next.drop_last() =~= prefix);
            assert(next.last() == (files@[i - 1].0@, files@[i - 1].1@));
            assert(r@.map_values(|f: SecretFile| f@) =~= select_model(next, filter));
        }
    }
    proof {
        assert(entries_view(files@.take(files@.len() as int)) =~= entries_view(files@));
    }
    r
}

/// Selects the entries for a run. Selecting from a non-empty manifest and
/// matching none of its entries is the distinguished `FilterEmpty` error;
/// every other case — including an empty manifest — succeeds with the
/// selected entries in declaration order.
pub fn select_files(files: &Vec<(String, SecretFile)>, filter: &TargetFilter) -> (r: Result<
    Vec<SecretFile>,
    SyncError,
>)
    ensures
        r is Ok <==> files@.len() == 0 || select_model(entries_view(files@), filter).len() > 0,
        r matches Ok(sel) ==> sel@.map_values(|f: SecretFile| f@) == select_model(
            entries_view(files@),
            filter,
        ),
        r matches Err(e) ==> e is FilterEmpty,
{
    let selected = filter_files(files, filter);
    if selected.len() == 0 && files.len() > 0 {
        proof {
            assert(select_model(entries_view(files@), filter).len() == selected@.map_values(
                |f: SecretFile| f@,
            ).len());
        }
        Err(SyncError::FilterEmpty)
    } else {
        proof {
            assert(select_model(entries_view(files@), filter).len() == selected@.map_values(
                |f: SecretFile| f@,
            ).len());
        }
        Ok(selected)
    }
}

} // verus!
