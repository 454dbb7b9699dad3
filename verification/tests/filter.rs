//! Entry selection: exact names, glob patterns, their union, declaration
//! order, and the empty-selection error.

use secret_sync::config::SecretFile;
use secret_sync::config::SecretMetadata;
use secret_sync::error::SyncError;
use secret_sync::filter::filter_files;
use secret_sync::filter::select_files;
use secret_sync::filter::TargetFilter;

fn manifest(names: &[&str]) -> Vec<(String, SecretFile)> {
    names
        .iter()
        .map(|name| {
            (
                name.to_string(),
                SecretFile {
                    path: format!("{name}.env"),
                    secret: format!("{name}-secret"),
                    metadata: SecretMetadata::default(),
                },
            )
        })
        .collect()
}

fn selected_names(selection: &[SecretFile]) -> Vec<String> {
    selection
        .iter()
        .map(|f| f.secret.trim_end_matches("-secret").to_string())
        .collect()
}

#[test]
fn names_and_globs_combine_as_a_union_in_declaration_order() {
    let files = manifest(&["a", "b1", "b2", "c"]);
    let filter = TargetFilter {
        names: Some(vec!["a".to_string()]),
        globs: Some(vec!["b*".to_string()]),
    };
    let selection = filter_files(&files, &filter);
    assert_eq!(selected_names(&selection), ["a", "b1", "b2"]);
}

#[test]
fn no_filter_selects_everything_in_order() {
    let files = manifest(&["a", "b1", "b2", "c"]);
    let filter = TargetFilter {
        names: None,
        globs: None,
    };
    let selection = filter_files(&files, &filter);
    assert_eq!(selected_names(&selection), ["a", "b1", "b2", "c"]);
}

#[test]
fn glob_matches_full_name_with_wildcards_and_classes() {
    let files = manifest(&["test-file-1", "test-file-2", "test-other", "file-1"]);
    let filter = TargetFilter {
        names: None,
        globs: Some(vec!["test-file-*".to_string()]),
    };
    let selection = filter_files(&files, &filter);
    assert_eq!(selected_names(&selection), ["test-file-1", "test-file-2"]);

    let class = TargetFilter {
        names: None,
        globs: Some(vec!["test-file-[12]".to_string()]),
    };
    assert_eq!(
        selected_names(&filter_files(&files, &class)),
        ["test-file-1", "test-file-2"]
    );
    let question = TargetFilter {
        names: None,
        globs: Some(vec!["file-?".to_string()]),
    };
    assert_eq!(selected_names(&filter_files(&files, &question)), ["file-1"]);
}

#[test]
fn names_match_exactly_not_as_prefixes() {
    let files = manifest(&["a", "ab"]);
    let filter = TargetFilter {
        names: Some(vec!["a".to_string()]),
        globs: None,
    };
    assert_eq!(selected_names(&filter_files(&files, &filter)), ["a"]);
}

#[test]
fn empty_lists_behave_like_an_absent_filter() {
    let files = manifest(&["a", "b"]);
    let filter = TargetFilter {
        names: Some(Vec::new()),
        globs: Some(Vec::new()),
    };
    assert_eq!(selected_names(&filter_files(&files, &filter)), ["a", "b"]);

    // one empty list beside a real one adds nothing to the selection
    let half = TargetFilter {
        names: Some(Vec::new()),
        globs: Some(vec!["a".to_string()]),
    };
    assert_eq!(selected_names(&filter_files(&files, &half)), ["a"]);
}

#[test]
fn selecting_none_of_a_non_empty_manifest_is_an_error() {
    let files = manifest(&["a", "b"]);
    let filter = TargetFilter {
        names: Some(vec!["zzz".to_string()]),
        globs: None,
    };
    let err = select_files(&files, &filter).unwrap_err();
    assert_eq!(err, SyncError::FilterEmpty);
    assert_eq!(err.message(), "no files matching filter");
}

#[test]
fn selecting_from_an_empty_manifest_succeeds_with_nothing() {
    let files: Vec<(String, SecretFile)> = Vec::new();
    let filter = TargetFilter {
        names: Some(vec!["zzz".to_string()]),
        globs: None,
    };
    let selection = select_files(&files, &filter).unwrap();
    assert_eq!(selection.len(), 0);
}
