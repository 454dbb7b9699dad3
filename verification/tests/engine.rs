//! Pull and push engine behaviour against the in-memory capabilities:
//! single-entry transfers, sequential ordering over many entries, and
//! fail-fast on the first failing entry.

use secret_sync::config::SecretFile;
use secret_sync::config::SecretMetadata;
use secret_sync::error::SyncError;
use secret_sync::fs::FileSystem;
use secret_sync::memory::BackendOp;
use secret_sync::memory::FileOp;
use secret_sync::memory::MemBackend;
use secret_sync::memory::MemFileSystem;
use secret_sync::pull::pull_secret_file;
use secret_sync::pull::pull_secret_files;
use secret_sync::push::push_secret_file;
use secret_sync::push::push_secret_files;
use secret_sync::secret::Secret;
use secret_sync::store::BackendSecretManager;
use secret_sync::store::SecretBackend;

fn entry(path: &str, secret: &str) -> SecretFile {
    SecretFile {
        path: path.to_string(),
        secret: secret.to_string(),
        metadata: SecretMetadata::default(),
    }
}

#[test]
fn test_pull_secret_file() {
    let mut backend = MemBackend::new();
    backend
        .create_secret(
            "test",
            &Secret::Text("test".to_string()),
            &SecretMetadata::default(),
        )
        .unwrap();
    let mut secret = BackendSecretManager::new(backend);
    let mut fs = MemFileSystem::new();

    pull_secret_file(&mut fs, &mut secret, "/", &entry(".env", "test")).unwrap();

    // the "test" secret was requested exactly once
    assert_eq!(
        secret.backend.ops()[1..],
        [BackendOp::Fetch {
            name: "test".to_string()
        }]
    );
    // the ".env" file was written exactly once, with the secret's bytes
    assert_eq!(
        fs.ops()[..],
        [FileOp::Write {
            path: "/.env".to_string(),
            bytes: b"test".to_vec(),
        }]
    );
    assert_eq!(fs.get_file("/.env").unwrap(), b"test".to_vec());
}

#[test]
fn test_pull_secret_files() {
    const TOTAL_TEST_SECRETS: usize = 50;

    let mut backend = MemBackend::new();
    let mut test_secrets: Vec<SecretFile> = Vec::new();
    for i in 0..TOTAL_TEST_SECRETS {
        backend
            .create_secret(
                &format!("test-{i}"),
                &Secret::Text(format!("test-{i}-secret")),
                &SecretMetadata::default(),
            )
            .unwrap();
        test_secrets.push(entry(&format!(".env.{i}"), &format!("test-{i}")));
    }
    let seeded = backend.ops().len();
    let mut secret = BackendSecretManager::new(backend);
    let mut fs = MemFileSystem::new();

    pull_secret_files(&mut fs, &mut secret, "/", &test_secrets).unwrap();

    // every secret was fetched, in declaration order
    let fetches = &secret.backend.ops()[seeded..];
    assert_eq!(fetches.len(), TOTAL_TEST_SECRETS);
    for i in 0..TOTAL_TEST_SECRETS {
        assert_eq!(
            fetches[i],
            BackendOp::Fetch {
                name: format!("test-{i}")
            }
        );
    }
    // every file was written, in declaration order, with its secret's bytes
    assert_eq!(fs.ops().len(), TOTAL_TEST_SECRETS);
    for i in 0..TOTAL_TEST_SECRETS {
        assert_eq!(
            fs.ops()[i],
            FileOp::Write {
                path: format!("/.env.{i}"),
                bytes: format!("test-{i}-secret").into_bytes(),
            }
        );
    }
}

#[test]
fn test_push_secret_file() {
    let mut fs = MemFileSystem::new();
    fs.write_file("/.env", b"test").unwrap();
    let seeded = fs.ops().len();
    let mut secret = BackendSecretManager::new(MemBackend::new());

    push_secret_file(&mut fs, &mut secret, "/", &entry(".env", "test")).unwrap();

    // the ".env" file was read exactly once
    assert_eq!(
        fs.ops()[seeded..],
        [FileOp::Read {
            path: "/.env".to_string()
        }]
    );
    // the "test" secret was created exactly once, as text, with the
    // entry's (empty) metadata
    assert_eq!(
        secret.backend.ops()[..],
        [BackendOp::Create {
            name: "test".to_string(),
            value: Secret::Text("test".to_string()),
            metadata: SecretMetadata::default(),
        }]
    );
    let (value, _meta) = secret.backend.get_stored("test").unwrap();
    assert_eq!(value, Secret::Text("test".to_string()));
}

#[test]
fn test_push_secret_files() {
    const TOTAL_TEST_SECRETS: usize = 50;

    let mut fs = MemFileSystem::new();
    let mut test_secrets: Vec<SecretFile> = Vec::new();
    for i in 0..TOTAL_TEST_SECRETS {
        fs.write_file(&format!("/.env.{i}"), format!("test-{i}-secret").as_bytes())
            .unwrap();
        test_secrets.push(entry(&format!(".env.{i}"), &format!("test-{i}")));
    }
    let seeded = fs.ops().len();
    let mut secret = BackendSecretManager::new(MemBackend::new());

    push_secret_files(&mut fs, &mut secret, "/", &test_secrets).unwrap();

    // every file was read, in declaration order
    let reads = &fs.ops()[seeded..];
    assert_eq!(reads.len(), TOTAL_TEST_SECRETS);
    for i in 0..TOTAL_TEST_SECRETS {
        assert_eq!(
            reads[i],
            FileOp::Read {
                path: format!("/.env.{i}")
            }
        );
    }
    // every secret was created, in declaration order, with its file's text
    assert_eq!(secret.backend.ops().len(), TOTAL_TEST_SECRETS);
    for i in 0..TOTAL_TEST_SECRETS {
        assert_eq!(
            secret.backend.ops()[i],
            BackendOp::Create {
                name: format!("test-{i}"),
                value: Secret::Text(format!("test-{i}-secret")),
                metadata: SecretMetadata::default(),
            }
        );
    }
}

#[test]
fn pull_fails_fast_on_missing_secret() {
    let mut backend = MemBackend::new();
    backend
        .create_secret(
            "first",
            &Secret::Text("one".to_string()),
            &SecretMetadata::default(),
        )
        .unwrap();
    backend
        .create_secret(
            "third",
            &Secret::Text("three".to_string()),
            &SecretMetadata::default(),
        )
        .unwrap();
    let seeded = backend.ops().len();
    let mut secret = BackendSecretManager::new(backend);
    let mut fs = MemFileSystem::new();
    let entries = vec![
        entry("a.env", "first"),
        entry("b.env", "missing"),
        entry("c.env", "third"),
    ];

    let err = pull_secret_files(&mut fs, &mut secret, "/", &entries).unwrap_err();
    assert_eq!(
        err,
        SyncError::SecretNotFound {
            name: "missing".to_string()
        }
    );

    // the first entry was pulled, the second fetch failed, and the third
    // entry shows zero invocations against either capability
    assert_eq!(
        secret.backend.ops()[seeded..],
        [
            BackendOp::Fetch {
                name: "first".to_string()
            },
            BackendOp::Fetch {
                name: "missing".to_string()
            },
        ]
    );
    assert_eq!(
        fs.ops()[..],
        [FileOp::Write {
            path: "/a.env".to_string(),
            bytes: b"one".to_vec(),
        }]
    );
    assert!(fs.get_file("/c.env").is_none());
}

#[test]
fn push_fails_fast_on_missing_file() {
    let mut fs = MemFileSystem::new();
    fs.write_file("/a.env", b"one").unwrap();
    fs.write_file("/c.env", b"three").unwrap();
    let seeded = fs.ops().len();
    let mut secret = BackendSecretManager::new(MemBackend::new());
    let entries = vec![
        entry("a.env", "first"),
        entry("b.env", "second"),
        entry("c.env", "third"),
    ];

    let err = push_secret_files(&mut fs, &mut secret, "/", &entries).unwrap_err();
    assert_eq!(
        err,
        SyncError::FileNotFound {
            path: "/b.env".to_string()
        }
    );

    // the first entry was pushed, the second read failed, and the third
    // entry shows zero invocations against either capability
    assert_eq!(
        fs.ops()[seeded..],
        [
            FileOp::Read {
                path: "/a.env".to_string()
            },
            FileOp::Read {
                path: "/b.env".to_string()
            },
        ]
    );
    assert_eq!(
        secret.backend.ops()[..],
        [BackendOp::Create {
            name: "first".to_string(),
            value: Secret::Text("one".to_string()),
            metadata: SecretMetadata::default(),
        }]
    );
    assert!(secret.backend.get_stored("third").is_none());
}

#[test]
fn absolute_entry_path_ignores_working_directory() {
    let mut backend = MemBackend::new();
    backend
        .create_secret(
            "abs",
            &Secret::Text("v".to_string()),
            &SecretMetadata::default(),
        )
        .unwrap();
    let mut secret = BackendSecretManager::new(backend);
    let mut fs = MemFileSystem::new();

    pull_secret_file(&mut fs, &mut secret, "/work/dir", &entry("/etc/abs.env", "abs")).unwrap();

    assert_eq!(fs.get_file("/etc/abs.env").unwrap(), b"v".to_vec());
}

#[test]
fn relative_entry_path_resolves_against_working_directory() {
    let mut backend = MemBackend::new();
    backend
        .create_secret(
            "rel",
            &Secret::Text("v".to_string()),
            &SecretMetadata::default(),
        )
        .unwrap();
    let mut secret = BackendSecretManager::new(backend);
    let mut fs = MemFileSystem::new();

    pull_secret_file(&mut fs, &mut secret, "/work/dir", &entry("sub/rel.env", "rel")).unwrap();

    assert_eq!(fs.get_file("/work/dir/sub/rel.env").unwrap(), b"v".to_vec());
}
