//! End-to-end scenarios over the in-memory capabilities: pull into a file,
//! edit, push back, and byte-exact round trips.

use secret_sync::config::SecretFile;
use secret_sync::config::SecretMetadata;
use secret_sync::fs::FileSystem;
use secret_sync::memory::MemBackend;
use secret_sync::memory::MemFileSystem;
use secret_sync::pull::pull_secret_file;
use secret_sync::push::push_secret_file;
use secret_sync::secret::Secret;
use secret_sync::store::BackendSecretManager;
use secret_sync::store::SecretBackend;

fn entry(path: &str, secret: &str) -> SecretFile {
    SecretFile {
        path: path.to_string(),
        secret: secret.to_string(),
        metadata: SecretMetadata::default(),
    }
}

#[test]
fn pull_edit_push_scenario() {
    // manifest declares: test-file -> path ".env", secret "test-secret";
    // the store holds test-secret = "hello"
    let mut backend = MemBackend::new();
    backend
        .create_secret(
            "test-secret",
            &Secret::Text("hello".to_string()),
            &SecretMetadata::default(),
        )
        .unwrap();
    let mut secret = BackendSecretManager::new(backend);
    let mut fs = MemFileSystem::new();
    let test_file = entry(".env", "test-secret");

    // pull writes .env containing exactly "hello"
    pull_secret_file(&mut fs, &mut secret, "/work", &test_file).unwrap();
    assert_eq!(fs.get_file("/work/.env").unwrap(), b"hello".to_vec());

    // edit .env to "world", then push
    fs.write_file("/work/.env", b"world").unwrap();
    push_secret_file(&mut fs, &mut secret, "/work", &test_file).unwrap();

    // the store now holds "world"
    let (value, _) = secret.backend.get_stored("test-secret").unwrap();
    assert_eq!(value, Secret::Text("world".to_string()));
}

#[test]
fn push_then_pull_round_trips_text_bytes() {
    let mut fs = MemFileSystem::new();
    let original = b"line one\nline two\n".to_vec();
    fs.write_file("/d/f.env", &original).unwrap();
    let mut secret = BackendSecretManager::new(MemBackend::new());
    let e = entry("f.env", "s");

    push_secret_file(&mut fs, &mut secret, "/d", &e).unwrap();
    // overwrite locally, then pull the pushed value back
    fs.write_file("/d/f.env", b"scratched").unwrap();
    pull_secret_file(&mut fs, &mut secret, "/d", &e).unwrap();

    assert_eq!(fs.get_file("/d/f.env").unwrap(), original);
}

#[test]
fn push_then_pull_round_trips_binary_bytes() {
    let mut fs = MemFileSystem::new();
    let original = vec![0u8, 255, 254, 128, 7, 0, 42];
    fs.write_file("/d/blob", &original).unwrap();
    let mut secret = BackendSecretManager::new(MemBackend::new());
    let e = entry("blob", "s");

    push_secret_file(&mut fs, &mut secret, "/d", &e).unwrap();
    // the value travelled as binary, not text
    let (stored, _) = secret.backend.get_stored("s").unwrap();
    assert!(matches!(stored, Secret::Binary(_)));

    fs.write_file("/d/blob", b"scratched").unwrap();
    pull_secret_file(&mut fs, &mut secret, "/d", &e).unwrap();
    assert_eq!(fs.get_file("/d/blob").unwrap(), original);
}

#[test]
fn pull_of_missing_secret_fails_and_writes_no_file() {
    let mut secret = BackendSecretManager::new(MemBackend::new());
    let mut fs = MemFileSystem::new();

    let err =
        pull_secret_file(&mut fs, &mut secret, "/", &entry(".env", "test-secret")).unwrap_err();

    // the error is the distinguished not-found kind, naming the secret
    assert_eq!(err.message(), "secret \"test-secret\" not found");
    // and no file was written
    assert_eq!(fs.ops().len(), 0);
    assert!(fs.get_file("/.env").is_none());
}
