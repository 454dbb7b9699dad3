//! Configuration data: the declared secret files and backend settings.
//!
//! These records arrive already validated from the configuration layer that
//! locates and parses the manifest; the engine only reads them. Entries are
//! kept as an ordered list of name/file pairs so that selection and the
//! engines see them in declaration order.

use vstd::prelude::*;

verus! {

/// Metadata attached to a secret only when it is first created; later
/// pushes of the same secret never resend or alter it.
#[derive(Debug, PartialEq, Eq)]
pub struct SecretMetadata {
    /// Optional description of the secret, used on the creating push only.
    pub description: Option<String>,
    /// Optional tags as ordered key/value pairs, used on the creating push
    /// only.
    pub tags: Option<Vec<(String, String)>>,
}

/// The mathematical value of a [`SecretMetadata`].
pub struct MetadataView {
    /// The description's characters, when one is declared.
    pub description: Option<Seq<char>>,
    /// The tag pairs' characters, when tags are declared.
    pub tags: Option<Seq<(Seq<char>, Seq<char>)>>,
}

impl View for SecretMetadata {
    type V = MetadataView;

    open spec fn view(&self) -> MetadataView {
        MetadataView { description: self.description.deep_view(), tags: self.tags.deep_view() }
    }
}

/// Clones a tag list; the copy holds the same pairs.
fn clone_tags(tags: &Vec<(String, String)>) -> (r: Vec<(String, String)>)
    ensures
        r@ == tags@,
{
    let mut r: Vec<(String, String)> = Vec::new();
    let mut i: usize = 0;
    while i < tags.len()
        invariant
            i <= tags.len(),
            r@ =~= tags@.take(i as int),
        decreases tags.len() - i,
    {
        let (key, value) = &tags[i];
        r.push((key.clone(), value.clone()));
        i = i + 1;
        proof {
            assert(r@ =~= tags@.take(i as int));
        }
    }
    proof {
        assert(tags@.take(tags@.len() as int) =~= tags@);
    }
    r
}

impl Clone for SecretMetadata {
    fn clone(&self) -> (r: Self)
        ensures
            r@ == self@,
    {
        let description = match &self.description {
            Some(d) => Some(d.clone()),
            None => None,
        };
        let tags = match &self.tags {
            Some(t) => Some(clone_tags(t)),
            None => None,
        };
        SecretMetadata { description, tags }
    }
}

impl Default for SecretMetadata {
    /// The empty metadata: no description, no tags.
    fn default() -> (r: Self)
        ensures
            r@.description is None,
            r@.tags is None,
    {
        SecretMetadata { description: None, tags: None }
    }
}

/// One declared mapping between a local file path and a secret name.
#[derive(Debug, PartialEq, Eq)]
pub struct SecretFile {
    /// Path to store the secret at; a relative path is resolved against the
    /// run's working directory.
    pub path: String,
    /// Name of the secret to store or retrieve the file under.
    pub secret: String,
    /// Metadata to attach when a push first creates the secret.
    pub metadata: SecretMetadata,
}

/// The mathematical value of a [`SecretFile`].
pub struct SecretFileView {
    /// The path's characters.
    pub path: Seq<char>,
    /// The secret name's characters.
    pub secret: Seq<char>,
    /// The declared metadata.
    pub metadata: MetadataView,
}

impl View for SecretFile {
    type V = SecretFileView;

    open spec fn view(&self) -> SecretFileView {
        SecretFileView { path: self.path@, secret: self.secret@, metadata: self.metadata@ }
    }
}

impl Clone for SecretFile {
    fn clone(&self) -> (r: Self)
        ensures
            r@ == self@,
    {
        SecretFile {
            path: self.path.clone(),
            secret: self.secret.clone(),
            metadata: self.metadata.clone(),
        }
    }
}

/// Which backend provider serves the secret store.
#[derive(Clone, Copy, PartialEq, Eq, Structural)]
pub enum BackendProvider {
    /// An AWS-compatible secrets manager.
    Aws,
}

/// Which backend the run talks to.
#[derive(Clone, Copy, PartialEq, Eq, Structural)]
pub struct BackendConfig {
    /// Provider to use.
    pub provider: BackendProvider,
}

/// Credentials for an AWS-compatible backend.
pub struct AwsCredentials {
    /// Access key identifier.
    pub access_key_id: String,
    /// Access key secret.
    pub access_key_secret: String,
}

/// Settings for an AWS-compatible backend.
pub struct AwsConfig {
    /// Profile to use the SDK with.
    pub profile: Option<String>,
    /// Optional region override.
    pub region: Option<String>,
    /// Custom endpoint override for the secrets manager.
    pub endpoint: Option<String>,
    /// Custom credentials to use.
    pub credentials: Option<AwsCredentials>,
}

/// A parsed manifest: backend settings and the declared secret files, as an
/// ordered name-to-entry list in declaration order.
pub struct Config {
    /// Which backend to use.
    pub backend: BackendConfig,
    /// AWS-specific settings.
    pub aws: AwsConfig,
    /// The declared secret files, each under its manifest name.
    pub files: Vec<(String, SecretFile)>,
}

} // verus!
