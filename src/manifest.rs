//! The release manifest and the digest algorithms it can name.
use vstd::prelude::*;

use crate::text::{ascii_lower_seq, eq_ignore_ascii_case};

verus! {

/// A file of the release.
pub struct FileInfo {
    /// Path of the file relative to the installation root.
    pub path: String,
    /// Digest of the file's bytes, in Crockford base-32.
    pub hash: String,
}

/// The manifest published for a release.
pub struct Info {
    /// Root URL of the release on the server.
    pub base_url: String,
    /// Name of the digest algorithm that produced every hash of `files`.
    pub algorithm: String,
    /// The release's files, in the order in which they are downloaded.
    pub files: Vec<FileInfo>,
    /// Paths (files or directories) that an update never touches.
    pub ignored_files: Vec<String>,
}

/// The digest algorithms a manifest may name.
#[allow(non_camel_case_types)]
#[derive(Clone, Copy, Debug, PartialEq, Eq, Structural)]
pub enum HashAlgorithm {
    Sha256,
    Sha384,
    Sha512,
    Sha512_256,
}

/// The algorithm that a name denotes, case aside; `None` for an unknown name.
pub open spec fn algorithm_named(name: Seq<char>) -> Option<HashAlgorithm> {
    let n = ascii_lower_seq(name);
    if n == "sha256"@ {
        Some(HashAlgorithm::Sha256)
    } else if n == "sha384"@ {
        Some(HashAlgorithm::Sha384)
    } else if n == "sha512"@ {
        Some(HashAlgorithm::Sha512)
    } else if n == "sha512_256"@ {
        Some(HashAlgorithm::Sha512_256)
    } else {
        None
    }
}

/// Name of the algorithm with which a server publishes its manifests.
pub fn hash_algorithm() -> (r: &'static str)
    ensures
        r@ == "sha256"@,
{
    "sha256"
}

/// Looks up the digest algorithm called `name`, ignoring ASCII case.
/// An unknown name gives `None`: it is a configuration error, never a default.
pub fn convert_hash_algorithm(name: &str) -> (r: Option<HashAlgorithm>)
    ensures
        r == algorithm_named(name@),
{
    if eq_ignore_ascii_case(name, "sha256") {
        Some(HashAlgorithm::Sha256)
    } else if eq_ignore_ascii_case(name, "sha384") {
        Some(HashAlgorithm::Sha384)
    } else if eq_ignore_ascii_case(name, "sha512") {
        Some(HashAlgorithm::Sha512)
    } else if eq_ignore_ascii_case(name, "sha512_256") {
        Some(HashAlgorithm::Sha512_256)
    } else {
        None
    }
}

} // verus!
