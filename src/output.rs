//! Content-addressed placement of derived-curve blobs.
//!
//! A blob is named by the SHA-256 digest of its bytes and stored under
//! `<blobs>/<h[0..2]>/<h[2..4]>/<h>.parquet`; it is first written to the
//! sibling `<...>.parquet.tmp` and then renamed into place. Equal bytes give
//! the same place, so a blob that is already there needs no second write.

use vstd::prelude::*;
use sha2::{Digest, Sha256};

verus! {

/// Lower-case hexadecimal SHA-256 digest of a byte sequence.
pub uninterp spec fn sha256_hex(bytes: Seq<u8>) -> Seq<char>;

/// Relies on `sha2::Sha256` and the lower-hex formatting of its 32-byte
/// output: 64 hexadecimal digits that depend on the bytes alone.
#[verifier::external_body]
fn content_hash(bytes: &Vec<u8>) -> (r: String)
    ensures
        r@ == sha256_hex(bytes@),
        r@.len() == 64,
{
    let mut hasher = Sha256::new();
    hasher.update(bytes.as_slice());
    format!("{:x}", hasher.finalize())
}

/// Path, relative to the blobs directory, of the blob with a given hash.
pub open spec fn shard_path(hash: Seq<char>) -> Seq<char> {
    hash.subrange(0, 2) + "/"@ + hash.subrange(2, 4) + "/"@ + hash + ".parquet"@
}

/// Where a blob goes, and where it is written before it is renamed.
#[derive(Debug, Clone)]
pub struct BlobLocation {
    /// Content hash of the blob.
    pub hash: String,
    /// Final path of the blob.
    pub path: String,
    /// Temporary sibling written first.
    pub temp_path: String,
}

/// Places derived-curve blobs under a blobs directory.
pub struct OutputWriter {
    blobs_dir: String,
}

impl OutputWriter {
    /// The blobs directory.
    pub closed spec fn dir(&self) -> Seq<char> {
        self.blobs_dir@
    }

    /// Final path of the blob with a given hash.
    pub open spec fn path_for(&self, hash: Seq<char>) -> Seq<char> {
        self.dir() + "/"@ + shard_path(hash)
    }

    /// Creates a writer for a blobs directory.
    pub fn new(blobs_dir: String) -> (r: Self)
        ensures
            r.dir() == blobs_dir@,
    {
        OutputWriter { blobs_dir }
    }

    /// Final path of the blob with a given hash.
    pub fn blob_path(&self, hash: &str) -> (r: String)
        requires
            hash@.len() >= 4,
        ensures
            r@ == self.path_for(hash@),
    {
        let mut r = self.blobs_dir.clone();
        r.append("/");
        r.append(hash.substring_char(0, 2));
        r.append("/");
        r.append(hash.substring_char(2, 4));
        r.append("/");
        r.append(hash);
        r.append(".parquet");
        r
    }

    /// Hash, final path and temporary path of a blob's bytes.
    pub fn locate(&self, bytes: &Vec<u8>) -> (r: BlobLocation)
        ensures
            r.hash@ == sha256_hex(bytes@),
            r.hash@.len() == 64,
            r.path@ == self.path_for(sha256_hex(bytes@)),
            r.temp_path@ == self.path_for(sha256_hex(bytes@)) + ".tmp"@,
    {
        let hash = content_hash(bytes);
        let path = self.blob_path(hash.as_str());
        let mut temp_path = path.clone();
        temp_path.append(".tmp");
        BlobLocation { hash, path, temp_path }
    }
}

/// Identical bytes are stored under one hash and one path: a second write of
/// them finds the first in place.
pub proof fn lemma_identical_bytes_same_place(w: OutputWriter, a: Seq<u8>, b: Seq<u8>)
    requires
        a == b,
    ensures
        sha256_hex(a) == sha256_hex(b),
        w.path_for(sha256_hex(a)) == w.path_for(sha256_hex(b)),
{
}

} // verus!
