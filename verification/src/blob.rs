//! Storage entities: blobs and their states, confirmed blocks, certificates,
//! the network description, and the proxy's version record.

use vstd::prelude::*;
use crate::digest::{compute_digest, digest_of, Digest};
use crate::ids::{BlobId, Epoch, Timestamp};

verus! {

/// Copies a byte string; the copy denotes the same sequence.
pub fn clone_bytes(v: &Vec<u8>) -> (r: Vec<u8>)
    ensures
        r@ == v@,
{
    let r = v.clone();
    proof {
        assert forall|i: int| 0 <= i < v@.len() implies r@[i] == v@[i] by {
            assert(cloned::<u8>(v@[i], r@[i]));
        }
        assert(r@ =~= v@);
    }
    r
}

/// The raw content of a blob.
#[derive(Clone, Debug)]
pub struct BlobContent {
    pub bytes: Vec<u8>,
}

impl View for BlobContent {
    type V = Seq<u8>;

    open spec fn view(&self) -> Seq<u8> {
        self.bytes@
    }
}

/// A content-addressed, immutable binary object. Its identifier is the
/// digest of its content.
#[derive(Clone, Debug)]
pub struct Blob {
    content: BlobContent,
}

impl View for Blob {
    type V = Seq<u8>;

    closed spec fn view(&self) -> Seq<u8> {
        self.content@
    }
}

/// The identifier a blob with these content bytes carries.
pub open spec fn spec_blob_id(content: Seq<u8>) -> BlobId {
    BlobId { hash: digest_of(content) }
}

impl Blob {
    /// A blob holding `content`.
    pub fn new(content: BlobContent) -> (r: Self)
        ensures
            r@ == content@,
    {
        Blob { content }
    }

    /// A blob holding the bytes of a chain description.
    pub fn new_chain_description(bytes: &Vec<u8>) -> (r: Self)
        ensures
            r@ == bytes@,
    {
        Blob { content: BlobContent { bytes: clone_bytes(bytes) } }
    }

    /// The blob's content-addressed identifier.
    pub fn id(&self) -> (r: BlobId)
        ensures
            r == spec_blob_id(self@),
    {
        BlobId { hash: compute_digest(self.content.bytes.as_slice()) }
    }

    /// The blob's content.
    pub fn into_content(self) -> (r: BlobContent)
        ensures
            r@ == self@,
    {
        self.content
    }

    /// A copy of the blob's content.
    pub fn clone_content(&self) -> (r: BlobContent)
        ensures
            r@ == self@,
    {
        BlobContent { bytes: clone_bytes(&self.content.bytes) }
    }
}

/// What the system records about a blob it expects: which block last used it
/// and in which epoch.
#[derive(Clone, Copy, Debug, PartialEq, Eq, Structural)]
pub struct BlobState {
    /// The hash of the latest block to use the blob.
    pub last_used_by: Digest,
    pub epoch: Epoch,
}

impl View for BlobState {
    type V = BlobState;

    open spec fn view(&self) -> BlobState {
        *self
    }
}

/// A finalized block, stored and served by hash; its bytes are opaque to the
/// proxy.
#[derive(Clone, Debug)]
pub struct ConfirmedBlock {
    pub bytes: Vec<u8>,
}

impl View for ConfirmedBlock {
    type V = Seq<u8>;

    open spec fn view(&self) -> Seq<u8> {
        self.bytes@
    }
}

impl ConfirmedBlock {
    /// The hash under which the block is stored.
    pub fn hash(&self) -> (r: Digest)
        ensures
            r == digest_of(self.bytes@),
    {
        compute_digest(self.bytes.as_slice())
    }
}

/// The mathematical value of a certificate.
pub struct CertificateValue {
    pub block: Seq<u8>,
    pub signatures: Seq<u8>,
}

/// A certificate over a confirmed block: the block and the signatures that
/// finalized it. Stored under the block's hash.
#[derive(Clone, Debug)]
pub struct Certificate {
    pub block: ConfirmedBlock,
    pub signatures: Vec<u8>,
}

impl View for Certificate {
    type V = CertificateValue;

    open spec fn view(&self) -> CertificateValue {
        CertificateValue { block: self.block@, signatures: self.signatures@ }
    }
}

impl Certificate {
    /// The hash under which the certificate is stored: its block's hash.
    pub fn hash(&self) -> (r: Digest)
        ensures
            r == digest_of(self.block@),
    {
        self.block.hash()
    }
}

/// The views of a sequence of certificates.
pub open spec fn certs_view(s: Seq<Certificate>) -> Seq<CertificateValue> {
    s.map(|i: int, c: Certificate| c@)
}

/// The mathematical value of a network description.
pub struct NetworkDescriptionValue {
    pub name: Seq<char>,
    pub genesis_config_hash: Digest,
    pub genesis_timestamp: Timestamp,
}

/// A description of the current network, stored in every node's database and
/// served verbatim.
#[derive(Clone, Debug)]
pub struct NetworkDescription {
    pub name: String,
    pub genesis_config_hash: Digest,
    pub genesis_timestamp: Timestamp,
}

impl View for NetworkDescription {
    type V = NetworkDescriptionValue;

    open spec fn view(&self) -> NetworkDescriptionValue {
        NetworkDescriptionValue {
            name: self.name@,
            genesis_config_hash: self.genesis_config_hash,
            genesis_timestamp: self.genesis_timestamp,
        }
    }
}

/// Static version metadata of the proxy. Each shard is assumed to run the
/// same version as the proxy itself.
#[derive(Clone, Copy, Debug, PartialEq, Eq, Structural)]
pub struct VersionInfo {
    pub major: u64,
    pub minor: u64,
    pub patch: u64,
}

/// The version this proxy reports.
pub open spec fn spec_current_version() -> VersionInfo {
    VersionInfo { major: 0, minor: 1, patch: 0 }
}

impl Default for VersionInfo {
    /// The version this proxy reports.
    fn default() -> (r: Self)
        ensures
            r == spec_current_version(),
    {
        VersionInfo { major: 0, minor: 1, patch: 0 }
    }
}

} // verus!
