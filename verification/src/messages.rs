//! The wire message: a tagged union over client-facing request/response
//! kinds and proxy-local kinds, with its classification.
//!
//! A message is local when the proxy answers it itself from storage; every
//! other kind either carries an explicit target chain identifier and is
//! forwarded, or carries none and is dropped.

use vstd::prelude::*;
use crate::blob::{
    certs_view, BlobContent, Certificate, CertificateValue, ConfirmedBlock, NetworkDescription,
    NetworkDescriptionValue, VersionInfo,
};
use crate::digest::Digest;
use crate::ids::{BlobId, ChainId};

verus! {

/// A protocol message, as received from a client or another validator.
/// Payloads the proxy does not interpret are carried as opaque bytes.
#[derive(Clone, Debug)]
pub enum RpcMessage {
    // Chain-addressed kinds, each carrying its target chain.
    BlockProposal(ChainId, Vec<u8>),
    LiteCertificate(ChainId, Vec<u8>),
    TimeoutCertificate(ChainId, Vec<u8>),
    ValidatedCertificate(ChainId, Vec<u8>),
    ConfirmedCertificate(ChainId, Vec<u8>),
    ChainInfoQuery(ChainId, Vec<u8>),
    CrossChainRequest(ChainId, Vec<u8>),
    DownloadPendingBlob(ChainId, BlobId),
    HandlePendingBlob(ChainId, BlobContent),
    // Kinds with no target chain; the proxy drops them.
    Vote(Vec<u8>),
    Error(Vec<u8>),
    ChainInfoResponse(Vec<u8>),
    VersionInfoResponse(VersionInfo),
    NetworkDescriptionResponse(NetworkDescription),
    UploadBlobResponse(BlobId),
    DownloadBlobResponse(BlobContent),
    DownloadConfirmedBlockResponse(ConfirmedBlock),
    DownloadCertificatesResponse(Vec<Certificate>),
    BlobLastUsedByResponse(Digest),
    MissingBlobIdsResponse(Vec<BlobId>),
    DownloadPendingBlobResponse(Vec<u8>),
    // Local kinds, answered from storage.
    VersionInfoQuery,
    NetworkDescriptionQuery,
    UploadBlob(BlobContent),
    DownloadBlob(BlobId),
    DownloadConfirmedBlock(Digest),
    DownloadCertificates(Vec<Digest>),
    BlobLastUsedBy(BlobId),
    MissingBlobIds(Vec<BlobId>),
}

/// The mathematical value of a protocol message.
pub enum MessageValue {
    BlockProposal(ChainId, Seq<u8>),
    LiteCertificate(ChainId, Seq<u8>),
    TimeoutCertificate(ChainId, Seq<u8>),
    ValidatedCertificate(ChainId, Seq<u8>),
    ConfirmedCertificate(ChainId, Seq<u8>),
    ChainInfoQuery(ChainId, Seq<u8>),
    CrossChainRequest(ChainId, Seq<u8>),
    DownloadPendingBlob(ChainId, BlobId),
    HandlePendingBlob(ChainId, Seq<u8>),
    Vote(Seq<u8>),
    Error(Seq<u8>),
    ChainInfoResponse(Seq<u8>),
    VersionInfoResponse(VersionInfo),
    NetworkDescriptionResponse(NetworkDescriptionValue),
    UploadBlobResponse(BlobId),
    DownloadBlobResponse(Seq<u8>),
    DownloadConfirmedBlockResponse(Seq<u8>),
    DownloadCertificatesResponse(Seq<CertificateValue>),
    BlobLastUsedByResponse(Digest),
    MissingBlobIdsResponse(Seq<BlobId>),
    DownloadPendingBlobResponse(Seq<u8>),
    VersionInfoQuery,
    NetworkDescriptionQuery,
    UploadBlob(Seq<u8>),
    DownloadBlob(BlobId),
    DownloadConfirmedBlock(Digest),
    DownloadCertificates(Seq<Digest>),
    BlobLastUsedBy(BlobId),
    MissingBlobIds(Seq<BlobId>),
}

impl View for RpcMessage {
    type V = MessageValue;

    open spec fn view(&self) -> MessageValue {
        match self {
            RpcMessage::BlockProposal(c, p) => MessageValue::BlockProposal(*c, p@),
            RpcMessage::LiteCertificate(c, p) => MessageValue::LiteCertificate(*c, p@),
            RpcMessage::TimeoutCertificate(c, p) => MessageValue::TimeoutCertificate(*c, p@),
            RpcMessage::ValidatedCertificate(c, p) => MessageValue::ValidatedCertificate(*c, p@),
            RpcMessage::ConfirmedCertificate(c, p) => MessageValue::ConfirmedCertificate(*c, p@),
            RpcMessage::ChainInfoQuery(c, p) => MessageValue::ChainInfoQuery(*c, p@),
            RpcMessage::CrossChainRequest(c, p) => MessageValue::CrossChainRequest(*c, p@),
            RpcMessage::DownloadPendingBlob(c, b) => MessageValue::DownloadPendingBlob(*c, *b),
            RpcMessage::HandlePendingBlob(c, b) => MessageValue::HandlePendingBlob(*c, b@),
            RpcMessage::Vote(p) => MessageValue::Vote(p@),
            RpcMessage::Error(p) => MessageValue::Error(p@),
            RpcMessage::ChainInfoResponse(p) => MessageValue::ChainInfoResponse(p@),
            RpcMessage::VersionInfoResponse(v) => MessageValue::VersionInfoResponse(*v),
            RpcMessage::NetworkDescriptionResponse(d) => MessageValue::NetworkDescriptionResponse(
                d@,
            ),
            RpcMessage::UploadBlobResponse(b) => MessageValue::UploadBlobResponse(*b),
            RpcMessage::DownloadBlobResponse(b) => MessageValue::DownloadBlobResponse(b@),
            RpcMessage::DownloadConfirmedBlockResponse(b) => {
                MessageValue::DownloadConfirmedBlockResponse(b@)
            },
            RpcMessage::DownloadCertificatesResponse(cs) => {
                MessageValue::DownloadCertificatesResponse(certs_view(cs@))
            },
            RpcMessage::BlobLastUsedByResponse(h) => MessageValue::BlobLastUsedByResponse(*h),
            RpcMessage::MissingBlobIdsResponse(ids) => MessageValue::MissingBlobIdsResponse(ids@),
            RpcMessage::DownloadPendingBlobResponse(p) => {
                MessageValue::DownloadPendingBlobResponse(p@)
            },
            RpcMessage::VersionInfoQuery => MessageValue::VersionInfoQuery,
            RpcMessage::NetworkDescriptionQuery => MessageValue::NetworkDescriptionQuery,
            RpcMessage::UploadBlob(b) => MessageValue::UploadBlob(b@),
            RpcMessage::DownloadBlob(b) => MessageValue::DownloadBlob(*b),
            RpcMessage::DownloadConfirmedBlock(h) => MessageValue::DownloadConfirmedBlock(*h),
            RpcMessage::DownloadCertificates(hs) => MessageValue::DownloadCertificates(hs@),
            RpcMessage::BlobLastUsedBy(b) => MessageValue::BlobLastUsedBy(*b),
            RpcMessage::MissingBlobIds(ids) => MessageValue::MissingBlobIds(ids@),
        }
    }
}

/// Whether a message kind is local: one the proxy answers itself from
/// storage, with no shard involved.
pub open spec fn spec_is_local(m: MessageValue) -> bool {
    match m {
        MessageValue::VersionInfoQuery => true,
        MessageValue::NetworkDescriptionQuery => true,
        MessageValue::UploadBlob(_) => true,
        MessageValue::DownloadBlob(_) => true,
        MessageValue::DownloadConfirmedBlock(_) => true,
        MessageValue::DownloadCertificates(_) => true,
        MessageValue::BlobLastUsedBy(_) => true,
        MessageValue::MissingBlobIds(_) => true,
        _ => false,
    }
}

/// The target chain a message carries, if any.
pub open spec fn spec_target_chain_id(m: MessageValue) -> Option<ChainId> {
    match m {
        MessageValue::BlockProposal(c, _) => Some(c),
        MessageValue::LiteCertificate(c, _) => Some(c),
        MessageValue::TimeoutCertificate(c, _) => Some(c),
        MessageValue::ValidatedCertificate(c, _) => Some(c),
        MessageValue::ConfirmedCertificate(c, _) => Some(c),
        MessageValue::ChainInfoQuery(c, _) => Some(c),
        MessageValue::CrossChainRequest(c, _) => Some(c),
        MessageValue::DownloadPendingBlob(c, _) => Some(c),
        MessageValue::HandlePendingBlob(c, _) => Some(c),
        _ => None,
    }
}

impl RpcMessage {
    /// Whether the proxy answers this message itself from storage.
    pub fn is_local_message(&self) -> (r: bool)
        ensures
            r == spec_is_local(self@),
    {
        match self {
            RpcMessage::VersionInfoQuery => true,
            RpcMessage::NetworkDescriptionQuery => true,
            RpcMessage::UploadBlob(_) => true,
            RpcMessage::DownloadBlob(_) => true,
            RpcMessage::DownloadConfirmedBlock(_) => true,
            RpcMessage::DownloadCertificates(_) => true,
            RpcMessage::BlobLastUsedBy(_) => true,
            RpcMessage::MissingBlobIds(_) => true,
            _ => false,
        }
    }

    /// The chain this message is addressed to, if it carries one.
    pub fn target_chain_id(&self) -> (r: Option<ChainId>)
        ensures
            r == spec_target_chain_id(self@),
    {
        match self {
            RpcMessage::BlockProposal(c, _) => Some(*c),
            RpcMessage::LiteCertificate(c, _) => Some(*c),
            RpcMessage::TimeoutCertificate(c, _) => Some(*c),
            RpcMessage::ValidatedCertificate(c, _) => Some(*c),
            RpcMessage::ConfirmedCertificate(c, _) => Some(*c),
            RpcMessage::ChainInfoQuery(c, _) => Some(*c),
            RpcMessage::CrossChainRequest(c, _) => Some(*c),
            RpcMessage::DownloadPendingBlob(c, _) => Some(*c),
            RpcMessage::HandlePendingBlob(c, _) => Some(*c),
            _ => None,
        }
    }
}

} // verus!
