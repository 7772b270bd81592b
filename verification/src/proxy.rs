//! The proxy itself: transport selection, message routing, the local
//! dispatcher, and the single-round-trip forwarding discipline.
//!
//! Per-message failures are absorbed here: a failed local dispatch or a
//! failed forward becomes "no response", never a crash of the serving loop.

use vstd::prelude::*;
use crate::blob::{Blob, VersionInfo};
use crate::config::{
    spec_shard_index, NetworkProtocol, ProxyContext, ShardConfig, TransportProtocol,
    ValidatorInternalNetworkPreConfig, ValidatorPublicNetworkPreConfig,
};
use crate::errors::{ForwardError, NodeError, ProxyError, ViewError};
use crate::ids::{BlobId, ChainId};
use crate::messages::{spec_is_local, spec_target_chain_id, MessageValue, RpcMessage};
use crate::storage::{missing_of, present_certs, write_gated, Storage, StorageModel};
use crate::Millis;

verus! {

/// The response the local dispatcher gives for a message over a store in
/// state `m`: a response for each local kind, an explicit "unexpected
/// message" failure for every other kind.
pub open spec fn local_response(m: StorageModel, msg: MessageValue) -> Result<
    Option<MessageValue>,
    ProxyError,
> {
    match msg {
        MessageValue::VersionInfoQuery => Ok(
            Some(MessageValue::VersionInfoResponse(crate::blob::spec_current_version())),
        ),
        MessageValue::NetworkDescriptionQuery => match m.network {
            Some(d) => Ok(Some(MessageValue::NetworkDescriptionResponse(d))),
            None => Err(ProxyError::MissingNetworkDescription),
        },
        MessageValue::UploadBlob(content) => {
            let id = crate::blob::spec_blob_id(content);
            if m.blob_states.contains_key(id.hash) {
                Ok(Some(MessageValue::UploadBlobResponse(id)))
            } else {
                Err(ProxyError::BlobNotFound)
            }
        },
        MessageValue::DownloadBlob(id) => {
            if m.blobs.contains_key(id.hash) {
                Ok(Some(MessageValue::DownloadBlobResponse(m.blobs[id.hash])))
            } else {
                Err(ProxyError::View(ViewError::NotFound))
            }
        },
        MessageValue::DownloadConfirmedBlock(hash) => {
            if m.blocks.contains_key(hash) {
                Ok(Some(MessageValue::DownloadConfirmedBlockResponse(m.blocks[hash])))
            } else {
                Err(ProxyError::View(ViewError::NotFound))
            }
        },
        MessageValue::DownloadCertificates(hashes) => Ok(
            Some(MessageValue::DownloadCertificatesResponse(present_certs(hashes, m.certificates))),
        ),
        MessageValue::BlobLastUsedBy(id) => {
            if m.blob_states.contains_key(id.hash) {
                Ok(Some(MessageValue::BlobLastUsedByResponse(m.blob_states[id.hash].last_used_by)))
            } else {
                Err(ProxyError::View(ViewError::NotFound))
            }
        },
        MessageValue::MissingBlobIds(ids) => Ok(
            Some(MessageValue::MissingBlobIdsResponse(missing_of(ids, m.blobs))),
        ),
        _ => Err(ProxyError::Node(NodeError::UnexpectedMessage)),
    }
}

/// The store after the local dispatcher handles a message: only an accepted
/// blob upload changes it.
pub open spec fn local_effect(m: StorageModel, msg: MessageValue) -> StorageModel {
    match msg {
        MessageValue::UploadBlob(content) => {
            let id = crate::blob::spec_blob_id(content);
            if m.blob_states.contains_key(id.hash) {
                m.with_blobs(m.blobs.insert(id.hash, content))
            } else {
                m
            }
        },
        _ => m,
    }
}

/// A dispatch or forward failure absorbed at the router boundary: the caller
/// sees no response, never the failure itself.
pub open spec fn absorbed(r: Result<Option<MessageValue>, ProxyError>) -> Option<MessageValue> {
    match r {
        Ok(response) => response,
        Err(_) => None,
    }
}

/// The view of an optional message.
pub open spec fn opt_msg_view(o: Option<RpcMessage>) -> Option<MessageValue> {
    match o {
        Some(msg) => Some(msg@),
        None => None,
    }
}

/// The view of a local-dispatch result.
pub open spec fn result_view(r: Result<Option<RpcMessage>, ProxyError>) -> Result<
    Option<MessageValue>,
    ProxyError,
> {
    match r {
        Ok(response) => Ok(opt_msg_view(response)),
        Err(e) => Err(e),
    }
}

/// What the message router decides for one inbound message: answer it (or
/// drop it), or forward it to the chain's shard.
pub enum RouteDecision {
    Respond(Option<MessageValue>),
    Forward(ChainId),
}

/// The router's decision: local kinds are dispatched and their failures
/// absorbed; kinds with a target chain are forwarded; kinds with neither are
/// dropped as malformed input.
pub open spec fn spec_route(m: StorageModel, msg: MessageValue) -> RouteDecision {
    if spec_is_local(msg) {
        RouteDecision::Respond(absorbed(local_response(m, msg)))
    } else {
        match spec_target_chain_id(msg) {
            Some(chain_id) => RouteDecision::Forward(chain_id),
            None => RouteDecision::Respond(None),
        }
    }
}

/// One forwarding order: the message, the shard to reach, the transport to
/// reach it over, and the two deadlines bounding the round trip.
pub struct ForwardAction {
    pub message: RpcMessage,
    pub shard: ShardConfig,
    pub protocol: TransportProtocol,
    pub send_timeout: Millis,
    pub recv_timeout: Millis,
}

/// What the router asks of its caller for one message: send a response (or
/// none), or perform one forward and answer with its outcome.
pub enum ProxyStep {
    Respond(Option<RpcMessage>),
    Forward(ForwardAction),
}

/// How one forwarded round trip ended, as observed by the transport: each
/// step either failed, timed out, or went through; a cleanly closed stream
/// carries no message.
pub enum ForwardEvent {
    ConnectFailed,
    SendTimedOut,
    SendFailed,
    RecvTimedOut,
    RecvFailed,
    RecvClosed,
    RecvMessage(RpcMessage),
}

/// The outcome one forwarding event denotes.
pub open spec fn spec_forward_outcome(e: ForwardEvent) -> Result<
    Option<MessageValue>,
    ForwardError,
> {
    match e {
        ForwardEvent::ConnectFailed => Err(ForwardError::Connect),
        ForwardEvent::SendTimedOut => Err(ForwardError::SendTimeout),
        ForwardEvent::SendFailed => Err(ForwardError::Send),
        ForwardEvent::RecvTimedOut => Err(ForwardError::RecvTimeout),
        ForwardEvent::RecvFailed => Err(ForwardError::Recv),
        ForwardEvent::RecvClosed => Ok(None),
        ForwardEvent::RecvMessage(msg) => Ok(Some(msg@)),
    }
}

/// Concludes one forwarded round trip from the event the transport reported:
/// exactly one round trip, one answer or none, each failure kind kept
/// distinct.
pub fn conclude_forward(event: ForwardEvent) -> (r: Result<Option<RpcMessage>, ForwardError>)
    ensures
        ({
            let outcome = spec_forward_outcome(event);
            match r {
                Ok(response) => outcome == Ok::<Option<MessageValue>, ForwardError>(
                    opt_msg_view(response),
                ),
                Err(e) => outcome == Err::<Option<MessageValue>, ForwardError>(e),
            }
        }),
{
    match event {
        ForwardEvent::ConnectFailed => Err(ForwardError::Connect),
        ForwardEvent::SendTimedOut => Err(ForwardError::SendTimeout),
        ForwardEvent::SendFailed => Err(ForwardError::Send),
        ForwardEvent::RecvTimedOut => Err(ForwardError::RecvTimeout),
        ForwardEvent::RecvFailed => Err(ForwardError::Recv),
        ForwardEvent::RecvClosed => Ok(None),
        ForwardEvent::RecvMessage(msg) => Ok(Some(msg)),
    }
}

/// Absorbs a forward outcome at the router boundary: a failure, timeouts
/// included, becomes no response.
pub fn absorb_forward_outcome(outcome: Result<Option<RpcMessage>, ForwardError>) -> (r: Option<
    RpcMessage,
>)
    ensures
        match outcome {
            Ok(response) => r == response,
            Err(_) => r is None,
        },
{
    match outcome {
        Ok(response) => response,
        Err(_) => None,
    }
}

/// A proxy bound to the simple-transport family on both sides.
pub struct SimpleProxy<S> {
    pub public_config: ValidatorPublicNetworkPreConfig<TransportProtocol>,
    pub internal_config: ValidatorInternalNetworkPreConfig<TransportProtocol>,
    pub send_timeout: Millis,
    pub recv_timeout: Millis,
    pub storage: S,
}

/// A proxy bound to the structured-RPC family on both sides.
pub struct GrpcProxy<S> {
    pub public_config: ValidatorPublicNetworkPreConfig<NetworkProtocol>,
    pub internal_config: ValidatorInternalNetworkPreConfig<NetworkProtocol>,
    pub send_timeout: Millis,
    pub recv_timeout: Millis,
    pub tls: crate::config::TlsConfig,
    pub storage: S,
}

/// A proxy, bound at construction to exactly one wire-protocol family.
pub enum Proxy<S> {
    Simple(SimpleProxy<S>),
    Grpc(GrpcProxy<S>),
}

impl<S: Storage> GrpcProxy<S> {
    /// A structured-RPC proxy over the given networks, deadlines and store.
    pub fn new(
        public_config: ValidatorPublicNetworkPreConfig<NetworkProtocol>,
        internal_config: ValidatorInternalNetworkPreConfig<NetworkProtocol>,
        send_timeout: Millis,
        recv_timeout: Millis,
        tls: crate::config::TlsConfig,
        storage: S,
    ) -> (r: Self)
        ensures
            r == (GrpcProxy {
                public_config,
                internal_config,
                send_timeout,
                recv_timeout,
                tls,
                storage,
            }),
    {
        GrpcProxy { public_config, internal_config, send_timeout, recv_timeout, tls, storage }
    }
}

impl<S: Storage> Proxy<S> {
    /// Selects the proxy variant from the configured protocol families: a
    /// structured proxy when both sides are structured, a simple proxy when
    /// both are simple, and a startup failure naming both families when they
    /// differ. Succeeds exactly when the families match.
    pub fn from_context(context: ProxyContext, storage: S) -> (r: Result<Proxy<S>, ProxyError>)
        ensures
            ({
                let internal = context.config.internal_network.protocol;
                let external = context.config.validator.network.protocol;
                match (internal, external) {
                    (NetworkProtocol::Grpc(internal_tls), NetworkProtocol::Grpc(tls)) => r == Ok::<
                        Proxy<S>,
                        ProxyError,
                    >(
                        Proxy::Grpc(
                            (GrpcProxy {
                                public_config: context.config.validator.network,
                                internal_config: context.config.internal_network,
                                send_timeout: context.send_timeout,
                                recv_timeout: context.recv_timeout,
                                tls,
                                storage,
                            }),
                        ),
                    ),
                    (
                        NetworkProtocol::Simple(internal_transport),
                        NetworkProtocol::Simple(public_transport),
                    ) => r == Ok::<Proxy<S>, ProxyError>(
                        Proxy::Simple(
                            (SimpleProxy {
                                public_config: (ValidatorPublicNetworkPreConfig {
                                    protocol: public_transport,
                                    host: context.config.validator.network.host,
                                    port: context.config.validator.network.port,
                                }),
                                internal_config: (ValidatorInternalNetworkPreConfig {
                                    protocol: internal_transport,
                                    shards: context.config.internal_network.shards,
                                    metrics_port: context.config.internal_network.metrics_port,
                                }),
                                send_timeout: context.send_timeout,
                                recv_timeout: context.recv_timeout,
                                storage,
                            }),
                        ),
                    ),
                    _ => r == Err::<Proxy<S>, ProxyError>(
                        ProxyError::ProtocolMismatch(internal, external),
                    ),
                }
            }),
    {
        let internal_protocol = context.config.internal_network.protocol;
        let external_protocol = context.config.validator.network.protocol;
        match (internal_protocol, external_protocol) {
            (NetworkProtocol::Grpc(_), NetworkProtocol::Grpc(tls)) => Ok(
                Proxy::Grpc(
                    GrpcProxy::new(
                        context.config.validator.network,
                        context.config.internal_network,
                        context.send_timeout,
                        context.recv_timeout,
                        tls,
                        storage,
                    ),
                ),
            ),
            (
                NetworkProtocol::Simple(internal_transport),
                NetworkProtocol::Simple(public_transport),
            ) => Ok(
                Proxy::Simple(
                    SimpleProxy {
                        internal_config: context.config.internal_network.clone_with_protocol(
                            internal_transport,
                        ),
                        public_config: context.config.validator.network.clone_with_protocol(
                            public_transport,
                        ),
                        send_timeout: context.send_timeout,
                        recv_timeout: context.recv_timeout,
                        storage,
                    },
                ),
            ),
            _ => Err(ProxyError::ProtocolMismatch(internal_protocol, external_protocol)),
        }
    }
}

impl<S: Storage> SimpleProxy<S> {
    /// A simple proxy is valid when its routing universe is and its store's
    /// invariant holds.
    pub open spec fn wf(&self) -> bool {
        self.internal_config.wf() && self.storage.inv()
    }

    /// Handles one local message against the store: answers each local kind
    /// per its storage operation, and reports every other kind as an
    /// explicit "unexpected message" failure.
    pub fn try_local_message(&mut self, message: RpcMessage) -> (r: Result<
        Option<RpcMessage>,
        ProxyError,
    >)
        requires
            old(self).wf(),
        ensures
            final(self).wf(),
            final(self).public_config == old(self).public_config,
            final(self).internal_config == old(self).internal_config,
            final(self).send_timeout == old(self).send_timeout,
            final(self).recv_timeout == old(self).recv_timeout,
            result_view(r) == local_response(old(self).storage.model(), message@),
            final(self).storage.model() == local_effect(old(self).storage.model(), message@),
    {
        match message {
            RpcMessage::VersionInfoQuery => Ok(
                Some(RpcMessage::VersionInfoResponse(VersionInfo::default())),
            ),
            RpcMessage::NetworkDescriptionQuery => {
                let description = match self.storage.read_network_description() {
                    Ok(description) => description,
                    Err(e) => {
                        return Err(ProxyError::View(e));
                    },
                };
                match description {
                    Some(description) => Ok(
                        Some(RpcMessage::NetworkDescriptionResponse(description)),
                    ),
                    None => Err(ProxyError::MissingNetworkDescription),
                }
            },
            RpcMessage::UploadBlob(content) => {
                let blob = Blob::new(content);
                let id = blob.id();
                let mut blobs: Vec<Blob> = Vec::new();
                blobs.push(blob);
                proof {
                    assert(blobs@.len() == 1);
                    assert(blobs@.last() == blob);
                    assert(blobs@.drop_last() =~= Seq::<Blob>::empty());
                }
                let written = match self.storage.maybe_write_blobs(&blobs) {
                    Ok(written) => written,
                    Err(e) => {
                        return Err(ProxyError::View(e));
                    },
                };
                proof {
                    let m0 = old(self).storage.model();
                    assert(write_gated(blobs@.drop_last(), m0) == m0.blobs);
                    assert(blobs@.last()@ == blob@);
                    assert(write_gated(blobs@, m0) == if m0.blob_states.contains_key(id.hash) {
                        m0.blobs.insert(id.hash, blob@)
                    } else {
                        m0.blobs
                    });
                    assert(self.storage.model() == local_effect(m0, message@));
                }
                if written[0] {
                    Ok(Some(RpcMessage::UploadBlobResponse(id)))
                } else {
                    Err(ProxyError::BlobNotFound)
                }
            },
            RpcMessage::DownloadBlob(blob_id) => {
                match self.storage.read_blob(blob_id) {
                    Ok(blob) => Ok(
                        Some(RpcMessage::DownloadBlobResponse(blob.into_content())),
                    ),
                    Err(e) => Err(ProxyError::View(e)),
                }
            },
            RpcMessage::DownloadConfirmedBlock(hash) => {
                match self.storage.read_confirmed_block(hash) {
                    Ok(block) => Ok(Some(RpcMessage::DownloadConfirmedBlockResponse(block))),
                    Err(e) => Err(ProxyError::View(e)),
                }
            },
            RpcMessage::DownloadCertificates(hashes) => {
                match self.storage.read_certificates(hashes) {
                    Ok(certificates) => Ok(
                        Some(RpcMessage::DownloadCertificatesResponse(certificates)),
                    ),
                    Err(e) => Err(ProxyError::View(e)),
                }
            },
            RpcMessage::BlobLastUsedBy(blob_id) => {
                match self.storage.read_blob_state(blob_id) {
                    Ok(state) => Ok(Some(RpcMessage::BlobLastUsedByResponse(state.last_used_by))),
                    Err(e) => Err(ProxyError::View(e)),
                }
            },
            RpcMessage::MissingBlobIds(blob_ids) => {
                match self.storage.missing_blobs(&blob_ids) {
                    Ok(missing) => Ok(Some(RpcMessage::MissingBlobIdsResponse(missing))),
                    Err(e) => Err(ProxyError::View(e)),
                }
            },
            _ => Err(ProxyError::Node(NodeError::UnexpectedMessage)),
        }
    }

    /// Routes one inbound message: dispatches local kinds against the store
    /// with failures absorbed to "no response", drops kinds with no target
    /// chain, and orders a bounded forward to the owning shard for the rest.
    pub fn handle_message(&mut self, message: RpcMessage) -> (r: ProxyStep)
        requires
            old(self).wf(),
        ensures
            final(self).wf(),
            final(self).public_config == old(self).public_config,
            final(self).internal_config == old(self).internal_config,
            final(self).send_timeout == old(self).send_timeout,
            final(self).recv_timeout == old(self).recv_timeout,
            final(self).storage.model() == if spec_is_local(message@) {
                local_effect(old(self).storage.model(), message@)
            } else {
                old(self).storage.model()
            },
            match spec_route(old(self).storage.model(), message@) {
                RouteDecision::Respond(response) => r matches ProxyStep::Respond(given)
                    && opt_msg_view(given) == response,
                RouteDecision::Forward(chain_id) => r matches ProxyStep::Forward(action) && {
                    let config = old(self).internal_config;
                    &&& action.message == message
                    &&& action.shard == config.shards@[spec_shard_index(
                        chain_id,
                        config.shards@.len() as int,
                    )]
                    &&& action.protocol == config.protocol
                    &&& action.send_timeout == old(self).send_timeout
                    &&& action.recv_timeout == old(self).recv_timeout
                },
            },
    {
        if message.is_local_message() {
            let response = self.try_local_message(message);
            return match response {
                Ok(maybe_response) => ProxyStep::Respond(maybe_response),
                Err(_) => ProxyStep::Respond(None),
            };
        }
        let chain_id = match message.target_chain_id() {
            Some(chain_id) => chain_id,
            None => {
                return ProxyStep::Respond(None);
            },
        };
        let shard_ref = self.internal_config.get_shard_for(chain_id);
        let shard = ShardConfig { host: shard_ref.host.clone(), port: shard_ref.port };
        ProxyStep::Forward(
            ForwardAction {
                message,
                shard,
                protocol: self.internal_config.protocol,
                send_timeout: self.send_timeout,
                recv_timeout: self.recv_timeout,
            },
        )
    }
}


/// What a forward outcome becomes at the router boundary: a failure,
/// timeouts included, is absorbed to no response.
pub open spec fn forward_absorbed(o: Result<Option<MessageValue>, ForwardError>) -> Option<
    MessageValue,
> {
    match o {
        Ok(response) => response,
        Err(_) => None,
    }
}

/// Uploading a blob whose blob state already exists, then downloading it by
/// the identifier the upload returned, yields back exactly the original
/// bytes.
pub proof fn lemma_upload_download_round_trip(m: StorageModel, content: Seq<u8>)
    requires
        m.blob_states.contains_key(crate::blob::spec_blob_id(content).hash),
    ensures
        ({
            let id = crate::blob::spec_blob_id(content);
            let stored = local_effect(m, MessageValue::UploadBlob(content));
            &&& local_response(m, MessageValue::UploadBlob(content)) == Ok::<
                Option<MessageValue>,
                ProxyError,
            >(Some(MessageValue::UploadBlobResponse(id)))
            &&& local_response(stored, MessageValue::DownloadBlob(id)) == Ok::<
                Option<MessageValue>,
                ProxyError,
            >(Some(MessageValue::DownloadBlobResponse(content)))
        }),
{
}

/// Membership in the missing-blob answer, one identifier at a time.
proof fn lemma_missing_membership(ids: Seq<BlobId>, blobs: Map<crate::digest::Digest, Seq<u8>>, b: BlobId)
    ensures
        missing_of(ids, blobs).contains(b) <==> (ids.contains(b) && !blobs.contains_key(b.hash)),
    decreases ids.len(),
{
    if ids.len() == 0 {
        assert(!ids.contains(b));
        assert(!missing_of(ids, blobs).contains(b));
    } else {
        let rest = ids.drop_last();
        lemma_missing_membership(rest, blobs, b);
        assert(ids.contains(b) <==> (rest.contains(b) || ids.last() == b)) by {
            if ids.contains(b) {
                let i = choose|i: int| 0 <= i < ids.len() && ids[i] == b;
                if i < ids.len() - 1 {
                    assert(rest[i] == b);
                }
            }
            if rest.contains(b) {
                let i = choose|i: int| 0 <= i < rest.len() && rest[i] == b;
                assert(ids[i] == b);
            }
            if ids.last() == b {
                assert(ids[ids.len() - 1] == b);
            }
        }
        let answer = missing_of(ids, blobs);
        let partial = missing_of(rest, blobs);
        if !blobs.contains_key(ids.last().hash) {
            assert(answer == partial.push(ids.last()));
            assert(answer.contains(b) <==> (partial.contains(b) || ids.last() == b)) by {
                if answer.contains(b) {
                    let i = choose|i: int| 0 <= i < answer.len() && answer[i] == b;
                    if i < answer.len() - 1 {
                        assert(partial[i] == b);
                    }
                }
                if partial.contains(b) {
                    let i = choose|i: int| 0 <= i < partial.len() && partial[i] == b;
                    assert(answer[i] == b);
                }
                if ids.last() == b {
                    assert(answer[answer.len() - 1] == b);
                }
            }
        }
    }
}

/// Querying missing blob identifiers with a set holding both present and
/// absent ones answers exactly the absent subset: an identifier is in the
/// answer precisely when it was queried and its blob is absent, whatever the
/// order of the query.
pub proof fn lemma_missing_blob_ids_exact(ids: Seq<BlobId>, m: StorageModel)
    ensures
        forall|b: BlobId| #[trigger]
            missing_of(ids, m.blobs).contains(b) <==> (ids.contains(b)
                && !m.blobs.contains_key(b.hash)),
{
    assert forall|b: BlobId| #[trigger]
        missing_of(ids, m.blobs).contains(b) <==> (ids.contains(b) && !m.blobs.contains_key(
            b.hash,
        )) by {
        lemma_missing_membership(ids, m.blobs, b);
    }
}

/// A chain-addressed request lacking a target identifier yields no response:
/// the router drops it without dispatching or forwarding, whatever the state
/// of the store.
pub proof fn lemma_unaddressed_message_dropped(m: StorageModel, msg: MessageValue)
    requires
        !spec_is_local(msg),
        spec_target_chain_id(msg) is None,
    ensures
        spec_route(m, msg) == RouteDecision::Respond(None::<MessageValue>),
{
}

/// A message kind outside both the local set and the chain-addressed set
/// reaching the local dispatcher directly is reported as an explicit
/// "unexpected message" failure, never silently answered.
pub proof fn lemma_unexpected_kind_reported(m: StorageModel, msg: MessageValue)
    requires
        !spec_is_local(msg),
    ensures
        local_response(m, msg) == Err::<Option<MessageValue>, ProxyError>(
            ProxyError::Node(NodeError::UnexpectedMessage),
        ),
        local_effect(m, msg) == m,
{
}

/// A forward whose receive deadline elapses is absorbed to no response at
/// the router boundary, as is every other forward failure; the wall-clock
/// bound on the wait belongs to the transport runtime outside this library.
pub proof fn lemma_forward_failure_yields_no_response(e: ForwardEvent)
    requires
        spec_forward_outcome(e) is Err,
    ensures
        forward_absorbed(spec_forward_outcome(e)) is None,
{
}

} // verus!
