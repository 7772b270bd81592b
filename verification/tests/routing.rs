//! Shard routing, transport selection, forwarding orders and process options.

use shard_proxy::config::{
    NetworkProtocol, ProxyContext, ProxyOptions, ShardConfig, TlsConfig, TransportProtocol,
    ValidatorConfig, ValidatorInternalNetworkPreConfig, ValidatorPublicNetworkPreConfig,
    ValidatorServerConfig,
};
use shard_proxy::digest::Digest;
use shard_proxy::errors::{ForwardError, ProxyError};
use shard_proxy::ids::ChainId;
use shard_proxy::messages::RpcMessage;
use shard_proxy::proxy::{
    absorb_forward_outcome, conclude_forward, ForwardEvent, Proxy, ProxyStep, SimpleProxy,
};
use shard_proxy::storage::InMemoryStorage;

fn chain(a: u64) -> ChainId {
    ChainId { hash: Digest { a, b: 0, c: 0, d: 0 } }
}

fn shard(name: &str, port: u16) -> ShardConfig {
    ShardConfig { host: String::from(name), port }
}

fn internal_three_shards() -> ValidatorInternalNetworkPreConfig<TransportProtocol> {
    ValidatorInternalNetworkPreConfig {
        protocol: TransportProtocol::Tcp,
        shards: vec![shard("shard0", 9000), shard("shard1", 9001), shard("shard2", 9002)],
        metrics_port: Some(10000),
    }
}

fn server_config(
    internal: NetworkProtocol,
    external: NetworkProtocol,
) -> ValidatorServerConfig {
    ValidatorServerConfig {
        validator: ValidatorConfig {
            public_key: vec![7, 7, 7],
            network: ValidatorPublicNetworkPreConfig {
                protocol: external,
                host: String::from("validator.example"),
                port: 443,
            },
        },
        internal_network: ValidatorInternalNetworkPreConfig {
            protocol: internal,
            shards: vec![shard("shard0", 9000), shard("shard1", 9001)],
            metrics_port: None,
        },
    }
}

fn simple_proxy() -> SimpleProxy<InMemoryStorage> {
    SimpleProxy {
        public_config: ValidatorPublicNetworkPreConfig {
            protocol: TransportProtocol::Tcp,
            host: String::from("validator.example"),
            port: 443,
        },
        internal_config: internal_three_shards(),
        send_timeout: 4000,
        recv_timeout: 4000,
        storage: InMemoryStorage::new(0, None),
    }
}

#[test]
fn shard_router_exact_index() {
    let config = internal_three_shards();
    // 10 % 3 == 1: the chain belongs to the second shard.
    let shard = config.get_shard_for(chain(10));
    assert_eq!(shard.host, "shard1");
    assert_eq!(shard.port, 9001);
    assert_eq!(config.get_shard_id(chain(10)), 1);
}

#[test]
fn shard_router_deterministic() {
    let config = internal_three_shards();
    let first = config.get_shard_for(chain(0xdead_beef)).host.clone();
    let second = config.get_shard_for(chain(0xdead_beef)).host.clone();
    assert_eq!(first, second);
}

#[test]
fn shard_router_total() {
    let config = internal_three_shards();
    for a in 0..100u64 {
        let id = config.get_shard_id(chain(a));
        assert!(id < 3);
    }
}

#[test]
fn protocol_gate_rejects_mismatch() {
    let config = server_config(
        NetworkProtocol::Simple(TransportProtocol::Tcp),
        NetworkProtocol::Grpc(TlsConfig::ClearText),
    );
    let context = ProxyContext { config, send_timeout: 4000, recv_timeout: 4000 };
    let storage = InMemoryStorage::new(0, None);
    match Proxy::from_context(context, storage) {
        Err(ProxyError::ProtocolMismatch(internal, external)) => {
            assert!(matches!(internal, NetworkProtocol::Simple(TransportProtocol::Tcp)));
            assert!(matches!(external, NetworkProtocol::Grpc(TlsConfig::ClearText)));
        }
        _ => panic!("a mismatched configuration must be rejected"),
    }
}

#[test]
fn protocol_gate_accepts_simple_pair() {
    let config = server_config(
        NetworkProtocol::Simple(TransportProtocol::Udp),
        NetworkProtocol::Simple(TransportProtocol::Tcp),
    );
    let context = ProxyContext { config, send_timeout: 1000, recv_timeout: 2000 };
    let storage = InMemoryStorage::new(0, None);
    match Proxy::from_context(context, storage) {
        Ok(Proxy::Simple(proxy)) => {
            assert!(matches!(proxy.internal_config.protocol, TransportProtocol::Udp));
            assert!(matches!(proxy.public_config.protocol, TransportProtocol::Tcp));
            assert_eq!(proxy.public_config.port, 443);
            assert_eq!(proxy.internal_config.shards.len(), 2);
            assert_eq!(proxy.send_timeout, 1000);
            assert_eq!(proxy.recv_timeout, 2000);
        }
        _ => panic!("matching simple families must construct a simple proxy"),
    }
}

#[test]
fn protocol_gate_accepts_grpc_pair() {
    let config = server_config(
        NetworkProtocol::Grpc(TlsConfig::ClearText),
        NetworkProtocol::Grpc(TlsConfig::Tls),
    );
    let context = ProxyContext { config, send_timeout: 4000, recv_timeout: 4000 };
    let storage = InMemoryStorage::new(0, None);
    match Proxy::from_context(context, storage) {
        Ok(Proxy::Grpc(proxy)) => {
            assert!(matches!(proxy.tls, TlsConfig::Tls));
            assert_eq!(proxy.public_config.port, 443);
        }
        _ => panic!("matching structured families must construct a structured proxy"),
    }
}

#[test]
fn chain_addressed_message_is_forwarded() {
    let mut proxy = simple_proxy();
    let message = RpcMessage::BlockProposal(chain(10), vec![1, 2, 3]);
    match proxy.handle_message(message) {
        ProxyStep::Forward(action) => {
            assert_eq!(action.shard.host, "shard1");
            assert_eq!(action.shard.port, 9001);
            assert!(matches!(action.protocol, TransportProtocol::Tcp));
            assert_eq!(action.send_timeout, 4000);
            assert_eq!(action.recv_timeout, 4000);
            assert!(matches!(action.message, RpcMessage::BlockProposal(_, _)));
        }
        ProxyStep::Respond(_) => panic!("a chain-addressed message must be forwarded"),
    }
}

#[test]
fn unaddressed_message_is_dropped_and_loop_survives() {
    let mut proxy = simple_proxy();
    match proxy.handle_message(RpcMessage::Vote(vec![1])) {
        ProxyStep::Respond(None) => {}
        _ => panic!("a message without a target chain must get no response"),
    }
    // The same proxy still answers a well-formed request afterwards.
    match proxy.handle_message(RpcMessage::VersionInfoQuery) {
        ProxyStep::Respond(Some(RpcMessage::VersionInfoResponse(info))) => {
            assert_eq!(info.major, 0);
            assert_eq!(info.minor, 1);
            assert_eq!(info.patch, 0);
        }
        _ => panic!("a well-formed request must still be answered"),
    }
}

#[test]
fn pending_blob_messages_are_chain_addressed() {
    let mut proxy = simple_proxy();
    let blob = shard_proxy::ids::BlobId { hash: Digest { a: 5, b: 0, c: 0, d: 0 } };
    let message = RpcMessage::DownloadPendingBlob(chain(11), blob);
    assert_eq!(message.target_chain_id(), Some(chain(11)));
    assert!(!message.is_local_message());
    match proxy.handle_message(message) {
        ProxyStep::Forward(action) => {
            // 11 % 3 == 2: the request goes to the third shard.
            assert_eq!(action.shard.host, "shard2");
        }
        ProxyStep::Respond(_) => panic!("a pending-blob request must be forwarded"),
    }
    let upload = RpcMessage::HandlePendingBlob(
        chain(12),
        shard_proxy::blob::BlobContent { bytes: vec![1] },
    );
    assert_eq!(upload.target_chain_id(), Some(chain(12)));
    match proxy.handle_message(upload) {
        ProxyStep::Forward(action) => {
            // 12 % 3 == 0: the request goes to the first shard.
            assert_eq!(action.shard.host, "shard0");
        }
        ProxyStep::Respond(_) => panic!("a pending-blob upload must be forwarded"),
    }
}

#[test]
fn forward_outcomes_are_distinct_and_absorbed() {
    assert!(matches!(
        conclude_forward(ForwardEvent::ConnectFailed),
        Err(ForwardError::Connect)
    ));
    assert!(matches!(
        conclude_forward(ForwardEvent::SendTimedOut),
        Err(ForwardError::SendTimeout)
    ));
    assert!(matches!(conclude_forward(ForwardEvent::SendFailed), Err(ForwardError::Send)));
    assert!(matches!(
        conclude_forward(ForwardEvent::RecvTimedOut),
        Err(ForwardError::RecvTimeout)
    ));
    assert!(matches!(conclude_forward(ForwardEvent::RecvFailed), Err(ForwardError::Recv)));
    assert!(matches!(conclude_forward(ForwardEvent::RecvClosed), Ok(None)));
    match conclude_forward(ForwardEvent::RecvMessage(RpcMessage::Error(vec![5]))) {
        Ok(Some(RpcMessage::Error(payload))) => assert_eq!(payload, vec![5]),
        _ => panic!("a received message must be handed through"),
    }
    // Every failure is absorbed to silence; a response passes through.
    assert!(absorb_forward_outcome(Err(ForwardError::RecvTimeout)).is_none());
    assert!(absorb_forward_outcome(Err(ForwardError::Connect)).is_none());
    assert!(absorb_forward_outcome(Ok(None)).is_none());
    match absorb_forward_outcome(Ok(Some(RpcMessage::VersionInfoQuery))) {
        Some(RpcMessage::VersionInfoQuery) => {}
        _ => panic!("a present response must be kept"),
    }
}

#[test]
fn proxy_options_defaults() {
    let options = ProxyOptions::default();
    assert_eq!(options.send_timeout, 4000);
    assert_eq!(options.recv_timeout, 4000);
    assert_eq!(options.max_stream_queries, 10);
    assert_eq!(options.max_cache_size, 10000000);
    assert_eq!(options.max_entry_size, 1000000);
    assert_eq!(options.max_cache_entries, 1000);
    assert!(options.max_concurrent_queries.is_none());
    assert!(options.tokio_threads.is_none());
}

#[test]
fn common_store_config_carries_options() {
    let mut options = ProxyOptions::default();
    options.max_concurrent_queries = Some(32);
    options.max_stream_queries = 5;
    options.max_cache_size = 1234;
    options.max_entry_size = 99;
    options.max_cache_entries = 7;
    let store = options.common_store_config();
    assert_eq!(store.max_concurrent_queries, Some(32));
    assert_eq!(store.max_stream_queries, 5);
    assert_eq!(store.storage_cache_config.max_cache_size, 1234);
    assert_eq!(store.storage_cache_config.max_entry_size, 99);
    assert_eq!(store.storage_cache_config.max_cache_entries, 7);
}

#[test]
fn proxy_context_from_options() {
    let mut options = ProxyOptions::default();
    options.send_timeout = 111;
    options.recv_timeout = 222;
    let config = server_config(
        NetworkProtocol::Simple(TransportProtocol::Tcp),
        NetworkProtocol::Simple(TransportProtocol::Tcp),
    );
    let context = ProxyContext::from_options(&options, config);
    assert_eq!(context.send_timeout, 111);
    assert_eq!(context.recv_timeout, 222);
    assert_eq!(context.config.validator.network.port, 443);
}
