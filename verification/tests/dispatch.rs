//! The local dispatcher against the in-memory store, content addressing,
//! chain creation and the bytecode cache.

use shard_proxy::blob::{Blob, BlobContent, BlobState, Certificate, ConfirmedBlock, NetworkDescription};
use shard_proxy::config::{TransportProtocol, ValidatorInternalNetworkPreConfig, ValidatorPublicNetworkPreConfig};
use shard_proxy::digest::{compute_digest, Digest};
use shard_proxy::errors::{ExecutionError, NodeError, ProxyError, ViewError};
use shard_proxy::ids::{
    ApplicationDescription, BlobId, ChainDescription, Epoch, EventId, ExecutionRuntimeConfig,
    ModuleId, ModuleRuntime, VmRuntime, WasmRuntime,
};
use shard_proxy::messages::RpcMessage;
use shard_proxy::proxy::{ProxyStep, SimpleProxy};
use shard_proxy::runtime::ChainRuntimeContext;
use shard_proxy::storage::{create_chain, InMemoryStorage, Storage};

fn store() -> InMemoryStorage {
    InMemoryStorage::new(1_700_000_000_000_000, Some(WasmRuntime::Wasmer))
}

fn context_over(storage: InMemoryStorage) -> ChainRuntimeContext<InMemoryStorage> {
    ChainRuntimeContext::new(
        storage,
        shard_proxy::ids::ChainId { hash: Digest { a: 0, b: 0, c: 0, d: 0 } },
        ExecutionRuntimeConfig::Synchronous,
    )
}

fn proxy_over(storage: InMemoryStorage) -> SimpleProxy<InMemoryStorage> {
    SimpleProxy {
        public_config: ValidatorPublicNetworkPreConfig {
            protocol: TransportProtocol::Tcp,
            host: String::from("validator.example"),
            port: 443,
        },
        internal_config: ValidatorInternalNetworkPreConfig {
            protocol: TransportProtocol::Tcp,
            shards: vec![shard_proxy::config::ShardConfig {
                host: String::from("shard0"),
                port: 9000,
            }],
            metrics_port: None,
        },
        send_timeout: 4000,
        recv_timeout: 4000,
        storage,
    }
}

fn state(epoch: u32) -> BlobState {
    BlobState {
        last_used_by: Digest { a: 42, b: 0, c: 0, d: 0 },
        epoch: Epoch { number: epoch },
    }
}

#[test]
fn digest_exact_values() {
    // The digest of the empty byte string and of a short one, each lane.
    let empty = compute_digest(&[]);
    assert_eq!(empty.a, 0xaf63bd4c8601b7df);
    assert_eq!(empty.b, 0x789e9d398d40976c);
    assert_eq!(empty.c, 0xbe187801b9398c36);
    assert_eq!(empty.d, 0x9e9dbd8d40984c4c);
    let short = compute_digest(&[1, 2, 3]);
    assert_eq!(short.a, 0xbe7a577751656c78);
    assert_eq!(short.b, 0xa4c002460f3367fd);
    assert_eq!(short.c, 0x2931e1148f50d76f);
    assert_eq!(short.d, 0x2e597917965f799d);
    // Determinism: the same bytes digest alike; a changed byte does not.
    assert_eq!(compute_digest(&[1, 2, 3]), compute_digest(&[1, 2, 3]));
    assert_ne!(compute_digest(&[1, 2, 3]), compute_digest(&[1, 2, 4]));
}

#[test]
fn upload_then_download_round_trip() {
    let content = vec![10, 20, 30, 40];
    let id = Blob::new(BlobContent { bytes: content.clone() }).id();
    let mut storage = store();
    // The system already expects this blob: its state exists.
    storage.write_blob_state(id, &state(3)).unwrap();
    let mut proxy = proxy_over(storage);

    let returned = match proxy.handle_message(RpcMessage::UploadBlob(BlobContent {
        bytes: content.clone(),
    })) {
        ProxyStep::Respond(Some(RpcMessage::UploadBlobResponse(returned))) => returned,
        _ => panic!("an expected blob must be accepted"),
    };
    assert_eq!(returned, id);

    match proxy.handle_message(RpcMessage::DownloadBlob(returned)) {
        ProxyStep::Respond(Some(RpcMessage::DownloadBlobResponse(body))) => {
            assert_eq!(body.bytes, content);
        }
        _ => panic!("the uploaded blob must download"),
    }
}

#[test]
fn upload_without_state_is_rejected() {
    let content = BlobContent { bytes: vec![1, 1, 2, 3] };
    let mut proxy = proxy_over(store());
    match proxy.try_local_message(RpcMessage::UploadBlob(BlobContent {
        bytes: content.bytes.clone(),
    })) {
        Err(ProxyError::BlobNotFound) => {}
        _ => panic!("an unexpected blob must be rejected"),
    }
    // At the router boundary the failure is absorbed to silence.
    match proxy.handle_message(RpcMessage::UploadBlob(content)) {
        ProxyStep::Respond(None) => {}
        _ => panic!("the rejection must become no response"),
    }
}

#[test]
fn missing_blob_ids_mixed_set() {
    let present = Blob::new(BlobContent { bytes: vec![5, 5] });
    let present_id = present.id();
    let absent_id = BlobId { hash: Digest { a: 1, b: 2, c: 3, d: 4 } };
    let mut storage = store();
    storage.write_blob(&present).unwrap();
    let mut proxy = proxy_over(storage);
    match proxy.handle_message(RpcMessage::MissingBlobIds(vec![present_id, absent_id])) {
        ProxyStep::Respond(Some(RpcMessage::MissingBlobIdsResponse(missing))) => {
            assert_eq!(missing, vec![absent_id]);
        }
        _ => panic!("the missing subset must be answered"),
    }
}

#[test]
fn network_description_round_trip_and_absence() {
    let mut proxy = proxy_over(store());
    match proxy.try_local_message(RpcMessage::NetworkDescriptionQuery) {
        Err(ProxyError::MissingNetworkDescription) => {}
        _ => panic!("a missing description must be an explicit failure"),
    }
    let description = NetworkDescription {
        name: String::from("testnet"),
        genesis_config_hash: Digest { a: 9, b: 8, c: 7, d: 6 },
        genesis_timestamp: 1111,
    };
    proxy.storage.write_network_description(&description).unwrap();
    match proxy.handle_message(RpcMessage::NetworkDescriptionQuery) {
        ProxyStep::Respond(Some(RpcMessage::NetworkDescriptionResponse(answer))) => {
            assert_eq!(answer.name, "testnet");
            assert_eq!(answer.genesis_config_hash, Digest { a: 9, b: 8, c: 7, d: 6 });
            assert_eq!(answer.genesis_timestamp, 1111);
        }
        _ => panic!("the stored description must be served verbatim"),
    }
}

#[test]
fn confirmed_block_download_and_absence() {
    let block = ConfirmedBlock { bytes: vec![3, 1, 4, 1, 5] };
    let hash = block.hash();
    let certificate = Certificate { block, signatures: vec![0xaa] };
    let mut storage = store();
    storage.write_blobs_and_certificate(&vec![], &certificate).unwrap();
    let mut proxy = proxy_over(storage);
    match proxy.handle_message(RpcMessage::DownloadConfirmedBlock(hash)) {
        ProxyStep::Respond(Some(RpcMessage::DownloadConfirmedBlockResponse(answer))) => {
            assert_eq!(answer.bytes, vec![3, 1, 4, 1, 5]);
        }
        _ => panic!("a stored block must download"),
    }
    let absent = Digest { a: 0, b: 0, c: 0, d: 1 };
    match proxy.try_local_message(RpcMessage::DownloadConfirmedBlock(absent)) {
        Err(ProxyError::View(ViewError::NotFound)) => {}
        _ => panic!("an absent block must be a not-found failure"),
    }
}

#[test]
fn certificate_batch_is_partial_when_some_are_missing() {
    let block = ConfirmedBlock { bytes: vec![1, 2] };
    let hash = block.hash();
    let certificate = Certificate { block, signatures: vec![7, 7] };
    let mut storage = store();
    storage.write_blobs_and_certificate(&vec![], &certificate).unwrap();
    let mut proxy = proxy_over(storage);
    let absent = Digest { a: 5, b: 5, c: 5, d: 5 };
    match proxy.handle_message(RpcMessage::DownloadCertificates(vec![absent, hash])) {
        ProxyStep::Respond(Some(RpcMessage::DownloadCertificatesResponse(batch))) => {
            assert_eq!(batch.len(), 1);
            assert_eq!(batch[0].block.bytes, vec![1, 2]);
            assert_eq!(batch[0].signatures, vec![7, 7]);
        }
        _ => panic!("the present certificates must be answered"),
    }
}

#[test]
fn blob_last_used_by_is_served_from_state() {
    let id = BlobId { hash: Digest { a: 77, b: 0, c: 0, d: 0 } };
    let mut storage = store();
    storage.write_blob_state(id, &state(12)).unwrap();
    let mut proxy = proxy_over(storage);
    match proxy.handle_message(RpcMessage::BlobLastUsedBy(id)) {
        ProxyStep::Respond(Some(RpcMessage::BlobLastUsedByResponse(hash))) => {
            assert_eq!(hash, Digest { a: 42, b: 0, c: 0, d: 0 });
        }
        _ => panic!("a known blob state must answer the query"),
    }
    let unknown = BlobId { hash: Digest { a: 78, b: 0, c: 0, d: 0 } };
    match proxy.try_local_message(RpcMessage::BlobLastUsedBy(unknown)) {
        Err(ProxyError::View(ViewError::NotFound)) => {}
        _ => panic!("an unknown blob state must be a not-found failure"),
    }
}

#[test]
fn unexpected_kind_is_an_explicit_failure() {
    let mut proxy = proxy_over(store());
    match proxy.try_local_message(RpcMessage::Vote(vec![1, 2])) {
        Err(ProxyError::Node(NodeError::UnexpectedMessage)) => {}
        _ => panic!("a non-local kind at the dispatcher must be an explicit failure"),
    }
    match proxy.try_local_message(RpcMessage::ChainInfoResponse(vec![])) {
        Err(ProxyError::Node(NodeError::UnexpectedMessage)) => {}
        _ => panic!("a response kind at the dispatcher must be an explicit failure"),
    }
}

#[test]
fn create_chain_activates_and_stores_description() {
    let mut storage = store();
    let description = ChainDescription { bytes: vec![100, 101, 102] };
    let id = description.id();
    create_chain(&mut storage, description).unwrap();
    let chain = storage.load_chain(id).unwrap();
    assert!(chain.active);
    assert_eq!(chain.created_at, 1_700_000_000_000_000);
    // The description blob itself is stored, content-addressed.
    let blob = storage.read_blob(BlobId { hash: id.hash }).unwrap();
    assert_eq!(blob.clone_content().bytes, vec![100, 101, 102]);
}

#[test]
fn maybe_write_blobs_reports_the_gate() {
    let expected = Blob::new(BlobContent { bytes: vec![1] });
    let unexpected = Blob::new(BlobContent { bytes: vec![2] });
    let mut storage = store();
    storage.write_blob_state(expected.id(), &state(0)).unwrap();
    let written = storage.maybe_write_blobs(&vec![expected.clone(), unexpected.clone()]).unwrap();
    assert_eq!(written, vec![true, false]);
    assert!(storage.contains_blob(expected.id()).unwrap());
    assert!(!storage.contains_blob(unexpected.id()).unwrap());
}

#[test]
fn events_round_trip() {
    let id = EventId { hash: Digest { a: 3, b: 3, c: 3, d: 3 } };
    let mut storage = store();
    assert!(!storage.contains_event(id).unwrap());
    storage.write_events(vec![(id, vec![9, 9, 9])]).unwrap();
    assert!(storage.contains_event(id).unwrap());
    assert_eq!(storage.read_event(id).unwrap(), vec![9, 9, 9]);
}

fn description_over(contract_bytes: &Blob, vm: VmRuntime) -> ApplicationDescription {
    ApplicationDescription {
        module_id: ModuleId {
            contract_blob_hash: contract_bytes.id().hash,
            service_blob_hash: contract_bytes.id().hash,
            vm_runtime: vm,
        },
        parameters: vec![1, 2],
    }
}

#[test]
fn contract_cache_loads_once_and_serves_the_loaded_bytes() {
    let bytecode = Blob::new(BlobContent { bytes: vec![9, 9, 1] });
    let mut storage = store();
    storage.write_blob(&bytecode).unwrap();
    let description = description_over(&bytecode, VmRuntime::Evm);
    let mut context = context_over(storage);
    assert_eq!(context.user_contracts().len(), 0);
    let first = context.get_user_contract(&description).unwrap();
    assert_eq!(first.bytes, vec![9, 9, 1]);
    assert!(matches!(first.runtime, ModuleRuntime::Evm(_)));
    // The load populated the cache: exactly one entry, holding those bytes.
    assert_eq!(context.user_contracts().len(), 1);
    let key = {
        let id = description.application_id();
        (id.hash.a, id.hash.b, id.hash.c, id.hash.d)
    };
    assert_eq!(context.user_contracts().get(&key).unwrap().value(), &vec![9, 9, 1]);
    // A second request is served with the same bytes, from the cache.
    let second = context.get_user_contract(&description).unwrap();
    assert_eq!(second.bytes, vec![9, 9, 1]);
    assert_eq!(context.user_contracts().len(), 1);
    // The service cache is separate and still empty.
    assert_eq!(context.user_services().len(), 0);
}

#[test]
fn service_load_uses_the_wasm_engine_and_misses_are_failures() {
    let bytecode = Blob::new(BlobContent { bytes: vec![4, 4] });
    let mut storage = store();
    storage.write_blob(&bytecode).unwrap();
    let description = description_over(&bytecode, VmRuntime::Wasm);
    let mut context = context_over(storage);
    let service = context.get_user_service(&description).unwrap();
    assert_eq!(service.bytes, vec![4, 4]);
    assert!(matches!(service.runtime, ModuleRuntime::Wasm(WasmRuntime::Wasmer)));
    // A description pointing at an absent blob is a not-found failure.
    let ghost_blob = Blob::new(BlobContent { bytes: vec![123] });
    let absent = description_over(&ghost_blob, VmRuntime::Evm);
    match context.get_user_contract(&absent) {
        Err(ExecutionError::View(ViewError::NotFound)) => {}
        _ => panic!("an absent bytecode blob must be a not-found failure"),
    }
}

#[test]
fn chain_runtime_context_delegates_to_storage() {
    let blob = Blob::new(BlobContent { bytes: vec![8] });
    let mut context = context_over(store());
    assert!(!context.contains_blob(blob.id()).unwrap());
    context.add_blobs(vec![blob.clone()]).unwrap();
    assert!(context.contains_blob(blob.id()).unwrap());
    assert_eq!(context.get_blob(blob.id()).unwrap().clone_content().bytes, vec![8]);
    let event = EventId { hash: Digest { a: 6, b: 6, c: 6, d: 6 } };
    context.add_events(vec![(event, vec![1, 2, 3])]).unwrap();
    assert_eq!(context.get_event(event).unwrap(), vec![1, 2, 3]);
    assert!(matches!(
        context.execution_runtime_config(),
        ExecutionRuntimeConfig::Synchronous
    ));
}

#[test]
fn chain_runtime_context_reports_its_chain() {
    let chain = shard_proxy::ids::ChainId { hash: Digest { a: 1, b: 2, c: 3, d: 4 } };
    let context: ChainRuntimeContext<InMemoryStorage> =
        ChainRuntimeContext::new(store(), chain, ExecutionRuntimeConfig::Synchronous);
    assert_eq!(context.chain_id(), chain);
}
