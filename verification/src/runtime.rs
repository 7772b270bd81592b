//! Application-code loading and the per-chain runtime context.
//!
//! Loaded bytecode is cached in a concurrent map keyed by application
//! identifier, written at most once per key under a check-then-insert
//! discipline and read-shared afterwards. The cache is not a source of
//! truth: a hit serves the bytes that were loaded first.

use vstd::prelude::*;
use dashmap::DashMap;
use std::collections::hash_map::RandomState;
use crate::blob::Blob;
use crate::errors::{ExecutionError, ViewError};
use crate::ids::{
    spec_application_id, ApplicationDescription, ApplicationId, ChainId, EventId,
    ExecutionRuntimeConfig, EvmRuntime, ModuleRuntime, VmRuntime, WasmRuntime,
};
use crate::storage::{Storage, StorageModel};

verus! {

/// A cache key: the four lanes of an application identifier's digest.
pub type CacheKey = (u64, u64, u64, u64);

/// Relies on dashmap::DashMap, declared opaquely: a concurrent hash map.
#[verifier::external_type_specification]
#[verifier::external_body]
#[verifier::reject_recursive_types(K)]
#[verifier::reject_recursive_types(V)]
#[verifier::reject_recursive_types(S)]
pub struct ExDashMap<K, V, S>(DashMap<K, V, S>);

/// What a bytecode cache holds: loaded bytes by cache key.
pub uninterp spec fn code_cache_view(m: DashMap<CacheKey, Vec<u8>, RandomState>) -> Map<
    CacheKey,
    Seq<u8>,
>;

/// The contents of a cache that holds nothing.
pub open spec fn empty_cache() -> Map<CacheKey, Seq<u8>> {
    Map::empty()
}

/// Relies on dashmap::DashMap::new: a fresh map holds nothing.
#[verifier::external_body]
fn cache_new() -> (r: DashMap<CacheKey, Vec<u8>, RandomState>)
    ensures
        code_cache_view(r) == empty_cache(),
{
    DashMap::new()
}

/// Relies on dashmap::DashMap::get: returns the value stored under the key,
/// if one is.
#[verifier::external_body]
fn cache_get(m: &DashMap<CacheKey, Vec<u8>, RandomState>, key: CacheKey) -> (r: Option<Vec<u8>>)
    ensures
        match r {
            Some(bytes) => code_cache_view(*m).contains_key(key) && bytes@ == code_cache_view(
                *m,
            )[key],
            None => !code_cache_view(*m).contains_key(key),
        },
{
    m.get(&key).map(|entry| entry.value().clone())
}

/// Relies on dashmap::DashMap::insert: stores the value under the key.
#[verifier::external_body]
fn cache_insert(m: &mut DashMap<CacheKey, Vec<u8>, RandomState>, key: CacheKey, value: &Vec<u8>)
    ensures
        code_cache_view(*final(m)) == code_cache_view(*old(m)).insert(key, value@),
{
    m.insert(key, value.clone());
}

/// The cache key an application identifier maps to.
pub open spec fn spec_cache_key(id: ApplicationId) -> CacheKey {
    (id.hash.a, id.hash.b, id.hash.c, id.hash.d)
}

/// A contract module ready to instantiate: its bytecode and the engine that
/// will run it.
#[derive(Clone, Debug)]
pub struct UserContractCode {
    pub runtime: ModuleRuntime,
    pub bytes: Vec<u8>,
}

/// A service module ready to instantiate: its bytecode and the engine that
/// will run it.
#[derive(Clone, Debug)]
pub struct UserServiceCode {
    pub runtime: ModuleRuntime,
    pub bytes: Vec<u8>,
}

/// The engine a module with the given virtual machine will run on, given the
/// configured Wasm engine.
pub open spec fn spec_module_runtime(vm: VmRuntime, wasm: Option<WasmRuntime>) -> ModuleRuntime
    recommends
        vm is Wasm ==> wasm is Some,
{
    match vm {
        VmRuntime::Wasm => ModuleRuntime::Wasm(wasm->0),
        VmRuntime::Evm => ModuleRuntime::Evm(EvmRuntime::Revm),
    }
}

/// Selects the engine for a module. Loading a Wasm module without a
/// configured Wasm engine is a startup misconfiguration, excluded by
/// contract.
fn assemble_runtime(vm: VmRuntime, wasm: Option<WasmRuntime>) -> (r: ModuleRuntime)
    requires
        vm is Wasm ==> wasm is Some,
    ensures
        r == spec_module_runtime(vm, wasm),
{
    match vm {
        VmRuntime::Wasm => {
            let engine = match wasm {
                Some(engine) => engine,
                None => {
                    proof {
                        assert(false);
                    }
                    WasmRuntime::Wasmer
                },
            };
            ModuleRuntime::Wasm(engine)
        },
        VmRuntime::Evm => ModuleRuntime::Evm(EvmRuntime::Revm),
    }
}

/// Loads a contract module: reads the bytecode blob that the description
/// points at and pairs it with the engine it will run on.
pub fn load_contract<S: Storage>(storage: &S, application_description: &ApplicationDescription) -> (r:
    Result<UserContractCode, ExecutionError>)
    requires
        storage.inv(),
        application_description.module_id.vm_runtime is Wasm ==> storage.model().wasm is Some,
    ensures
        match r {
            Ok(code) => {
                &&& storage.model().blobs.contains_key(
                    application_description.module_id.contract_blob_hash,
                )
                &&& code.bytes@ == storage.model().blobs[application_description.module_id.contract_blob_hash]
                &&& code.runtime == spec_module_runtime(
                    application_description.module_id.vm_runtime,
                    storage.model().wasm,
                )
            },
            Err(e) => {
                &&& !storage.model().blobs.contains_key(
                    application_description.module_id.contract_blob_hash,
                )
                &&& e == ExecutionError::View(ViewError::NotFound)
            },
        },
{
    let blob_id = application_description.contract_bytecode_blob_id();
    let blob = match storage.read_blob(blob_id) {
        Ok(blob) => blob,
        Err(e) => {
            return Err(ExecutionError::View(e));
        },
    };
    let runtime = assemble_runtime(
        application_description.module_id.vm_runtime,
        storage.wasm_runtime(),
    );
    Ok(UserContractCode { runtime, bytes: blob.into_content().bytes })
}

/// Loads a service module: reads the bytecode blob that the description
/// points at and pairs it with the engine it will run on.
pub fn load_service<S: Storage>(storage: &S, application_description: &ApplicationDescription) -> (r:
    Result<UserServiceCode, ExecutionError>)
    requires
        storage.inv(),
        application_description.module_id.vm_runtime is Wasm ==> storage.model().wasm is Some,
    ensures
        match r {
            Ok(code) => {
                &&& storage.model().blobs.contains_key(
                    application_description.module_id.service_blob_hash,
                )
                &&& code.bytes@ == storage.model().blobs[application_description.module_id.service_blob_hash]
                &&& code.runtime == spec_module_runtime(
                    application_description.module_id.vm_runtime,
                    storage.model().wasm,
                )
            },
            Err(e) => {
                &&& !storage.model().blobs.contains_key(
                    application_description.module_id.service_blob_hash,
                )
                &&& e == ExecutionError::View(ViewError::NotFound)
            },
        },
{
    let blob_id = application_description.service_bytecode_blob_id();
    let blob = match storage.read_blob(blob_id) {
        Ok(blob) => blob,
        Err(e) => {
            return Err(ExecutionError::View(e));
        },
    };
    let runtime = assemble_runtime(
        application_description.module_id.vm_runtime,
        storage.wasm_runtime(),
    );
    Ok(UserServiceCode { runtime, bytes: blob.into_content().bytes })
}

/// The per-chain execution context: a storage handle, the chain's identity,
/// and the two bytecode caches.
pub struct ChainRuntimeContext<S> {
    pub storage: S,
    pub chain_id: ChainId,
    pub execution_runtime_config: ExecutionRuntimeConfig,
    pub user_contracts: DashMap<CacheKey, Vec<u8>, RandomState>,
    pub user_services: DashMap<CacheKey, Vec<u8>, RandomState>,
}

impl<S: Storage> ChainRuntimeContext<S> {
    /// The model of the underlying store.
    pub open spec fn model(&self) -> StorageModel {
        self.storage.model()
    }

    /// The underlying store's invariant.
    pub open spec fn inv(&self) -> bool {
        self.storage.inv()
    }

    /// What the contract cache holds.
    pub open spec fn contracts_view(&self) -> Map<CacheKey, Seq<u8>> {
        code_cache_view(self.user_contracts)
    }

    /// What the service cache holds.
    pub open spec fn services_view(&self) -> Map<CacheKey, Seq<u8>> {
        code_cache_view(self.user_services)
    }

    /// A context over `storage` for `chain_id`, with empty caches.
    pub fn new(storage: S, chain_id: ChainId, execution_runtime_config: ExecutionRuntimeConfig) -> (r:
        Self)
        requires
            storage.inv(),
        ensures
            r.inv(),
            r.model() == storage.model(),
            r.chain_id == chain_id,
            r.execution_runtime_config == execution_runtime_config,
            r.contracts_view() == empty_cache(),
            r.services_view() == empty_cache(),
    {
        ChainRuntimeContext {
            storage,
            chain_id,
            execution_runtime_config,
            user_contracts: cache_new(),
            user_services: cache_new(),
        }
    }

    /// The chain this context belongs to.
    pub fn chain_id(&self) -> (r: ChainId)
        ensures
            r == self.chain_id,
    {
        self.chain_id
    }

    /// How this context schedules application calls.
    pub fn execution_runtime_config(&self) -> (r: ExecutionRuntimeConfig)
        ensures
            r == self.execution_runtime_config,
    {
        self.execution_runtime_config
    }

    /// The contract cache.
    pub fn user_contracts(&self) -> (r: &DashMap<CacheKey, Vec<u8>, RandomState>)
        ensures
            code_cache_view(*r) == self.contracts_view(),
    {
        &self.user_contracts
    }

    /// The service cache.
    pub fn user_services(&self) -> (r: &DashMap<CacheKey, Vec<u8>, RandomState>)
        ensures
            code_cache_view(*r) == self.services_view(),
    {
        &self.user_services
    }

    /// The contract module of an application: served from the cache when its
    /// key is present, otherwise loaded from storage and cached.
    pub fn get_user_contract(&mut self, description: &ApplicationDescription) -> (r: Result<
        UserContractCode,
        ExecutionError,
    >)
        requires
            old(self).inv(),
            description.module_id.vm_runtime is Wasm ==> old(self).model().wasm is Some,
        ensures
            final(self).inv(),
            final(self).model() == old(self).model(),
            final(self).services_view() == old(self).services_view(),
            ({
                let key = spec_cache_key(
                    spec_application_id(description.module_id, description.parameters@),
                );
                match r {
                    Ok(code) => {
                        &&& code.runtime == spec_module_runtime(
                            description.module_id.vm_runtime,
                            old(self).model().wasm,
                        )
                        &&& if old(self).contracts_view().contains_key(key) {
                            &&& code.bytes@ == old(self).contracts_view()[key]
                            &&& final(self).contracts_view() == old(self).contracts_view()
                        } else {
                            &&& old(self).model().blobs.contains_key(
                                description.module_id.contract_blob_hash,
                            )
                            &&& code.bytes@ == old(self).model().blobs[description.module_id.contract_blob_hash]
                            &&& final(self).contracts_view() == old(
                                self,
                            ).contracts_view().insert(key, code.bytes@)
                        }
                    },
                    Err(e) => {
                        &&& !old(self).contracts_view().contains_key(key)
                        &&& !old(self).model().blobs.contains_key(
                            description.module_id.contract_blob_hash,
                        )
                        &&& e == ExecutionError::View(ViewError::NotFound)
                        &&& final(self).contracts_view() == old(self).contracts_view()
                    },
                }
            }),
    {
        let id = description.application_id();
        let key = (id.hash.a, id.hash.b, id.hash.c, id.hash.d);
        match cache_get(&self.user_contracts, key) {
            Some(bytes) => {
                let runtime = assemble_runtime(
                    description.module_id.vm_runtime,
                    self.storage.wasm_runtime(),
                );
                Ok(UserContractCode { runtime, bytes })
            },
            None => {
                let code = match load_contract(&self.storage, description) {
                    Ok(code) => code,
                    Err(e) => {
                        return Err(e);
                    },
                };
                cache_insert(&mut self.user_contracts, key, &code.bytes);
                Ok(code)
            },
        }
    }

    /// The service module of an application: served from the cache when its
    /// key is present, otherwise loaded from storage and cached.
    pub fn get_user_service(&mut self, description: &ApplicationDescription) -> (r: Result<
        UserServiceCode,
        ExecutionError,
    >)
        requires
            old(self).inv(),
            description.module_id.vm_runtime is Wasm ==> old(self).model().wasm is Some,
        ensures
            final(self).inv(),
            final(self).model() == old(self).model(),
            final(self).contracts_view() == old(self).contracts_view(),
            ({
                let key = spec_cache_key(
                    spec_application_id(description.module_id, description.parameters@),
                );
                match r {
                    Ok(code) => {
                        &&& code.runtime == spec_module_runtime(
                            description.module_id.vm_runtime,
                            old(self).model().wasm,
                        )
                        &&& if old(self).services_view().contains_key(key) {
                            &&& code.bytes@ == old(self).services_view()[key]
                            &&& final(self).services_view() == old(self).services_view()
                        } else {
                            &&& old(self).model().blobs.contains_key(
                                description.module_id.service_blob_hash,
                            )
                            &&& code.bytes@ == old(self).model().blobs[description.module_id.service_blob_hash]
                            &&& final(self).services_view() == old(self).services_view().insert(
                                key,
                                code.bytes@,
                            )
                        }
                    },
                    Err(e) => {
                        &&& !old(self).services_view().contains_key(key)
                        &&& !old(self).model().blobs.contains_key(
                            description.module_id.service_blob_hash,
                        )
                        &&& e == ExecutionError::View(ViewError::NotFound)
                        &&& final(self).services_view() == old(self).services_view()
                    },
                }
            }),
    {
        let id = description.application_id();
        let key = (id.hash.a, id.hash.b, id.hash.c, id.hash.d);
        match cache_get(&self.user_services, key) {
            Some(bytes) => {
                let runtime = assemble_runtime(
                    description.module_id.vm_runtime,
                    self.storage.wasm_runtime(),
                );
                Ok(UserServiceCode { runtime, bytes })
            },
            None => {
                let code = match load_service(&self.storage, description) {
                    Ok(code) => code,
                    Err(e) => {
                        return Err(e);
                    },
                };
                cache_insert(&mut self.user_services, key, &code.bytes);
                Ok(code)
            },
        }
    }

    /// Reads a blob from the underlying store.
    pub fn get_blob(&self, blob_id: crate::ids::BlobId) -> (r: Result<Blob, ViewError>)
        requires
            self.inv(),
        ensures
            match r {
                Ok(blob) => self.model().blobs.contains_key(blob_id.hash) && blob@
                    == self.model().blobs[blob_id.hash],
                Err(e) => !self.model().blobs.contains_key(blob_id.hash) && e
                    == ViewError::NotFound,
            },
    {
        self.storage.read_blob(blob_id)
    }

    /// Reads an event from the underlying store.
    pub fn get_event(&self, event_id: EventId) -> (r: Result<Vec<u8>, ViewError>)
        requires
            self.inv(),
        ensures
            match r {
                Ok(payload) => self.model().events.contains_key(event_id.hash) && payload@
                    == self.model().events[event_id.hash],
                Err(e) => !self.model().events.contains_key(event_id.hash) && e
                    == ViewError::NotFound,
            },
    {
        self.storage.read_event(event_id)
    }

    /// Whether the underlying store holds a blob.
    pub fn contains_blob(&self, blob_id: crate::ids::BlobId) -> (r: Result<bool, ViewError>)
        requires
            self.inv(),
        ensures
            r == Ok::<bool, ViewError>(self.model().blobs.contains_key(blob_id.hash)),
    {
        self.storage.contains_blob(blob_id)
    }

    /// Whether the underlying store holds an event.
    pub fn contains_event(&self, event_id: EventId) -> (r: Result<bool, ViewError>)
        requires
            self.inv(),
        ensures
            r == Ok::<bool, ViewError>(self.model().events.contains_key(event_id.hash)),
    {
        self.storage.contains_event(event_id)
    }

    /// Writes blobs to the underlying store.
    pub fn add_blobs(&mut self, blobs: Vec<Blob>) -> (r: Result<(), ViewError>)
        requires
            old(self).inv(),
        ensures
            final(self).inv(),
            r is Ok,
            final(self).model() == old(self).model().with_blobs(
                crate::storage::write_all(blobs@, old(self).model().blobs),
            ),
            final(self).contracts_view() == old(self).contracts_view(),
            final(self).services_view() == old(self).services_view(),
    {
        self.storage.write_blobs(&blobs)
    }

    /// Writes events to the underlying store.
    pub fn add_events(&mut self, events: Vec<(EventId, Vec<u8>)>) -> (r: Result<(), ViewError>)
        requires
            old(self).inv(),
        ensures
            final(self).inv(),
            r is Ok,
            final(self).model() == old(self).model().with_events(
                crate::storage::events_written(events@, old(self).model().events),
            ),
            final(self).contracts_view() == old(self).contracts_view(),
            final(self).services_view() == old(self).services_view(),
    {
        self.storage.write_events(events)
    }
}

} // verus!
