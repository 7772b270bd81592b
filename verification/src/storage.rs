//! The storage collaborator: its mathematical model, the operations the
//! proxy relies on, and an in-memory store that implements them.
//!
//! Every operation is specified against `StorageModel`: maps from digests to
//! the entities they name, the network description, the configured Wasm
//! engine, and the clock's reading.

use vstd::prelude::*;
use crate::blob::{
    clone_bytes, certs_view, spec_blob_id, Blob, BlobContent, BlobState, Certificate,
    CertificateValue, ConfirmedBlock, NetworkDescription, NetworkDescriptionValue,
};
use crate::digest::{digest_of, Digest};
use crate::errors::{ChainError, ViewError};
use crate::ids::{BlobId, ChainDescription, ChainId, EventId, Timestamp, WasmRuntime};
use crate::table::Table;

verus! {

/// What the system records about a chain it hosts.
#[derive(Clone, Copy, Debug, PartialEq, Eq, Structural)]
pub struct ChainRecord {
    pub active: bool,
    pub created_at: Timestamp,
}

impl View for ChainRecord {
    type V = ChainRecord;

    open spec fn view(&self) -> ChainRecord {
        *self
    }
}

/// The mathematical state of a store.
pub struct StorageModel {
    /// Blob contents, keyed by blob identifier.
    pub blobs: Map<Digest, Seq<u8>>,
    /// Blob states, keyed by blob identifier.
    pub blob_states: Map<Digest, BlobState>,
    /// Confirmed blocks, keyed by hash.
    pub blocks: Map<Digest, Seq<u8>>,
    /// Certificates, keyed by the hash of their block.
    pub certificates: Map<Digest, CertificateValue>,
    /// Event payloads, keyed by event identifier.
    pub events: Map<Digest, Seq<u8>>,
    /// Chain records, keyed by chain identifier.
    pub chains: Map<Digest, ChainRecord>,
    /// The network description, if one was stored.
    pub network: Option<NetworkDescriptionValue>,
    /// The WebAssembly engine available to application loading, if any.
    pub wasm: Option<WasmRuntime>,
    /// The clock's current reading.
    pub now: Timestamp,
}

impl StorageModel {
    pub open spec fn with_blobs(self, blobs: Map<Digest, Seq<u8>>) -> StorageModel {
        StorageModel { blobs, ..self }
    }

    pub open spec fn with_blob_states(self, blob_states: Map<Digest, BlobState>) -> StorageModel {
        StorageModel { blob_states, ..self }
    }

    pub open spec fn with_blocks_and_certificates(
        self,
        blocks: Map<Digest, Seq<u8>>,
        certificates: Map<Digest, CertificateValue>,
    ) -> StorageModel {
        StorageModel { blocks, certificates, ..self }
    }

    pub open spec fn with_events(self, events: Map<Digest, Seq<u8>>) -> StorageModel {
        StorageModel { events, ..self }
    }

    pub open spec fn with_chains(self, chains: Map<Digest, ChainRecord>) -> StorageModel {
        StorageModel { chains, ..self }
    }

    pub open spec fn with_network(self, network: Option<NetworkDescriptionValue>) -> StorageModel {
        StorageModel { network, ..self }
    }
}

/// The blob map after writing every blob of `s` unconditionally.
pub open spec fn write_all(s: Seq<Blob>, blobs: Map<Digest, Seq<u8>>) -> Map<Digest, Seq<u8>>
    decreases s.len(),
{
    if s.len() == 0 {
        blobs
    } else {
        write_all(s.drop_last(), blobs).insert(spec_blob_id(s.last()@).hash, s.last()@)
    }
}

/// The blob map after writing each blob of `s` whose blob state already
/// exists in `m`: the upload gate.
pub open spec fn write_gated(s: Seq<Blob>, m: StorageModel) -> Map<Digest, Seq<u8>>
    decreases s.len(),
{
    if s.len() == 0 {
        m.blobs
    } else {
        let rest = write_gated(s.drop_last(), m);
        let id = spec_blob_id(s.last()@);
        if m.blob_states.contains_key(id.hash) {
            rest.insert(id.hash, s.last()@)
        } else {
            rest
        }
    }
}

/// The identifiers of `ids` whose blobs are absent from `blobs`, in order.
pub open spec fn missing_of(ids: Seq<BlobId>, blobs: Map<Digest, Seq<u8>>) -> Seq<BlobId>
    decreases ids.len(),
{
    if ids.len() == 0 {
        Seq::empty()
    } else {
        let rest = missing_of(ids.drop_last(), blobs);
        if blobs.contains_key(ids.last().hash) {
            rest
        } else {
            rest.push(ids.last())
        }
    }
}

/// The certificates stored under the hashes of `hashes` that are present, in
/// order; absent hashes are skipped.
pub open spec fn present_certs(
    hashes: Seq<Digest>,
    certificates: Map<Digest, CertificateValue>,
) -> Seq<CertificateValue>
    decreases hashes.len(),
{
    if hashes.len() == 0 {
        Seq::empty()
    } else {
        let rest = present_certs(hashes.drop_last(), certificates);
        if certificates.contains_key(hashes.last()) {
            rest.push(certificates[hashes.last()])
        } else {
            rest
        }
    }
}

/// The event map after writing every event of `s`.
pub open spec fn events_written(
    s: Seq<(EventId, Vec<u8>)>,
    events: Map<Digest, Seq<u8>>,
) -> Map<Digest, Seq<u8>>
    decreases s.len(),
{
    if s.len() == 0 {
        events
    } else {
        events_written(s.drop_last(), events).insert(s.last().0.hash, s.last().1@)
    }
}

/// A clock that can be read.
pub trait Clock {
    /// The reading the clock will give.
    spec fn now_spec(&self) -> Timestamp;

    /// Returns the current time.
    fn current_time(&self) -> (t: Timestamp)
        ensures
            t == self.now_spec(),
    ;
}

/// A clock holding an explicit reading, advanced by its owner.
#[derive(Clone, Copy, Debug, PartialEq, Eq, Structural)]
pub struct FixedClock {
    pub now: Timestamp,
}

impl Clock for FixedClock {
    open spec fn now_spec(&self) -> Timestamp {
        self.now
    }

    fn current_time(&self) -> (t: Timestamp)
        ensures
            t == self.now_spec(),
    {
        self.now
    }
}

/// The state of one chain as loaded from storage. Loading does not lock the
/// chain: concurrent instances of the same chain race, so a loaded view is
/// written back explicitly.
#[derive(Clone, Copy, Debug, PartialEq, Eq, Structural)]
pub struct ChainStateView {
    pub chain_id: ChainId,
    pub active: bool,
    pub created_at: Timestamp,
}

/// The chain state that loading `id` from `m` gives: the stored record, or
/// an inactive default.
pub open spec fn spec_load_chain(m: StorageModel, id: ChainId) -> ChainStateView {
    if m.chains.contains_key(id.hash) {
        ChainStateView {
            chain_id: id,
            active: m.chains[id.hash].active,
            created_at: m.chains[id.hash].created_at,
        }
    } else {
        ChainStateView { chain_id: id, active: false, created_at: 0 }
    }
}

impl ChainStateView {
    /// Whether the chain has been activated.
    pub fn is_active(&self) -> (r: bool)
        ensures
            r == self.active,
    {
        self.active
    }

    /// Activates the chain at `current_time` if it is not active yet.
    pub fn ensure_is_active(&mut self, current_time: Timestamp) -> (r: Result<(), ChainError>)
        ensures
            r is Ok,
            final(self).chain_id == old(self).chain_id,
            final(self).active,
            final(self).created_at == if old(self).active {
                old(self).created_at
            } else {
                current_time
            },
    {
        if !self.active {
            self.active = true;
            self.created_at = current_time;
        }
        Ok(())
    }
}

/// Communicate with a persistent store. Every operation is specified against
/// the store's model; reads of absent entities report `ViewError::NotFound`.
pub trait Storage: Sized {
    /// The clock type being used.
    type Clock: Clock;

    /// The store's mathematical state.
    spec fn model(&self) -> StorageModel;

    /// The store's internal invariant; every operation preserves it.
    spec fn inv(&self) -> bool;

    /// Returns the store's clock.
    fn clock(&self) -> (c: &Self::Clock)
        ensures
            c.now_spec() == self.model().now,
    ;

    /// The WebAssembly engine to use for applications, if any.
    fn wasm_runtime(&self) -> (r: Option<WasmRuntime>)
        requires
            self.inv(),
        ensures
            r == self.model().wasm,
    ;

    /// Loads the state of a chain; absent chains load as inactive.
    fn load_chain(&self, id: ChainId) -> (r: Result<ChainStateView, ViewError>)
        requires
            self.inv(),
        ensures
            r == Ok::<ChainStateView, ViewError>(spec_load_chain(self.model(), id)),
    ;

    /// Writes the state of a chain back.
    fn save_chain(&mut self, chain: &ChainStateView) -> (r: Result<(), ViewError>)
        requires
            old(self).inv(),
        ensures
            final(self).inv(),
            r is Ok,
            final(self).model() == old(self).model().with_chains(
                old(self).model().chains.insert(
                    chain.chain_id.hash,
                    ChainRecord { active: chain.active, created_at: chain.created_at },
                ),
            ),
    ;

    /// Tests the existence of a blob with the given blob ID.
    fn contains_blob(&self, blob_id: BlobId) -> (r: Result<bool, ViewError>)
        requires
            self.inv(),
        ensures
            r == Ok::<bool, ViewError>(self.model().blobs.contains_key(blob_id.hash)),
    ;

    /// Returns what blobs from the input are missing from storage.
    fn missing_blobs(&self, blob_ids: &Vec<BlobId>) -> (r: Result<Vec<BlobId>, ViewError>)
        requires
            self.inv(),
        ensures
            match r {
                Ok(missing) => missing@ == missing_of(blob_ids@, self.model().blobs),
                Err(_) => false,
            },
    ;

    /// Tests existence of a blob state with the given blob ID.
    fn contains_blob_state(&self, blob_id: BlobId) -> (r: Result<bool, ViewError>)
        requires
            self.inv(),
        ensures
            r == Ok::<bool, ViewError>(self.model().blob_states.contains_key(blob_id.hash)),
    ;

    /// Reads the confirmed block with the given hash.
    fn read_confirmed_block(&self, hash: Digest) -> (r: Result<ConfirmedBlock, ViewError>)
        requires
            self.inv(),
        ensures
            match r {
                Ok(block) => self.model().blocks.contains_key(hash) && block@
                    == self.model().blocks[hash],
                Err(e) => !self.model().blocks.contains_key(hash) && e == ViewError::NotFound,
            },
    ;

    /// Reads the blob with the given blob ID.
    fn read_blob(&self, blob_id: BlobId) -> (r: Result<Blob, ViewError>)
        requires
            self.inv(),
        ensures
            match r {
                Ok(blob) => self.model().blobs.contains_key(blob_id.hash) && blob@
                    == self.model().blobs[blob_id.hash],
                Err(e) => !self.model().blobs.contains_key(blob_id.hash) && e
                    == ViewError::NotFound,
            },
    ;

    /// Reads the blob state with the given blob ID.
    fn read_blob_state(&self, blob_id: BlobId) -> (r: Result<BlobState, ViewError>)
        requires
            self.inv(),
        ensures
            match r {
                Ok(state) => self.model().blob_states.contains_key(blob_id.hash) && state
                    == self.model().blob_states[blob_id.hash],
                Err(e) => !self.model().blob_states.contains_key(blob_id.hash) && e
                    == ViewError::NotFound,
            },
    ;

    /// Writes the given blob.
    fn write_blob(&mut self, blob: &Blob) -> (r: Result<(), ViewError>)
        requires
            old(self).inv(),
        ensures
            final(self).inv(),
            r is Ok,
            final(self).model() == old(self).model().with_blobs(
                old(self).model().blobs.insert(spec_blob_id(blob@).hash, blob@),
            ),
    ;

    /// Writes several blobs.
    fn write_blobs(&mut self, blobs: &Vec<Blob>) -> (r: Result<(), ViewError>)
        requires
            old(self).inv(),
        ensures
            final(self).inv(),
            r is Ok,
            final(self).model() == old(self).model().with_blobs(
                write_all(blobs@, old(self).model().blobs),
            ),
    ;

    /// Writes the given blobs, but only those that already have a blob
    /// state. Returns `true` for the blobs that were written.
    fn maybe_write_blobs(&mut self, blobs: &Vec<Blob>) -> (r: Result<Vec<bool>, ViewError>)
        requires
            old(self).inv(),
        ensures
            final(self).inv(),
            final(self).model() == old(self).model().with_blobs(
                write_gated(blobs@, old(self).model()),
            ),
            match r {
                Ok(written) => written@.len() == blobs@.len() && forall|i: int|
                    0 <= i < blobs@.len() ==> written@[i] == old(
                        self,
                    ).model().blob_states.contains_key(spec_blob_id(blobs@[i]@).hash),
                Err(_) => false,
            },
    ;

    /// Writes the given blob state.
    fn write_blob_state(&mut self, blob_id: BlobId, blob_state: &BlobState) -> (r: Result<
        (),
        ViewError,
    >)
        requires
            old(self).inv(),
        ensures
            final(self).inv(),
            r is Ok,
            final(self).model() == old(self).model().with_blob_states(
                old(self).model().blob_states.insert(blob_id.hash, *blob_state),
            ),
    ;

    /// Tests existence of the certificate with the given hash.
    fn contains_certificate(&self, hash: Digest) -> (r: Result<bool, ViewError>)
        requires
            self.inv(),
        ensures
            r == Ok::<bool, ViewError>(self.model().certificates.contains_key(hash)),
    ;

    /// Reads the certificate with the given hash.
    fn read_certificate(&self, hash: Digest) -> (r: Result<Certificate, ViewError>)
        requires
            self.inv(),
        ensures
            match r {
                Ok(cert) => self.model().certificates.contains_key(hash) && cert@
                    == self.model().certificates[hash],
                Err(e) => !self.model().certificates.contains_key(hash) && e
                    == ViewError::NotFound,
            },
    ;

    /// Reads the certificates with the given hashes; absent ones are
    /// skipped, so the result may be shorter than the request.
    fn read_certificates(&self, hashes: Vec<Digest>) -> (r: Result<Vec<Certificate>, ViewError>)
        requires
            self.inv(),
        ensures
            match r {
                Ok(certs) => certs_view(certs@) == present_certs(
                    hashes@,
                    self.model().certificates,
                ),
                Err(_) => false,
            },
    ;

    /// Writes blobs and a certificate: the blobs unconditionally, the
    /// certificate and its block under the block's hash.
    fn write_blobs_and_certificate(&mut self, blobs: &Vec<Blob>, certificate: &Certificate) -> (r:
        Result<(), ViewError>)
        requires
            old(self).inv(),
        ensures
            final(self).inv(),
            r is Ok,
            final(self).model() == old(self).model().with_blobs(
                write_all(blobs@, old(self).model().blobs),
            ).with_blocks_and_certificates(
                old(self).model().blocks.insert(digest_of(certificate.block@), certificate.block@),
                old(self).model().certificates.insert(digest_of(certificate.block@), certificate@),
            ),
    ;

    /// Reads the event with the given ID.
    fn read_event(&self, id: EventId) -> (r: Result<Vec<u8>, ViewError>)
        requires
            self.inv(),
        ensures
            match r {
                Ok(payload) => self.model().events.contains_key(id.hash) && payload@
                    == self.model().events[id.hash],
                Err(e) => !self.model().events.contains_key(id.hash) && e == ViewError::NotFound,
            },
    ;

    /// Tests existence of the event with the given ID.
    fn contains_event(&self, id: EventId) -> (r: Result<bool, ViewError>)
        requires
            self.inv(),
        ensures
            r == Ok::<bool, ViewError>(self.model().events.contains_key(id.hash)),
    ;

    /// Writes a vector of events.
    fn write_events(&mut self, events: Vec<(EventId, Vec<u8>)>) -> (r: Result<(), ViewError>)
        requires
            old(self).inv(),
        ensures
            final(self).inv(),
            r is Ok,
            final(self).model() == old(self).model().with_events(
                events_written(events@, old(self).model().events),
            ),
    ;

    /// Reads the network description.
    fn read_network_description(&self) -> (r: Result<Option<NetworkDescription>, ViewError>)
        requires
            self.inv(),
        ensures
            match r {
                Ok(Some(d)) => self.model().network == Some(d@),
                Ok(None) => self.model().network is None,
                Err(_) => false,
            },
    ;

    /// Writes the network description.
    fn write_network_description(&mut self, information: &NetworkDescription) -> (r: Result<
        (),
        ViewError,
    >)
        requires
            old(self).inv(),
        ensures
            final(self).inv(),
            r is Ok,
            final(self).model() == old(self).model().with_network(Some(information@)),
    ;
}

/// The store after creating a chain from `description` at time `now`: the
/// description's blob is written, and the chain is recorded active.
pub open spec fn spec_create_chain(
    m: StorageModel,
    description: ChainDescription,
    now: Timestamp,
) -> StorageModel {
    m.with_blobs(m.blobs.insert(digest_of(description.bytes@), description.bytes@)).with_chains(
        m.chains.insert(
            digest_of(description.bytes@),
            ChainRecord { active: true, created_at: now },
        ),
    )
}

/// Initializes a chain: stores the description blob, then loads the chain,
/// activates it at the clock's current time, and saves it. Creating a chain
/// that is already active is a programming error, excluded by contract.
pub fn create_chain<S: Storage>(storage: &mut S, description: ChainDescription) -> (r: Result<
    (),
    ChainError,
>)
    requires
        old(storage).inv(),
        !(old(storage).model().chains.contains_key(digest_of(description.bytes@))
            && old(storage).model().chains[digest_of(description.bytes@)].active),
    ensures
        final(storage).inv(),
        r is Ok,
        final(storage).model() == spec_create_chain(
            old(storage).model(),
            description,
            old(storage).model().now,
        ),
{
    let id = description.id();
    let blob = Blob::new_chain_description(&description.bytes);
    let write_result = storage.write_blob(&blob);
    match write_result {
        Ok(()) => {},
        Err(e) => {
            return Err(ChainError::View(e));
        },
    }
    let load_result = storage.load_chain(id);
    let mut chain = match load_result {
        Ok(chain) => chain,
        Err(e) => {
            return Err(ChainError::View(e));
        },
    };
    let current_time = storage.clock().current_time();
    let activate_result = chain.ensure_is_active(current_time);
    match activate_result {
        Ok(()) => {},
        Err(e) => {
            return Err(e);
        },
    }
    let save_result = storage.save_chain(&chain);
    match save_result {
        Ok(()) => {},
        Err(e) => {
            return Err(ChainError::View(e));
        },
    }
    Ok(())
}

/// An in-memory store: the reference implementation of `Storage`.
pub struct InMemoryStorage {
    blobs: Table<BlobContent>,
    blob_states: Table<BlobState>,
    blocks: Table<ConfirmedBlock>,
    certificates: Table<Certificate>,
    events: Table<Vec<u8>>,
    chains: Table<ChainRecord>,
    network: Option<NetworkDescription>,
    wasm: Option<WasmRuntime>,
    clock: FixedClock,
}

impl InMemoryStorage {
    /// An empty store with the given clock reading and Wasm engine.
    pub fn new(now: Timestamp, wasm: Option<WasmRuntime>) -> (r: Self)
        ensures
            r.inv(),
            r.model() == (StorageModel {
                blobs: Map::empty(),
                blob_states: Map::empty(),
                blocks: Map::empty(),
                certificates: Map::empty(),
                events: Map::empty(),
                chains: Map::empty(),
                network: None,
                wasm,
                now,
            }),
    {
        InMemoryStorage {
            blobs: Table::new(),
            blob_states: Table::new(),
            blocks: Table::new(),
            certificates: Table::new(),
            events: Table::new(),
            chains: Table::new(),
            network: None,
            wasm,
            clock: FixedClock { now },
        }
    }

    /// Moves the clock to a later reading.
    pub fn set_time(&mut self, now: Timestamp)
        requires
            old(self).inv(),
        ensures
            final(self).inv(),
            final(self).model() == (StorageModel { now, ..old(self).model() }),
    {
        self.clock = FixedClock { now };
    }
}

impl Storage for InMemoryStorage {
    type Clock = FixedClock;

    closed spec fn model(&self) -> StorageModel {
        StorageModel {
            blobs: self.blobs@,
            blob_states: self.blob_states@,
            blocks: self.blocks@,
            certificates: self.certificates@,
            events: self.events@,
            chains: self.chains@,
            network: match self.network {
                Some(d) => Some(d@),
                None => None,
            },
            wasm: self.wasm,
            now: self.clock.now,
        }
    }

    closed spec fn inv(&self) -> bool {
        self.blobs.wf() && self.blob_states.wf() && self.blocks.wf() && self.certificates.wf()
            && self.events.wf() && self.chains.wf()
    }

    fn clock(&self) -> (c: &FixedClock) {
        &self.clock
    }

    fn wasm_runtime(&self) -> (r: Option<WasmRuntime>) {
        self.wasm
    }

    fn load_chain(&self, id: ChainId) -> (r: Result<ChainStateView, ViewError>) {
        match self.chains.get(id.hash) {
            Some(record) => Ok(ChainStateView {
                chain_id: id,
                active: record.active,
                created_at: record.created_at,
            }),
            None => Ok(ChainStateView { chain_id: id, active: false, created_at: 0 }),
        }
    }

    fn save_chain(&mut self, chain: &ChainStateView) -> (r: Result<(), ViewError>) {
        self.chains.insert(
            chain.chain_id.hash,
            ChainRecord { active: chain.active, created_at: chain.created_at },
        );
        Ok(())
    }

    fn contains_blob(&self, blob_id: BlobId) -> (r: Result<bool, ViewError>) {
        Ok(self.blobs.contains_key(blob_id.hash))
    }

    fn missing_blobs(&self, blob_ids: &Vec<BlobId>) -> (r: Result<Vec<BlobId>, ViewError>) {
        let mut missing: Vec<BlobId> = Vec::new();
        let n = blob_ids.len();
        let mut i: usize = 0;
        while i < n
            invariant
                0 <= i <= n,
                n == blob_ids@.len(),
                self.inv(),
                missing@ == missing_of(blob_ids@.take(i as int), self.model().blobs),
            decreases n - i,
        {
            proof {
                assert(blob_ids@.take(i + 1).drop_last() =~= blob_ids@.take(i as int));
            }
            if !self.blobs.contains_key(blob_ids[i].hash) {
                missing.push(blob_ids[i]);
            }
            i = i + 1;
        }
        proof {
            assert(blob_ids@.take(n as int) =~= blob_ids@);
        }
        Ok(missing)
    }

    fn contains_blob_state(&self, blob_id: BlobId) -> (r: Result<bool, ViewError>) {
        Ok(self.blob_states.contains_key(blob_id.hash))
    }

    fn read_confirmed_block(&self, hash: Digest) -> (r: Result<ConfirmedBlock, ViewError>) {
        match self.blocks.get(hash) {
            Some(block) => Ok(ConfirmedBlock { bytes: clone_bytes(&block.bytes) }),
            None => Err(ViewError::NotFound),
        }
    }

    fn read_blob(&self, blob_id: BlobId) -> (r: Result<Blob, ViewError>) {
        match self.blobs.get(blob_id.hash) {
            Some(content) => Ok(Blob::new(BlobContent { bytes: clone_bytes(&content.bytes) })),
            None => Err(ViewError::NotFound),
        }
    }

    fn read_blob_state(&self, blob_id: BlobId) -> (r: Result<BlobState, ViewError>) {
        match self.blob_states.get(blob_id.hash) {
            Some(state) => Ok(*state),
            None => Err(ViewError::NotFound),
        }
    }

    fn write_blob(&mut self, blob: &Blob) -> (r: Result<(), ViewError>) {
        self.blobs.insert(blob.id().hash, blob.clone_content());
        Ok(())
    }

    fn write_blobs(&mut self, blobs: &Vec<Blob>) -> (r: Result<(), ViewError>) {
        let n = blobs.len();
        let mut i: usize = 0;
        while i < n
            invariant
                0 <= i <= n,
                n == blobs@.len(),
                self.inv(),
                self.model() == old(self).model().with_blobs(
                    write_all(blobs@.take(i as int), old(self).model().blobs),
                ),
            decreases n - i,
        {
            proof {
                assert(blobs@.take(i + 1).drop_last() =~= blobs@.take(i as int));
                assert(blobs@.take(i + 1).last() == blobs@[i as int]);
            }
            self.blobs.insert(blobs[i].id().hash, blobs[i].clone_content());
            i = i + 1;
        }
        proof {
            assert(blobs@.take(n as int) =~= blobs@);
        }
        Ok(())
    }

    fn maybe_write_blobs(&mut self, blobs: &Vec<Blob>) -> (r: Result<Vec<bool>, ViewError>) {
        let mut written: Vec<bool> = Vec::new();
        let n = blobs.len();
        let mut i: usize = 0;
        while i < n
            invariant
                0 <= i <= n,
                n == blobs@.len(),
                self.inv(),
                self.model() == old(self).model().with_blobs(
                    write_gated(blobs@.take(i as int), old(self).model()),
                ),
                written@.len() == i,
                forall|j: int|
                    0 <= j < i ==> written@[j] == old(self).model().blob_states.contains_key(
                        spec_blob_id(blobs@[j]@).hash,
                    ),
            decreases n - i,
        {
            proof {
                assert(blobs@.take(i + 1).drop_last() =~= blobs@.take(i as int));
                assert(blobs@.take(i + 1).last() == blobs@[i as int]);
            }
            let id = blobs[i].id();
            let expected = self.blob_states.contains_key(id.hash);
            if expected {
                self.blobs.insert(id.hash, blobs[i].clone_content());
            }
            written.push(expected);
            i = i + 1;
        }
        proof {
            assert(blobs@.take(n as int) =~= blobs@);
        }
        Ok(written)
    }

    fn write_blob_state(&mut self, blob_id: BlobId, blob_state: &BlobState) -> (r: Result<
        (),
        ViewError,
    >) {
        self.blob_states.insert(blob_id.hash, *blob_state);
        Ok(())
    }

    fn contains_certificate(&self, hash: Digest) -> (r: Result<bool, ViewError>) {
        Ok(self.certificates.contains_key(hash))
    }

    fn read_certificate(&self, hash: Digest) -> (r: Result<Certificate, ViewError>) {
        match self.certificates.get(hash) {
            Some(cert) => Ok(Certificate {
                block: ConfirmedBlock { bytes: clone_bytes(&cert.block.bytes) },
                signatures: clone_bytes(&cert.signatures),
            }),
            None => Err(ViewError::NotFound),
        }
    }

    fn read_certificates(&self, hashes: Vec<Digest>) -> (r: Result<Vec<Certificate>, ViewError>) {
        let mut certs: Vec<Certificate> = Vec::new();
        let n = hashes.len();
        let mut i: usize = 0;
        while i < n
            invariant
                0 <= i <= n,
                n == hashes@.len(),
                self.inv(),
                certs_view(certs@) == present_certs(
                    hashes@.take(i as int),
                    self.model().certificates,
                ),
            decreases n - i,
        {
            proof {
                assert(hashes@.take(i + 1).drop_last() =~= hashes@.take(i as int));
                assert(hashes@.take(i + 1).last() == hashes@[i as int]);
            }
            let ghost prior = certs@;
            match self.certificates.get(hashes[i]) {
                Some(cert) => {
                    let copy = Certificate {
                        block: ConfirmedBlock { bytes: clone_bytes(&cert.block.bytes) },
                        signatures: clone_bytes(&cert.signatures),
                    };
                    certs.push(copy);
                    proof {
                        assert(certs_view(certs@) =~= certs_view(prior).push(
                            self.model().certificates[hashes@[i as int]],
                        ));
                    }
                },
                None => {},
            }
            i = i + 1;
        }
        proof {
            assert(hashes@.take(n as int) =~= hashes@);
        }
        Ok(certs)
    }

    fn write_blobs_and_certificate(&mut self, blobs: &Vec<Blob>, certificate: &Certificate) -> (r:
        Result<(), ViewError>) {
        let write_result = self.write_blobs(blobs);
        match write_result {
            Ok(()) => {},
            Err(e) => {
                return Err(e);
            },
        }
        let hash = certificate.hash();
        self.blocks.insert(hash, ConfirmedBlock { bytes: clone_bytes(&certificate.block.bytes) });
        self.certificates.insert(
            hash,
            Certificate {
                block: ConfirmedBlock { bytes: clone_bytes(&certificate.block.bytes) },
                signatures: clone_bytes(&certificate.signatures),
            },
        );
        Ok(())
    }

    fn read_event(&self, id: EventId) -> (r: Result<Vec<u8>, ViewError>) {
        match self.events.get(id.hash) {
            Some(payload) => Ok(clone_bytes(payload)),
            None => Err(ViewError::NotFound),
        }
    }

    fn contains_event(&self, id: EventId) -> (r: Result<bool, ViewError>) {
        Ok(self.events.contains_key(id.hash))
    }

    fn write_events(&mut self, events: Vec<(EventId, Vec<u8>)>) -> (r: Result<(), ViewError>) {
        let n = events.len();
        let mut i: usize = 0;
        let mut remaining = events;
        let ghost all = remaining@;
        while i < n
            invariant
                0 <= i <= n,
                n == all.len(),
                remaining@ == all.skip(i as int),
                self.inv(),
                self.model() == old(self).model().with_events(
                    events_written(all.take(i as int), old(self).model().events),
                ),
            decreases n - i,
        {
            proof {
                assert(all.take(i + 1).drop_last() =~= all.take(i as int));
                assert(all.take(i + 1).last() == all[i as int]);
                assert(remaining@[0] == all[i as int]);
            }
            let (id, payload) = remaining.remove(0);
            self.events.insert(id.hash, payload);
            proof {
                assert(remaining@ =~= all.skip(i + 1));
            }
            i = i + 1;
        }
        proof {
            assert(all.take(n as int) =~= all);
        }
        Ok(())
    }

    fn read_network_description(&self) -> (r: Result<Option<NetworkDescription>, ViewError>) {
        match &self.network {
            Some(d) => Ok(Some(NetworkDescription {
                name: d.name.clone(),
                genesis_config_hash: d.genesis_config_hash,
                genesis_timestamp: d.genesis_timestamp,
            })),
            None => Ok(None),
        }
    }

    fn write_network_description(&mut self, information: &NetworkDescription) -> (r: Result<
        (),
        ViewError,
    >) {
        self.network = Some(NetworkDescription {
            name: information.name.clone(),
            genesis_config_hash: information.genesis_config_hash,
            genesis_timestamp: information.genesis_timestamp,
        });
        Ok(())
    }
}

} // verus!
