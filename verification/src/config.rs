//! Static configuration: network protocol families, shard descriptors, the
//! validator's public and internal networks, process options, and the shard
//! router that maps a chain identifier to the shard that owns it.

use vstd::prelude::*;
use crate::ids::ChainId;

verus! {

/// A simple-transport family: direct framing over TCP or UDP.
#[derive(Clone, Copy, Debug, PartialEq, Eq, Structural)]
pub enum TransportProtocol {
    Tcp,
    Udp,
}

/// Whether a structured (RPC-over-HTTP/2-style) endpoint uses TLS.
#[derive(Clone, Copy, Debug, PartialEq, Eq, Structural)]
pub enum TlsConfig {
    ClearText,
    Tls,
}

/// A wire-protocol family: either simple transport or structured RPC.
#[derive(Clone, Copy, Debug, PartialEq, Eq, Structural)]
pub enum NetworkProtocol {
    Simple(TransportProtocol),
    Grpc(TlsConfig),
}

/// The network location of one internal shard process.
#[derive(Clone, Debug)]
pub struct ShardConfig {
    pub host: String,
    pub port: u16,
}

/// How external clients reach the proxy.
#[derive(Clone, Debug)]
pub struct ValidatorPublicNetworkPreConfig<P> {
    pub protocol: P,
    pub host: String,
    pub port: u16,
}

/// The internal (shard-facing) network: the routing universe.
#[derive(Clone, Debug)]
pub struct ValidatorInternalNetworkPreConfig<P> {
    pub protocol: P,
    pub shards: Vec<ShardConfig>,
    pub metrics_port: Option<u16>,
}

impl<P> ValidatorPublicNetworkPreConfig<P> {
    /// The same public network, reached over another protocol family.
    pub fn clone_with_protocol<Q>(self, protocol: Q) -> (r: ValidatorPublicNetworkPreConfig<Q>)
        ensures
            r.protocol == protocol,
            r.host == self.host,
            r.port == self.port,
    {
        ValidatorPublicNetworkPreConfig { protocol, host: self.host, port: self.port }
    }
}

/// The shard that owns a chain: a deterministic, total function of the chain
/// identifier and the shard count.
pub open spec fn spec_shard_index(chain_id: ChainId, shard_count: int) -> int
    recommends
        shard_count > 0,
{
    chain_id.hash.a as int % shard_count
}

impl<P> ValidatorInternalNetworkPreConfig<P> {
    /// A routing universe is valid when it has at least one shard.
    pub open spec fn wf(&self) -> bool {
        self.shards@.len() > 0
    }

    /// The same internal network, reached over another protocol family.
    pub fn clone_with_protocol<Q>(self, protocol: Q) -> (r: ValidatorInternalNetworkPreConfig<Q>)
        ensures
            r.protocol == protocol,
            r.shards == self.shards,
            r.metrics_port == self.metrics_port,
    {
        ValidatorInternalNetworkPreConfig {
            protocol,
            shards: self.shards,
            metrics_port: self.metrics_port,
        }
    }

    /// The index of the shard that owns `chain_id`.
    pub fn get_shard_id(&self, chain_id: ChainId) -> (r: usize)
        requires
            self.wf(),
        ensures
            r as int == spec_shard_index(chain_id, self.shards@.len() as int),
            r < self.shards@.len(),
    {
        let n = self.shards.len();
        (chain_id.hash.a % (n as u64)) as usize
    }

    /// The shard that owns `chain_id`. Total: every chain identifier maps to
    /// some shard of a valid routing universe.
    pub fn get_shard_for(&self, chain_id: ChainId) -> (r: &ShardConfig)
        requires
            self.wf(),
        ensures
            *r == self.shards@[spec_shard_index(chain_id, self.shards@.len() as int)],
    {
        let id = self.get_shard_id(chain_id);
        &self.shards[id]
    }
}

/// Repeated routing of the same chain identifier over the same configuration
/// picks the same shard: any two results that meet `get_shard_for`'s
/// contract are equal.
pub proof fn lemma_shard_router_deterministic<P>(
    config: ValidatorInternalNetworkPreConfig<P>,
    chain_id: ChainId,
    first: ShardConfig,
    second: ShardConfig,
)
    requires
        config.wf(),
        first == config.shards@[spec_shard_index(chain_id, config.shards@.len() as int)],
        second == config.shards@[spec_shard_index(chain_id, config.shards@.len() as int)],
    ensures
        first == second,
{
}

/// The shard router is total: over a valid configuration, every chain
/// identifier maps to an index of an existing shard.
pub proof fn lemma_shard_router_total<P>(
    config: ValidatorInternalNetworkPreConfig<P>,
    chain_id: ChainId,
)
    requires
        config.wf(),
    ensures
        0 <= spec_shard_index(chain_id, config.shards@.len() as int) < config.shards@.len(),
{
}

/// The validator's identity and its public-facing network.
#[derive(Clone, Debug)]
pub struct ValidatorConfig {
    /// The public key of the validator, used only for labeling.
    pub public_key: Vec<u8>,
    pub network: ValidatorPublicNetworkPreConfig<NetworkProtocol>,
}

/// The whole server-side configuration, loaded once at startup.
#[derive(Clone, Debug)]
pub struct ValidatorServerConfig {
    pub validator: ValidatorConfig,
    pub internal_network: ValidatorInternalNetworkPreConfig<NetworkProtocol>,
}

/// Sizing of the storage cache.
#[derive(Clone, Copy, Debug, PartialEq, Eq, Structural)]
pub struct StorageCacheConfig {
    pub max_cache_size: usize,
    pub max_entry_size: usize,
    pub max_cache_entries: usize,
}

/// Limits common to every storage backend.
#[derive(Clone, Copy, Debug, PartialEq, Eq, Structural)]
pub struct CommonStoreConfig {
    pub max_concurrent_queries: Option<usize>,
    pub max_stream_queries: usize,
    pub storage_cache_config: StorageCacheConfig,
}

/// Options for running the proxy, as parsed from flags and environment.
#[derive(Clone, Debug)]
pub struct ProxyOptions {
    /// Path to server configuration.
    pub config_path: String,
    /// Timeout for sending queries (ms).
    pub send_timeout: u64,
    /// Timeout for receiving responses (ms).
    pub recv_timeout: u64,
    /// The number of worker threads to use.
    pub tokio_threads: Option<usize>,
    /// The number of blocking threads to use.
    pub tokio_blocking_threads: Option<usize>,
    /// Storage configuration for the blockchain history, chain states and
    /// binary blobs.
    pub storage_config: String,
    /// The maximal number of simultaneous queries to the database.
    pub max_concurrent_queries: Option<usize>,
    /// The maximal number of stream queries to the database.
    pub max_stream_queries: usize,
    /// The maximal memory used in the storage cache.
    pub max_cache_size: usize,
    /// The maximal size of an entry in the storage cache.
    pub max_entry_size: usize,
    /// The maximal number of entries in the storage cache.
    pub max_cache_entries: usize,
    /// Path to the file describing the initial user chains.
    pub genesis_config_path: String,
}

impl Default for ProxyOptions {
    /// The documented defaults: four-second deadlines on each side, ten
    /// stream queries, a ten-megabyte cache of at most a thousand entries
    /// of at most a megabyte each.
    fn default() -> (r: Self)
        ensures
            r.config_path@ == Seq::<char>::empty(),
            r.send_timeout == 4000,
            r.recv_timeout == 4000,
            r.tokio_threads is None,
            r.tokio_blocking_threads is None,
            r.storage_config@ == Seq::<char>::empty(),
            r.max_concurrent_queries is None,
            r.max_stream_queries == 10,
            r.max_cache_size == 10000000,
            r.max_entry_size == 1000000,
            r.max_cache_entries == 1000,
            r.genesis_config_path@ == Seq::<char>::empty(),
    {
        ProxyOptions {
            config_path: String::new(),
            send_timeout: 4000,
            recv_timeout: 4000,
            tokio_threads: None,
            tokio_blocking_threads: None,
            storage_config: String::new(),
            max_concurrent_queries: None,
            max_stream_queries: 10,
            max_cache_size: 10000000,
            max_entry_size: 1000000,
            max_cache_entries: 1000,
            genesis_config_path: String::new(),
        }
    }
}

impl ProxyOptions {
    /// The storage limits that these options ask for.
    pub fn common_store_config(&self) -> (r: CommonStoreConfig)
        ensures
            r == (CommonStoreConfig {
                max_concurrent_queries: self.max_concurrent_queries,
                max_stream_queries: self.max_stream_queries,
                storage_cache_config: StorageCacheConfig {
                    max_cache_size: self.max_cache_size,
                    max_entry_size: self.max_entry_size,
                    max_cache_entries: self.max_cache_entries,
                },
            }),
    {
        CommonStoreConfig {
            max_concurrent_queries: self.max_concurrent_queries,
            max_stream_queries: self.max_stream_queries,
            storage_cache_config: StorageCacheConfig {
                max_cache_size: self.max_cache_size,
                max_entry_size: self.max_entry_size,
                max_cache_entries: self.max_cache_entries,
            },
        }
    }
}

/// Everything the proxy needs beyond a storage handle: the server
/// configuration and the two forwarding deadlines.
#[derive(Clone, Debug)]
pub struct ProxyContext {
    pub config: ValidatorServerConfig,
    pub send_timeout: u64,
    pub recv_timeout: u64,
}

impl ProxyContext {
    /// Builds the context from the process options and the server
    /// configuration those options point at (already read and parsed).
    pub fn from_options(options: &ProxyOptions, config: ValidatorServerConfig) -> (r: Self)
        ensures
            r.config == config,
            r.send_timeout == options.send_timeout,
            r.recv_timeout == options.recv_timeout,
    {
        ProxyContext { config, send_timeout: options.send_timeout, recv_timeout: options.recv_timeout }
    }
}

} // verus!
