//! Identifiers and small value types: chains, blobs, applications, events,
//! epochs, and the virtual-machine selectors used when loading application
//! code.

use vstd::prelude::*;
use crate::digest::{compute_digest, digest_of, Digest};

verus! {

/// Microseconds since the epoch.
pub type Timestamp = u64;

/// A consecutive protocol era of a chain.
#[derive(Clone, Copy, Debug, PartialEq, Eq, Structural)]
pub struct Epoch {
    pub number: u32,
}

/// The identifier of a content-addressed blob: the digest of its content.
#[derive(Clone, Copy, Debug, PartialEq, Eq, Structural)]
pub struct BlobId {
    pub hash: Digest,
}

/// The identifier of a chain: the digest of its description.
#[derive(Clone, Copy, Debug, PartialEq, Eq, Structural)]
pub struct ChainId {
    pub hash: Digest,
}

/// The identifier of an application: the digest of its description.
#[derive(Clone, Copy, Debug, PartialEq, Eq, Structural)]
pub struct ApplicationId {
    pub hash: Digest,
}

/// The identifier of an event.
#[derive(Clone, Copy, Debug, PartialEq, Eq, Structural)]
pub struct EventId {
    pub hash: Digest,
}

/// The virtual machine a module is compiled for.
#[derive(Clone, Copy, Debug, PartialEq, Eq, Structural)]
pub enum VmRuntime {
    Wasm,
    Evm,
}

/// The available WebAssembly execution engines.
#[derive(Clone, Copy, Debug, PartialEq, Eq, Structural)]
pub enum WasmRuntime {
    Wasmer,
    Wasmtime,
}

/// The available EVM execution engines.
#[derive(Clone, Copy, Debug, PartialEq, Eq, Structural)]
pub enum EvmRuntime {
    Revm,
}

/// The engine a loaded module will run on.
#[derive(Clone, Copy, Debug, PartialEq, Eq, Structural)]
pub enum ModuleRuntime {
    Wasm(WasmRuntime),
    Evm(EvmRuntime),
}

/// How the execution runtime schedules application calls.
#[derive(Clone, Copy, Debug, PartialEq, Eq, Structural)]
pub enum ExecutionRuntimeConfig {
    Synchronous,
}

/// Identifies the bytecode of an application: the blobs holding its contract
/// and service modules, and the virtual machine they target.
#[derive(Clone, Copy, Debug, PartialEq, Eq, Structural)]
pub struct ModuleId {
    pub contract_blob_hash: Digest,
    pub service_blob_hash: Digest,
    pub vm_runtime: VmRuntime,
}

/// Describes one application: its module and its instantiation parameters.
#[derive(Clone, Debug)]
pub struct ApplicationDescription {
    pub module_id: ModuleId,
    pub parameters: Vec<u8>,
}

/// Describes one chain; the description's bytes are opaque to the proxy, and
/// their digest is the chain's identifier.
#[derive(Clone, Debug)]
pub struct ChainDescription {
    pub bytes: Vec<u8>,
}

/// The little-endian bytes of a 64-bit word.
pub open spec fn u64_le_bytes(x: u64) -> Seq<u8> {
    seq![
        (x & 0xff) as u8,
        ((x >> 8) & 0xff) as u8,
        ((x >> 16) & 0xff) as u8,
        ((x >> 24) & 0xff) as u8,
        ((x >> 32) & 0xff) as u8,
        ((x >> 40) & 0xff) as u8,
        ((x >> 48) & 0xff) as u8,
        ((x >> 56) & 0xff) as u8,
    ]
}

/// The byte encoding of a digest: its four lanes, little-endian.
pub open spec fn digest_le_bytes(d: Digest) -> Seq<u8> {
    u64_le_bytes(d.a) + u64_le_bytes(d.b) + u64_le_bytes(d.c) + u64_le_bytes(d.d)
}

/// The byte encoding of a module selector.
pub open spec fn vm_byte(vm: VmRuntime) -> u8 {
    match vm {
        VmRuntime::Wasm => 0,
        VmRuntime::Evm => 1,
    }
}

/// The byte encoding of an application description, digested to form the
/// application's identifier.
pub open spec fn description_bytes(module_id: ModuleId, parameters: Seq<u8>) -> Seq<u8> {
    digest_le_bytes(module_id.contract_blob_hash) + digest_le_bytes(module_id.service_blob_hash)
        + seq![vm_byte(module_id.vm_runtime)] + parameters
}

/// The application identifier derived from a description.
pub open spec fn spec_application_id(module_id: ModuleId, parameters: Seq<u8>) -> ApplicationId {
    ApplicationId { hash: digest_of(description_bytes(module_id, parameters)) }
}

fn push_u64_le(out: &mut Vec<u8>, x: u64)
    ensures
        final(out)@ == old(out)@ + u64_le_bytes(x),
{
    out.push((x & 0xff) as u8);
    out.push(((x >> 8) & 0xff) as u8);
    out.push(((x >> 16) & 0xff) as u8);
    out.push(((x >> 24) & 0xff) as u8);
    out.push(((x >> 32) & 0xff) as u8);
    out.push(((x >> 40) & 0xff) as u8);
    out.push(((x >> 48) & 0xff) as u8);
    out.push(((x >> 56) & 0xff) as u8);
    proof {
        assert(out@ =~= old(out)@ + u64_le_bytes(x));
    }
}

fn push_digest_le(out: &mut Vec<u8>, d: Digest)
    ensures
        final(out)@ == old(out)@ + digest_le_bytes(d),
{
    push_u64_le(out, d.a);
    push_u64_le(out, d.b);
    push_u64_le(out, d.c);
    push_u64_le(out, d.d);
    proof {
        assert(out@ =~= old(out)@ + digest_le_bytes(d));
    }
}

impl ApplicationDescription {
    /// The blob holding the contract bytecode of this application's module.
    pub fn contract_bytecode_blob_id(&self) -> (r: BlobId)
        ensures
            r == (BlobId { hash: self.module_id.contract_blob_hash }),
    {
        BlobId { hash: self.module_id.contract_blob_hash }
    }

    /// The blob holding the service bytecode of this application's module.
    pub fn service_bytecode_blob_id(&self) -> (r: BlobId)
        ensures
            r == (BlobId { hash: self.module_id.service_blob_hash }),
    {
        BlobId { hash: self.module_id.service_blob_hash }
    }

    /// The identifier of the application this description describes.
    pub fn application_id(&self) -> (r: ApplicationId)
        ensures
            r == spec_application_id(self.module_id, self.parameters@),
    {
        let mut bytes: Vec<u8> = Vec::new();
        push_digest_le(&mut bytes, self.module_id.contract_blob_hash);
        push_digest_le(&mut bytes, self.module_id.service_blob_hash);
        let vm: u8 = match self.module_id.vm_runtime {
            VmRuntime::Wasm => 0,
            VmRuntime::Evm => 1,
        };
        bytes.push(vm);
        let mut i: usize = 0;
        let n: usize = self.parameters.len();
        while i < n
            invariant
                0 <= i <= n,
                n == self.parameters@.len(),
                bytes@ == description_bytes(self.module_id, self.parameters@.take(i as int)),
            decreases n - i,
        {
            bytes.push(self.parameters[i]);
            proof {
                assert(self.parameters@.take(i + 1) =~= self.parameters@.take(i as int).push(
                    self.parameters@[i as int],
                ));
                assert(bytes@ =~= description_bytes(
                    self.module_id,
                    self.parameters@.take(i + 1),
                ));
            }
            i = i + 1;
        }
        proof {
            assert(self.parameters@.take(n as int) =~= self.parameters@);
        }
        ApplicationId { hash: compute_digest(bytes.as_slice()) }
    }
}

impl ChainDescription {
    /// The identifier of the chain this description describes.
    pub fn id(&self) -> (r: ChainId)
        ensures
            r == (ChainId { hash: digest_of(self.bytes@) }),
    {
        ChainId { hash: compute_digest(self.bytes.as_slice()) }
    }
}

} // verus!
