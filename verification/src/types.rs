use vstd::prelude::*;

use crate::flow::Flow;

verus! {

/// Identifier of a blockchain domain; equality-comparable, used as a map key.
pub type ChainId = u64;

/// Lending-protocol addresses and parameters of one chain.
pub struct AaveConfig {
    pub asset: String,
    pub lending_pool_address: String,
    pub on_behalf_of: String,
    pub referral_code: u16,
}

impl Clone for AaveConfig {
    fn clone(&self) -> (r: Self)
        ensures
            r == *self,
    {
        AaveConfig {
            asset: self.asset.clone(),
            lending_pool_address: self.lending_pool_address.clone(),
            on_behalf_of: self.on_behalf_of.clone(),
            referral_code: self.referral_code,
        }
    }
}

/// Bridge-protocol addresses of one chain.
pub struct CCTPConfig {
    pub messenger_address: String,
    pub transmitter_address: String,
    pub usdc_address: String,
}

impl Clone for CCTPConfig {
    fn clone(&self) -> (r: Self)
        ensures
            r == *self,
    {
        CCTPConfig {
            messenger_address: self.messenger_address.clone(),
            transmitter_address: self.transmitter_address.clone(),
            usdc_address: self.usdc_address.clone(),
        }
    }
}

/// Vault address of one chain.
pub struct RebalancerConfig {
    pub vault_address: String,
}

impl Clone for RebalancerConfig {
    fn clone(&self) -> (r: Self)
        ensures
            r == *self,
    {
        RebalancerConfig { vault_address: self.vault_address.clone() }
    }
}

/// Per-chain bundle of protocol addresses; immutable once registered.
pub struct Config {
    pub rebalancer: RebalancerConfig,
    pub cctp: CCTPConfig,
    pub aave: AaveConfig,
}

impl Clone for Config {
    fn clone(&self) -> (r: Self)
        ensures
            r == *self,
    {
        Config {
            rebalancer: self.rebalancer.clone(),
            cctp: self.cctp.clone(),
            aave: self.aave.clone(),
        }
    }
}

/// A chain identifier together with its configuration, as given at
/// initialization.
pub struct ChainConfig {
    pub chain_id: ChainId,
    pub config: Config,
}

impl Clone for ChainConfig {
    fn clone(&self) -> (r: Self)
        ensures
            r == *self,
    {
        ChainConfig { chain_id: self.chain_id, config: self.config.clone() }
    }
}

/// An approved caller identity, recorded with a code fingerprint.
pub struct Worker {
    pub codehash: String,
}

impl Clone for Worker {
    fn clone(&self) -> (r: Self)
        ensures
            r == *self,
    {
        Worker { codehash: self.codehash.clone() }
    }
}

/// The single in-flight workflow instance.
#[derive(Clone, Copy, Debug, PartialEq, Eq, Structural)]
pub struct ActiveSession {
    /// Monotonic workflow identifier, also the key of the audit-log entry.
    pub nonce: u64,
    /// The workflow shape being executed.
    pub flow: Flow,
    /// Millisecond timestamp at which the session was started.
    pub started_at: u64,
}

/// The kind of workflow an audit-log entry records.
#[derive(Clone, Copy, Debug, PartialEq, Eq, Structural)]
pub enum AgentActionType {
    Rebalance,
}

/// Per-nonce audit record of one workflow instance; created at session
/// start, appended to as steps complete, never deleted.
pub struct ActivityLog {
    pub activity_type: AgentActionType,
    pub source_chain: ChainId,
    pub destination_chain: ChainId,
    pub timestamp: u64,
    pub nonce: u64,
    pub amount: u128,
    pub usdc_agent_balance_before: u128,
    /// Signed transaction bytes produced by the session's steps, in order of
    /// completion.
    pub transactions: Vec<Vec<u8>>,
}

/// Field-for-field agreement of two audit-log entries, the transaction
/// list compared by its byte contents.
pub open spec fn log_eq(a: ActivityLog, b: ActivityLog) -> bool {
    &&& a.activity_type == b.activity_type
    &&& a.source_chain == b.source_chain
    &&& a.destination_chain == b.destination_chain
    &&& a.timestamp == b.timestamp
    &&& a.nonce == b.nonce
    &&& a.amount == b.amount
    &&& a.usdc_agent_balance_before == b.usdc_agent_balance_before
    &&& a.transactions.deep_view() == b.transactions.deep_view()
}

impl Clone for ActivityLog {
    fn clone(&self) -> (r: Self)
        ensures
            log_eq(r, *self),
    {
        ActivityLog {
            activity_type: self.activity_type,
            source_chain: self.source_chain,
            destination_chain: self.destination_chain,
            timestamp: self.timestamp,
            nonce: self.nonce,
            amount: self.amount,
            usdc_agent_balance_before: self.usdc_agent_balance_before,
            transactions: clone_byte_lists(&self.transactions),
        }
    }
}

/// Copies a list of byte strings, element for element.
pub fn clone_byte_lists(v: &Vec<Vec<u8>>) -> (r: Vec<Vec<u8>>)
    ensures
        r.deep_view() == v.deep_view(),
{
    let mut r: Vec<Vec<u8>> = Vec::new();
    let mut i: usize = 0;
    while i < v.len()
        invariant
            i <= v.len(),
            r.len() == i,
            forall|j: int| 0 <= j < i ==> r.deep_view()[j] == v.deep_view()[j],
        decreases v.len() - i,
    {
        r.push(clone_bytes(&v[i]));
        i = i + 1;
    }
    proof {
        assert(r.deep_view() =~= v.deep_view());
    }
    r
}

/// Copies a byte string.
pub fn clone_bytes(v: &Vec<u8>) -> (r: Vec<u8>)
    ensures
        r@ == v@,
{
    let mut r: Vec<u8> = Vec::new();
    let mut i: usize = 0;
    while i < v.len()
        invariant
            i <= v.len(),
            r@.len() == i,
            forall|j: int| 0 <= j < i ==> r@[j] == v@[j],
        decreases v.len() - i,
    {
        r.push(v[i]);
        i = i + 1;
    }
    proof {
        assert(r@ =~= v@);
    }
    r
}

/// Compares two byte strings for equality.
pub fn bytes_eq(a: &Vec<u8>, b: &Vec<u8>) -> (r: bool)
    ensures
        r == (a@ == b@),
{
    if a.len() != b.len() {
        proof {
            assert(a@ != b@);
        }
        return false;
    }
    let mut i: usize = 0;
    while i < a.len()
        invariant
            i <= a.len(),
            a@.len() == b@.len(),
            forall|j: int| 0 <= j < i ==> a@[j] == b@[j],
        decreases a.len() - i,
    {
        if a[i] != b[i] {
            return false;
        }
        i = i + 1;
    }
    proof {
        assert(a@ =~= b@);
    }
    true
}

/// The bytes of `v` from `from` (inclusive) to `to` (exclusive).
pub fn sub_bytes(v: &Vec<u8>, from: usize, to: usize) -> (r: Vec<u8>)
    requires
        from <= to <= v@.len(),
    ensures
        r@ == v@.subrange(from as int, to as int),
{
    let mut r: Vec<u8> = Vec::new();
    let mut i: usize = from;
    while i < to
        invariant
            from <= i <= to <= v@.len(),
            r@.len() == i - from,
            forall|j: int| 0 <= j < i - from ==> r@[j] == v@[from + j],
        decreases to - i,
    {
        r.push(v[i]);
        i = i + 1;
    }
    proof {
        assert(r@ =~= v@.subrange(from as int, to as int));
    }
    r
}

/// Composite key of the two signing caches: one slot per (session nonce,
/// step code) pair.
#[derive(Clone, Copy, Debug, PartialEq, Eq, Hash, Structural)]
pub struct CacheKey {
    pub nonce: u64,
    pub tx_type: u8,
}

impl CacheKey {
    /// Builds the key of the signing slot for `tx_type` under `nonce`.
    pub fn new(nonce: u64, tx_type: u8) -> (r: Self)
        ensures
            r == (CacheKey { nonce, tx_type }),
    {
        CacheKey { nonce, tx_type }
    }
}

/// The signing service's answer to one request, as plain values: the affine
/// point and scalar are hex strings, as the service returns them.
pub struct SignatureResponse {
    /// Hex encoding of the 33-byte compressed affine point; its first byte is
    /// a tag, the following 32 bytes are `r`.
    pub big_r_affine_point: String,
    /// Hex encoding of the 32-byte scalar `s`.
    pub s_scalar: String,
    /// Recovery indicator of the signature.
    pub recovery_id: u8,
}

impl Clone for SignatureResponse {
    fn clone(&self) -> (r: Self)
        ensures
            r == *self,
    {
        SignatureResponse {
            big_r_affine_point: self.big_r_affine_point.clone(),
            s_scalar: self.s_scalar.clone(),
            recovery_id: self.recovery_id,
        }
    }
}

} // verus!
