use vstd::prelude::*;

verus! {

/// A payment attached to a transaction. An empty asset id is the native coin.
#[derive(Debug, Clone)]
pub struct Payment {
    pub asset_id: Vec<u8>,
    pub amount: i64,
}

/// The seven positional arguments of a `mint_tokens` or `release_tokens`
/// call between the programs of the bridge.
#[derive(Debug, Clone)]
pub struct BridgeCall {
    pub execution_chain_id: i64,
    pub execution_asset: Vec<u8>,
    pub amount: i64,
    pub recipient: Vec<u8>,
    pub gasless_reward: i64,
    pub referrer: Vec<u8>,
    pub referrer_fee: i64,
}

/// A `mint_tokens` call to the root adapter at address `root_adapter`.
#[derive(Debug, Clone)]
pub struct MintRequest {
    pub root_adapter: Vec<u8>,
    pub call: BridgeCall,
}

/// A call forwarded to the per-chain adapter at address `adapter`.
#[derive(Debug, Clone)]
pub struct AdapterCall {
    pub adapter: Vec<u8>,
    pub call: BridgeCall,
}

/// How a transfer addresses its recipient.
#[derive(Debug, Clone, Copy, PartialEq, Eq, Structural)]
pub enum RecipientKind {
    Account,
    Program,
}

/// A transfer of native coin.
#[derive(Debug, Clone)]
pub struct Transfer {
    pub kind: RecipientKind,
    pub recipient: Vec<u8>,
    pub amount: i64,
}

} // verus!
