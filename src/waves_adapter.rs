use vstd::prelude::*;
use crate::address::{
    bytes_equal,
    is_account_address,
    is_program_address,
    validate_address,
    validate_contract,
};
use crate::calls::BridgeCall;
use crate::error::BridgeError;
use crate::governance::{confirmed, require_confirmation, Governance};
use crate::text::{int_text, push_bytes, push_int_text};

verus! {

/// The byte `#`; four of them separate the arguments of a relayed call.
pub const ARG_SEP_BYTE: u8 = 35;

/// The argument separator `####`.
pub open spec fn arg_separator() -> Seq<u8> {
    seq![ARG_SEP_BYTE, ARG_SEP_BYTE, ARG_SEP_BYTE, ARG_SEP_BYTE]
}

/// The symbol of the chain's native coin, `WAVES`.
pub open spec fn native_asset_symbol() -> Seq<u8> {
    seq![87u8, 65u8, 86u8, 69u8, 83u8]
}

/// Arguments of a release of the native coin: the asset is implied by the
/// target and left out.
pub open spec fn coin_args(c: &BridgeCall) -> Seq<u8> {
    int_text(c.amount as int) + arg_separator() + c.recipient@ + arg_separator() + int_text(
        c.gasless_reward as int,
    ) + arg_separator() + c.referrer@ + arg_separator() + int_text(c.referrer_fee as int)
}

/// Arguments of a token release or mint: the asset, then the arguments of
/// a coin release.
pub open spec fn token_args(c: &BridgeCall) -> Seq<u8> {
    c.execution_asset@ + arg_separator() + coin_args(c)
}

/// The function of the downstream bridge that a relayed call invokes.
#[derive(Debug, Clone, Copy, PartialEq, Eq, Structural)]
pub enum RelayFunction {
    MintTokens,
    ReleaseTokens,
}

impl RelayFunction {
    /// The function's name on the destination chain.
    pub fn name(&self) -> (r: &'static str)
        ensures
            *self == RelayFunction::MintTokens ==> r@ == "mintTokens"@,
            *self == RelayFunction::ReleaseTokens ==> r@ == "releaseTokens"@,
    {
        match self {
            RelayFunction::MintTokens => "mintTokens",
            RelayFunction::ReleaseTokens => "releaseTokens",
        }
    }
}

/// A call through the relay program `relay` to `function` of
/// `execution_contract` on chain `execution_chain_id`.
#[derive(Debug, Clone)]
pub struct RelayCall {
    pub relay: Vec<u8>,
    pub execution_chain_id: i64,
    pub execution_contract: Vec<u8>,
    pub function: RelayFunction,
    pub args: Vec<u8>,
}

/// The adapter for a Waves-style chain: turns the root adapter's calls into
/// relayed calls to the coin, token or wrapped-token bridge there.
#[derive(Debug, Clone)]
pub struct WavesAdapter {
    pub governance: Governance,
    pub protocol_caller: Vec<u8>,
    pub root_adapter: Vec<u8>,
    pub coin_bridge_contract: Option<Vec<u8>>,
    pub token_bridge_contract: Option<Vec<u8>>,
    pub wrapped_token_bridge_contract: Option<Vec<u8>>,
}

fn push_arg_separator(out: &mut Vec<u8>)
    ensures
        final(out)@ == old(out)@ + arg_separator(),
{
    out.push(ARG_SEP_BYTE);
    out.push(ARG_SEP_BYTE);
    out.push(ARG_SEP_BYTE);
    out.push(ARG_SEP_BYTE);
    assert(final(out)@ =~= old(out)@ + arg_separator());
}

/// Whether `asset` names the native coin.
pub fn is_native_asset(asset: &[u8]) -> (r: bool)
    ensures
        r == (asset@ == native_asset_symbol()),
{
    let r = asset.len() == 5 && asset[0] == 87 && asset[1] == 65 && asset[2] == 86 && asset[3]
        == 69 && asset[4] == 83;
    proof {
        if r {
            assert(asset@ =~= native_asset_symbol());
        }
    }
    r
}

/// Encodes the arguments of a coin release.
pub fn encode_coin_args(c: &BridgeCall) -> (r: Vec<u8>)
    ensures
        r@ == coin_args(c),
{
    let mut out: Vec<u8> = Vec::new();
    push_coin_args(&mut out, c);
    assert(out@ =~= coin_args(c));
    out
}

/// Encodes the arguments of a token release or mint.
pub fn encode_token_args(c: &BridgeCall) -> (r: Vec<u8>)
    ensures
        r@ == token_args(c),
{
    let mut out: Vec<u8> = Vec::new();
    push_bytes(&mut out, c.execution_asset.as_slice());
    push_arg_separator(&mut out);
    push_coin_args(&mut out, c);
    assert(out@ =~= token_args(c));
    out
}

fn push_coin_args(out: &mut Vec<u8>, c: &BridgeCall)
    ensures
        final(out)@ == old(out)@ + coin_args(c),
{
    push_int_text(out, c.amount);
    push_arg_separator(out);
    push_bytes(out, c.recipient.as_slice());
    push_arg_separator(out);
    push_int_text(out, c.gasless_reward);
    push_arg_separator(out);
    push_bytes(out, c.referrer.as_slice());
    push_arg_separator(out);
    push_int_text(out, c.referrer_fee);
    assert(final(out)@ =~= old(out)@ + coin_args(c));
}

impl WavesAdapter {
    /// The first failing check of the constructor.
    pub open spec fn construction_refusal(
        initialized: bool,
        multisig: Seq<u8>,
        protocol_caller: Seq<u8>,
        root_adapter: Seq<u8>,
        pauser: Seq<u8>,
    ) -> Option<BridgeError> {
        if initialized {
            Some(BridgeError::AlreadyInitialized)
        } else if !is_program_address(multisig) {
            Some(BridgeError::InvalidMultisig)
        } else if !is_program_address(protocol_caller) {
            Some(BridgeError::InvalidProtocolCaller)
        } else if !is_program_address(root_adapter) {
            Some(BridgeError::InvalidRootAdapter)
        } else if !is_account_address(pauser) {
            Some(BridgeError::InvalidPauser)
        } else {
            None
        }
    }

    /// Sets the adapter up once; it starts running, with no downstream
    /// bridge configured.
    pub fn new(
        initialized: bool,
        this: Vec<u8>,
        multisig: Vec<u8>,
        protocol_caller: Vec<u8>,
        root_adapter: Vec<u8>,
        pauser: Vec<u8>,
    ) -> (r: Result<WavesAdapter, BridgeError>)
        ensures
            match Self::construction_refusal(
                initialized,
                multisig@,
                protocol_caller@,
                root_adapter@,
                pauser@,
            ) {
                Some(e) => r == Err::<WavesAdapter, BridgeError>(e),
                None => r == Ok::<WavesAdapter, BridgeError>(
                    WavesAdapter {
                        governance: Governance { this, multisig, pauser, paused: false },
                        protocol_caller,
                        root_adapter,
                        coin_bridge_contract: None,
                        token_bridge_contract: None,
                        wrapped_token_bridge_contract: None,
                    },
                ),
            },
    {
        if initialized {
            return Err(BridgeError::AlreadyInitialized);
        }
        if !validate_contract(multisig.as_slice()) {
            return Err(BridgeError::InvalidMultisig);
        }
        if !validate_contract(protocol_caller.as_slice()) {
            return Err(BridgeError::InvalidProtocolCaller);
        }
        if !validate_contract(root_adapter.as_slice()) {
            return Err(BridgeError::InvalidRootAdapter);
        }
        if !validate_address(pauser.as_slice()) {
            return Err(BridgeError::InvalidPauser);
        }
        Ok(
            WavesAdapter {
                governance: Governance { this, multisig, pauser, paused: false },
                protocol_caller,
                root_adapter,
                coin_bridge_contract: None,
                token_bridge_contract: None,
                wrapped_token_bridge_contract: None,
            },
        )
    }

    /// The first failing check of a release from `caller`.
    pub open spec fn release_refusal(&self, caller: Seq<u8>, asset: Seq<u8>) -> Option<
        BridgeError,
    > {
        if self.governance.paused {
            Some(BridgeError::Paused)
        } else if caller != self.root_adapter@ {
            Some(BridgeError::NotRootAdapter)
        } else if asset == native_asset_symbol() && self.coin_bridge_contract is None {
            Some(BridgeError::CoinBridgeNotSet)
        } else if asset != native_asset_symbol() && self.token_bridge_contract is None {
            Some(BridgeError::TokenBridgeNotSet)
        } else {
            None
        }
    }

    /// Relays a release: the native coin goes to the coin bridge, any other
    /// asset to the token bridge.
    pub fn release_tokens(&self, caller: &[u8], call: &BridgeCall) -> (r: Result<
        RelayCall,
        BridgeError,
    >)
        ensures
            match self.release_refusal(caller@, call.execution_asset@) {
                Some(e) => r == Err::<RelayCall, BridgeError>(e),
                None => r matches Ok(rc) && rc.relay@ == self.protocol_caller@
                    && rc.execution_chain_id == call.execution_chain_id && rc.function
                    == RelayFunction::ReleaseTokens && (if call.execution_asset@
                    == native_asset_symbol() {
                    rc.execution_contract@ == self.coin_bridge_contract->0@ && rc.args@ == coin_args(
                        call,
                    )
                } else {
                    rc.execution_contract@ == self.token_bridge_contract->0@ && rc.args@
                        == token_args(call)
                }),
            },
    {
        if self.governance.paused {
            return Err(BridgeError::Paused);
        }
        if !bytes_equal(caller, self.root_adapter.as_slice()) {
            return Err(BridgeError::NotRootAdapter);
        }
        if is_native_asset(call.execution_asset.as_slice()) {
            let contract = match &self.coin_bridge_contract {
                Some(c) => c.clone(),
                None => return Err(BridgeError::CoinBridgeNotSet),
            };
            Ok(
                RelayCall {
                    relay: self.protocol_caller.clone(),
                    execution_chain_id: call.execution_chain_id,
                    execution_contract: contract,
                    function: RelayFunction::ReleaseTokens,
                    args: encode_coin_args(call),
                },
            )
        } else {
            let contract = match &self.token_bridge_contract {
                Some(c) => c.clone(),
                None => return Err(BridgeError::TokenBridgeNotSet),
            };
            Ok(
                RelayCall {
                    relay: self.protocol_caller.clone(),
                    execution_chain_id: call.execution_chain_id,
                    execution_contract: contract,
                    function: RelayFunction::ReleaseTokens,
                    args: encode_token_args(call),
                },
            )
        }
    }

    /// The first failing check of a mint from `caller`.
    pub open spec fn mint_refusal(&self, caller: Seq<u8>) -> Option<BridgeError> {
        if self.governance.paused {
            Some(BridgeError::Paused)
        } else if caller != self.root_adapter@ {
            Some(BridgeError::NotRootAdapter)
        } else if self.wrapped_token_bridge_contract is None {
            Some(BridgeError::WrappedTokenBridgeNotSet)
        } else {
            None
        }
    }

    /// Relays a mint to the wrapped-token bridge.
    pub fn mint_tokens(&self, caller: &[u8], call: &BridgeCall) -> (r: Result<RelayCall, BridgeError>)
        ensures
            match self.mint_refusal(caller@) {
                Some(e) => r == Err::<RelayCall, BridgeError>(e),
                None => r matches Ok(rc) && rc.relay@ == self.protocol_caller@
                    && rc.execution_chain_id == call.execution_chain_id && rc.function
                    == RelayFunction::MintTokens && rc.execution_contract@
                    == self.wrapped_token_bridge_contract->0@ && rc.args@ == token_args(call),
            },
    {
        if self.governance.paused {
            return Err(BridgeError::Paused);
        }
        if !bytes_equal(caller, self.root_adapter.as_slice()) {
            return Err(BridgeError::NotRootAdapter);
        }
        let contract = match &self.wrapped_token_bridge_contract {
            Some(c) => c.clone(),
            None => return Err(BridgeError::WrappedTokenBridgeNotSet),
        };
        Ok(
            RelayCall {
                relay: self.protocol_caller.clone(),
                execution_chain_id: call.execution_chain_id,
                execution_contract: contract,
                function: RelayFunction::MintTokens,
                args: encode_token_args(call),
            },
        )
    }

    /// Configures the coin bridge on the destination chain, on confirmation.
    pub fn set_coin_bridge_contract(&mut self, confirmation: Option<bool>, contract: Vec<u8>) -> (r:
        Result<(), BridgeError>)
        ensures
            r is Ok <==> confirmed(confirmation) && contract@.len() > 0,
            !confirmed(confirmation) ==> r == Err::<(), BridgeError>(BridgeError::NotConfirmed),
            confirmed(confirmation) && contract@.len() == 0 ==> r == Err::<(), BridgeError>(
                BridgeError::InvalidContract,
            ),
            r is Ok ==> *final(self) == (WavesAdapter {
                coin_bridge_contract: Some(contract),
                ..*old(self)
            }),
            r is Err ==> *final(self) == *old(self),
    {
        require_confirmation(confirmation)?;
        if contract.len() == 0 {
            return Err(BridgeError::InvalidContract);
        }
        self.coin_bridge_contract = Some(contract);
        Ok(())
    }

    /// Configures the token bridge on the destination chain, on confirmation.
    pub fn set_token_bridge_contract(&mut self, confirmation: Option<bool>, contract: Vec<u8>) -> (r:
        Result<(), BridgeError>)
        ensures
            r is Ok <==> confirmed(confirmation) && contract@.len() > 0,
            !confirmed(confirmation) ==> r == Err::<(), BridgeError>(BridgeError::NotConfirmed),
            confirmed(confirmation) && contract@.len() == 0 ==> r == Err::<(), BridgeError>(
                BridgeError::InvalidContract,
            ),
            r is Ok ==> *final(self) == (WavesAdapter {
                token_bridge_contract: Some(contract),
                ..*old(self)
            }),
            r is Err ==> *final(self) == *old(self),
    {
        require_confirmation(confirmation)?;
        if contract.len() == 0 {
            return Err(BridgeError::InvalidContract);
        }
        self.token_bridge_contract = Some(contract);
        Ok(())
    }

    /// Configures the wrapped-token bridge on the destination chain, on
    /// confirmation.
    pub fn set_wrapped_token_bridge_contract(
        &mut self,
        confirmation: Option<bool>,
        contract: Vec<u8>,
    ) -> (r: Result<(), BridgeError>)
        ensures
            r is Ok <==> confirmed(confirmation) && contract@.len() > 0,
            !confirmed(confirmation) ==> r == Err::<(), BridgeError>(BridgeError::NotConfirmed),
            confirmed(confirmation) && contract@.len() == 0 ==> r == Err::<(), BridgeError>(
                BridgeError::InvalidContract,
            ),
            r is Ok ==> *final(self) == (WavesAdapter {
                wrapped_token_bridge_contract: Some(contract),
                ..*old(self)
            }),
            r is Err ==> *final(self) == *old(self),
    {
        require_confirmation(confirmation)?;
        if contract.len() == 0 {
            return Err(BridgeError::InvalidContract);
        }
        self.wrapped_token_bridge_contract = Some(contract);
        Ok(())
    }
}

} // verus!
