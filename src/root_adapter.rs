use vstd::prelude::*;
use crate::address::{is_account_address, is_program_address, validate_address, validate_contract};
use crate::calls::{AdapterCall, BridgeCall};
use crate::error::BridgeError;
use crate::governance::{confirmed, require_confirmation, Governance};

verus! {

/// The central router: forwards mint and release calls from allowed
/// programs to the adapter registered for the destination chain.
#[derive(Debug, Clone)]
pub struct RootAdapter {
    pub governance: Governance,
}

impl RootAdapter {
    /// The first failing check of the constructor.
    pub open spec fn construction_refusal(initialized: bool, multisig: Seq<u8>, pauser: Seq<u8>)
        -> Option<BridgeError> {
        if initialized {
            Some(BridgeError::AlreadyInitialized)
        } else if !is_program_address(multisig) {
            Some(BridgeError::InvalidMultisig)
        } else if !is_account_address(pauser) {
            Some(BridgeError::InvalidPauser)
        } else {
            None
        }
    }

    /// Sets the router up once; it starts running.
    pub fn new(initialized: bool, this: Vec<u8>, multisig: Vec<u8>, pauser: Vec<u8>) -> (r: Result<
        RootAdapter,
        BridgeError,
    >)
        ensures
            match Self::construction_refusal(initialized, multisig@, pauser@) {
                Some(e) => r == Err::<RootAdapter, BridgeError>(e),
                None => r == Ok::<RootAdapter, BridgeError>(
                    RootAdapter { governance: Governance { this, multisig, pauser, paused: false } },
                ),
            },
    {
        if initialized {
            return Err(BridgeError::AlreadyInitialized);
        }
        if !validate_contract(multisig.as_slice()) {
            return Err(BridgeError::InvalidMultisig);
        }
        if !validate_address(pauser.as_slice()) {
            return Err(BridgeError::InvalidPauser);
        }
        Ok(RootAdapter { governance: Governance { this, multisig, pauser, paused: false } })
    }

    /// The first failing check of a routed call from `caller` (empty when no
    /// program called); `allowed` is its allow-list entry and `adapter` the
    /// adapter registered for the destination chain.
    pub open spec fn route_refusal(
        &self,
        caller: Seq<u8>,
        allowed: Option<bool>,
        adapter: Option<Vec<u8>>,
    ) -> Option<BridgeError> {
        if caller.len() == 0 {
            Some(BridgeError::CallerNotProgram)
        } else if allowed != Some(true) {
            Some(BridgeError::NotAllowed)
        } else if self.governance.paused {
            Some(BridgeError::Paused)
        } else if adapter is None {
            Some(BridgeError::NoAdapter)
        } else {
            None
        }
    }

    fn route(&self, caller: &[u8], allowed: Option<bool>, adapter: Option<Vec<u8>>, call: BridgeCall) -> (r:
        Result<AdapterCall, BridgeError>)
        ensures
            match self.route_refusal(caller@, allowed, adapter) {
                Some(e) => r == Err::<AdapterCall, BridgeError>(e),
                None => r == Ok::<AdapterCall, BridgeError>(
                    AdapterCall { adapter: adapter->0, call },
                ),
            },
    {
        if caller.len() == 0 {
            return Err(BridgeError::CallerNotProgram);
        }
        if allowed != Some(true) {
            return Err(BridgeError::NotAllowed);
        }
        if self.governance.paused {
            return Err(BridgeError::Paused);
        }
        match adapter {
            Some(adapter) => Ok(AdapterCall { adapter, call }),
            None => Err(BridgeError::NoAdapter),
        }
    }

    /// Forwards a release, unchanged, to the adapter of its chain.
    pub fn release_tokens(
        &self,
        caller: &[u8],
        allowed: Option<bool>,
        adapter: Option<Vec<u8>>,
        call: BridgeCall,
    ) -> (r: Result<AdapterCall, BridgeError>)
        ensures
            match self.route_refusal(caller@, allowed, adapter) {
                Some(e) => r == Err::<AdapterCall, BridgeError>(e),
                None => r == Ok::<AdapterCall, BridgeError>(
                    AdapterCall { adapter: adapter->0, call },
                ),
            },
    {
        self.route(caller, allowed, adapter, call)
    }

    /// Forwards a mint, unchanged, to the adapter of its chain.
    pub fn mint_tokens(
        &self,
        caller: &[u8],
        allowed: Option<bool>,
        adapter: Option<Vec<u8>>,
        call: BridgeCall,
    ) -> (r: Result<AdapterCall, BridgeError>)
        ensures
            match self.route_refusal(caller@, allowed, adapter) {
                Some(e) => r == Err::<AdapterCall, BridgeError>(e),
                None => r == Ok::<AdapterCall, BridgeError>(
                    AdapterCall { adapter: adapter->0, call },
                ),
            },
    {
        self.route(caller, allowed, adapter, call)
    }

    /// Checks the registration of `adapter` for `execution_chain_id`; on
    /// `Ok` it replaces any earlier one.
    pub fn set_adapter(confirmation: Option<bool>, execution_chain_id: i64, adapter: &[u8]) -> (r:
        Result<(), BridgeError>)
        ensures
            r is Ok <==> confirmed(confirmation) && execution_chain_id >= 0 && is_program_address(
                adapter@,
            ),
            !confirmed(confirmation) ==> r == Err::<(), BridgeError>(BridgeError::NotConfirmed),
            confirmed(confirmation) && execution_chain_id < 0 ==> r == Err::<(), BridgeError>(
                BridgeError::InvalidChainId,
            ),
            confirmed(confirmation) && execution_chain_id >= 0 && !is_program_address(adapter@)
                ==> r == Err::<(), BridgeError>(BridgeError::InvalidAdapter),
    {
        require_confirmation(confirmation)?;
        if execution_chain_id < 0 {
            return Err(BridgeError::InvalidChainId);
        }
        if !validate_contract(adapter) {
            return Err(BridgeError::InvalidAdapter);
        }
        Ok(())
    }

    /// Checks putting the program `caller` on the allow-list; on `Ok` its
    /// entry becomes `true`.
    pub fn allow(confirmation: Option<bool>, caller: &[u8]) -> (r: Result<(), BridgeError>)
        ensures
            r is Ok <==> confirmed(confirmation) && is_program_address(caller@),
            !confirmed(confirmation) ==> r == Err::<(), BridgeError>(BridgeError::NotConfirmed),
            confirmed(confirmation) && !is_program_address(caller@) ==> r == Err::<(), BridgeError>(
                BridgeError::InvalidCaller,
            ),
    {
        Self::check_allow_list_change(confirmation, caller)
    }

    /// Checks taking the program `caller` off the allow-list; on `Ok` its
    /// entry becomes `false`.
    pub fn disallow(confirmation: Option<bool>, caller: &[u8]) -> (r: Result<(), BridgeError>)
        ensures
            r is Ok <==> confirmed(confirmation) && is_program_address(caller@),
            !confirmed(confirmation) ==> r == Err::<(), BridgeError>(BridgeError::NotConfirmed),
            confirmed(confirmation) && !is_program_address(caller@) ==> r == Err::<(), BridgeError>(
                BridgeError::InvalidCaller,
            ),
    {
        Self::check_allow_list_change(confirmation, caller)
    }

    fn check_allow_list_change(confirmation: Option<bool>, caller: &[u8]) -> (r: Result<
        (),
        BridgeError,
    >)
        ensures
            r is Ok <==> confirmed(confirmation) && is_program_address(caller@),
            !confirmed(confirmation) ==> r == Err::<(), BridgeError>(BridgeError::NotConfirmed),
            confirmed(confirmation) && !is_program_address(caller@) ==> r == Err::<(), BridgeError>(
                BridgeError::InvalidCaller,
            ),
    {
        require_confirmation(confirmation)?;
        if !validate_contract(caller) {
            return Err(BridgeError::InvalidCaller);
        }
        Ok(())
    }
}

} // verus!
