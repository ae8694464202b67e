use vstd::prelude::*;
use crate::address::{
    bytes_equal,
    is_account_address,
    is_program_address,
    validate_address,
    validate_contract,
};
use crate::error::BridgeError;

verus! {

/// A privileged action may run only when the multisig program holds the
/// value `true` under this transaction's confirmation key.
pub open spec fn confirmed(confirmation: Option<bool>) -> bool {
    confirmation == Some(true)
}

/// The guard in front of every governance action. `confirmation` is what
/// the multisig program stores under `STATUS__{this}__{tx_id}`, `None` if
/// the key is absent.
pub fn require_confirmation(confirmation: Option<bool>) -> (r: Result<(), BridgeError>)
    ensures
        r is Ok <==> confirmed(confirmation),
        r is Err ==> r == Err::<(), BridgeError>(BridgeError::NotConfirmed),
{
    match confirmation {
        Some(true) => Ok(()),
        _ => Err(BridgeError::NotConfirmed),
    }
}

/// Identity, governance addresses and the pause flag that every program of
/// the bridge keeps. Addresses are raw bytes; `this` is the program's own
/// identifier, used in confirmation keys.
#[derive(Debug, Clone)]
pub struct Governance {
    pub this: Vec<u8>,
    pub multisig: Vec<u8>,
    pub pauser: Vec<u8>,
    pub paused: bool,
}

impl Governance {
    /// This configuration with the pause flag set to `p`.
    pub open spec fn with_paused(self, p: bool) -> Governance {
        Governance { this: self.this, multisig: self.multisig, pauser: self.pauser, paused: p }
    }

    /// The first failing check of `pause` by `sender`, called through the
    /// program `caller` (empty when called directly from a transaction).
    pub open spec fn pause_refusal(self, sender: Seq<u8>, caller: Seq<u8>) -> Option<BridgeError> {
        if caller.len() != 0 {
            Some(BridgeError::CallerNotAccount)
        } else if sender != self.pauser@ {
            Some(BridgeError::NotPauser)
        } else if self.paused {
            Some(BridgeError::AlreadyPaused)
        } else {
            None
        }
    }

    /// The first failing check of `unpause`.
    pub open spec fn unpause_refusal(self, sender: Seq<u8>, caller: Seq<u8>) -> Option<
        BridgeError,
    > {
        if caller.len() != 0 {
            Some(BridgeError::CallerNotAccount)
        } else if sender != self.pauser@ {
            Some(BridgeError::NotPauser)
        } else if !self.paused {
            Some(BridgeError::NotPaused)
        } else {
            None
        }
    }

    /// Sets the pause flag. Only the pauser, acting directly, may pause, and
    /// only a running program.
    pub fn pause(&mut self, sender: &[u8], caller: &[u8]) -> (r: Result<(), BridgeError>)
        ensures
            match old(self).pause_refusal(sender@, caller@) {
                Some(e) => r == Err::<(), BridgeError>(e) && *final(self) == *old(self),
                None => r is Ok && *final(self) == old(self).with_paused(true),
            },
    {
        if caller.len() != 0 {
            return Err(BridgeError::CallerNotAccount);
        }
        if !bytes_equal(sender, self.pauser.as_slice()) {
            return Err(BridgeError::NotPauser);
        }
        if self.paused {
            return Err(BridgeError::AlreadyPaused);
        }
        self.paused = true;
        Ok(())
    }

    /// Clears the pause flag. Only the pauser, acting directly, may unpause,
    /// and only a paused program.
    pub fn unpause(&mut self, sender: &[u8], caller: &[u8]) -> (r: Result<(), BridgeError>)
        ensures
            match old(self).unpause_refusal(sender@, caller@) {
                Some(e) => r == Err::<(), BridgeError>(e) && *final(self) == *old(self),
                None => r is Ok && *final(self) == old(self).with_paused(false),
            },
    {
        if caller.len() != 0 {
            return Err(BridgeError::CallerNotAccount);
        }
        if !bytes_equal(sender, self.pauser.as_slice()) {
            return Err(BridgeError::NotPauser);
        }
        if !self.paused {
            return Err(BridgeError::NotPaused);
        }
        self.paused = false;
        Ok(())
    }

    /// Replaces the pauser with the account `new_pauser`, on confirmation.
    pub fn update_pauser(&mut self, confirmation: Option<bool>, new_pauser: Vec<u8>) -> (r: Result<
        (),
        BridgeError,
    >)
        ensures
            r is Ok <==> confirmed(confirmation) && is_account_address(new_pauser@),
            !confirmed(confirmation) ==> r == Err::<(), BridgeError>(BridgeError::NotConfirmed),
            confirmed(confirmation) && !is_account_address(new_pauser@) ==> r == Err::<
                (),
                BridgeError,
            >(BridgeError::InvalidPauser),
            r is Ok ==> *final(self) == (Governance { pauser: new_pauser, ..*old(self) }),
            r is Err ==> *final(self) == *old(self),
    {
        require_confirmation(confirmation)?;
        if !validate_address(new_pauser.as_slice()) {
            return Err(BridgeError::InvalidPauser);
        }
        self.pauser = new_pauser;
        Ok(())
    }

    /// Replaces the multisig program with `new_multisig`, on confirmation by
    /// the current one.
    pub fn update_multisig(&mut self, confirmation: Option<bool>, new_multisig: Vec<u8>) -> (r:
        Result<(), BridgeError>)
        ensures
            r is Ok <==> confirmed(confirmation) && is_program_address(new_multisig@),
            !confirmed(confirmation) ==> r == Err::<(), BridgeError>(BridgeError::NotConfirmed),
            confirmed(confirmation) && !is_program_address(new_multisig@) ==> r == Err::<
                (),
                BridgeError,
            >(BridgeError::InvalidMultisig),
            r is Ok ==> *final(self) == (Governance { multisig: new_multisig, ..*old(self) }),
            r is Err ==> *final(self) == *old(self),
    {
        require_confirmation(confirmation)?;
        if !validate_contract(new_multisig.as_slice()) {
            return Err(BridgeError::InvalidMultisig);
        }
        self.multisig = new_multisig;
        Ok(())
    }
}

/// Pausing is a strict toggle: once `pause` has succeeded, the same call
/// fails until `unpause` succeeds, and `unpause` then restores the
/// configuration; symmetrically for `unpause`.
pub proof fn lemma_pause_is_strict_toggle(g: Governance, sender: Seq<u8>, caller: Seq<u8>)
    ensures
        g.pause_refusal(sender, caller) is None ==> g.with_paused(true).pause_refusal(sender, caller)
            == Some(BridgeError::AlreadyPaused),
        g.pause_refusal(sender, caller) is None ==> g.with_paused(true).unpause_refusal(
            sender,
            caller,
        ) is None && g.with_paused(true).with_paused(false) == g,
        g.unpause_refusal(sender, caller) is None ==> g.with_paused(false).unpause_refusal(
            sender,
            caller,
        ) == Some(BridgeError::NotPaused),
        g.unpause_refusal(sender, caller) is None ==> g.with_paused(false).pause_refusal(
            sender,
            caller,
        ) is None && g.with_paused(false).with_paused(true) == g,
{
}

} // verus!
