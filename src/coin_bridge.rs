use vstd::prelude::*;
use vstd::slice::slice_to_vec;
use crate::address::{
    bytes_equal,
    is_account_address,
    is_program_address,
    validate_address,
    validate_contract,
};
use crate::binding::{record_binding, well_formed_record, Binding};
use crate::calls::{BridgeCall, MintRequest, Payment, RecipientKind, Transfer};
use crate::decimals::{
    normalize_decimals,
    pow10,
    renormalizable,
    renormalize,
    BRIDGED_DECIMALS,
    NATIVE_DECIMALS,
};
use crate::error::BridgeError;
use crate::fees::{deposit_refusal, fee_for, quote_deposit, referrer_share, MAX_REFERRER_FEE};
use crate::governance::{confirmed, require_confirmation, Governance};
use crate::text::{fits_i64, parse_int, text_int};

verus! {

/// The referrer's share percentage that applies to a deposit: the stored one
/// for a named referrer, 0 when the referrer is empty or has none stored.
pub open spec fn referrer_percent_for(referrer: Seq<u8>, stored: Option<i64>) -> int {
    if referrer.len() == 0 {
        0
    } else {
        match stored {
            Some(p) => p as int,
            None => 0,
        }
    }
}

/// Custody and accounting for the native coin. `balance` is the principal
/// owed across destinations; `fee` is what was collected and not yet swept.
///
/// Referrer rebates are forwarded in the mint call and stay in custody:
/// a deposit adds `amount_to_send + referrer_fee` to `balance` and
/// `fee - referrer_fee` to `fee`.
#[derive(Debug, Clone)]
pub struct CoinBridge {
    pub governance: Governance,
    pub executor: Vec<u8>,
    pub root_adapter: Vec<u8>,
    pub caller_contract: Vec<u8>,
    pub fee_recipient: Vec<u8>,
    pub fee_chain: i64,
    pub balance: i64,
    pub fee: i64,
}

impl CoinBridge {
    /// Neither account has gone negative.
    pub open spec fn accounts_nonnegative(&self) -> bool {
        self.balance >= 0 && self.fee >= 0
    }

    /// The first failing check of the constructor.
    pub open spec fn construction_refusal(
        initialized: bool,
        multisig: Seq<u8>,
        executor: Seq<u8>,
        adapter: Seq<u8>,
        pauser: Seq<u8>,
        fee_recipient: Seq<u8>,
        fee_chain_id: int,
        caller_contract: Seq<u8>,
    ) -> Option<BridgeError> {
        if initialized {
            Some(BridgeError::AlreadyInitialized)
        } else if !is_program_address(multisig) {
            Some(BridgeError::InvalidMultisig)
        } else if !is_program_address(executor) {
            Some(BridgeError::InvalidExecutor)
        } else if !is_program_address(adapter) {
            Some(BridgeError::InvalidAdapter)
        } else if !is_account_address(pauser) {
            Some(BridgeError::InvalidPauser)
        } else if fee_recipient.len() == 0 {
            Some(BridgeError::InvalidFeeRecipient)
        } else if fee_chain_id <= 0 {
            Some(BridgeError::InvalidFeeChain)
        } else if caller_contract.len() == 0 {
            Some(BridgeError::InvalidCallerContract)
        } else {
            None
        }
    }

    /// Sets the bridge up once: `initialized` tells whether that already
    /// happened, `this` is the program's own identifier. The bridge starts
    /// running, with nothing in custody and no fee collected.
    pub fn new(
        initialized: bool,
        this: Vec<u8>,
        multisig: Vec<u8>,
        executor: Vec<u8>,
        adapter: Vec<u8>,
        pauser: Vec<u8>,
        fee_recipient: Vec<u8>,
        fee_chain_id: i64,
        caller_contract: Vec<u8>,
    ) -> (r: Result<CoinBridge, BridgeError>)
        ensures
            match Self::construction_refusal(
                initialized,
                multisig@,
                executor@,
                adapter@,
                pauser@,
                fee_recipient@,
                fee_chain_id as int,
                caller_contract@,
            ) {
                Some(e) => r == Err::<CoinBridge, BridgeError>(e),
                None => r == Ok::<CoinBridge, BridgeError>(
                    CoinBridge {
                        governance: Governance { this, multisig, pauser, paused: false },
                        executor,
                        root_adapter: adapter,
                        caller_contract,
                        fee_recipient,
                        fee_chain: fee_chain_id,
                        balance: 0,
                        fee: 0,
                    },
                ),
            },
            r matches Ok(b) ==> b.accounts_nonnegative(),
    {
        if initialized {
            return Err(BridgeError::AlreadyInitialized);
        }
        if !validate_contract(multisig.as_slice()) {
            return Err(BridgeError::InvalidMultisig);
        }
        if !validate_contract(executor.as_slice()) {
            return Err(BridgeError::InvalidExecutor);
        }
        if !validate_contract(adapter.as_slice()) {
            return Err(BridgeError::InvalidAdapter);
        }
        if !validate_address(pauser.as_slice()) {
            return Err(BridgeError::InvalidPauser);
        }
        if fee_recipient.len() == 0 {
            return Err(BridgeError::InvalidFeeRecipient);
        }
        if fee_chain_id <= 0 {
            return Err(BridgeError::InvalidFeeChain);
        }
        if caller_contract.len() == 0 {
            return Err(BridgeError::InvalidCallerContract);
        }
        Ok(
            CoinBridge {
                governance: Governance { this, multisig, pauser, paused: false },
                executor,
                root_adapter: adapter,
                caller_contract,
                fee_recipient,
                fee_chain: fee_chain_id,
                balance: 0,
                fee: 0,
            },
        )
    }

    /// The first failing check of a deposit. `chain_enabled` and `record`
    /// are what storage holds for the destination chain; `stored_percent`
    /// is the referrer's stored share.
    pub open spec fn lock_refusal(
        &self,
        recipient: Seq<u8>,
        referrer: Seq<u8>,
        gasless_reward: int,
        payments: Seq<Payment>,
        chain_enabled: Option<bool>,
        record: Option<Vec<u8>>,
        stored_percent: Option<i64>,
    ) -> Option<BridgeError> {
        if recipient.len() == 0 {
            Some(BridgeError::InvalidRecipient)
        } else if gasless_reward < 0 {
            Some(BridgeError::InvalidGaslessReward)
        } else if self.governance.paused {
            Some(BridgeError::Paused)
        } else if chain_enabled != Some(true) {
            Some(BridgeError::ChainDisabled)
        } else if payments.len() != 1 {
            Some(BridgeError::NoPayment)
        } else if payments[0].asset_id@.len() != 0 {
            Some(BridgeError::PaymentNotNative)
        } else if payments[0].amount <= 0 {
            Some(BridgeError::InvalidAmount)
        } else if record is None {
            Some(BridgeError::NoBinding)
        } else if !well_formed_record(record->0@) {
            Some(BridgeError::MalformedBinding)
        } else {
            let b = record_binding(record->0@);
            let amount = payments[0].amount as int;
            let percent = referrer_percent_for(referrer, stored_percent);
            match deposit_refusal(b, amount, gasless_reward, percent) {
                Some(e) => Some(e),
                None => {
                    let fee = fee_for(b, amount);
                    let referrer_fee = referrer_share(percent, fee);
                    if !fits_i64(self.balance + (amount - fee) + referrer_fee) {
                        Some(BridgeError::Overflow)
                    } else if !fits_i64(self.fee + fee - referrer_fee) {
                        Some(BridgeError::Overflow)
                    } else {
                        None
                    }
                },
            }
        }
    }

    /// An accepted deposit: `m` mints the renormalized net amount, gasless
    /// reward and referrer fee on the destination, and the accounts of
    /// `after` grow by the net amount plus the referrer fee, and by the fee
    /// less the referrer fee.
    pub open spec fn lock_effect(
        &self,
        after: &CoinBridge,
        m: &MintRequest,
        execution_chain_id: i64,
        recipient: Seq<u8>,
        referrer: Seq<u8>,
        gasless_reward: int,
        payments: Seq<Payment>,
        record: Option<Vec<u8>>,
        stored_percent: Option<i64>,
    ) -> bool {
        let b = record_binding(record->0@);
        let amount = payments[0].amount as int;
        let percent = referrer_percent_for(referrer, stored_percent);
        let fee = fee_for(b, amount);
        let referrer_fee = referrer_share(percent, fee);
        let amount_to_send = amount - fee;
        &&& m.root_adapter@ == self.root_adapter@
        &&& m.call.execution_chain_id == execution_chain_id
        &&& m.call.execution_asset@ == b.execution_asset
        &&& m.call.amount == renormalize(
            amount_to_send,
            NATIVE_DECIMALS as int,
            BRIDGED_DECIMALS as int,
        )
        &&& m.call.recipient@ == recipient
        &&& m.call.gasless_reward == renormalize(
            gasless_reward,
            NATIVE_DECIMALS as int,
            BRIDGED_DECIMALS as int,
        )
        &&& m.call.referrer@ == referrer
        &&& m.call.referrer_fee == renormalize(
            referrer_fee,
            NATIVE_DECIMALS as int,
            BRIDGED_DECIMALS as int,
        )
        &&& *after == (CoinBridge {
            balance: (self.balance + amount_to_send + referrer_fee) as i64,
            fee: (self.fee + fee - referrer_fee) as i64,
            ..*self
        })
    }

    /// Locks the single native payment of the transaction and asks the root
    /// adapter to mint its net value on `execution_chain_id`. The fee is
    /// taken from the amount before any renormalization.
    pub fn lock_tokens(
        &mut self,
        execution_chain_id: i64,
        recipient: Vec<u8>,
        referrer: Vec<u8>,
        gasless_reward: i64,
        payments: &[Payment],
        chain_enabled: Option<bool>,
        binding_record: Option<Vec<u8>>,
        stored_percent: Option<i64>,
    ) -> (r: Result<MintRequest, BridgeError>)
        ensures
            match old(self).lock_refusal(
                recipient@,
                referrer@,
                gasless_reward as int,
                payments@,
                chain_enabled,
                binding_record,
                stored_percent,
            ) {
                Some(e) => r == Err::<MintRequest, BridgeError>(e) && *final(self) == *old(self),
                None => r matches Ok(m) && old(self).lock_effect(
                    final(self),
                    &m,
                    execution_chain_id,
                    recipient@,
                    referrer@,
                    gasless_reward as int,
                    payments@,
                    binding_record,
                    stored_percent,
                ),
            },
            old(self).accounts_nonnegative() ==> final(self).accounts_nonnegative(),
    {
        if recipient.len() == 0 {
            return Err(BridgeError::InvalidRecipient);
        }
        if gasless_reward < 0 {
            return Err(BridgeError::InvalidGaslessReward);
        }
        if self.governance.paused {
            return Err(BridgeError::Paused);
        }
        if chain_enabled != Some(true) {
            return Err(BridgeError::ChainDisabled);
        }
        if payments.len() != 1 {
            return Err(BridgeError::NoPayment);
        }
        if payments[0].asset_id.len() != 0 {
            return Err(BridgeError::PaymentNotNative);
        }
        let amount = payments[0].amount;
        if amount <= 0 {
            return Err(BridgeError::InvalidAmount);
        }
        let raw = match binding_record {
            Some(raw) => raw,
            None => return Err(BridgeError::NoBinding),
        };
        let binding = match Binding::decode(raw.as_slice()) {
            Some(b) => b,
            None => return Err(BridgeError::MalformedBinding),
        };
        let percent: i64 = if referrer.len() == 0 {
            0
        } else {
            match stored_percent {
                Some(p) => p,
                None => 0,
            }
        };
        let quote = match quote_deposit(&binding, amount, gasless_reward, percent) {
            Ok(q) => q,
            Err(e) => return Err(e),
        };
        let new_balance: i128 = self.balance as i128 + quote.amount_to_send as i128
            + quote.referrer_fee as i128;
        if new_balance < i64::MIN as i128 || new_balance > i64::MAX as i128 {
            return Err(BridgeError::Overflow);
        }
        let new_fee: i128 = self.fee as i128 + quote.fee as i128 - quote.referrer_fee as i128;
        if new_fee < i64::MIN as i128 || new_fee > i64::MAX as i128 {
            return Err(BridgeError::Overflow);
        }
        proof {
            reveal_with_fuel(pow10, 3);
            assert(renormalizable(NATIVE_DECIMALS as int, BRIDGED_DECIMALS as int));
        }
        let amount_out = match normalize_decimals(
            quote.amount_to_send,
            NATIVE_DECIMALS,
            BRIDGED_DECIMALS,
        ) {
            Some(v) => v,
            None => return Err(BridgeError::Overflow),
        };
        let gasless_out = match normalize_decimals(
            gasless_reward,
            NATIVE_DECIMALS,
            BRIDGED_DECIMALS,
        ) {
            Some(v) => v,
            None => return Err(BridgeError::Overflow),
        };
        let referrer_fee_out = match normalize_decimals(
            quote.referrer_fee,
            NATIVE_DECIMALS,
            BRIDGED_DECIMALS,
        ) {
            Some(v) => v,
            None => return Err(BridgeError::Overflow),
        };
        self.balance = new_balance as i64;
        self.fee = new_fee as i64;
        Ok(
            MintRequest {
                root_adapter: self.root_adapter.clone(),
                call: BridgeCall {
                    execution_chain_id,
                    execution_asset: binding.execution_asset,
                    amount: amount_out,
                    recipient,
                    gasless_reward: gasless_out,
                    referrer,
                    referrer_fee: referrer_fee_out,
                },
            },
        )
    }

    /// The first failing check of a release. `amount` and `gasless_reward`
    /// are decimal texts in bridged precision; `recipient`, `sender` and
    /// `caller` are raw addresses, `caller` empty when no program called.
    pub open spec fn release_refusal(
        &self,
        caller_contract: Seq<u8>,
        recipient: Seq<u8>,
        amount: Seq<u8>,
        gasless_reward: Seq<u8>,
        caller: Seq<u8>,
    ) -> Option<BridgeError> {
        let a = text_int(amount);
        let g = text_int(gasless_reward);
        if !(a is Some && fits_i64(a->0)) {
            Some(BridgeError::InvalidAmount)
        } else if !(g is Some && fits_i64(g->0)) {
            Some(BridgeError::InvalidGaslessReward)
        } else if self.governance.paused {
            Some(BridgeError::Paused)
        } else if caller.len() == 0 {
            Some(BridgeError::CallerNotProgram)
        } else if caller != self.executor@ {
            Some(BridgeError::NotExecutor)
        } else if caller_contract != self.caller_contract@ {
            Some(BridgeError::CallerContractMismatch)
        } else if !(is_account_address(recipient) || is_program_address(recipient)) {
            Some(BridgeError::InvalidRecipient)
        } else if a->0 <= 0 {
            Some(BridgeError::InvalidAmount)
        } else if g->0 < 0 || g->0 > a->0 {
            Some(BridgeError::InvalidGaslessReward)
        } else if !fits_i64(
            renormalize(a->0, BRIDGED_DECIMALS as int, NATIVE_DECIMALS as int),
        ) {
            Some(BridgeError::Overflow)
        } else if self.balance < renormalize(
            a->0,
            BRIDGED_DECIMALS as int,
            NATIVE_DECIMALS as int,
        ) {
            Some(BridgeError::InsufficientBalance)
        } else {
            None
        }
    }

    /// The payout of an accepted release, in native precision: one transfer
    /// of the whole amount to the recipient, or, when a non-zero gasless
    /// reward is due to a sender other than the recipient, the amount less
    /// the reward to the recipient and the reward to the sender.
    pub open spec fn release_transfers_ok(
        t: Seq<Transfer>,
        recipient: Seq<u8>,
        sender: Seq<u8>,
        amount: int,
        gasless: int,
    ) -> bool {
        let kind = if is_account_address(recipient) {
            RecipientKind::Account
        } else {
            RecipientKind::Program
        };
        if gasless > 0 && recipient != sender {
            &&& t.len() == 2
            &&& t[0].kind == kind
            &&& t[0].recipient@ == recipient
            &&& t[0].amount == amount - gasless
            &&& t[1].kind == RecipientKind::Account
            &&& t[1].recipient@ == sender
            &&& t[1].amount == gasless
        } else {
            &&& t.len() == 1
            &&& t[0].kind == kind
            &&& t[0].recipient@ == recipient
            &&& t[0].amount == amount
        }
    }

    /// Pays out a release that the executor relayed from another chain, and
    /// takes the amount out of custody. A release larger than the custody
    /// balance is refused.
    pub fn release_tokens(
        &mut self,
        caller_contract: &[u8],
        recipient: &[u8],
        amount: &[u8],
        gasless_reward: &[u8],
        sender: &[u8],
        caller: &[u8],
    ) -> (r: Result<Vec<Transfer>, BridgeError>)
        ensures
            match old(self).release_refusal(
                caller_contract@,
                recipient@,
                amount@,
                gasless_reward@,
                caller@,
            ) {
                Some(e) => r == Err::<Vec<Transfer>, BridgeError>(e) && *final(self) == *old(self),
                None => {
                    let a = renormalize(
                        text_int(amount@)->0,
                        BRIDGED_DECIMALS as int,
                        NATIVE_DECIMALS as int,
                    );
                    let g = renormalize(
                        text_int(gasless_reward@)->0,
                        BRIDGED_DECIMALS as int,
                        NATIVE_DECIMALS as int,
                    );
                    &&& r matches Ok(t) && Self::release_transfers_ok(
                        t@,
                        recipient@,
                        sender@,
                        a,
                        g,
                    )
                    &&& *final(self) == (CoinBridge { balance: (old(self).balance - a) as i64, ..*old(self) })
                },
            },
            old(self).accounts_nonnegative() ==> final(self).accounts_nonnegative(),
    {
        let amount = match parse_int(amount) {
            Some(v) => v,
            None => return Err(BridgeError::InvalidAmount),
        };
        let gasless_reward = match parse_int(gasless_reward) {
            Some(v) => v,
            None => return Err(BridgeError::InvalidGaslessReward),
        };
        if self.governance.paused {
            return Err(BridgeError::Paused);
        }
        if caller.len() == 0 {
            return Err(BridgeError::CallerNotProgram);
        }
        if !bytes_equal(caller, self.executor.as_slice()) {
            return Err(BridgeError::NotExecutor);
        }
        if !bytes_equal(caller_contract, self.caller_contract.as_slice()) {
            return Err(BridgeError::CallerContractMismatch);
        }
        let to_account = validate_address(recipient);
        if !to_account && !validate_contract(recipient) {
            return Err(BridgeError::InvalidRecipient);
        }
        if amount <= 0 {
            return Err(BridgeError::InvalidAmount);
        }
        if gasless_reward < 0 || gasless_reward > amount {
            return Err(BridgeError::InvalidGaslessReward);
        }
        proof {
            reveal_with_fuel(pow10, 3);
            assert(renormalizable(BRIDGED_DECIMALS as int, NATIVE_DECIMALS as int));
        }
        let amount_out = match normalize_decimals(amount, BRIDGED_DECIMALS, NATIVE_DECIMALS) {
            Some(v) => v,
            None => return Err(BridgeError::Overflow),
        };
        assert(0 <= gasless_reward as int * 100 <= amount as int * 100) by (nonlinear_arith)
            requires
                0 <= gasless_reward <= amount,
        ;
        let gasless_out = match normalize_decimals(
            gasless_reward,
            BRIDGED_DECIMALS,
            NATIVE_DECIMALS,
        ) {
            Some(v) => v,
            None => return Err(BridgeError::Overflow),
        };
        if self.balance < amount_out {
            return Err(BridgeError::InsufficientBalance);
        }
        let kind = if to_account {
            RecipientKind::Account
        } else {
            RecipientKind::Program
        };
        let mut transfers: Vec<Transfer> = Vec::new();
        if gasless_out > 0 && !bytes_equal(recipient, sender) {
            transfers.push(
                Transfer { kind, recipient: slice_to_vec(recipient), amount: amount_out - gasless_out },
            );
            transfers.push(
                Transfer {
                    kind: RecipientKind::Account,
                    recipient: slice_to_vec(sender),
                    amount: gasless_out,
                },
            );
        } else {
            transfers.push(Transfer { kind, recipient: slice_to_vec(recipient), amount: amount_out });
        }
        self.balance = self.balance - amount_out;
        Ok(transfers)
    }

    /// The first failing check of a fee sweep.
    pub open spec fn sweep_refusal(&self, chain_enabled: Option<bool>, record: Option<Vec<u8>>)
        -> Option<BridgeError> {
        if self.governance.paused {
            Some(BridgeError::Paused)
        } else if chain_enabled != Some(true) {
            Some(BridgeError::ChainDisabled)
        } else if record is None {
            Some(BridgeError::NoBinding)
        } else if !well_formed_record(record->0@) {
            Some(BridgeError::MalformedBinding)
        } else if !record_binding(record->0@).valid() {
            Some(BridgeError::InvalidBinding)
        } else if self.fee < record_binding(record->0@).min_amount {
            Some(BridgeError::BelowMinimum)
        } else if !record_binding(record->0@).enabled {
            Some(BridgeError::BindingDisabled)
        } else if !fits_i64(self.balance + self.fee) {
            Some(BridgeError::Overflow)
        } else {
            None
        }
    }

    /// Sends the collected fee to the fee recipient on the fee chain, through
    /// the root adapter, with no gasless reward and no referrer. The fee
    /// account is emptied into custody. `chain_enabled` and `record` are
    /// what storage holds for the fee chain.
    pub fn transfer_fee(&mut self, chain_enabled: Option<bool>, binding_record: Option<Vec<u8>>) -> (r:
        Result<MintRequest, BridgeError>)
        ensures
            match old(self).sweep_refusal(chain_enabled, binding_record) {
                Some(e) => r == Err::<MintRequest, BridgeError>(e) && *final(self) == *old(self),
                None => {
                    &&& r matches Ok(m) && m.root_adapter@ == old(self).root_adapter@
                        && m.call.execution_chain_id == old(self).fee_chain
                        && m.call.execution_asset@ == record_binding(
                        binding_record->0@,
                    ).execution_asset && m.call.amount == renormalize(
                        old(self).fee as int,
                        NATIVE_DECIMALS as int,
                        BRIDGED_DECIMALS as int,
                    ) && m.call.recipient@ == old(self).fee_recipient@ && m.call.gasless_reward == 0
                        && m.call.referrer@.len() == 0 && m.call.referrer_fee == 0
                    &&& *final(self) == (CoinBridge {
                        balance: (old(self).balance + old(self).fee) as i64,
                        fee: 0,
                        ..*old(self)
                    })
                },
            },
            old(self).accounts_nonnegative() ==> final(self).accounts_nonnegative(),
    {
        if self.governance.paused {
            return Err(BridgeError::Paused);
        }
        if chain_enabled != Some(true) {
            return Err(BridgeError::ChainDisabled);
        }
        let raw = match binding_record {
            Some(raw) => raw,
            None => return Err(BridgeError::NoBinding),
        };
        let binding = match Binding::decode(raw.as_slice()) {
            Some(b) => b,
            None => return Err(BridgeError::MalformedBinding),
        };
        if !binding.is_valid() {
            return Err(BridgeError::InvalidBinding);
        }
        if self.fee < binding.min_amount {
            return Err(BridgeError::BelowMinimum);
        }
        if !binding.enabled {
            return Err(BridgeError::BindingDisabled);
        }
        let new_balance: i128 = self.balance as i128 + self.fee as i128;
        if new_balance < i64::MIN as i128 || new_balance > i64::MAX as i128 {
            return Err(BridgeError::Overflow);
        }
        proof {
            reveal_with_fuel(pow10, 3);
            assert(renormalizable(NATIVE_DECIMALS as int, BRIDGED_DECIMALS as int));
        }
        let amount_out = match normalize_decimals(self.fee, NATIVE_DECIMALS, BRIDGED_DECIMALS) {
            Some(v) => v,
            None => return Err(BridgeError::Overflow),
        };
        self.balance = new_balance as i64;
        self.fee = 0;
        Ok(
            MintRequest {
                root_adapter: self.root_adapter.clone(),
                call: BridgeCall {
                    execution_chain_id: self.fee_chain,
                    execution_asset: binding.execution_asset,
                    amount: amount_out,
                    recipient: self.fee_recipient.clone(),
                    gasless_reward: 0,
                    referrer: Vec::new(),
                    referrer_fee: 0,
                },
            },
        )
    }

    /// Replaces the tag that releases must present, on confirmation.
    pub fn update_caller_contract(&mut self, confirmation: Option<bool>, caller_contract: Vec<u8>) -> (r:
        Result<(), BridgeError>)
        ensures
            r is Ok <==> confirmed(confirmation) && caller_contract@.len() > 0,
            !confirmed(confirmation) ==> r == Err::<(), BridgeError>(BridgeError::NotConfirmed),
            confirmed(confirmation) && caller_contract@.len() == 0 ==> r == Err::<(), BridgeError>(
                BridgeError::InvalidCallerContract,
            ),
            r is Ok ==> *final(self) == (CoinBridge { caller_contract, ..*old(self) }),
            r is Err ==> *final(self) == *old(self),
    {
        require_confirmation(confirmation)?;
        if caller_contract.len() == 0 {
            return Err(BridgeError::InvalidCallerContract);
        }
        self.caller_contract = caller_contract;
        Ok(())
    }

    /// Replaces the fee recipient, on confirmation.
    pub fn update_fee_recipient(&mut self, confirmation: Option<bool>, fee_recipient: Vec<u8>) -> (r:
        Result<(), BridgeError>)
        ensures
            r is Ok <==> confirmed(confirmation) && fee_recipient@.len() > 0,
            !confirmed(confirmation) ==> r == Err::<(), BridgeError>(BridgeError::NotConfirmed),
            confirmed(confirmation) && fee_recipient@.len() == 0 ==> r == Err::<(), BridgeError>(
                BridgeError::InvalidFeeRecipient,
            ),
            r is Ok ==> *final(self) == (CoinBridge { fee_recipient, ..*old(self) }),
            r is Err ==> *final(self) == *old(self),
    {
        require_confirmation(confirmation)?;
        if fee_recipient.len() == 0 {
            return Err(BridgeError::InvalidFeeRecipient);
        }
        self.fee_recipient = fee_recipient;
        Ok(())
    }

    /// Replaces the chain that fees are swept to, on confirmation.
    pub fn update_fee_chain(&mut self, confirmation: Option<bool>, fee_chain: i64) -> (r: Result<
        (),
        BridgeError,
    >)
        ensures
            r is Ok <==> confirmed(confirmation) && fee_chain > 0,
            !confirmed(confirmation) ==> r == Err::<(), BridgeError>(BridgeError::NotConfirmed),
            confirmed(confirmation) && fee_chain <= 0 ==> r == Err::<(), BridgeError>(
                BridgeError::InvalidFeeChain,
            ),
            r is Ok ==> *final(self) == (CoinBridge { fee_chain, ..*old(self) }),
            r is Err ==> *final(self) == *old(self),
    {
        require_confirmation(confirmation)?;
        if fee_chain <= 0 {
            return Err(BridgeError::InvalidFeeChain);
        }
        self.fee_chain = fee_chain;
        Ok(())
    }

    /// Checks a change of the enablement of `execution_chain_id`; on `Ok`
    /// the flag `enabled` is stored for that chain.
    pub fn update_execution_chain(
        confirmation: Option<bool>,
        execution_chain_id: i64,
        enabled: bool,
    ) -> (r: Result<(), BridgeError>)
        ensures
            r is Ok <==> confirmed(confirmation) && execution_chain_id >= 0,
            !confirmed(confirmation) ==> r == Err::<(), BridgeError>(BridgeError::NotConfirmed),
            confirmed(confirmation) && execution_chain_id < 0 ==> r == Err::<(), BridgeError>(
                BridgeError::InvalidChainId,
            ),
    {
        require_confirmation(confirmation)?;
        if execution_chain_id < 0 {
            return Err(BridgeError::InvalidChainId);
        }
        Ok(())
    }

    /// Checks a change of a referrer's share of fees on a chain;
    /// `chain_enabled` is the stored flag of that chain. On `Ok` the share
    /// `fee` is stored for the pair.
    pub fn update_referrer(
        confirmation: Option<bool>,
        chain_enabled: Option<bool>,
        referrer: &[u8],
        fee: i64,
    ) -> (r: Result<(), BridgeError>)
        ensures
            r is Ok <==> confirmed(confirmation) && chain_enabled == Some(true) && referrer@.len()
                > 0 && 0 <= fee <= MAX_REFERRER_FEE,
            !confirmed(confirmation) ==> r == Err::<(), BridgeError>(BridgeError::NotConfirmed),
            confirmed(confirmation) && chain_enabled != Some(true) ==> r == Err::<(), BridgeError>(
                BridgeError::ChainDisabled,
            ),
            confirmed(confirmation) && chain_enabled == Some(true) && referrer@.len() == 0 ==> r
                == Err::<(), BridgeError>(BridgeError::InvalidReferrer),
            confirmed(confirmation) && chain_enabled == Some(true) && referrer@.len() > 0 && !(0
                <= fee <= MAX_REFERRER_FEE) ==> r == Err::<(), BridgeError>(
                BridgeError::InvalidReferrerFee,
            ),
    {
        require_confirmation(confirmation)?;
        if chain_enabled != Some(true) {
            return Err(BridgeError::ChainDisabled);
        }
        if referrer.len() == 0 {
            return Err(BridgeError::InvalidReferrer);
        }
        if fee < 0 || fee > MAX_REFERRER_FEE {
            return Err(BridgeError::InvalidReferrerFee);
        }
        Ok(())
    }

    /// Checks a new binding for `execution_chain_id` and returns the record
    /// text to store for it.
    pub fn update_binding_info(
        confirmation: Option<bool>,
        execution_chain_id: i64,
        binding: &Binding,
    ) -> (r: Result<Vec<u8>, BridgeError>)
        ensures
            r is Ok <==> confirmed(confirmation) && execution_chain_id >= 0 && binding@.valid(),
            !confirmed(confirmation) ==> r == Err::<Vec<u8>, BridgeError>(BridgeError::NotConfirmed),
            confirmed(confirmation) && execution_chain_id < 0 ==> r == Err::<Vec<u8>, BridgeError>(
                BridgeError::InvalidChainId,
            ),
            confirmed(confirmation) && execution_chain_id >= 0 && binding.execution_asset@.len()
                == 0 ==> r == Err::<Vec<u8>, BridgeError>(BridgeError::InvalidExecutionAsset),
            confirmed(confirmation) && execution_chain_id >= 0 && binding.execution_asset@.len()
                > 0 && !binding@.valid() ==> r == Err::<Vec<u8>, BridgeError>(
                BridgeError::InvalidBindingParameter,
            ),
            r matches Ok(record) ==> record@ == binding@.encoded(),
    {
        require_confirmation(confirmation)?;
        if execution_chain_id < 0 {
            return Err(BridgeError::InvalidChainId);
        }
        if binding.execution_asset.len() == 0 {
            return Err(BridgeError::InvalidExecutionAsset);
        }
        if !binding.is_valid() {
            return Err(BridgeError::InvalidBindingParameter);
        }
        Ok(binding.encode())
    }
}

} // verus!
