//! The three operations on a vault: deposit, withdraw and balance query.
//! Each derives the vault address of the caller again before anything else,
//! and checks every condition before the ledger is touched.

use vstd::prelude::*;
use crate::balances::amount_of;
use crate::ledger::{HostError, Ledger, LedgerState};
use crate::resolver::{
    claimed_discriminant, is_vault_of, ownership, resolve, vault_label, Capability, Identity,
    VaultAddress, VAULT_LABEL,
};

verus! {

/// Why an operation failed.
#[derive(Clone, Copy, Debug, PartialEq, Eq, Structural)]
pub enum ErrorCode {
    /// The vault presented is not the vault of the identity.
    AddressMismatch,
    /// The account to debit holds less than the amount.
    InsufficientFunds,
    /// The vault cannot hold that much.
    Overflow,
    /// The vault was never allocated.
    VaultNotFound,
    /// An amount of zero moves nothing.
    ZeroAmount,
    /// The ledger refused, for the reason it gives.
    HostFailure(HostError),
}

/// The accounts of a deposit: who pays, and the vault paid into.
#[derive(Clone, Copy, Debug, PartialEq, Eq)]
pub struct Deposit {
    pub user: Identity,
    pub user_vault: VaultAddress,
}

/// The accounts of a withdrawal: who is paid, and the vault paid from.
#[derive(Clone, Copy, Debug, PartialEq, Eq)]
pub struct Withdraw {
    pub user: Identity,
    pub user_vault: VaultAddress,
}

/// The accounts of a balance query: who asks, and the vault asked about.
#[derive(Clone, Copy, Debug, PartialEq, Eq)]
pub struct GetBalance {
    pub user: Identity,
    pub user_vault: VaultAddress,
}

/// How a refusal of the ledger reads as the failure of an operation.
pub open spec fn host_failure(error: HostError) -> ErrorCode {
    match error {
        HostError::InsufficientFunds => ErrorCode::InsufficientFunds,
        _ => ErrorCode::HostFailure(error),
    }
}

/// Whether a deposit of `amount` may go to the ledger. `owner` is the
/// discriminant under which the vault derives from the user, `None` where it
/// does not; `held` is what the vault holds, `None` while it is not allocated.
pub open spec fn deposit_check(owner: Option<u8>, held: Option<u64>, amount: u64) -> Result<(), ErrorCode> {
    if owner is None {
        Err(ErrorCode::AddressMismatch)
    } else if amount == 0 {
        Err(ErrorCode::ZeroAmount)
    } else if held is Some && held->0 + amount > u64::MAX {
        Err(ErrorCode::Overflow)
    } else {
        Ok(())
    }
}

/// Whether a withdrawal of `amount` may go to the ledger, and under which
/// discriminant. `owner` is the discriminant under which the vault derives
/// from the user, `None` where it does not; `held` is what the vault holds,
/// `None` while it is not allocated.
pub open spec fn withdraw_check(owner: Option<u8>, held: Option<u64>, amount: u64) -> Result<u8, ErrorCode> {
    match owner {
        None => Err(ErrorCode::AddressMismatch),
        Some(discriminant) => if amount == 0 {
            Err(ErrorCode::ZeroAmount)
        } else {
            match held {
                None => Err(ErrorCode::VaultNotFound),
                Some(balance) => if balance < amount {
                    Err(ErrorCode::InsufficientFunds)
                } else {
                    Ok(discriminant)
                },
            }
        },
    }
}

/// The answer to a balance query. `owner` is the discriminant under which
/// the vault derives from the user, `None` where it does not; `held` is what
/// the vault holds, `None` while it is not allocated.
pub open spec fn balance_check(owner: Option<u8>, held: Option<u64>) -> Result<u64, ErrorCode> {
    if owner is None {
        Err(ErrorCode::AddressMismatch)
    } else {
        match held {
            None => Err(ErrorCode::VaultNotFound),
            Some(balance) => Ok(balance),
        }
    }
}

/// The discriminant under which the vault of a request derives from its
/// user; `None` where the vault is not the vault of the user.
pub open spec fn owner_of(user_vault: VaultAddress, user: Identity) -> Option<u8> {
    ownership(user_vault@, user@, VAULT_LABEL@)
}

/// The outcome of a deposit on the ledger `state`.
pub open spec fn deposit_outcome(state: LedgerState, ctx: Deposit, amount: u64) -> Result<(), ErrorCode> {
    match deposit_check(owner_of(ctx.user_vault, ctx.user), state.vault_balance(ctx.user_vault@), amount) {
        Err(error) => Err(error),
        Ok(_) => if state.external_balance(ctx.user@) < amount {
            Err(ErrorCode::InsufficientFunds)
        } else {
            Ok(())
        },
    }
}

/// The ledger after a deposit: the amount has moved where the deposit
/// succeeds, and nothing has changed where it fails.
pub open spec fn after_deposit(state: LedgerState, ctx: Deposit, amount: u64) -> LedgerState {
    if deposit_outcome(state, ctx, amount) is Ok {
        state.paid_in(ctx.user@, ctx.user_vault@, amount)
    } else {
        state
    }
}

/// The outcome of a withdrawal on the ledger `state`.
pub open spec fn withdraw_outcome(state: LedgerState, ctx: Withdraw, amount: u64) -> Result<(), ErrorCode> {
    match withdraw_check(owner_of(ctx.user_vault, ctx.user), state.vault_balance(ctx.user_vault@), amount) {
        Err(error) => Err(error),
        Ok(_) => Ok(()),
    }
}

/// The ledger after a withdrawal: the amount has moved where the withdrawal
/// succeeds, and nothing has changed where it fails.
pub open spec fn after_withdraw(state: LedgerState, ctx: Withdraw, amount: u64) -> LedgerState {
    if withdraw_outcome(state, ctx, amount) is Ok {
        state.paid_out(ctx.user_vault@, ctx.user@, amount)
    } else {
        state
    }
}

/// The outcome of a balance query on the ledger `state`.
pub open spec fn balance_outcome(state: LedgerState, ctx: GetBalance) -> Result<u64, ErrorCode> {
    balance_check(owner_of(ctx.user_vault, ctx.user), state.vault_balance(ctx.user_vault@))
}

/// Reads a refusal of the ledger as the failure of an operation.
pub fn from_host(error: HostError) -> (r: ErrorCode)
    ensures
        r == host_failure(error),
{
    match error {
        HostError::InsufficientFunds => ErrorCode::InsufficientFunds,
        other => ErrorCode::HostFailure(other),
    }
}

/// Decides whether a deposit of `amount` may go to the ledger, once the
/// vault was authenticated (`owner`) and read (`held`). Whether the payer can
/// afford the amount is for the ledger to say.
pub fn check_deposit(owner: Option<u8>, held: Option<u64>, amount: u64) -> (r: Result<(), ErrorCode>)
    ensures
        r == deposit_check(owner, held, amount),
{
    if owner.is_none() {
        return Err(ErrorCode::AddressMismatch);
    }
    if amount == 0 {
        return Err(ErrorCode::ZeroAmount);
    }
    if let Some(balance) = held {
        if amount > u64::MAX - balance {
            return Err(ErrorCode::Overflow);
        }
    }
    Ok(())
}

/// Decides whether a withdrawal of `amount` may go to the ledger, once the
/// vault was authenticated (`owner`) and read (`held`), and gives the
/// discriminant to authorize it with.
pub fn check_withdraw(owner: Option<u8>, held: Option<u64>, amount: u64) -> (r: Result<u8, ErrorCode>)
    ensures
        r == withdraw_check(owner, held, amount),
{
    let discriminant = match owner {
        Some(discriminant) => discriminant,
        None => {
            return Err(ErrorCode::AddressMismatch);
        },
    };
    if amount == 0 {
        return Err(ErrorCode::ZeroAmount);
    }
    match held {
        None => Err(ErrorCode::VaultNotFound),
        Some(balance) => {
            if balance < amount {
                Err(ErrorCode::InsufficientFunds)
            } else {
                Ok(discriminant)
            }
        },
    }
}

/// Answers a balance query, once the vault was authenticated (`owner`) and
/// read (`held`).
pub fn check_balance(owner: Option<u8>, held: Option<u64>) -> (r: Result<u64, ErrorCode>)
    ensures
        r == balance_check(owner, held),
{
    if owner.is_none() {
        return Err(ErrorCode::AddressMismatch);
    }
    match held {
        None => Err(ErrorCode::VaultNotFound),
        Some(balance) => Ok(balance),
    }
}

/// Derives the vault of the user again and compares it with the vault
/// presented.
fn authenticate(user_vault: &VaultAddress, user: &Identity) -> (r: Option<u8>)
    ensures
        r == owner_of(*user_vault, *user),
{
    let found = resolve(user, &VAULT_LABEL);
    claimed_discriminant(&found, user_vault)
}

/// Authenticates the vault of a deposit and decides whether the deposit may
/// go to the ledger. The caller says what the vault holds.
pub fn authorize_deposit(ctx: &Deposit, held: Option<u64>, amount: u64) -> (r: Result<(), ErrorCode>)
    ensures
        r == deposit_check(owner_of(ctx.user_vault, ctx.user), held, amount),
{
    check_deposit(authenticate(&ctx.user_vault, &ctx.user), held, amount)
}

/// Authenticates the vault of a withdrawal, decides whether the withdrawal
/// may go to the ledger, and makes out the capability for it: the label, the
/// identity and the discriminant from which the address of the vault
/// derives. The caller says what the vault holds.
pub fn authorize_withdraw(ctx: &Withdraw, held: Option<u64>, amount: u64) -> (r: Result<Capability, ErrorCode>)
    ensures
        match r {
            Ok(capability) => {
                &&& withdraw_check(owner_of(ctx.user_vault, ctx.user), held, amount) == Ok::<u8, ErrorCode>(
                    capability.discriminant,
                )
                &&& capability.label@ == VAULT_LABEL@
                &&& capability.identity == ctx.user
                &&& capability.authorizes(ctx.user_vault@)
            },
            Err(error) => withdraw_check(owner_of(ctx.user_vault, ctx.user), held, amount) == Err::<
                u8,
                ErrorCode,
            >(error),
        },
{
    match check_withdraw(authenticate(&ctx.user_vault, &ctx.user), held, amount) {
        Ok(discriminant) => Ok(Capability { label: vault_label(), identity: ctx.user, discriminant }),
        Err(error) => Err(error),
    }
}

/// Authenticates the vault of a balance query and answers it. The caller
/// says what the vault holds.
pub fn authorize_balance(ctx: &GetBalance, held: Option<u64>) -> (r: Result<u64, ErrorCode>)
    ensures
        r == balance_check(owner_of(ctx.user_vault, ctx.user), held),
{
    check_balance(authenticate(&ctx.user_vault, &ctx.user), held)
}

/// Moves `amount` from what the user can spend into the user's vault.
pub fn deposit(ledger: &mut Ledger, ctx: &Deposit, amount: u64) -> (r: Result<(), ErrorCode>)
    requires
        old(ledger).wf(),
    ensures
        final(ledger).wf(),
        r == deposit_outcome(old(ledger)@, *ctx, amount),
        final(ledger)@ == after_deposit(old(ledger)@, *ctx, amount),
        final(ledger)@.total() == old(ledger)@.total(),
{
    let held = ledger.vault_balance(&ctx.user_vault);
    match authorize_deposit(ctx, held, amount) {
        Err(error) => Err(error),
        Ok(_) => match ledger.pay_in(&ctx.user, &ctx.user_vault, amount) {
            Ok(_) => {
                proof {
                    old(ledger).wf_state();
                    conservation_of_deposit(old(ledger)@, *ctx, amount);
                }
                Ok(())
            },
            Err(error) => Err(from_host(error)),
        },
    }
}

/// Moves `amount` out of the user's vault to the user, on the capability
/// that derives the vault from the user's identity.
pub fn withdraw(ledger: &mut Ledger, ctx: &Withdraw, amount: u64) -> (r: Result<(), ErrorCode>)
    requires
        old(ledger).wf(),
    ensures
        final(ledger).wf(),
        r == withdraw_outcome(old(ledger)@, *ctx, amount),
        final(ledger)@ == after_withdraw(old(ledger)@, *ctx, amount),
        final(ledger)@.total() == old(ledger)@.total(),
{
    let held = ledger.vault_balance(&ctx.user_vault);
    match authorize_withdraw(ctx, held, amount) {
        Err(error) => Err(error),
        Ok(capability) => match ledger.pay_out(&ctx.user_vault, &capability, amount) {
            Ok(_) => {
                proof {
                    old(ledger).wf_state();
                    conservation_of_withdraw(old(ledger)@, *ctx, amount);
                }
                Ok(())
            },
            Err(error) => Err(from_host(error)),
        },
    }
}

/// The balance of the user's vault.
pub fn get_user_balance(ledger: &Ledger, ctx: &GetBalance) -> (r: Result<u64, ErrorCode>)
    requires
        ledger.wf(),
    ensures
        r == balance_outcome(ledger@, *ctx),
{
    authorize_balance(ctx, ledger.vault_balance(&ctx.user_vault))
}

/// A deposit creates and destroys nothing: what the ledger holds in all is
/// what it held before, and still fits.
pub proof fn conservation_of_deposit(state: LedgerState, ctx: Deposit, amount: u64)
    requires
        state.wf(),
    ensures
        after_deposit(state, ctx, amount).wf(),
        after_deposit(state, ctx, amount).total() == state.total(),
{
    if deposit_outcome(state, ctx, amount) is Ok {
        state.paid_in_conserves(ctx.user@, ctx.user_vault@, amount);
    }
}

/// A withdrawal creates and destroys nothing: what the ledger holds in all
/// is what it held before, and still fits.
pub proof fn conservation_of_withdraw(state: LedgerState, ctx: Withdraw, amount: u64)
    requires
        state.wf(),
    ensures
        after_withdraw(state, ctx, amount).wf(),
        after_withdraw(state, ctx, amount).total() == state.total(),
{
    if withdraw_outcome(state, ctx, amount) is Ok {
        state.paid_out_conserves(ctx.user_vault@, ctx.user@, amount);
    }
}

/// A deposit that succeeds moves exactly the amount: the vault holds that
/// much more, the user can spend that much less, and no other balance moves.
pub proof fn deposit_moves_exactly(state: LedgerState, ctx: Deposit, amount: u64)
    requires
        state.wf(),
        deposit_outcome(state, ctx, amount) is Ok,
    ensures
        after_deposit(state, ctx, amount).vault_balance(ctx.user_vault@) == Some(
            (amount_of(state.vaults, ctx.user_vault@) + amount) as u64,
        ),
        amount_of(state.vaults, ctx.user_vault@) + amount <= u64::MAX,
        after_deposit(state, ctx, amount).external_balance(ctx.user@) + amount
            == state.external_balance(ctx.user@),
        forall|other: Seq<u8>| other != ctx.user_vault@ ==>
            after_deposit(state, ctx, amount).vault_balance(other) == state.vault_balance(other),
        forall|other: Seq<u8>| other != ctx.user@ ==>
            after_deposit(state, ctx, amount).wallets.contains_key(other) == state.wallets.contains_key(other)
            && after_deposit(state, ctx, amount).external_balance(other) == state.external_balance(other),
{
    state.paid_in_conserves(ctx.user@, ctx.user_vault@, amount);
}

/// A withdrawal that succeeds moves exactly the amount: the vault holds that
/// much less, the user can spend that much more, and no other balance moves.
pub proof fn withdraw_moves_exactly(state: LedgerState, ctx: Withdraw, amount: u64)
    requires
        state.wf(),
        withdraw_outcome(state, ctx, amount) is Ok,
    ensures
        state.vault_balance(ctx.user_vault@) is Some,
        after_withdraw(state, ctx, amount).vault_balance(ctx.user_vault@) == Some(
            (state.vault_balance(ctx.user_vault@)->0 - amount) as u64,
        ),
        amount <= state.vault_balance(ctx.user_vault@)->0,
        after_withdraw(state, ctx, amount).external_balance(ctx.user@)
            == state.external_balance(ctx.user@) + amount,
        forall|other: Seq<u8>| other != ctx.user_vault@ ==>
            after_withdraw(state, ctx, amount).vault_balance(other) == state.vault_balance(other),
        forall|other: Seq<u8>| other != ctx.user@ ==>
            after_withdraw(state, ctx, amount).wallets.contains_key(other) == state.wallets.contains_key(other)
            && after_withdraw(state, ctx, amount).external_balance(other) == state.external_balance(other),
{
    state.paid_out_conserves(ctx.user_vault@, ctx.user@, amount);
}

/// A withdrawal of more than the vault holds fails for want of funds, and
/// the ledger stays as it was.
pub proof fn overdraw_is_refused(state: LedgerState, ctx: Withdraw, amount: u64)
    requires
        is_vault_of(ctx.user_vault@, ctx.user@, VAULT_LABEL@),
        state.vault_balance(ctx.user_vault@) is Some,
        amount > state.vault_balance(ctx.user_vault@)->0,
    ensures
        withdraw_outcome(state, ctx, amount) == Err::<(), ErrorCode>(ErrorCode::InsufficientFunds),
        after_withdraw(state, ctx, amount) == state,
{
}

/// An amount of zero is rejected, by a deposit and by a withdrawal alike,
/// and the ledger stays as it was.
pub proof fn zero_amount_is_rejected(state: LedgerState, paying: Deposit, drawing: Withdraw)
    ensures
        deposit_outcome(state, paying, 0) is Err,
        after_deposit(state, paying, 0) == state,
        is_vault_of(paying.user_vault@, paying.user@, VAULT_LABEL@) ==> deposit_outcome(state, paying, 0)
            == Err::<(), ErrorCode>(ErrorCode::ZeroAmount),
        withdraw_outcome(state, drawing, 0) is Err,
        after_withdraw(state, drawing, 0) == state,
        is_vault_of(drawing.user_vault@, drawing.user@, VAULT_LABEL@) ==> withdraw_outcome(state, drawing, 0)
            == Err::<(), ErrorCode>(ErrorCode::ZeroAmount),
{
}

/// A vault that is not the vault of the user is refused before anything
/// else is looked at, whatever the amount and whatever the ledger holds.
pub proof fn foreign_vault_is_refused(state: LedgerState, user: Identity, user_vault: VaultAddress, amount: u64)
    requires
        !is_vault_of(user_vault@, user@, VAULT_LABEL@),
    ensures
        deposit_outcome(state, Deposit { user, user_vault }, amount) == Err::<(), ErrorCode>(
            ErrorCode::AddressMismatch,
        ),
        after_deposit(state, Deposit { user, user_vault }, amount) == state,
        withdraw_outcome(state, Withdraw { user, user_vault }, amount) == Err::<(), ErrorCode>(
            ErrorCode::AddressMismatch,
        ),
        after_withdraw(state, Withdraw { user, user_vault }, amount) == state,
        balance_outcome(state, GetBalance { user, user_vault }) == Err::<u64, ErrorCode>(
            ErrorCode::AddressMismatch,
        ),
{
}

/// A balance query is a function of the ledger and the accounts: asked
/// twice of a ledger that did not change, it answers the same.
pub proof fn balance_query_repeats(
    state: LedgerState,
    ctx: GetBalance,
    first: Result<u64, ErrorCode>,
    second: Result<u64, ErrorCode>,
)
    requires
        first == balance_outcome(state, ctx),
        second == balance_outcome(state, ctx),
    ensures
        first == second,
{
}

/// A deposit or a withdrawal, with its amount.
pub enum Operation {
    Deposit(Deposit, u64),
    Withdraw(Withdraw, u64),
}

/// The ledger after one operation.
pub open spec fn after(state: LedgerState, operation: Operation) -> LedgerState {
    match operation {
        Operation::Deposit(ctx, amount) => after_deposit(state, ctx, amount),
        Operation::Withdraw(ctx, amount) => after_withdraw(state, ctx, amount),
    }
}

/// The ledger after a sequence of operations, the first of them first.
pub open spec fn after_all(state: LedgerState, operations: Seq<Operation>) -> LedgerState
    decreases operations.len(),
{
    if operations.len() == 0 {
        state
    } else {
        after(after_all(state, operations.drop_last()), operations.last())
    }
}

/// No sequence of deposits and withdrawals creates or destroys value: after
/// all of them the vaults and the users together hold what they held before.
pub proof fn conservation(state: LedgerState, operations: Seq<Operation>)
    requires
        state.wf(),
    ensures
        after_all(state, operations).wf(),
        after_all(state, operations).total() == state.total(),
    decreases operations.len(),
{
    if operations.len() > 0 {
        conservation(state, operations.drop_last());
        let before = after_all(state, operations.drop_last());
        match operations.last() {
            Operation::Deposit(ctx, amount) => conservation_of_deposit(before, ctx, amount),
            Operation::Withdraw(ctx, amount) => conservation_of_withdraw(before, ctx, amount),
        }
    }
}

} // verus!
