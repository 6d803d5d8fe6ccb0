//! The ledger that holds the balances: what every identity can spend outside
//! its vault, and what every vault holds. It moves funds between the two and
//! honours a debit of a vault only against the capability of its owner.

use vstd::prelude::*;
use crate::balances::{amount_of, sum, sum_with, sum_without};
use crate::resolver::{same_bytes, Capability, Identity, VaultAddress};

verus! {

/// Why the ledger refused a request.
#[derive(Clone, Copy, Debug, PartialEq, Eq, Structural)]
pub enum HostError {
    /// The account to debit holds less than the amount.
    InsufficientFunds,
    /// The capability presented does not derive the vault to debit.
    Unauthorized,
    /// The vault to debit was never allocated.
    AccountNotFound,
    /// The ledger cannot hold that much.
    SupplyExceeded,
}

/// The balances of a ledger: the spendable balance of every identity that
/// has one, and the balance of every vault that was allocated.
pub struct LedgerState {
    pub wallets: Map<Seq<u8>, u64>,
    pub vaults: Map<Seq<u8>, u64>,
}

impl LedgerState {
    /// Everything the ledger holds, inside and outside the vaults.
    pub open spec fn total(self) -> nat {
        sum(self.wallets) + sum(self.vaults)
    }

    /// Finitely many balances, which together fit the balance type.
    pub open spec fn wf(self) -> bool {
        &&& self.wallets.dom().finite()
        &&& self.vaults.dom().finite()
        &&& self.total() <= u64::MAX
    }

    /// What `identity` can spend outside its vault.
    pub open spec fn external_balance(self, identity: Seq<u8>) -> nat {
        amount_of(self.wallets, identity)
    }

    /// The balance of the vault at `address`; `None` while it is not allocated.
    pub open spec fn vault_balance(self, address: Seq<u8>) -> Option<u64> {
        if self.vaults.contains_key(address) {
            Some(self.vaults[address])
        } else {
            None
        }
    }

    /// How the ledger answers a request to move `amount` out of the vault at
    /// `address` under `capability`.
    pub open spec fn pay_out_outcome(self, address: Seq<u8>, capability: Capability, amount: u64) -> Result<(), HostError> {
        if !capability.authorizes(address) {
            Err(HostError::Unauthorized)
        } else {
            match self.vault_balance(address) {
                None => Err(HostError::AccountNotFound),
                Some(held) => if held < amount {
                    Err(HostError::InsufficientFunds)
                } else {
                    Ok(())
                },
            }
        }
    }

    /// The ledger after `amount` was added to what `identity` can spend.
    pub open spec fn funded(self, identity: Seq<u8>, amount: u64) -> LedgerState {
        LedgerState {
            wallets: self.wallets.insert(identity, (self.external_balance(identity) + amount) as u64),
            vaults: self.vaults,
        }
    }

    /// The ledger after `amount` moved from `identity` into the vault at
    /// `address`, which is allocated by this if it was not before.
    pub open spec fn paid_in(self, identity: Seq<u8>, address: Seq<u8>, amount: u64) -> LedgerState {
        LedgerState {
            wallets: self.wallets.insert(identity, (self.external_balance(identity) - amount) as u64),
            vaults: self.vaults.insert(address, (amount_of(self.vaults, address) + amount) as u64),
        }
    }

    /// The ledger after `amount` moved out of the vault at `address` to
    /// `identity`.
    pub open spec fn paid_out(self, address: Seq<u8>, identity: Seq<u8>, amount: u64) -> LedgerState {
        LedgerState {
            wallets: self.wallets.insert(identity, (self.external_balance(identity) + amount) as u64),
            vaults: self.vaults.insert(address, (amount_of(self.vaults, address) - amount) as u64),
        }
    }
}

impl LedgerState {
    /// Adding an amount from outside adds that amount to the total.
    pub proof fn funded_adds(self, identity: Seq<u8>, amount: u64)
        requires
            self.wf(),
            self.total() + amount <= u64::MAX,
        ensures
            self.funded(identity, amount).wf(),
            self.funded(identity, amount).total() == self.total() + amount,
            self.external_balance(identity) + amount <= u64::MAX,
    {
        sum_without(self.wallets, identity);
        sum_with(self.wallets, identity, (self.external_balance(identity) + amount) as u64);
    }

    /// Moving an amount that the identity can spend into a vault leaves the
    /// total as it was.
    pub proof fn paid_in_conserves(self, identity: Seq<u8>, address: Seq<u8>, amount: u64)
        requires
            self.wf(),
            amount <= self.external_balance(identity),
        ensures
            self.paid_in(identity, address, amount).wf(),
            self.paid_in(identity, address, amount).total() == self.total(),
            amount_of(self.vaults, address) + amount <= u64::MAX,
    {
        sum_without(self.wallets, identity);
        sum_without(self.vaults, address);
        sum_with(self.wallets, identity, (self.external_balance(identity) - amount) as u64);
        sum_with(self.vaults, address, (amount_of(self.vaults, address) + amount) as u64);
    }

    /// Moving an amount that a vault holds out to an identity leaves the
    /// total as it was.
    pub proof fn paid_out_conserves(self, address: Seq<u8>, identity: Seq<u8>, amount: u64)
        requires
            self.wf(),
            amount <= amount_of(self.vaults, address),
        ensures
            self.paid_out(address, identity, amount).wf(),
            self.paid_out(address, identity, amount).total() == self.total(),
            self.external_balance(identity) + amount <= u64::MAX,
    {
        sum_without(self.wallets, identity);
        sum_without(self.vaults, address);
        sum_with(self.wallets, identity, (self.external_balance(identity) + amount) as u64);
        sum_with(self.vaults, address, (amount_of(self.vaults, address) - amount) as u64);
    }
}

/// One balance and the key it is kept under.
struct Account {
    key: [u8; 32],
    balance: u64,
}

/// The book that a list of accounts stands for.
spec fn book_of(accounts: Seq<Account>) -> Map<Seq<u8>, u64>
    decreases accounts.len(),
{
    if accounts.len() == 0 {
        Map::empty()
    } else {
        book_of(accounts.drop_last()).insert(accounts.last().key@, accounts.last().balance)
    }
}

/// No key occurs twice.
spec fn distinct(accounts: Seq<Account>) -> bool {
    forall|i: int, j: int| 0 <= i < j < accounts.len() ==> accounts[i].key@ != accounts[j].key@
}

proof fn book_is_finite(accounts: Seq<Account>)
    ensures
        book_of(accounts).dom().finite(),
    decreases accounts.len(),
{
    if accounts.len() > 0 {
        book_is_finite(accounts.drop_last());
    }
}

proof fn book_lacks(accounts: Seq<Account>, key: Seq<u8>)
    requires
        forall|i: int| 0 <= i < accounts.len() ==> accounts[i].key@ != key,
    ensures
        !book_of(accounts).contains_key(key),
    decreases accounts.len(),
{
    if accounts.len() > 0 {
        book_lacks(accounts.drop_last(), key);
    }
}

proof fn book_holds(accounts: Seq<Account>, i: int)
    requires
        distinct(accounts),
        0 <= i < accounts.len(),
    ensures
        book_of(accounts).contains_key(accounts[i].key@),
        book_of(accounts)[accounts[i].key@] == accounts[i].balance,
    decreases accounts.len(),
{
    if i < accounts.len() - 1 {
        book_holds(accounts.drop_last(), i);
    }
}

proof fn book_after_update(accounts: Seq<Account>, i: int, balance: u64)
    requires
        distinct(accounts),
        0 <= i < accounts.len(),
    ensures
        book_of(accounts.update(i, Account { key: accounts[i].key, balance })) == book_of(
            accounts,
        ).insert(accounts[i].key@, balance),
    decreases accounts.len(),
{
    let key = accounts[i].key;
    let updated = accounts.update(i, Account { key, balance });
    if i == accounts.len() - 1 {
        assert(updated.drop_last() =~= accounts.drop_last());
    } else {
        book_after_update(accounts.drop_last(), i, balance);
        assert(updated.drop_last() =~= accounts.drop_last().update(i, Account { key, balance }));
    }
    assert(book_of(updated) =~= book_of(accounts).insert(key@, balance));
}

/// The place of `key` among `accounts`.
fn find(accounts: &Vec<Account>, key: &[u8; 32]) -> (r: Option<usize>)
    ensures
        match r {
            Some(i) => i < accounts.len() && accounts[i as int].key@ == key@,
            None => forall|j: int| 0 <= j < accounts.len() ==> accounts[j].key@ != key@,
        },
{
    let mut i: usize = 0;
    while i < accounts.len()
        invariant
            i <= accounts.len(),
            forall|j: int| 0 <= j < i ==> accounts[j].key@ != key@,
        decreases accounts.len() - i,
    {
        if same_bytes(&accounts[i].key, key) {
            return Some(i);
        }
        i += 1;
    }
    None
}

/// The balance kept under `key`, if there is one.
fn read(accounts: &Vec<Account>, key: &[u8; 32]) -> (r: Option<u64>)
    requires
        distinct(accounts@),
    ensures
        r == (if book_of(accounts@).contains_key(key@) {
            Some(book_of(accounts@)[key@])
        } else {
            None
        }),
{
    match find(accounts, key) {
        Some(i) => {
            proof {
                book_holds(accounts@, i as int);
            }
            Some(accounts[i].balance)
        },
        None => {
            proof {
                book_lacks(accounts@, key@);
            }
            None
        },
    }
}

/// Keeps `balance` under `key`, in a new account where the key had none.
fn write(accounts: &mut Vec<Account>, key: &[u8; 32], balance: u64)
    requires
        distinct(old(accounts)@),
    ensures
        distinct(final(accounts)@),
        book_of(final(accounts)@) == book_of(old(accounts)@).insert(key@, balance),
{
    match find(accounts, key) {
        Some(i) => {
            proof {
                book_after_update(accounts@, i as int, balance);
                assert(accounts[i as int].key =~= *key);
            }
            accounts[i] = Account { key: *key, balance };
        },
        None => {
            accounts.push(Account { key: *key, balance });
            assert(accounts@.drop_last() =~= old(accounts)@);
        },
    }
}

/// The ledger itself.
pub struct Ledger {
    wallets: Vec<Account>,
    vaults: Vec<Account>,
    supply: u64,
}

impl View for Ledger {
    type V = LedgerState;

    closed spec fn view(&self) -> LedgerState {
        LedgerState { wallets: book_of(self.wallets@), vaults: book_of(self.vaults@) }
    }
}

impl Ledger {
    /// Every key is kept once, and the balances fit the balance type.
    pub closed spec fn wf(&self) -> bool {
        &&& distinct(self.wallets@)
        &&& distinct(self.vaults@)
        &&& self.supply == self@.total()
    }

    /// A well-formed ledger has a well-formed state.
    pub proof fn wf_state(&self)
        requires
            self.wf(),
        ensures
            self@.wf(),
    {
        book_is_finite(self.wallets@);
        book_is_finite(self.vaults@);
    }

    /// A ledger that holds nothing.
    pub fn new() -> (r: Ledger)
        ensures
            r.wf(),
            r@ == (LedgerState { wallets: Map::empty(), vaults: Map::empty() }),
            r@.total() == 0,
    {
        Ledger { wallets: Vec::new(), vaults: Vec::new(), supply: 0 }
    }

    /// Everything the ledger holds, inside and outside the vaults.
    pub fn supply(&self) -> (r: u64)
        requires
            self.wf(),
        ensures
            r == self@.total(),
    {
        self.supply
    }

    /// What `identity` can spend outside its vault.
    pub fn external_balance(&self, identity: &Identity) -> (r: u64)
        requires
            self.wf(),
        ensures
            r == self@.external_balance(identity@),
    {
        match read(&self.wallets, &identity.bytes) {
            Some(balance) => balance,
            None => 0,
        }
    }

    /// The balance of the vault at `address`; `None` while it is not allocated.
    pub fn vault_balance(&self, address: &VaultAddress) -> (r: Option<u64>)
        requires
            self.wf(),
        ensures
            r == self@.vault_balance(address@),
    {
        read(&self.vaults, &address.bytes)
    }

    /// Adds `amount` to what `identity` can spend, from outside the ledger.
    pub fn fund(&mut self, identity: &Identity, amount: u64) -> (r: Result<(), HostError>)
        requires
            old(self).wf(),
        ensures
            final(self).wf(),
            r == (if old(self)@.total() + amount <= u64::MAX {
                Ok::<(), HostError>(())
            } else {
                Err(HostError::SupplyExceeded)
            }),
            final(self)@ == (if r is Ok {
                old(self)@.funded(identity@, amount)
            } else {
                old(self)@
            }),
            final(self)@.total() == old(self)@.total() + (if r is Ok {
                amount
            } else {
                0
            }),
    {
        if amount > u64::MAX - self.supply {
            return Err(HostError::SupplyExceeded);
        }
        let balance = self.external_balance(identity);
        proof {
            self.wf_state();
            self@.funded_adds(identity@, amount);
        }
        write(&mut self.wallets, &identity.bytes, balance + amount);
        self.supply = self.supply + amount;
        Ok(())
    }

    /// Moves `amount` from what `identity` can spend into the vault at
    /// `address`, allocating the vault on its first use.
    pub fn pay_in(&mut self, identity: &Identity, address: &VaultAddress, amount: u64) -> (r: Result<(), HostError>)
        requires
            old(self).wf(),
        ensures
            final(self).wf(),
            r == (if old(self)@.external_balance(identity@) < amount {
                Err::<(), HostError>(HostError::InsufficientFunds)
            } else {
                Ok(())
            }),
            final(self)@ == (if r is Ok {
                old(self)@.paid_in(identity@, address@, amount)
            } else {
                old(self)@
            }),
            final(self)@.total() == old(self)@.total(),
    {
        let spendable = self.external_balance(identity);
        if spendable < amount {
            return Err(HostError::InsufficientFunds);
        }
        let held = match self.vault_balance(address) {
            Some(balance) => balance,
            None => 0,
        };
        proof {
            self.wf_state();
            self@.paid_in_conserves(identity@, address@, amount);
        }
        write(&mut self.wallets, &identity.bytes, spendable - amount);
        write(&mut self.vaults, &address.bytes, held + amount);
        Ok(())
    }

    /// Moves `amount` out of the vault at `address` to the identity that
    /// `capability` names, if the capability derives that very vault.
    pub fn pay_out(&mut self, address: &VaultAddress, capability: &Capability, amount: u64) -> (r: Result<(), HostError>)
        requires
            old(self).wf(),
        ensures
            final(self).wf(),
            r == old(self)@.pay_out_outcome(address@, *capability, amount),
            final(self)@ == (if r is Ok {
                old(self)@.paid_out(address@, capability.identity@, amount)
            } else {
                old(self)@
            }),
            final(self)@.total() == old(self)@.total(),
    {
        if !capability.proves(address) {
            return Err(HostError::Unauthorized);
        }
        let held = match self.vault_balance(address) {
            Some(balance) => balance,
            None => {
                return Err(HostError::AccountNotFound);
            },
        };
        if held < amount {
            return Err(HostError::InsufficientFunds);
        }
        let spendable = self.external_balance(&capability.identity);
        proof {
            self.wf_state();
            self@.paid_out_conserves(address@, capability.identity@, amount);
        }
        write(&mut self.vaults, &address.bytes, held - amount);
        write(&mut self.wallets, &capability.identity.bytes, spendable + amount);
        Ok(())
    }
}

} // verus!
