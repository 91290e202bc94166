use vstd::prelude::*;

use crate::identity::Identity;
use crate::state::{EncryptionRegistry, MessageSent, MessengerError, PlatformConfig};
use crate::table::IdTable;

verus! {

/// The abstract contents of the ledger.
pub ghost struct LedgerView {
    pub config: Option<PlatformConfig>,
    /// Registry records, by the identity whose slot holds them.
    pub registries: Map<Identity, EncryptionRegistry>,
    pub balances: Map<Identity, u64>,
    pub events: Seq<MessageSent>,
}

/// The balance of `id`; an identity without an account holds nothing.
pub open spec fn balance_of(m: Map<Identity, u64>, id: Identity) -> u64 {
    if m.contains_key(id) {
        m[id]
    } else {
        0
    }
}

/// Moving `amount` from `from` to `to`: debit first, then credit.
pub open spec fn transfer_spec(m: Map<Identity, u64>, from: Identity, to: Identity, amount: u64) -> Result<
    Map<Identity, u64>,
    MessengerError,
> {
    if balance_of(m, from) < amount {
        Err(MessengerError::InsufficientFunds)
    } else {
        let m1 = m.insert(from, (balance_of(m, from) - amount) as u64);
        if balance_of(m1, to) + amount > u64::MAX {
            Err(MessengerError::BalanceOverflow)
        } else {
            Ok(m1.insert(to, (balance_of(m1, to) + amount) as u64))
        }
    }
}

fn balance_in(balances: &IdTable<u64>, id: &Identity) -> (r: u64)
    requires
        balances.wf(),
    ensures
        r == balance_of(balances@, *id),
{
    match balances.get(id) {
        Some(b) => b,
        None => 0,
    }
}

/// Moves `amount` lamports; on failure the balances are left as they were.
pub fn transfer(balances: &mut IdTable<u64>, from: Identity, to: Identity, amount: u64) -> (r: Result<
    (),
    MessengerError,
>)
    requires
        old(balances).wf(),
    ensures
        final(balances).wf(),
        match transfer_spec(old(balances)@, from, to, amount) {
            Ok(m) => r is Ok && final(balances)@ == m,
            Err(e) => r == Err::<(), MessengerError>(e) && *final(balances) == *old(balances),
        },
{
    let from_balance = balance_in(balances, &from);
    if from_balance < amount {
        return Err(MessengerError::InsufficientFunds);
    }
    let to_balance = if from.same_as(&to) {
        from_balance - amount
    } else {
        balance_in(balances, &to)
    };
    if to_balance > u64::MAX - amount {
        return Err(MessengerError::BalanceOverflow);
    }
    balances.set(from, from_balance - amount);
    balances.set(to, to_balance + amount);
    Ok(())
}

/// The ledger's account storage: the configuration slot, one registry slot
/// per identity, lamport balances, and the event log.
pub struct Ledger {
    config: Option<PlatformConfig>,
    registries: IdTable<EncryptionRegistry>,
    balances: IdTable<u64>,
    events: Vec<MessageSent>,
}

impl View for Ledger {
    type V = LedgerView;

    closed spec fn view(&self) -> LedgerView {
        LedgerView {
            config: self.config,
            registries: self.registries@,
            balances: self.balances@,
            events: self.events@,
        }
    }
}

impl Ledger {
    pub closed spec fn wf(&self) -> bool {
        self.registries.wf() && self.balances.wf()
    }

    /// A ledger with no records, no balances and no events.
    pub fn new() -> (r: Ledger)
        ensures
            r.wf(),
            r@.config is None,
            r@.registries == Map::<Identity, EncryptionRegistry>::empty(),
            r@.balances == Map::<Identity, u64>::empty(),
            r@.events == Seq::<MessageSent>::empty(),
    {
        Ledger { config: None, registries: IdTable::new(), balances: IdTable::new(), events: Vec::new() }
    }

    /// The configuration record, if it has been created.
    pub fn config(&self) -> (r: Option<PlatformConfig>)
        ensures
            r == self@.config,
    {
        self.config
    }

    /// The registry record in the slot of `owner`, if any.
    pub fn registry(&self, owner: &Identity) -> (r: Option<EncryptionRegistry>)
        requires
            self.wf(),
        ensures
            r == (if self@.registries.contains_key(*owner) {
                Some(self@.registries[*owner])
            } else {
                None::<EncryptionRegistry>
            }),
    {
        self.registries.get(owner)
    }

    /// The lamports held by `id`.
    pub fn balance(&self, id: &Identity) -> (r: u64)
        requires
            self.wf(),
        ensures
            r == balance_of(self@.balances, *id),
    {
        balance_in(&self.balances, id)
    }

    /// The notifications emitted so far, oldest first.
    pub fn events(&self) -> (r: &Vec<MessageSent>)
        ensures
            r@ == self@.events,
    {
        &self.events
    }

    /// Adds `amount` lamports to the account of `id`.
    pub fn credit(&mut self, id: Identity, amount: u64) -> (r: Result<(), MessengerError>)
        requires
            old(self).wf(),
        ensures
            final(self).wf(),
            balance_of(old(self)@.balances, id) + amount <= u64::MAX ==> r is Ok && final(self)@ == (
            LedgerView {
                balances: old(self)@.balances.insert(id, (balance_of(old(self)@.balances, id) + amount) as u64),
                ..old(self)@
            }),
            balance_of(old(self)@.balances, id) + amount > u64::MAX ==> r == Err::<(), MessengerError>(
                MessengerError::BalanceOverflow,
            ) && *final(self) == *old(self),
    {
        let current = balance_in(&self.balances, &id);
        if current > u64::MAX - amount {
            return Err(MessengerError::BalanceOverflow);
        }
        self.balances.set(id, current + amount);
        Ok(())
    }

    pub(crate) fn set_config(&mut self, config: PlatformConfig)
        requires
            old(self).wf(),
        ensures
            final(self).wf(),
            final(self)@ == (LedgerView { config: Some(config), ..old(self)@ }),
    {
        self.config = Some(config);
    }

    pub(crate) fn put_registry(&mut self, slot: Identity, record: EncryptionRegistry)
        requires
            old(self).wf(),
        ensures
            final(self).wf(),
            final(self)@ == (LedgerView { registries: old(self)@.registries.insert(slot, record), ..old(self)@ }),
    {
        self.registries.set(slot, record);
    }

    pub(crate) fn remove_registry(&mut self, slot: &Identity)
        requires
            old(self).wf(),
        ensures
            final(self).wf(),
            final(self)@ == (LedgerView { registries: old(self)@.registries.remove(*slot), ..old(self)@ }),
    {
        self.registries.remove(slot);
    }

    /// A working copy of the balances, for a request to charge against.
    pub(crate) fn balances_copy(&self) -> (r: IdTable<u64>)
        requires
            self.wf(),
        ensures
            r.wf(),
            r@ == self@.balances,
    {
        self.balances.duplicate()
    }

    /// Makes a request's charged balances durable and appends its notification.
    pub(crate) fn commit(&mut self, balances: IdTable<u64>, event: MessageSent)
        requires
            old(self).wf(),
            balances.wf(),
        ensures
            final(self).wf(),
            final(self)@ == (LedgerView { balances: balances@, events: old(self)@.events.push(event), ..old(self)@ }),
    {
        self.balances = balances;
        self.events.push(event);
    }
}

} // verus!
