use vstd::prelude::*;

use crate::address::Address;
use crate::record::AccountData;
use crate::record::AccountView;

verus! {

/// The state of the ledger host, as far as this core reads or writes it:
/// which addresses are allocated and with what data, the funds of each
/// identity, the token types the token standard recognises, and the rent the
/// host charges for each of the two allocations this core makes.
pub ghost struct LedgerView {
    /// The data held at each allocated address.
    pub accounts: Map<Seq<u8>, AccountView>,
    /// The funds held by each identity the host knows of.
    pub balances: Map<Seq<u8>, u64>,
    /// The token types the token standard recognises.
    pub mints: Set<Seq<u8>>,
    /// Rent charged to allocate a vesting record.
    pub vesting_rent: u64,
    /// Rent charged to allocate a treasury token account.
    pub treasury_rent: u64,
}

impl LedgerView {
    /// The funds of an identity; one never credited holds nothing.
    pub open spec fn balance(&self, who: Seq<u8>) -> int {
        if self.balances.contains_key(who) {
            self.balances[who] as int
        } else {
            0
        }
    }
}

/// The allocation log as a map: a later entry for an address wins.
pub open spec fn accounts_map(s: Seq<(Address, AccountData)>) -> Map<Seq<u8>, AccountView>
    decreases s.len(),
{
    if s.len() == 0 {
        Map::empty()
    } else {
        accounts_map(s.drop_last()).insert(s.last().0@, s.last().1@)
    }
}

/// The balance log as a map: a later entry for an identity wins.
pub open spec fn balances_map(s: Seq<(Address, u64)>) -> Map<Seq<u8>, u64>
    decreases s.len(),
{
    if s.len() == 0 {
        Map::empty()
    } else {
        balances_map(s.drop_last()).insert(s.last().0@, s.last().1)
    }
}

/// The registered mints as a set.
pub open spec fn mints_set(s: Seq<Address>) -> Set<Seq<u8>>
    decreases s.len(),
{
    if s.len() == 0 {
        Set::empty()
    } else {
        mints_set(s.drop_last()).insert(s.last()@)
    }
}

proof fn lemma_accounts_map_step(s: Seq<(Address, AccountData)>, i: int)
    requires
        0 <= i < s.len(),
    ensures
        accounts_map(s.take(i + 1)) == accounts_map(s.take(i)).insert(s[i].0@, s[i].1@),
{
    assert(s.take(i + 1).drop_last() =~= s.take(i));
    assert(s.take(i + 1).last() == s[i]);
}

proof fn lemma_balances_map_step(s: Seq<(Address, u64)>, i: int)
    requires
        0 <= i < s.len(),
    ensures
        balances_map(s.take(i + 1)) == balances_map(s.take(i)).insert(s[i].0@, s[i].1),
{
    assert(s.take(i + 1).drop_last() =~= s.take(i));
    assert(s.take(i + 1).last() == s[i]);
}

proof fn lemma_mints_set_step(s: Seq<Address>, i: int)
    requires
        0 <= i < s.len(),
    ensures
        mints_set(s.take(i + 1)) == mints_set(s.take(i)).insert(s[i]@),
{
    assert(s.take(i + 1).drop_last() =~= s.take(i));
    assert(s.take(i + 1).last() == s[i]);
}

/// The ledger host's storage, modelled as append-only logs of allocations,
/// balance settlements and mint registrations.
pub struct Ledger {
    accounts: Vec<(Address, AccountData)>,
    balances: Vec<(Address, u64)>,
    mints: Vec<Address>,
    vesting_rent: u64,
    treasury_rent: u64,
}

impl View for Ledger {
    type V = LedgerView;

    closed spec fn view(&self) -> LedgerView {
        LedgerView {
            accounts: accounts_map(self.accounts@),
            balances: balances_map(self.balances@),
            mints: mints_set(self.mints@),
            vesting_rent: self.vesting_rent,
            treasury_rent: self.treasury_rent,
        }
    }
}

impl Ledger {
    /// An empty ledger whose host charges the given rents.
    pub fn new(vesting_rent: u64, treasury_rent: u64) -> (r: Ledger)
        ensures
            r@.accounts == Map::<Seq<u8>, AccountView>::empty(),
            r@.balances == Map::<Seq<u8>, u64>::empty(),
            r@.mints == Set::<Seq<u8>>::empty(),
            r@.vesting_rent == vesting_rent,
            r@.treasury_rent == treasury_rent,
    {
        Ledger {
            accounts: Vec::new(),
            balances: Vec::new(),
            mints: Vec::new(),
            vesting_rent,
            treasury_rent,
        }
    }

    /// Rent charged to allocate a vesting record.
    pub fn vesting_rent(&self) -> (r: u64)
        ensures
            r == self@.vesting_rent,
    {
        self.vesting_rent
    }

    /// Rent charged to allocate a treasury token account.
    pub fn treasury_rent(&self) -> (r: u64)
        ensures
            r == self@.treasury_rent,
    {
        self.treasury_rent
    }

    /// The data held at `addr`, or `None` where the address is unallocated.
    pub fn get_account(&self, addr: &Address) -> (r: Option<AccountData>)
        ensures
            match r {
                Some(d) => self@.accounts.contains_key(addr@) && d@ == self@.accounts[addr@],
                None => !self@.accounts.contains_key(addr@),
            },
    {
        let ghost s = self.accounts@;
        let mut i: usize = self.accounts.len();
        proof {
            assert(s.take(i as int) =~= s);
        }
        while i > 0
            invariant
                i <= s.len(),
                s == self.accounts@,
                self@.accounts == accounts_map(s),
                accounts_map(s.take(i as int)).contains_key(addr@) == accounts_map(
                    s,
                ).contains_key(addr@),
                accounts_map(s.take(i as int)).contains_key(addr@) ==> accounts_map(
                    s.take(i as int),
                )[addr@] == accounts_map(s)[addr@],
            decreases i,
        {
            i = i - 1;
            proof {
                lemma_accounts_map_step(s, i as int);
            }
            if self.accounts[i].0.eq_address(addr) {
                return Some(self.accounts[i].1.dup());
            }
        }
        proof {
            assert(s.take(0) =~= Seq::<(Address, AccountData)>::empty());
        }
        None
    }

    /// Whether `addr` is allocated.
    pub fn has_account(&self, addr: &Address) -> (r: bool)
        ensures
            r == self@.accounts.contains_key(addr@),
    {
        let found = self.get_account(addr);
        found.is_some()
    }

    /// Allocates `addr` and stores `data` there.
    pub(crate) fn put_account(&mut self, addr: Address, data: AccountData)
        ensures
            final(self)@.accounts == old(self)@.accounts.insert(addr@, data@),
            final(self)@.balances == old(self)@.balances,
            final(self)@.mints == old(self)@.mints,
            final(self)@.vesting_rent == old(self)@.vesting_rent,
            final(self)@.treasury_rent == old(self)@.treasury_rent,
    {
        let ghost pre = self.accounts@;
        let ghost a = addr@;
        let ghost d = data@;
        self.accounts.push((addr, data));
        proof {
            assert(self.accounts@.drop_last() =~= pre);
            assert(self.accounts@.last().0@ == a && self.accounts@.last().1@ == d);
        }
    }

    /// The funds that `who` holds; an identity never credited holds nothing.
    pub fn balance_of(&self, who: &Address) -> (r: u64)
        ensures
            r as int == self@.balance(who@),
    {
        let ghost s = self.balances@;
        let mut i: usize = self.balances.len();
        proof {
            assert(s.take(i as int) =~= s);
        }
        while i > 0
            invariant
                i <= s.len(),
                s == self.balances@,
                self@.balances == balances_map(s),
                balances_map(s.take(i as int)).contains_key(who@) == balances_map(
                    s,
                ).contains_key(who@),
                balances_map(s.take(i as int)).contains_key(who@) ==> balances_map(
                    s.take(i as int),
                )[who@] == balances_map(s)[who@],
            decreases i,
        {
            i = i - 1;
            proof {
                lemma_balances_map_step(s, i as int);
            }
            if self.balances[i].0.eq_address(who) {
                return self.balances[i].1;
            }
        }
        proof {
            assert(s.take(0) =~= Seq::<(Address, u64)>::empty());
        }
        0
    }

    /// Settles `who`'s balance to `amount` outright, as the host does when
    /// funds arrive from outside this core.
    pub fn set_balance(&mut self, who: &Address, amount: u64)
        ensures
            final(self)@.balances == old(self)@.balances.insert(who@, amount),
            final(self)@.accounts == old(self)@.accounts,
            final(self)@.mints == old(self)@.mints,
            final(self)@.vesting_rent == old(self)@.vesting_rent,
            final(self)@.treasury_rent == old(self)@.treasury_rent,
    {
        let ghost pre = self.balances@;
        self.balances.push((who.dup(), amount));
        proof {
            assert(self.balances@.drop_last() =~= pre);
        }
    }

    /// Charges `amount` against `who`'s funds.
    pub(crate) fn debit(&mut self, who: &Address, amount: u64)
        requires
            old(self)@.balance(who@) >= amount,
        ensures
            final(self)@.balances == old(self)@.balances.insert(
                who@,
                (old(self)@.balance(who@) - amount) as u64,
            ),
            final(self)@.accounts == old(self)@.accounts,
            final(self)@.mints == old(self)@.mints,
            final(self)@.vesting_rent == old(self)@.vesting_rent,
            final(self)@.treasury_rent == old(self)@.treasury_rent,
    {
        let b = self.balance_of(who);
        let remaining = b - amount;
        self.set_balance(who, remaining);
    }

    /// Records `mint` as a token type the token standard recognises.
    pub fn register_mint(&mut self, mint: &Address)
        ensures
            final(self)@.mints == old(self)@.mints.insert(mint@),
            final(self)@.accounts == old(self)@.accounts,
            final(self)@.balances == old(self)@.balances,
            final(self)@.vesting_rent == old(self)@.vesting_rent,
            final(self)@.treasury_rent == old(self)@.treasury_rent,
    {
        let ghost pre = self.mints@;
        self.mints.push(mint.dup());
        proof {
            assert(self.mints@.drop_last() =~= pre);
        }
    }

    /// Whether the token standard recognises `mint`.
    pub fn has_mint(&self, mint: &Address) -> (r: bool)
        ensures
            r == self@.mints.contains(mint@),
    {
        let ghost s = self.mints@;
        let mut i: usize = self.mints.len();
        proof {
            assert(s.take(i as int) =~= s);
        }
        while i > 0
            invariant
                i <= s.len(),
                s == self.mints@,
                self@.mints == mints_set(s),
                mints_set(s.take(i as int)).contains(mint@) == mints_set(s).contains(mint@),
            decreases i,
        {
            i = i - 1;
            proof {
                lemma_mints_set_step(s, i as int);
            }
            if self.mints[i].eq_address(mint) {
                return true;
            }
        }
        proof {
            assert(s.take(0) =~= Seq::<Address>::empty());
        }
        false
    }
}

} // verus!
