//! The ledger: every account of the marketplace, keyed by its address.
//!
//! An account holds a balance in minor units and a record. Wallets and escrow
//! accounts carry no payload; the other accounts carry one record each. The
//! view of a ledger is the map from address bytes to accounts.

use crate::address::Address;
use crate::errors::{AccountError, Error};
use crate::states::{Bounty, Client, Submission, User};
use vstd::prelude::*;

verus! {

/// What an account carries besides its balance.
#[derive(Clone, Debug, PartialEq, Eq)]
pub enum Record {
    /// A wallet: a balance under the control of a key holder.
    Wallet,
    /// The holding account of a bounty: a balance that only the bounty's
    /// lifecycle can move.
    Escrow,
    Client(Client),
    User(User),
    Bounty(Bounty),
    Submission(Submission),
}

impl Record {
    /// The invariant of the record carried, if it has one.
    pub open spec fn wf(self) -> bool {
        match self {
            Record::Bounty(b) => b.wf(),
            Record::Submission(s) => s.wf(),
            _ => true,
        }
    }

    /// Checks the invariant of the record carried.
    pub fn is_wf(&self) -> (r: bool)
        ensures
            r == self.wf(),
    {
        match self {
            Record::Bounty(b) => b.is_wf(),
            Record::Submission(s) => s.is_wf(),
            _ => true,
        }
    }
}

/// One account: its balance in minor units and what it carries.
#[derive(Clone, Debug, PartialEq, Eq)]
pub struct Account {
    pub lamports: u64,
    pub record: Record,
}

/// The accounts of a ledger by the bytes of their addresses.
pub type State = Map<Seq<u8>, Account>;

/// Balance held at `a`: zero where there is no account.
pub open spec fn balance_of(s: State, a: Seq<u8>) -> nat {
    if s.dom().contains(a) {
        s[a].lamports as nat
    } else {
        0
    }
}

/// Whether every record meets its invariant.
pub open spec fn state_wf(s: State) -> bool {
    forall|a: Seq<u8>| #[trigger] s.dom().contains(a) ==> s[a].record.wf()
}

/// The client record stored at `a`, if there is one.
pub open spec fn client_at(s: State, a: Seq<u8>) -> Option<Client> {
    if s.dom().contains(a) {
        match s[a].record {
            Record::Client(c) => Some(c),
            _ => None,
        }
    } else {
        None
    }
}

/// The user record stored at `a`, if there is one.
pub open spec fn user_at(s: State, a: Seq<u8>) -> Option<User> {
    if s.dom().contains(a) {
        match s[a].record {
            Record::User(u) => Some(u),
            _ => None,
        }
    } else {
        None
    }
}

/// The bounty stored at `a`, if there is one.
pub open spec fn bounty_at(s: State, a: Seq<u8>) -> Option<Bounty> {
    if s.dom().contains(a) {
        match s[a].record {
            Record::Bounty(b) => Some(b),
            _ => None,
        }
    } else {
        None
    }
}

/// The submission stored at `a`, if there is one.
pub open spec fn submission_at(s: State, a: Seq<u8>) -> Option<Submission> {
    if s.dom().contains(a) {
        match s[a].record {
            Record::Submission(x) => Some(x),
            _ => None,
        }
    } else {
        None
    }
}

/// Whether an escrow account exists at `a`.
pub open spec fn escrow_at(s: State, a: Seq<u8>) -> bool {
    s.dom().contains(a) && s[a].record is Escrow
}

/// The state after `amount` is added to the balance at `a`; an address
/// without an account becomes a wallet.
pub open spec fn credited(s: State, a: Seq<u8>, amount: u64) -> State {
    if s.dom().contains(a) {
        s.insert(a, Account { lamports: (s[a].lamports + amount) as u64, record: s[a].record })
    } else {
        s.insert(a, Account { lamports: amount, record: Record::Wallet })
    }
}

/// The state after `amount` is taken from the balance at `a`.
pub open spec fn debited(
    s: State,
    a: Seq<u8>,
    amount: u64,
) -> State recommends s.dom().contains(a), s[a].lamports >= amount, {
    s.insert(a, Account { lamports: (s[a].lamports - amount) as u64, record: s[a].record })
}

/// Whether a wallet exists at `a`. Whoever signs an operation holds one.
pub open spec fn wallet_at(s: State, a: Seq<u8>) -> bool {
    s.dom().contains(a) && s[a].record is Wallet
}

/// Whether `a` can be paid as a wallet: a wallet is there, or no account
/// yet. The address of a record or of an escrow account is nobody's wallet.
pub open spec fn payable(s: State, a: Seq<u8>) -> bool {
    !s.dom().contains(a) || s[a].record is Wallet
}

/// The state after the account at `a` is given `record`, its balance kept.
pub open spec fn with_record(
    s: State,
    a: Seq<u8>,
    record: Record,
) -> State recommends s.dom().contains(a), {
    s.insert(a, Account { lamports: s[a].lamports, record })
}

/// What an operation that reports `r` did to the accounts, against what it
/// was to do: on success the accounts are those of the outcome, on failure
/// the error is the outcome's and the accounts are untouched.
pub open spec fn committed(
    r: Result<(), Error>,
    outcome: Result<State, Error>,
    pre: State,
    post: State,
) -> bool {
    match r {
        Ok(()) => outcome == Ok::<State, Error>(post),
        Err(e) => outcome == Err::<State, Error>(e) && post == pre,
    }
}

struct Entry {
    address: Address,
    account: Account,
}

spec fn occupied(entries: Seq<Entry>, a: Seq<u8>) -> bool {
    exists|i: int| 0 <= i < entries.len() && (#[trigger] entries[i]).address@ == a
}

spec fn slot(entries: Seq<Entry>, a: Seq<u8>) -> int {
    choose|i: int| 0 <= i < entries.len() && (#[trigger] entries[i]).address@ == a
}

spec fn distinct(entries: Seq<Entry>) -> bool {
    forall|i: int, j: int|
        0 <= i < j < entries.len() ==> (#[trigger] entries[i]).address@ != (
        #[trigger] entries[j]).address@
}

spec fn as_state(entries: Seq<Entry>) -> State {
    Map::new(|a: Seq<u8>| occupied(entries, a), |a: Seq<u8>| entries[slot(entries, a)].account)
}

proof fn lemma_entry_in_state(entries: Seq<Entry>, i: int)
    requires
        distinct(entries),
        0 <= i < entries.len(),
    ensures
        as_state(entries).dom().contains(entries[i].address@),
        as_state(entries)[entries[i].address@] == entries[i].account,
{
    let a = entries[i].address@;
    assert(occupied(entries, a));
    let k = slot(entries, a);
    assert(0 <= k < entries.len() && entries[k].address@ == a);
    assert(k == i);
}

proof fn lemma_push(entries: Seq<Entry>, e: Entry)
    requires
        distinct(entries),
        !occupied(entries, e.address@),
    ensures
        distinct(entries.push(e)),
        as_state(entries.push(e)) == as_state(entries).insert(e.address@, e.account),
{
    let after = entries.push(e);
    assert(distinct(after)) by {
        assert forall|i: int, j: int| 0 <= i < j < after.len() implies (
        #[trigger] after[i]).address@ != (#[trigger] after[j]).address@ by {
            if j < entries.len() {
                assert(after[i] == entries[i] && after[j] == entries[j]);
            } else {
                assert(after[i] == entries[i]);
                assert(after[j] == e);
            }
        }
    }
    let lhs = as_state(after);
    let rhs = as_state(entries).insert(e.address@, e.account);
    assert forall|a: Seq<u8>| lhs.dom().contains(a) <==> rhs.dom().contains(a) by {
        if occupied(after, a) {
            let k = slot(after, a);
            if k < entries.len() {
                assert(entries[k] == after[k]);
                assert(occupied(entries, a));
            }
        }
        if occupied(entries, a) {
            let k = slot(entries, a);
            assert(after[k] == entries[k]);
            assert(occupied(after, a));
        }
        if a == e.address@ {
            assert(after[entries.len() as int] == e);
            assert(occupied(after, a));
        }
    }
    assert forall|a: Seq<u8>| lhs.dom().contains(a) implies lhs[a] == rhs[a] by {
        let k = slot(after, a);
        lemma_entry_in_state(after, k);
        if k < entries.len() {
            assert(after[k] == entries[k]);
            lemma_entry_in_state(entries, k);
        } else {
            assert(after[k] == e);
        }
    }
    assert(lhs =~= rhs);
}

proof fn lemma_remove(entries: Seq<Entry>, i: int)
    requires
        distinct(entries),
        0 <= i < entries.len(),
    ensures
        distinct(entries.remove(i)),
        !occupied(entries.remove(i), entries[i].address@),
        as_state(entries.remove(i)) == as_state(entries).remove(entries[i].address@),
{
    let after = entries.remove(i);
    let gone = entries[i].address@;
    assert forall|k: int| 0 <= k < after.len() implies #[trigger] after[k] == entries[if k < i {
        k
    } else {
        k + 1
    }] by {}
    assert(distinct(after)) by {
        assert forall|x: int, y: int| 0 <= x < y < after.len() implies (
        #[trigger] after[x]).address@ != (#[trigger] after[y]).address@ by {
            let fx = if x < i { x } else { x + 1 };
            let fy = if y < i { y } else { y + 1 };
            assert(after[x] == entries[fx] && after[y] == entries[fy]);
        }
    }
    assert(!occupied(after, gone)) by {
        if occupied(after, gone) {
            let k = slot(after, gone);
            let fk = if k < i { k } else { k + 1 };
            assert(after[k] == entries[fk]);
            assert(fk != i);
            if fk < i {
                assert(entries[fk].address@ != entries[i].address@);
            } else {
                assert(entries[i].address@ != entries[fk].address@);
            }
        }
    }
    let lhs = as_state(after);
    let rhs = as_state(entries).remove(gone);
    assert forall|a: Seq<u8>| lhs.dom().contains(a) <==> rhs.dom().contains(a) by {
        if occupied(after, a) {
            let k = slot(after, a);
            let fk = if k < i { k } else { k + 1 };
            assert(after[k] == entries[fk]);
            assert(occupied(entries, a));
        }
        if occupied(entries, a) && a != gone {
            let k = slot(entries, a);
            let bk = if k < i { k } else { k - 1 };
            assert(after[bk] == entries[k]);
            assert(occupied(after, a));
        }
    }
    assert forall|a: Seq<u8>| lhs.dom().contains(a) implies lhs[a] == rhs[a] by {
        let k = slot(after, a);
        let fk = if k < i { k } else { k + 1 };
        assert(after[k] == entries[fk]);
        lemma_entry_in_state(after, k);
        lemma_entry_in_state(entries, fk);
    }
    assert(lhs =~= rhs);
}

/// Every account of the marketplace, keyed by address. No address occurs
/// twice.
pub struct Ledger {
    program_id: Address,
    entries: Vec<Entry>,
}

impl View for Ledger {
    type V = State;

    closed spec fn view(&self) -> State {
        as_state(self.entries@)
    }
}

impl Ledger {
    /// The invariant of a ledger: no address occurs twice, and every record
    /// meets its own invariant.
    pub closed spec fn wf(&self) -> bool {
        &&& distinct(self.entries@)
        &&& state_wf(self@)
    }

    /// The program under which the addresses of records are derived.
    pub closed spec fn program(&self) -> Seq<u8> {
        self.program_id@
    }

    /// In a ledger that meets its invariant, every record meets its own.
    pub proof fn lemma_records_wf(&self)
        requires
            self.wf(),
        ensures
            state_wf(self@),
    {
    }

    /// An empty ledger for the program `program_id`.
    pub fn new(program_id: Address) -> (r: Ledger)
        ensures
            r.wf(),
            r@ == Map::<Seq<u8>, Account>::empty(),
            r.program() == program_id@,
    {
        let r = Ledger { program_id, entries: Vec::new() };
        assert(r@ =~= Map::<Seq<u8>, Account>::empty());
        r
    }

    /// The program under which the addresses of records are derived.
    pub fn program_id(&self) -> (r: Address)
        ensures
            r@ == self.program(),
    {
        self.program_id
    }

    fn position(&self, address: &Address) -> (r: Option<usize>)
        requires
            self.wf(),
        ensures
            match r {
                Some(i) => i < self.entries@.len() && self.entries@[i as int].address@ == address@
                    && self@.dom().contains(address@) && self@[address@]
                    == self.entries@[i as int].account,
                None => !self@.dom().contains(address@),
            },
    {
        let mut i: usize = 0;
        while i < self.entries.len()
            invariant
                self.wf(),
                0 <= i <= self.entries@.len(),
                forall|j: int| 0 <= j < i ==> (#[trigger] self.entries@[j]).address@ != address@,
            decreases self.entries@.len() - i,
        {
            if self.entries[i].address.same(address) {
                proof {
                    lemma_entry_in_state(self.entries@, i as int);
                }
                return Some(i);
            }
            i += 1;
        }
        assert(!occupied(self.entries@, address@));
        None
    }

    /// Whether an account exists at `address`.
    pub fn contains(&self, address: &Address) -> (r: bool)
        requires
            self.wf(),
        ensures
            r == self@.dom().contains(address@),
    {
        self.position(address).is_some()
    }

    /// The account at `address`, if there is one.
    pub fn account(&self, address: &Address) -> (r: Option<&Account>)
        requires
            self.wf(),
        ensures
            match r {
                Some(acc) => self@.dom().contains(address@) && *acc == self@[address@],
                None => !self@.dom().contains(address@),
            },
    {
        match self.position(address) {
            Some(i) => Some(&self.entries[i].account),
            None => None,
        }
    }

    /// The balance at `address`: zero where there is no account.
    pub fn lamports(&self, address: &Address) -> (r: u64)
        requires
            self.wf(),
        ensures
            r == balance_of(self@, address@),
    {
        match self.position(address) {
            Some(i) => self.entries[i].account.lamports,
            None => 0,
        }
    }

    /// The client record at `address`, if there is one.
    pub fn client(&self, address: &Address) -> (r: Option<&Client>)
        requires
            self.wf(),
        ensures
            match r {
                Some(c) => client_at(self@, address@) == Some(*c),
                None => client_at(self@, address@) is None,
            },
    {
        match self.account(address) {
            Some(acc) => match &acc.record {
                Record::Client(c) => Some(c),
                _ => None,
            },
            None => None,
        }
    }

    /// The user record at `address`, if there is one.
    pub fn user(&self, address: &Address) -> (r: Option<&User>)
        requires
            self.wf(),
        ensures
            match r {
                Some(u) => user_at(self@, address@) == Some(*u),
                None => user_at(self@, address@) is None,
            },
    {
        match self.account(address) {
            Some(acc) => match &acc.record {
                Record::User(u) => Some(u),
                _ => None,
            },
            None => None,
        }
    }

    /// The bounty at `address`, if there is one.
    pub fn bounty(&self, address: &Address) -> (r: Option<&Bounty>)
        requires
            self.wf(),
        ensures
            match r {
                Some(b) => bounty_at(self@, address@) == Some(*b) && b.wf(),
                None => bounty_at(self@, address@) is None,
            },
    {
        match self.account(address) {
            Some(acc) => match &acc.record {
                Record::Bounty(b) => Some(b),
                _ => None,
            },
            None => None,
        }
    }

    /// The submission at `address`, if there is one.
    pub fn submission(&self, address: &Address) -> (r: Option<&Submission>)
        requires
            self.wf(),
        ensures
            match r {
                Some(x) => submission_at(self@, address@) == Some(*x) && x.wf(),
                None => submission_at(self@, address@) is None,
            },
    {
        match self.account(address) {
            Some(acc) => match &acc.record {
                Record::Submission(x) => Some(x),
                _ => None,
            },
            None => None,
        }
    }

    /// Whether an escrow account exists at `address`.
    pub fn has_escrow(&self, address: &Address) -> (r: bool)
        requires
            self.wf(),
        ensures
            r == escrow_at(self@, address@),
    {
        match self.account(address) {
            Some(acc) => match &acc.record {
                Record::Escrow => true,
                _ => false,
            },
            None => false,
        }
    }

    /// Stores `account` at `address`, which must be free.
    pub(crate) fn insert(&mut self, address: Address, account: Account)
        requires
            old(self).wf(),
            !old(self)@.dom().contains(address@),
            account.record.wf(),
        ensures
            final(self).wf(),
            final(self).program() == old(self).program(),
            final(self)@ == old(self)@.insert(address@, account),
    {
        let entry = Entry { address, account };
        proof {
            lemma_push(self.entries@, entry);
        }
        self.entries.push(entry);
    }

    /// Takes the account at `address` out of the ledger, if there is one.
    pub fn remove(&mut self, address: &Address) -> (r: Option<Account>)
        requires
            old(self).wf(),
        ensures
            final(self).wf(),
            final(self).program() == old(self).program(),
            match r {
                Some(acc) => old(self)@.dom().contains(address@) && acc == old(self)@[address@]
                    && acc.record.wf() && final(self)@ == old(self)@.remove(address@),
                None => !old(self)@.dom().contains(address@) && final(self)@ == old(self)@,
            },
    {
        match self.position(address) {
            Some(i) => {
                proof {
                    lemma_remove(self.entries@, i as int);
                }
                let entry = self.entries.remove(i);
                Some(entry.account)
            },
            None => None,
        }
    }

    /// Opens an account at `address` if the address is free and the record
    /// meets its invariant; says whether it did.
    pub fn open_account(&mut self, address: Address, account: Account) -> (r: bool)
        requires
            old(self).wf(),
        ensures
            final(self).wf(),
            final(self).program() == old(self).program(),
            r == (!old(self)@.dom().contains(address@) && account.record.wf()),
            r ==> final(self)@ == old(self)@.insert(address@, account),
            !r ==> final(self)@ == old(self)@,
    {
        if self.contains(&address) || !account.record.is_wf() {
            return false;
        }
        self.insert(address, account);
        true
    }

    /// Adds `amount` to the balance at `address`; an address without an
    /// account becomes a wallet. Fails, changing nothing, where the balance
    /// would exceed its range.
    pub fn deposit(&mut self, address: &Address, amount: u64) -> (r: Result<(), Error>)
        requires
            old(self).wf(),
        ensures
            final(self).wf(),
            final(self).program() == old(self).program(),
            match r {
                Ok(()) => balance_of(old(self)@, address@) + amount <= u64::MAX && final(self)@
                    == credited(old(self)@, address@, amount),
                Err(e) => e == Error::Account(AccountError::ArithmeticOverflow) && balance_of(
                    old(self)@,
                    address@,
                ) + amount > u64::MAX && final(self)@ == old(self)@,
            },
    {
        if self.lamports(address) > u64::MAX - amount {
            return Err(Error::Account(AccountError::ArithmeticOverflow));
        }
        let account = match self.remove(address) {
            Some(found) => Account { lamports: found.lamports + amount, record: found.record },
            None => Account { lamports: amount, record: Record::Wallet },
        };
        self.insert(*address, account);
        assert(self@ =~= credited(old(self)@, address@, amount));
        Ok(())
    }

    /// Whether a wallet exists at `address`.
    pub fn has_wallet(&self, address: &Address) -> (r: bool)
        requires
            self.wf(),
        ensures
            r == wallet_at(self@, address@),
    {
        match self.account(address) {
            Some(acc) => match &acc.record {
                Record::Wallet => true,
                _ => false,
            },
            None => false,
        }
    }

    /// Whether `address` can be paid as a wallet.
    pub fn is_payable(&self, address: &Address) -> (r: bool)
        requires
            self.wf(),
        ensures
            r == payable(self@, address@),
    {
        match self.account(address) {
            Some(acc) => match &acc.record {
                Record::Wallet => true,
                _ => false,
            },
            None => true,
        }
    }

    /// Takes `amount` from the balance at `address`.
    pub(crate) fn withdraw(&mut self, address: &Address, amount: u64)
        requires
            old(self).wf(),
            old(self)@.dom().contains(address@),
            old(self)@[address@].lamports >= amount,
        ensures
            final(self).wf(),
            final(self).program() == old(self).program(),
            final(self)@ == debited(old(self)@, address@, amount),
    {
        let account = self.remove(address).unwrap();
        self.insert(
            *address,
            Account { lamports: account.lamports - amount, record: account.record },
        );
        assert(self@ =~= debited(old(self)@, address@, amount));
    }

    /// Takes the client record at `address` out of the ledger, together
    /// with the balance of its account.
    pub(crate) fn take_client(&mut self, address: &Address) -> (r: (u64, Client))
        requires
            old(self).wf(),
            client_at(old(self)@, address@) is Some,
        ensures
            final(self).wf(),
            final(self).program() == old(self).program(),
            final(self)@ == old(self)@.remove(address@),
            r.0 == old(self)@[address@].lamports,
            r.1 == client_at(old(self)@, address@).unwrap(),
    {
        match self.remove(address) {
            Some(Account { lamports, record: Record::Client(client) }) => (lamports, client),
            _ => vstd::pervasive::unreached(),
        }
    }

    /// Takes the user record at `address` out of the ledger, together with
    /// the balance of its account.
    pub(crate) fn take_user(&mut self, address: &Address) -> (r: (u64, User))
        requires
            old(self).wf(),
            user_at(old(self)@, address@) is Some,
        ensures
            final(self).wf(),
            final(self).program() == old(self).program(),
            final(self)@ == old(self)@.remove(address@),
            r.0 == old(self)@[address@].lamports,
            r.1 == user_at(old(self)@, address@).unwrap(),
    {
        match self.remove(address) {
            Some(Account { lamports, record: Record::User(user) }) => (lamports, user),
            _ => vstd::pervasive::unreached(),
        }
    }

    /// Takes the bounty at `address` out of the ledger, together with the
    /// balance of its account.
    pub(crate) fn take_bounty(&mut self, address: &Address) -> (r: (u64, Bounty))
        requires
            old(self).wf(),
            bounty_at(old(self)@, address@) is Some,
        ensures
            final(self).wf(),
            final(self).program() == old(self).program(),
            final(self)@ == old(self)@.remove(address@),
            r.0 == old(self)@[address@].lamports,
            r.1 == bounty_at(old(self)@, address@).unwrap(),
            r.1.wf(),
    {
        match self.remove(address) {
            Some(Account { lamports, record: Record::Bounty(bounty) }) => (lamports, bounty),
            _ => vstd::pervasive::unreached(),
        }
    }
}

} // verus!
