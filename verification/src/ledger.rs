//! Movements of funds between balances, who authorises them, and a ledger
//! that carries them out in memory.

use vstd::prelude::*;
use vstd::std_specs::cmp::PartialEqSpecImpl;
use crate::identity::Identity;

verus! {

/// An asset and the decimal precision in which its amounts are denominated.
#[derive(Clone, Copy, Debug, PartialEq, Eq)]
pub struct Mint {
    pub key: Identity,
    pub decimals: u8,
}

/// Who authorises a movement of funds out of a balance.
#[derive(Clone, Copy, Debug, Eq)]
pub enum Authority {
    /// A party that signs for itself.
    Party(Identity),
    /// The auction itself, which signs for the pooled balance. No party can
    /// sign in its place.
    Custodian,
}

impl PartialEq for Authority {
    /// Two authorities are equal when both are the custodian or both are the
    /// same party.
    fn eq(&self, other: &Authority) -> (r: bool) {
        match (self, other) {
            (Authority::Party(a), Authority::Party(b)) => *a == *b,
            (Authority::Custodian, Authority::Custodian) => true,
            _ => false,
        }
    }
}

impl PartialEqSpecImpl for Authority {
    open spec fn obeys_eq_spec() -> bool {
        true
    }

    open spec fn eq_spec(&self, other: &Authority) -> bool {
        *self == *other
    }
}

/// One movement of exactly `amount` from one balance to another.
#[derive(Clone, Copy, Debug, PartialEq, Eq)]
pub struct Transfer {
    pub from: Identity,
    pub to: Identity,
    pub authority: Authority,
    /// The asset that is moved.
    pub mint: Identity,
    pub amount: u64,
    /// The decimal precision in which `amount` is denominated.
    pub decimals: u8,
}

/// One balance of a ledger.
#[derive(Clone, Copy, Debug, PartialEq, Eq)]
pub struct Balance {
    pub address: Identity,
    /// Who may move funds out of this balance.
    pub owner: Authority,
    pub amount: u64,
}

/// Why a ledger refuses.
#[derive(Clone, Copy, Debug, PartialEq, Eq, Structural)]
pub enum LedgerError {
    /// One end of the movement is no balance of this ledger.
    UnknownBalance,
    /// Both ends of the movement are the same balance.
    SameBalance,
    /// The movement is not authorised by the owner of its source.
    Unauthorized,
    /// The movement names another asset or another precision than the
    /// ledger's.
    DenominationMismatch,
    /// The source holds less than the movement asks for.
    InsufficientFunds,
    /// The target would hold more than a balance can.
    Overflow,
    /// A balance with this address is open already.
    BalanceExists,
}

/// Why a ledger of asset `mint` whose balances are `book` refuses the
/// movement `t`, if it does. The first reason that applies is the one
/// reported.
pub open spec fn transfer_rejection(
    mint: Mint,
    book: Map<Identity, Balance>,
    t: Transfer,
) -> Option<LedgerError> {
    if !book.dom().contains(t.from) || !book.dom().contains(t.to) {
        Some(LedgerError::UnknownBalance)
    } else if t.from == t.to {
        Some(LedgerError::SameBalance)
    } else if book[t.from].owner != t.authority {
        Some(LedgerError::Unauthorized)
    } else if t.mint != mint.key || t.decimals != mint.decimals {
        Some(LedgerError::DenominationMismatch)
    } else if book[t.from].amount < t.amount {
        Some(LedgerError::InsufficientFunds)
    } else if book[t.to].amount + t.amount > u64::MAX {
        Some(LedgerError::Overflow)
    } else {
        None
    }
}

/// The balances after the movement `t` was carried out on `book`: the source
/// holds `t.amount` less, the target `t.amount` more, and nothing else
/// differs.
pub open spec fn transferred(book: Map<Identity, Balance>, t: Transfer) -> Map<Identity, Balance> {
    book.insert(
        t.from,
        Balance { amount: (book[t.from].amount - t.amount) as u64, ..book[t.from] },
    ).insert(t.to, Balance { amount: (book[t.to].amount + t.amount) as u64, ..book[t.to] })
}

/// No two balances of `s` have the same address.
spec fn distinct(s: Seq<Balance>) -> bool {
    forall|i: int, j: int|
        0 <= i < s.len() && 0 <= j < s.len() && i != j ==> s[i].address != s[j].address
}

/// Some balance of `s` has the address `a`.
spec fn listed(s: Seq<Balance>, a: Identity) -> bool {
    exists|i: int| 0 <= i < s.len() && #[trigger] s[i].address == a
}

/// The place in `s` of a balance with the address `a`.
spec fn place_of(s: Seq<Balance>, a: Identity) -> int {
    choose|i: int| 0 <= i < s.len() && #[trigger] s[i].address == a
}

/// The balances of `s`, by address.
spec fn book_of(s: Seq<Balance>) -> Map<Identity, Balance> {
    Map::new(|a: Identity| listed(s, a), |a: Identity| s[place_of(s, a)])
}

/// A balance at a place of a list without repetition is the one filed under
/// its address.
proof fn lemma_book_at(s: Seq<Balance>, i: int)
    requires
        distinct(s),
        0 <= i < s.len(),
    ensures
        book_of(s).dom().contains(s[i].address),
        book_of(s)[s[i].address] == s[i],
        place_of(s, s[i].address) == i,
{
    assert(listed(s, s[i].address));
}

/// An address that no balance of the list has is not in the book.
proof fn lemma_book_without(s: Seq<Balance>, a: Identity)
    requires
        forall|j: int| 0 <= j < s.len() ==> s[j].address != a,
    ensures
        !book_of(s).dom().contains(a),
{
}

/// Replacing a balance by one of the same address replaces it in the book.
proof fn lemma_book_update(s: Seq<Balance>, i: int, b: Balance)
    requires
        distinct(s),
        0 <= i < s.len(),
        b.address == s[i].address,
    ensures
        distinct(s.update(i, b)),
        book_of(s.update(i, b)) == book_of(s).insert(b.address, b),
{
    let u = s.update(i, b);
    assert(distinct(u));
    assert forall|a: Identity| listed(u, a) == (listed(s, a) || a == b.address) by {
        if listed(u, a) {
            let k = place_of(u, a);
            assert(s[k].address == a);
        }
        if listed(s, a) {
            let k = place_of(s, a);
            assert(u[k].address == a);
        }
        if a == b.address {
            assert(u[i].address == a);
        }
    }
    assert forall|a: Identity| listed(u, a) implies #[trigger] book_of(u)[a] == book_of(s).insert(
        b.address,
        b,
    )[a] by {
        let k = place_of(u, a);
        lemma_book_at(u, k);
        if a != b.address {
            assert(k != i);
            lemma_book_at(s, k);
        }
    }
    assert(book_of(u) =~= book_of(s).insert(b.address, b));
}

/// Appending a balance with a new address files it in the book.
proof fn lemma_book_push(s: Seq<Balance>, b: Balance)
    requires
        distinct(s),
        !listed(s, b.address),
    ensures
        distinct(s.push(b)),
        book_of(s.push(b)) == book_of(s).insert(b.address, b),
{
    let u = s.push(b);
    assert forall|i: int, j: int|
        0 <= i < u.len() && 0 <= j < u.len() && i != j implies u[i].address != u[j].address by {
        if i < s.len() && j < s.len() {
        } else if i < s.len() {
            assert(s[i].address == u[i].address);
        } else {
            assert(s[j].address == u[j].address);
        }
    }
    assert forall|a: Identity| listed(u, a) == (listed(s, a) || a == b.address) by {
        if listed(u, a) {
            let k = place_of(u, a);
            if k < s.len() {
                assert(s[k].address == a);
            }
        }
        if listed(s, a) {
            let k = place_of(s, a);
            assert(u[k].address == a);
        }
        if a == b.address {
            assert(u[s.len() as int].address == a);
        }
    }
    assert forall|a: Identity| listed(u, a) implies #[trigger] book_of(u)[a] == book_of(s).insert(
        b.address,
        b,
    )[a] by {
        let k = place_of(u, a);
        lemma_book_at(u, k);
        if a != b.address {
            lemma_book_at(s, k);
        }
    }
    assert(book_of(u) =~= book_of(s).insert(b.address, b));
}

/// A ledger of one asset, kept in memory. It carries out exact movements
/// between its balances and refuses every movement that the owner of the
/// source has not authorised.
pub struct Ledger {
    mint: Mint,
    balances: Vec<Balance>,
}

/// A ledger, seen mathematically.
pub struct LedgerView {
    /// The asset of the ledger.
    pub mint: Mint,
    /// The balances of the ledger, by address.
    pub book: Map<Identity, Balance>,
}

impl View for Ledger {
    type V = LedgerView;

    /// The asset of the ledger and its balances, by address.
    closed spec fn view(&self) -> LedgerView {
        LedgerView { mint: self.mint, book: book_of(self.balances@) }
    }
}

impl Ledger {
    /// Every balance is listed once.
    pub closed spec fn wf(&self) -> bool {
        distinct(self.balances@)
    }

    /// A ledger of the asset `mint` without any balance.
    pub fn new(mint: Mint) -> (ledger: Ledger)
        ensures
            ledger.wf(),
            ledger@ == (LedgerView { mint, book: Map::empty() }),
    {
        let ledger = Ledger { mint, balances: Vec::new() };
        assert(ledger@.book =~= Map::<Identity, Balance>::empty());
        ledger
    }

    /// The place of the balance at `address` in the list, if there is one.
    fn position(&self, address: &Identity) -> (r: Option<usize>)
        requires
            self.wf(),
        ensures
            match r {
                Some(i) => {
                    &&& i < self.balances@.len()
                    &&& self.balances@[i as int].address == *address
                    &&& self@.book.dom().contains(*address)
                    &&& self@.book[*address] == self.balances@[i as int]
                },
                None => !self@.book.dom().contains(*address),
            },
    {
        let mut i: usize = 0;
        while i < self.balances.len()
            invariant
                self.wf(),
                i <= self.balances@.len(),
                forall|j: int| 0 <= j < i ==> self.balances@[j].address != *address,
            decreases self.balances@.len() - i,
        {
            if self.balances[i].address == *address {
                proof {
                    lemma_book_at(self.balances@, i as int);
                }
                return Some(i);
            }
            i += 1;
        }
        proof {
            lemma_book_without(self.balances@, *address);
        }
        None
    }

    /// The balance at `address`, if the ledger has one.
    pub fn get(&self, address: &Identity) -> (r: Option<Balance>)
        requires
            self.wf(),
        ensures
            r == if self@.book.dom().contains(*address) {
                Some(self@.book[*address])
            } else {
                None
            },
    {
        match self.position(address) {
            Some(i) => Some(self.balances[i]),
            None => None,
        }
    }

    /// Opens a balance at `address` that `owner` has authority over and that
    /// holds `amount`. Refused, with nothing changed, exactly when the
    /// address has a balance already.
    pub fn open(&mut self, address: Identity, owner: Authority, amount: u64) -> (r: Result<
        (),
        LedgerError,
    >)
        requires
            old(self).wf(),
        ensures
            final(self).wf(),
            match r {
                Ok(()) => {
                    &&& !old(self)@.book.dom().contains(address)
                    &&& final(self)@ == (LedgerView {
                        book: old(self)@.book.insert(address, Balance { address, owner, amount }),
                        ..old(self)@
                    })
                },
                Err(e) => {
                    &&& e == LedgerError::BalanceExists
                    &&& old(self)@.book.dom().contains(address)
                    &&& final(self)@ == old(self)@
                },
            },
    {
        match self.position(&address) {
            Some(_) => Err(LedgerError::BalanceExists),
            None => {
                proof {
                    lemma_book_push(self.balances@, Balance { address, owner, amount });
                }
                self.balances.push(Balance { address, owner, amount });
                Ok(())
            },
        }
    }

    /// Carries out the movement `t`, or refuses it and changes nothing.
    pub fn transfer(&mut self, t: &Transfer) -> (r: Result<(), LedgerError>)
        requires
            old(self).wf(),
        ensures
            final(self).wf(),
            match r {
                Ok(()) => {
                    &&& transfer_rejection(old(self)@.mint, old(self)@.book, *t) is None
                    &&& final(self)@ == (LedgerView {
                        book: transferred(old(self)@.book, *t),
                        ..old(self)@
                    })
                },
                Err(e) => {
                    &&& transfer_rejection(old(self)@.mint, old(self)@.book, *t) == Some(e)
                    &&& final(self)@ == old(self)@
                },
            },
    {
        let from: usize = match self.position(&t.from) {
            Some(i) => i,
            None => {
                return Err(LedgerError::UnknownBalance);
            },
        };
        let to: usize = match self.position(&t.to) {
            Some(i) => i,
            None => {
                return Err(LedgerError::UnknownBalance);
            },
        };
        if from == to {
            return Err(LedgerError::SameBalance);
        }
        let source = self.balances[from];
        let target = self.balances[to];
        if source.owner != t.authority {
            return Err(LedgerError::Unauthorized);
        }
        if t.mint != self.mint.key || t.decimals != self.mint.decimals {
            return Err(LedgerError::DenominationMismatch);
        }
        let debited: u64 = match source.amount.checked_sub(t.amount) {
            Some(rest) => rest,
            None => {
                return Err(LedgerError::InsufficientFunds);
            },
        };
        let credited: u64 = match target.amount.checked_add(t.amount) {
            Some(sum) => sum,
            None => {
                return Err(LedgerError::Overflow);
            },
        };
        proof {
            let s0 = self.balances@;
            let b0 = Balance { amount: debited, ..source };
            let b1 = Balance { amount: credited, ..target };
            lemma_book_update(s0, from as int, b0);
            let s1 = s0.update(from as int, b0);
            lemma_book_at(s0, to as int);
            lemma_book_update(s1, to as int, b1);
        }
        self.balances[from].amount = debited;
        self.balances[to].amount = credited;
        Ok(())
    }
}

} // verus!
