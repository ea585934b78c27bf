use vstd::prelude::*;
use vstd::pervasive::VecAdditionalExecFns;
use crate::errors::SaleError;
use crate::state::AccountId;

verus! {

/// An instruction to the custody service: move `amount` from `source` to
/// `destination` under `authority`. The engine decides transfers; a caller
/// carries them out, or the in-memory [`CustodyBook`] applies them directly.
#[derive(Clone, Copy, Debug, PartialEq, Eq, Structural)]
pub struct TransferRequest {
    /// Account debited.
    pub source: AccountId,
    /// Account credited.
    pub destination: AccountId,
    /// Identity authorizing the debit: the holder's own identity or a
    /// program-derived one.
    pub authority: AccountId,
    /// Units moved.
    pub amount: u64,
}

/// An instruction to the custody service: deallocate `account`, returning its
/// storage deposit to `rent_destination`. Honoured only on a zero balance.
#[derive(Clone, Copy, Debug, PartialEq, Eq, Structural)]
pub struct CloseRequest {
    /// Account to deallocate.
    pub account: AccountId,
    /// Identity authorizing the closure.
    pub authority: AccountId,
    /// Receiver of the freed storage deposit.
    pub rent_destination: AccountId,
}

/// One named balance under one controlling authority.
#[derive(Clone, Copy, Debug, PartialEq, Eq, Structural)]
pub struct CustodyAccount {
    /// The account's identity.
    pub id: AccountId,
    /// Identity whose signature the custody service demands for debits and
    /// closure.
    pub authority: AccountId,
    /// Units held.
    pub balance: u64,
}

/// An in-memory custody service: named balances, transfers under an
/// authority, and closure of emptied accounts. This is the interface the
/// engine's transfer and close requests are written against, realized
/// directly so that tests and simulations can run whole scenarios.
#[derive(Clone, Debug, PartialEq, Eq)]
pub struct CustodyBook {
    /// Every open account; identities are unique.
    pub accounts: Vec<CustodyAccount>,
}

impl CustodyBook {
    /// No two open accounts share an identity.
    pub open spec fn wf(self) -> bool {
        forall|i: int, j: int|
            0 <= i < j < self.accounts@.len() ==> (#[trigger] self.accounts@[i]).id
                != (#[trigger] self.accounts@[j]).id
    }

    /// Whether an account with this identity is open.
    pub open spec fn has_account(self, id: AccountId) -> bool {
        exists|i: int| 0 <= i < self.accounts@.len() && (#[trigger] self.accounts@[i]).id == id
    }

    /// The open account with this identity.
    pub open spec fn account_of(self, id: AccountId) -> CustodyAccount {
        self.accounts@[choose|i: int|
            0 <= i < self.accounts@.len() && (#[trigger] self.accounts@[i]).id == id]
    }

    /// With identities unique, the account at any position is the account of
    /// its identity.
    pub proof fn lemma_account_at(self, i: int)
        requires
            self.wf(),
            0 <= i < self.accounts@.len(),
        ensures
            self.has_account(self.accounts@[i].id),
            self.account_of(self.accounts@[i].id) == self.accounts@[i],
    {
        let id = self.accounts@[i].id;
        assert(self.has_account(id));
        let j = choose|j: int|
            0 <= j < self.accounts@.len() && (#[trigger] self.accounts@[j]).id == id;
        if j != i {
            assert(self.accounts@[i].id != self.accounts@[j].id);
        }
    }

    /// An empty book.
    pub fn new() -> (b: CustodyBook)
        ensures
            b.accounts@.len() == 0,
            b.wf(),
    {
        CustodyBook { accounts: Vec::new() }
    }

    /// The position of the account with this identity, if it is open.
    fn find_index(&self, id: AccountId) -> (r: Option<usize>)
        ensures
            match r {
                Some(i) => i < self.accounts@.len() && self.accounts@[i as int].id == id,
                None => !self.has_account(id),
            },
    {
        let mut i: usize = 0;
        while i < self.accounts.len()
            invariant
                i <= self.accounts@.len(),
                forall|j: int| 0 <= j < i ==> (#[trigger] self.accounts@[j]).id != id,
            decreases self.accounts@.len() - i,
        {
            if self.accounts[i].id == id {
                return Some(i);
            }
            i = i + 1;
        }
        None
    }

    /// Opens a fresh account with a zero balance under the given authority.
    pub fn open_account(&mut self, id: AccountId, authority: AccountId)
        requires
            old(self).wf(),
            !old(self).has_account(id),
        ensures
            final(self).accounts@ == old(self).accounts@.push(
                CustodyAccount { id, authority, balance: 0 },
            ),
            final(self).wf(),
            final(self).has_account(id),
            final(self).account_of(id) == (CustodyAccount { id, authority, balance: 0 }),
            forall|other: AccountId|
                other != id ==> (final(self).has_account(other) == old(self).has_account(other)),
            forall|other: AccountId|
                other != id && old(self).has_account(other) ==> final(self).account_of(other)
                    == old(self).account_of(other),
    {
        let ghost prior = self.accounts@;
        self.accounts.push(CustodyAccount { id, authority, balance: 0 });
        proof {
            let n = prior.len() as int;
            assert forall|i: int, j: int| 0 <= i < j < self.accounts@.len() implies (
            #[trigger] self.accounts@[i]).id != (#[trigger] self.accounts@[j]).id by {
                if j < n {
                    assert(prior[i].id != prior[j].id);
                }
            }
            self.lemma_account_at(n);
            assert forall|other: AccountId| other != id implies (final(self).has_account(other)
                == old(self).has_account(other)) by {
                if old(self).has_account(other) {
                    let w = choose|w: int|
                        0 <= w < prior.len() && (#[trigger] prior[w]).id == other;
                    assert(self.accounts@[w].id == other);
                }
                if self.has_account(other) {
                    let w = choose|w: int|
                        0 <= w < self.accounts@.len() && (#[trigger] self.accounts@[w]).id
                            == other;
                    assert(prior[w].id == other);
                }
            }
            assert forall|other: AccountId| other != id && old(self).has_account(other) implies
                final(self).account_of(other) == old(self).account_of(other) by {
                let w = choose|w: int| 0 <= w < prior.len() && (#[trigger] prior[w]).id == other;
                old(self).lemma_account_at(w);
                self.lemma_account_at(w);
            }
        }
    }

    /// Issues `amount` fresh units into an open account: how inventory first
    /// enters the book in a test or simulation.
    pub fn mint(&mut self, id: AccountId, amount: u64)
        requires
            old(self).wf(),
            old(self).has_account(id),
            old(self).account_of(id).balance + amount <= u64::MAX,
        ensures
            final(self).wf(),
            final(self).accounts@.len() == old(self).accounts@.len(),
            forall|i: int|
                0 <= i < old(self).accounts@.len() ==> (#[trigger] final(self).accounts@[i]).id
                    == old(self).accounts@[i].id && final(self).accounts@[i].authority
                    == old(self).accounts@[i].authority,
            final(self).has_account(id),
            final(self).account_of(id).balance == old(self).account_of(id).balance + amount,
            forall|other: AccountId|
                final(self).has_account(other) == old(self).has_account(other),
            forall|other: AccountId|
                other != id && old(self).has_account(other) ==> final(self).account_of(other)
                    == old(self).account_of(other),
    {
        let ghost prior = *old(self);
        let i = match self.find_index(id) {
            Some(i) => i,
            None => {
                proof {
                    assert(false);
                }
                0
            },
        };
        proof {
            self.lemma_account_at(i as int);
        }
        let acct = self.accounts[i];
        self.accounts.set(i, CustodyAccount { balance: acct.balance + amount, ..acct });
        proof {
            lemma_same_ids_preserve_lookups(prior, *self);
            self.lemma_account_at(i as int);
        }
    }

    /// Applies a transfer: debits the source under its authority and credits
    /// the destination. Fails with `InsufficientFunds`, changing nothing,
    /// when the source holds less than the amount.
    pub fn transfer(&mut self, t: &TransferRequest) -> (r: Result<(), SaleError>)
        requires
            old(self).wf(),
            old(self).has_account(t.source),
            old(self).has_account(t.destination),
            t.source != t.destination,
            t.authority == old(self).account_of(t.source).authority,
            old(self).account_of(t.destination).balance + t.amount <= u64::MAX,
        ensures
            final(self).wf(),
            final(self).accounts@.len() == old(self).accounts@.len(),
            forall|i: int|
                0 <= i < old(self).accounts@.len() ==> (#[trigger] final(self).accounts@[i]).id
                    == old(self).accounts@[i].id && final(self).accounts@[i].authority
                    == old(self).accounts@[i].authority,
            forall|other: AccountId|
                final(self).has_account(other) == old(self).has_account(other),
            match r {
                Err(e) => e == SaleError::InsufficientFunds && t.amount > old(self).account_of(
                    t.source,
                ).balance && *final(self) == *old(self),
                Ok(_) => {
                    &&& t.amount <= old(self).account_of(t.source).balance
                    &&& final(self).account_of(t.source).balance == old(self).account_of(
                        t.source,
                    ).balance - t.amount
                    &&& final(self).account_of(t.destination).balance == old(self).account_of(
                        t.destination,
                    ).balance + t.amount
                    &&& forall|other: AccountId|
                        other != t.source && other != t.destination && old(self).has_account(
                            other,
                        ) ==> final(self).account_of(other) == old(self).account_of(other)
                },
            },
    {
        let ghost prior = *old(self);
        let si = match self.find_index(t.source) {
            Some(i) => i,
            None => {
                proof {
                    assert(false);
                }
                0
            },
        };
        let di = match self.find_index(t.destination) {
            Some(i) => i,
            None => {
                proof {
                    assert(false);
                }
                0
            },
        };
        proof {
            self.lemma_account_at(si as int);
            self.lemma_account_at(di as int);
        }
        let source_acct = self.accounts[si];
        if t.amount > source_acct.balance {
            return Err(SaleError::InsufficientFunds);
        }
        self.accounts.set(
            si,
            CustodyAccount { balance: source_acct.balance - t.amount, ..source_acct },
        );
        let dest_acct = self.accounts[di];
        self.accounts.set(
            di,
            CustodyAccount { balance: dest_acct.balance + t.amount, ..dest_acct },
        );
        proof {
            lemma_same_ids_preserve_lookups(prior, *self);
            self.lemma_account_at(si as int);
            self.lemma_account_at(di as int);
            assert forall|other: AccountId|
                other != t.source && other != t.destination && prior.has_account(other) implies
                self.account_of(other) == prior.account_of(other) by {
                let w = choose|w: int|
                    0 <= w < prior.accounts@.len() && (#[trigger] prior.accounts@[w]).id == other;
                prior.lemma_account_at(w);
                self.lemma_account_at(w);
            }
        }
        Ok(())
    }

    /// Honours a close request: deallocates the account under its authority.
    /// Fails with `NonZeroBalance`, changing nothing, while the account
    /// still holds funds.
    pub fn close(&mut self, c: &CloseRequest) -> (r: Result<(), SaleError>)
        requires
            old(self).wf(),
            old(self).has_account(c.account),
            c.authority == old(self).account_of(c.account).authority,
        ensures
            final(self).wf(),
            match r {
                Err(e) => e == SaleError::NonZeroBalance && old(self).account_of(
                    c.account,
                ).balance != 0 && *final(self) == *old(self),
                Ok(_) => {
                    &&& old(self).account_of(c.account).balance == 0
                    &&& final(self).accounts@.len() == old(self).accounts@.len() - 1
                    &&& !final(self).has_account(c.account)
                    &&& forall|other: AccountId|
                        other != c.account ==> (final(self).has_account(other)
                            == old(self).has_account(other))
                    &&& forall|other: AccountId|
                        other != c.account && old(self).has_account(other)
                            ==> final(self).account_of(other) == old(self).account_of(other)
                },
            },
    {
        let ghost prior = *old(self);
        let i = match self.find_index(c.account) {
            Some(i) => i,
            None => {
                proof {
                    assert(false);
                }
                0
            },
        };
        proof {
            self.lemma_account_at(i as int);
        }
        if self.accounts[i].balance != 0 {
            return Err(SaleError::NonZeroBalance);
        }
        self.accounts.remove(i);
        proof {
            let n = prior.accounts@.len() as int;
            let at = i as int;
            assert forall|x: int, y: int| 0 <= x < y < self.accounts@.len() implies (
            #[trigger] self.accounts@[x]).id != (#[trigger] self.accounts@[y]).id by {
                let px = if x < at { x } else { x + 1 };
                let py = if y < at { y } else { y + 1 };
                assert(prior.accounts@[px].id != prior.accounts@[py].id);
            }
            assert forall|k: int| 0 <= k < self.accounts@.len() implies (
            #[trigger] self.accounts@[k]).id != c.account by {
                let pk = if k < at { k } else { k + 1 };
                if pk != at {
                    assert(prior.accounts@[pk].id != prior.accounts@[at].id);
                }
            }
            assert forall|other: AccountId| other != c.account implies (self.has_account(other)
                == prior.has_account(other)) by {
                if prior.has_account(other) {
                    let w = choose|w: int|
                        0 <= w < prior.accounts@.len() && (#[trigger] prior.accounts@[w]).id
                            == other;
                    if w < at {
                        assert(self.accounts@[w].id == other);
                    } else {
                        assert(self.accounts@[w - 1].id == other);
                    }
                }
                if self.has_account(other) {
                    let w = choose|w: int|
                        0 <= w < self.accounts@.len() && (#[trigger] self.accounts@[w]).id
                            == other;
                    if w < at {
                        assert(prior.accounts@[w].id == other);
                    } else {
                        assert(prior.accounts@[w + 1].id == other);
                    }
                }
            }
            assert forall|other: AccountId| other != c.account && prior.has_account(other) implies
                self.account_of(other) == prior.account_of(other) by {
                let w = choose|w: int|
                    0 <= w < prior.accounts@.len() && (#[trigger] prior.accounts@[w]).id == other;
                prior.lemma_account_at(w);
                if w < at {
                    self.lemma_account_at(w);
                } else {
                    self.lemma_account_at(w - 1);
                }
            }
        }
        Ok(())
    }

    /// The live balance of an open account.
    pub fn balance_of(&self, id: AccountId) -> (r: u64)
        requires
            self.wf(),
            self.has_account(id),
        ensures
            r == self.account_of(id).balance,
    {
        let i = match self.find_index(id) {
            Some(i) => i,
            None => {
                proof {
                    assert(false);
                }
                0
            },
        };
        proof {
            self.lemma_account_at(i as int);
        }
        self.accounts[i].balance
    }
}

/// Two books of the same length whose accounts carry the same identity at
/// every position agree on which identities are open; whichever is
/// well-formed, so is the other.
proof fn lemma_same_ids_preserve_lookups(a: CustodyBook, b: CustodyBook)
    requires
        a.wf(),
        a.accounts@.len() == b.accounts@.len(),
        forall|i: int|
            0 <= i < a.accounts@.len() ==> (#[trigger] a.accounts@[i]).id == (
            #[trigger] b.accounts@[i]).id,
    ensures
        b.wf(),
        forall|id: AccountId| a.has_account(id) == b.has_account(id),
{
    assert forall|i: int, j: int| 0 <= i < j < b.accounts@.len() implies (
    #[trigger] b.accounts@[i]).id != (#[trigger] b.accounts@[j]).id by {
        assert(a.accounts@[i].id != a.accounts@[j].id);
    }
    assert forall|id: AccountId| a.has_account(id) == b.has_account(id) by {
        if a.has_account(id) {
            let w = choose|w: int|
                0 <= w < a.accounts@.len() && (#[trigger] a.accounts@[w]).id == id;
            assert(b.accounts@[w].id == id);
        }
        if b.has_account(id) {
            let w = choose|w: int|
                0 <= w < b.accounts@.len() && (#[trigger] b.accounts@[w]).id == id;
            assert(a.accounts@[w].id == id);
        }
    }
}

} // verus!
