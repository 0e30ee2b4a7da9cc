//! An explicit model of the external fungible-token ledger, at exactly the
//! interface the protocol consumes: balances per token and holder, allowances
//! per token, owner and spender, and the transfer, pull-transfer and approve
//! operations over them.
//!
//! The records are append-only vectors of writes; the value of a cell is the
//! last write to it, zero if none. Every operation either succeeds and
//! changes exactly the cells it names, or fails and changes nothing.

use vstd::prelude::*;

use crate::addr::Address;

verus! {

/// The balance that a sequence of balance writes leaves a holder at: the last
/// write wins, and a never-written cell is at zero.
pub open spec fn bal_lookup(entries: Seq<(Address, Address, u128)>, token: Address, holder: Address) -> u128
    decreases entries.len(),
{
    if entries.len() == 0 {
        0
    } else if entries.last().0 == token && entries.last().1 == holder {
        entries.last().2
    } else {
        bal_lookup(entries.drop_last(), token, holder)
    }
}

/// The allowance that a sequence of allowance writes leaves a cell at.
pub open spec fn allow_lookup(
    entries: Seq<(Address, Address, Address, u128)>,
    token: Address,
    owner: Address,
    spender: Address,
) -> u128
    decreases entries.len(),
{
    if entries.len() == 0 {
        0
    } else if entries.last().0 == token && entries.last().1 == owner && entries.last().2
        == spender {
        entries.last().3
    } else {
        allow_lookup(entries.drop_last(), token, owner, spender)
    }
}

/// Balances and allowances of every token in one place.
pub struct TokenLedger {
    /// The history of balance writes: token, holder, new balance.
    pub balances: Vec<(Address, Address, u128)>,
    /// The history of allowance writes: token, owner, spender, new allowance.
    pub allowances: Vec<(Address, Address, Address, u128)>,
}

/// Whether a transfer can go through: the sender covers the amount, and the
/// recipient's balance cannot overflow.
pub open spec fn spec_transfer_ok(
    l: TokenLedger,
    token: Address,
    from: Address,
    to: Address,
    amount: u128,
) -> bool {
    &&& l.spec_balance_of(token, from) >= amount
    &&& (from == to || l.spec_balance_of(token, to) + amount <= u128::MAX)
}

/// Each holder's balance after a successful transfer.
pub open spec fn spec_balance_after_transfer(
    l: TokenLedger,
    token: Address,
    from: Address,
    to: Address,
    amount: u128,
    t2: Address,
    h2: Address,
) -> int {
    if from == to {
        l.spec_balance_of(t2, h2) as int
    } else if t2 == token && h2 == from {
        l.spec_balance_of(token, from) - amount
    } else if t2 == token && h2 == to {
        l.spec_balance_of(token, to) + amount
    } else {
        l.spec_balance_of(t2, h2) as int
    }
}

impl TokenLedger {
    /// The balance of a holder in a token, zero if never written.
    pub open spec fn spec_balance_of(&self, token: Address, holder: Address) -> u128 {
        bal_lookup(self.balances@, token, holder)
    }

    /// The allowance an owner has granted a spender in a token, zero if never
    /// written.
    pub open spec fn spec_allowance(&self, token: Address, owner: Address, spender: Address) -> u128 {
        allow_lookup(self.allowances@, token, owner, spender)
    }

    /// An empty ledger: every balance and allowance zero.
    pub fn new() -> (r: TokenLedger)
        ensures
            forall|t: Address, h: Address| r.spec_balance_of(t, h) == 0,
            forall|t: Address, o: Address, s: Address| r.spec_allowance(t, o, s) == 0,
    {
        TokenLedger { balances: Vec::new(), allowances: Vec::new() }
    }

    /// Writes a holder's balance outright. This stands in for the token's own
    /// issuance, outside the protocol: tests and deployment set the scene with
    /// it, no loan-path code calls it.
    pub fn set_balance(&mut self, token: Address, holder: Address, amount: u128)
        ensures
            final(self).allowances@ == old(self).allowances@,
            forall|t2: Address, o2: Address, s2: Address|
                final(self).spec_allowance(t2, o2, s2) == old(self).spec_allowance(t2, o2, s2),
            forall|t2: Address, h2: Address|
                final(self).spec_balance_of(t2, h2) == if t2 == token && h2 == holder {
                    amount
                } else {
                    old(self).spec_balance_of(t2, h2)
                },
    {
        self.balances.push((token, holder, amount));
        proof {
            assert(self.balances@.drop_last() =~= old(self).balances@);
        }
    }

    /// Reads a holder's balance.
    pub fn balance_of(&self, token: Address, holder: Address) -> (r: u128)
        ensures
            r == self.spec_balance_of(token, holder),
    {
        proof {
            assert(self.balances@.take(self.balances@.len() as int) =~= self.balances@);
        }
        let mut i: usize = self.balances.len();
        while i > 0
            invariant
                i <= self.balances.len(),
                bal_lookup(self.balances@, token, holder) == bal_lookup(
                    self.balances@.take(i as int),
                    token,
                    holder,
                ),
            decreases i,
        {
            i = i - 1;
            let entry = self.balances[i];
            proof {
                assert(self.balances@.take(i as int + 1).last() == self.balances@[i as int]);
                assert(self.balances@.take(i as int + 1).drop_last() =~= self.balances@.take(
                    i as int,
                ));
            }
            if entry.0 == token && entry.1 == holder {
                return entry.2;
            }
        }
        0
    }

    /// Reads an allowance.
    pub fn allowance(&self, token: Address, owner: Address, spender: Address) -> (r: u128)
        ensures
            r == self.spec_allowance(token, owner, spender),
    {
        proof {
            assert(self.allowances@.take(self.allowances@.len() as int) =~= self.allowances@);
        }
        let mut i: usize = self.allowances.len();
        while i > 0
            invariant
                i <= self.allowances.len(),
                allow_lookup(self.allowances@, token, owner, spender) == allow_lookup(
                    self.allowances@.take(i as int),
                    token,
                    owner,
                    spender,
                ),
            decreases i,
        {
            i = i - 1;
            let entry = self.allowances[i];
            proof {
                assert(self.allowances@.take(i as int + 1).last() == self.allowances@[i as int]);
                assert(self.allowances@.take(i as int + 1).drop_last() =~= self.allowances@.take(
                    i as int,
                ));
            }
            if entry.0 == token && entry.1 == owner && entry.2 == spender {
                return entry.3;
            }
        }
        0
    }

    /// Grants a spender an allowance, overriding any earlier grant.
    pub fn approve(&mut self, token: Address, owner: Address, spender: Address, amount: u128)
        ensures
            final(self).balances@ == old(self).balances@,
            forall|t2: Address, h2: Address|
                final(self).spec_balance_of(t2, h2) == old(self).spec_balance_of(t2, h2),
            forall|t2: Address, o2: Address, s2: Address|
                final(self).spec_allowance(t2, o2, s2) == if t2 == token && o2 == owner && s2
                    == spender {
                    amount
                } else {
                    old(self).spec_allowance(t2, o2, s2)
                },
    {
        self.allowances.push((token, owner, spender, amount));
        proof {
            assert(self.allowances@.drop_last() =~= old(self).allowances@);
        }
    }

    /// Moves `amount` of `token` from `from` to `to`. Succeeds exactly when
    /// the sender covers the amount and the recipient's balance cannot
    /// overflow; on failure nothing changes.
    pub fn transfer(&mut self, token: Address, from: Address, to: Address, amount: u128) -> (ok:
        bool)
        ensures
            ok == spec_transfer_ok(*old(self), token, from, to, amount),
            final(self).allowances@ == old(self).allowances@,
            forall|t2: Address, o2: Address, s2: Address|
                final(self).spec_allowance(t2, o2, s2) == old(self).spec_allowance(t2, o2, s2),
            !ok ==> final(self).balances@ == old(self).balances@,
            !ok ==> forall|t2: Address, h2: Address|
                final(self).spec_balance_of(t2, h2) == old(self).spec_balance_of(t2, h2),
            ok ==> forall|t2: Address, h2: Address|
                final(self).spec_balance_of(t2, h2) == spec_balance_after_transfer(
                    *old(self),
                    token,
                    from,
                    to,
                    amount,
                    t2,
                    h2,
                ),
    {
        let bf = self.balance_of(token, from);
        if bf < amount {
            return false;
        }
        if from == to {
            return true;
        }
        let bt = self.balance_of(token, to);
        if bt > u128::MAX - amount {
            return false;
        }
        self.balances.push((token, from, bf - amount));
        self.balances.push((token, to, bt + amount));
        proof {
            let s0 = old(self).balances@;
            let s1 = s0.push((token, from, (bf - amount) as u128));
            let s2 = s1.push((token, to, (bt + amount) as u128));
            assert(self.balances@ == s2);
            assert(s2.drop_last() =~= s1);
            assert(s1.drop_last() =~= s0);
            assert forall|t2: Address, h2: Address|
                self.spec_balance_of(t2, h2) == spec_balance_after_transfer(
                    *old(self),
                    token,
                    from,
                    to,
                    amount,
                    t2,
                    h2,
                ) by {
                assert(bal_lookup(s1, t2, h2) == if t2 == token && h2 == from {
                    (bf - amount) as u128
                } else {
                    bal_lookup(s0, t2, h2)
                });
            }
        }
        true
    }

    /// Pull-transfer: `spender` moves `amount` of `token` out of `owner` to
    /// `recipient`, consuming that much of its allowance. Succeeds exactly
    /// when the allowance and the owner's balance cover the amount and the
    /// recipient's balance cannot overflow; on failure nothing changes.
    pub fn transfer_from(
        &mut self,
        token: Address,
        spender: Address,
        owner: Address,
        recipient: Address,
        amount: u128,
    ) -> (ok: bool)
        ensures
            ok == (old(self).spec_allowance(token, owner, spender) >= amount
                && spec_transfer_ok(*old(self), token, owner, recipient, amount)),
            !ok ==> final(self).balances@ == old(self).balances@,
            !ok ==> final(self).allowances@ == old(self).allowances@,
            !ok ==> forall|t2: Address, h2: Address|
                final(self).spec_balance_of(t2, h2) == old(self).spec_balance_of(t2, h2),
            !ok ==> forall|t2: Address, o2: Address, s2: Address|
                final(self).spec_allowance(t2, o2, s2) == old(self).spec_allowance(t2, o2, s2),
            ok ==> forall|t2: Address, h2: Address|
                final(self).spec_balance_of(t2, h2) == spec_balance_after_transfer(
                    *old(self),
                    token,
                    owner,
                    recipient,
                    amount,
                    t2,
                    h2,
                ),
            ok ==> forall|t2: Address, o2: Address, s2: Address|
                final(self).spec_allowance(t2, o2, s2) == if t2 == token && o2 == owner && s2
                    == spender {
                    old(self).spec_allowance(token, owner, spender) - amount
                } else {
                    old(self).spec_allowance(t2, o2, s2) as int
                },
    {
        let al = self.allowance(token, owner, spender);
        if al < amount {
            return false;
        }
        let bf = self.balance_of(token, owner);
        if bf < amount {
            return false;
        }
        if owner != recipient {
            let bt = self.balance_of(token, recipient);
            if bt > u128::MAX - amount {
                return false;
            }
            self.allowances.push((token, owner, spender, al - amount));
            self.balances.push((token, owner, bf - amount));
            self.balances.push((token, recipient, bt + amount));
            proof {
                assert(self.allowances@.drop_last() =~= old(self).allowances@);
                let s0 = old(self).balances@;
                let s1 = s0.push((token, owner, (bf - amount) as u128));
                let s2 = s1.push((token, recipient, (bt + amount) as u128));
                assert(self.balances@ == s2);
                assert(s2.drop_last() =~= s1);
                assert(s1.drop_last() =~= s0);
                assert forall|t2: Address, h2: Address|
                    self.spec_balance_of(t2, h2) == spec_balance_after_transfer(
                        *old(self),
                        token,
                        owner,
                        recipient,
                        amount,
                        t2,
                        h2,
                    ) by {
                    assert(bal_lookup(s1, t2, h2) == if t2 == token && h2 == owner {
                        (bf - amount) as u128
                    } else {
                        bal_lookup(s0, t2, h2)
                    });
                }
            }
            true
        } else {
            self.allowances.push((token, owner, spender, al - amount));
            proof {
                assert(self.allowances@.drop_last() =~= old(self).allowances@);
            }
            true
        }
    }

    /// A copy of the ledger, for restoring it when a later step of an atomic
    /// operation fails.
    pub fn snapshot(&self) -> (r: TokenLedger)
        ensures
            r.balances@ == self.balances@,
            r.allowances@ == self.allowances@,
    {
        TokenLedger {
            balances: crate::copy_vec(&self.balances),
            allowances: crate::copy_vec(&self.allowances),
        }
    }
}

} // verus!
