//! The lender's only persistent state: the set of tokens it is willing to
//! lend, and a fee rate per token in parts per ten thousand.
//!
//! Both records are kept as plain append-only vectors, standing in for the
//! host's keyed storage: membership is membership in the vector, and a token's
//! rate is the last one written for it, zero if none ever was.

use vstd::prelude::*;

use crate::addr::Address;

verus! {

/// The rate that a sequence of fee-rate writes leaves a token at: the last
/// write to the token wins, and a token never written is at zero.
pub open spec fn rate_lookup(entries: Seq<(Address, u128)>, token: Address) -> u128
    decreases entries.len(),
{
    if entries.len() == 0 {
        0
    } else if entries.last().0 == token {
        entries.last().1
    } else {
        rate_lookup(entries.drop_last(), token)
    }
}

/// The supported-token set and the per-token fee rates.
pub struct TokenRegistry {
    /// Every token the lender is willing to lend.
    pub supported: Vec<Address>,
    /// The history of fee-rate writes, oldest first.
    pub fees: Vec<(Address, u128)>,
}

impl TokenRegistry {
    /// The fee rate of a token, in parts per ten thousand; zero if unset.
    pub open spec fn spec_fee_rate(&self, token: Address) -> u128 {
        rate_lookup(self.fees@, token)
    }

    /// Whether a token is in the supported set.
    pub open spec fn spec_supported(&self, token: Address) -> bool {
        self.supported@.contains(token)
    }

    /// An empty registry: no token supported, every rate zero.
    pub fn new() -> (r: TokenRegistry)
        ensures
            forall|t: Address| !r.spec_supported(t),
            forall|t: Address| r.spec_fee_rate(t) == 0,
    {
        TokenRegistry { supported: Vec::new(), fees: Vec::new() }
    }

    /// Whether the lender lends this token.
    pub fn is_supported(&self, token: Address) -> (r: bool)
        ensures
            r == self.spec_supported(token),
    {
        let mut i: usize = 0;
        while i < self.supported.len()
            invariant
                i <= self.supported.len(),
                forall|j: int| 0 <= j < i ==> self.supported@[j] != token,
            decreases self.supported.len() - i,
        {
            if self.supported[i] == token {
                proof {
                    assert(self.supported@.contains(token)) by {
                        assert(self.supported@[i as int] == token);
                    }
                }
                return true;
            }
            i += 1;
        }
        false
    }

    /// Adds a token to the supported set. Administrative: called at
    /// deployment, never during a loan.
    pub fn add_supported(&mut self, token: Address)
        ensures
            final(self).supported@ == old(self).supported@.push(token),
            final(self).fees@ == old(self).fees@,
            forall|t: Address|
                final(self).spec_supported(t) <==> (old(self).spec_supported(t) || t == token),
            forall|t: Address| final(self).spec_fee_rate(t) == old(self).spec_fee_rate(t),
    {
        self.supported.push(token);
        proof {
            assert forall|t: Address|
                self.spec_supported(t) <==> (old(self).spec_supported(t) || t == token) by {
                let s0 = old(self).supported@;
                if s0.contains(t) {
                    let j = choose|j: int| 0 <= j < s0.len() && s0[j] == t;
                    assert(self.supported@[j] == t);
                }
                if t == token {
                    assert(self.supported@[s0.len() as int] == t);
                }
                if self.supported@.contains(t) {
                    let j = choose|j: int| 0 <= j < self.supported@.len() && self.supported@[j] == t;
                    if j < s0.len() {
                        assert(s0[j] == t);
                    }
                }
            }
        }
    }

    /// The fee rate currently on record for a token, zero if none was ever
    /// written.
    pub fn fee_rate(&self, token: Address) -> (r: u128)
        ensures
            r == self.spec_fee_rate(token),
    {
        proof {
            assert(self.fees@.take(self.fees@.len() as int) =~= self.fees@);
        }
        let mut i: usize = self.fees.len();
        while i > 0
            invariant
                i <= self.fees.len(),
                rate_lookup(self.fees@, token) == rate_lookup(self.fees@.take(i as int), token),
            decreases i,
        {
            i = i - 1;
            let entry = self.fees[i];
            proof {
                assert(self.fees@.take(i as int + 1).last() == self.fees@[i as int]);
                assert(self.fees@.take(i as int + 1).drop_last() =~= self.fees@.take(i as int));
            }
            if entry.0 == token {
                return entry.1;
            }
        }
        0
    }

    /// Writes a token's fee rate. Administrative: called at deployment, never
    /// during a loan. A later write overrides an earlier one.
    pub fn set_fee_rate(&mut self, token: Address, rate: u128)
        ensures
            final(self).supported@ == old(self).supported@,
            forall|t: Address| final(self).spec_supported(t) == old(self).spec_supported(t),
            forall|t: Address|
                final(self).spec_fee_rate(t) == if t == token {
                    rate
                } else {
                    old(self).spec_fee_rate(t)
                },
    {
        self.fees.push((token, rate));
        proof {
            assert(self.fees@.drop_last() =~= old(self).fees@);
            assert forall|t: Address|
                self.spec_fee_rate(t) == if t == token {
                    rate
                } else {
                    old(self).spec_fee_rate(t)
                } by {
                assert(self.fees@.last() == (token, rate));
            }
        }
    }
}

} // verus!
