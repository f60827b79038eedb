//! The claimable-balance ledger and its reconciliation with asynchronous
//! payouts.
//!
//! A withdrawal debits the ledger eagerly and hands back a transfer
//! instruction; the external transfer's outcome arrives later through
//! [`Market::callback_after_withdraw`], which re-credits the account when
//! the transfer failed (compensation) and does nothing when it succeeded.
use vstd::prelude::*;

use crate::errors::MarketError;
use crate::maps::StrMap;
use crate::state::Market;
use crate::state::MarketModel;
use crate::token::Balance;

verus! {

/// An instruction to move `amount` to `recipient` through the external
/// fungible-token contract.
#[derive(PartialEq, Eq, Debug)]
pub struct Transfer {
    pub recipient: String,
    pub amount: Balance,
}

/// A balance in a ledger map, zero for an account never credited.
pub open spec fn bal_or_zero(b: Map<Seq<char>, Balance>, a: Seq<char>) -> Balance {
    if b.contains_key(a) {
        b[a]
    } else {
        0
    }
}

/// Whether crediting `v` to `a` stays within the balance width.
pub open spec fn credit_ok(b: Map<Seq<char>, Balance>, a: Seq<char>, v: Balance) -> bool {
    bal_or_zero(b, a) + v <= u128::MAX
}

/// The ledger after crediting `v` to `a`; crediting zero changes nothing.
pub open spec fn spec_credit(
    b: Map<Seq<char>, Balance>,
    a: Seq<char>,
    v: Balance,
) -> Map<Seq<char>, Balance>
    recommends
        credit_ok(b, a, v),
{
    if v == 0 {
        b
    } else {
        b.insert(a, (bal_or_zero(b, a) + v) as Balance)
    }
}

/// The ledger and the moved amount after a withdrawal of `amount` (or of
/// everything, when `amount` is absent) by `a`.
pub open spec fn spec_withdraw(
    b: Map<Seq<char>, Balance>,
    a: Seq<char>,
    amount: Option<Balance>,
) -> (Map<Seq<char>, Balance>, Result<Balance, MarketError>) {
    let balance = bal_or_zero(b, a);
    match amount {
        Some(v) => if balance < v {
            (b, Err(MarketError::InsufficientPayment { missing: (v - balance) as Balance }))
        } else if v == 0 {
            (b, Err(MarketError::ZeroAmount))
        } else {
            (b.insert(a, (balance - v) as Balance), Ok(v))
        },
        None => if balance == 0 {
            (b, Err(MarketError::ZeroAmount))
        } else {
            (b.insert(a, 0), Ok(balance))
        },
    }
}

/// Credits `value` to `account_id` in the given ledger map, refusing the
/// whole operation on overflow.
pub(crate) fn credit_map(m: &mut StrMap<Balance>, account_id: &String, value: Balance) -> (r:
    Result<(), MarketError>)
    requires
        old(m).wf(),
    ensures
        final(m).wf(),
        r is Ok <==> credit_ok(old(m)@, account_id@, value),
        r is Ok ==> final(m)@ == spec_credit(old(m)@, account_id@, value),
        r is Err ==> final(m)@ == old(m)@ && r == Err::<(), MarketError>(MarketError::Overflow),
    {
    if value == 0 {
        return Ok(());
    }
    let prev: Balance = match m.get(account_id) {
        Some(b) => *b,
        None => 0,
    };
    if prev > u128::MAX - value {
        return Err(MarketError::Overflow);
    }
    m.insert(account_id.clone(), prev + value);
    Ok(())
}

impl Market {
    /// Credits a fee or a compensation to an account's claimable balance.
    pub fn internal_add_balance(&mut self, account_id: &String, value: Balance) -> (r: Result<
        (),
        MarketError,
    >)
        requires
            old(self).wf(),
        ensures
            final(self).wf(),
            r is Ok <==> credit_ok(old(self)@.balances, account_id@, value),
            r is Ok ==> final(self)@ == (MarketModel {
                balances: spec_credit(old(self)@.balances, account_id@, value),
                ..old(self)@
            }),
            r is Err ==> final(self)@ == old(self)@ && r == Err::<(), MarketError>(
                MarketError::Overflow,
            ),
    {
        let ghost m0 = self@;
        let r = credit_map(&mut self.internal_balances, account_id, value);
        proof {
            if r is Ok {
                assert(self@ =~~= (MarketModel {
                    balances: spec_credit(m0.balances, account_id@, value),
                    ..m0
                }));
            } else {
                assert(self@ =~~= m0);
            }
        }
        r
    }

    /// Withdraws `amount` (or the whole balance when `amount` is absent)
    /// from the caller's claimable balance. The ledger is debited eagerly;
    /// the returned instruction is to be sent to the external token
    /// contract, and its outcome reconciled through
    /// [`Market::callback_after_withdraw`].
    pub fn withdraw(&mut self, account_id: String, amount: Option<Balance>) -> (r: Result<
        Transfer,
        MarketError,
    >)
        requires
            old(self).wf(),
        ensures
            final(self).wf(),
            final(self)@ == (MarketModel {
                balances: spec_withdraw(old(self)@.balances, account_id@, amount).0,
                ..old(self)@
            }),
            match spec_withdraw(old(self)@.balances, account_id@, amount).1 {
                Ok(v) => r matches Ok(t) && t.recipient@ == account_id@ && t.amount == v,
                Err(e) => r matches Err(e2) && e2 == e,
            },
    {
        let ghost m0 = self@;
        let balance = self.get_balance(&account_id);
        let amt: Balance = match amount {
            Some(v) => {
                if balance < v {
                    proof {
                        assert(self@ =~~= (MarketModel {
                            balances: spec_withdraw(m0.balances, account_id@, amount).0,
                            ..m0
                        }));
                    }
                    return Err(MarketError::InsufficientPayment { missing: v - balance });
                }
                v
            },
            None => balance,
        };
        if amt == 0 {
            proof {
                assert(self@ =~~= (MarketModel {
                    balances: spec_withdraw(m0.balances, account_id@, amount).0,
                    ..m0
                }));
            }
            return Err(MarketError::ZeroAmount);
        }
        self.internal_balances.insert(account_id.clone(), balance - amt);
        proof {
            assert(self@ =~~= (MarketModel {
                balances: spec_withdraw(m0.balances, account_id@, amount).0,
                ..m0
            }));
        }
        Ok(Transfer { recipient: account_id, amount: amt })
    }

    /// Reconciles the outcome of a payout issued by [`Market::withdraw`] or
    /// by a resale settlement: a failed transfer re-credits the recipient
    /// (compensation); a successful one needs no further change.
    pub fn callback_after_withdraw(
        &mut self,
        sender_id: &String,
        amount: Balance,
        success: bool,
    ) -> (r: Result<(), MarketError>)
        requires
            old(self).wf(),
        ensures
            final(self).wf(),
            r is Ok <==> (success || credit_ok(old(self)@.balances, sender_id@, amount)),
            success ==> final(self)@ == old(self)@,
            (!success && r is Ok) ==> final(self)@ == (MarketModel {
                balances: spec_credit(old(self)@.balances, sender_id@, amount),
                ..old(self)@
            }),
            r is Err ==> final(self)@ == old(self)@ && r == Err::<(), MarketError>(
                MarketError::Overflow,
            ),
    {
        if success {
            Ok(())
        } else {
            self.internal_add_balance(sender_id, amount)
        }
    }
}

} // verus!
