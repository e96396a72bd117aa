//! The account's state and its operations: fee accounting, sufficiency
//! checking against the minimum reserve, and the time-gated, owner-only
//! withdrawal and termination decisions.

use vstd::prelude::*;

verus! {

/// Opaque identity of a ledger account.
pub type AccountId = u128;

/// An unsigned amount of ledger value.
pub type Balance = u128;

/// An unsigned moment on the ledger's clock.
pub type Timestamp = u64;

/// The fee withheld from a spend of `amount`: three percent, rounded up, so
/// the smallest fee on a positive amount is one unit.
pub open spec fn spec_fee(amount: int) -> int {
    (3 * amount + 99) / 100
}

/// Whether the fee numerator `3 * amount + 99` stays within the balance
/// type, so that the fee can be computed at all.
pub open spec fn fee_fits(amount: int) -> bool {
    3 * amount + 99 <= u128::MAX
}

/// Subtraction that floors at zero instead of going negative.
pub open spec fn spec_saturating_sub(a: int, b: int) -> int {
    if a - b > 0 {
        a - b
    } else {
        0
    }
}

/// What the balance could spare after setting aside the minimum reserve and
/// the fee of the spend under consideration.
pub open spec fn spec_capacity(balance: int, reserve: int, fee: int) -> int {
    spec_saturating_sub(spec_saturating_sub(balance, reserve), fee)
}

/// A spend is permitted exactly when its fee is computable and the capacity
/// left after reserve and fee strictly exceeds the requested amount.
pub open spec fn spend_permitted(balance: int, reserve: int, amount: int) -> bool {
    fee_fits(amount) && spec_capacity(balance, reserve, spec_fee(amount)) > amount
}

/// Errors that the account's operations report to the caller.
#[derive(Debug, Clone, Copy, PartialEq, Eq, Structural)]
pub enum Error {
    /// A time-gated operation was attempted before the expiration moment.
    NotYetExpired,
    /// An owner-only operation was called by some other identity.
    CallerIsNotOwner,
    /// The requested amount, its fee and the minimum reserve together do not
    /// leave the balance a strictly positive margin.
    InsufficientFunds {
        total_balance: Balance,
        /// what the account could spare after the fee and the reserve
        potential_balance: Balance,
        funds_to_transfer: Balance,
        existential_deposit: Balance,
    },
    /// The fee of the requested amount cannot be computed without overflow.
    TransferAmountTooLarge,
    /// Withdrawing all savings would push the balance below the reserve.
    WithdrawalFailed,
}

/// A single-owner forced-savings account.
///
/// `user` and `expiration` are fixed at construction; `amount_held` is the
/// cumulative fee withheld from spends and not yet withdrawn.
#[derive(Debug, Clone, Copy, PartialEq, Eq, Structural)]
pub struct DoubleSig {
    /// sole principal authorized to withdraw savings or terminate
    pub user: AccountId,
    /// moment after which withdrawal and termination become permitted
    pub expiration: Timestamp,
    /// cumulative fee withheld from spends, not yet withdrawn
    pub amount_held: Balance,
}

impl DoubleSig {
    /// Creates a new account owned by `caller`, with nothing saved yet.
    /// `expiration` may lie in the past or the future; it is not validated.
    pub fn new(caller: AccountId, expiration: Timestamp) -> (account: Self)
        ensures
            account.user == caller,
            account.expiration == expiration,
            account.amount_held == 0,
    {
        DoubleSig { user: caller, expiration, amount_held: 0 }
    }

    /// Decides a spend of `amount` to `destination` and accounts for its fee.
    ///
    /// `balance` is the account's total balance and `minimum_balance` the
    /// protocol-wide reserve, both read from the ledger environment by the
    /// caller. On `Ok`, the caller owes the environment a transfer of
    /// `amount` to `destination`; should that transfer fail after this check
    /// passed, the whole call must be aborted and this state change rolled
    /// back. On any `Err` the account is unchanged and nothing may move.
    ///
    /// The one demand on the caller is a machine limit: when the spend is
    /// permitted, the savings counter must have room for the fee.
    #[allow(unused_variables)]
    pub fn transfer_funds(
        &mut self,
        destination: AccountId,
        amount: Balance,
        balance: Balance,
        minimum_balance: Balance,
    ) -> (r: Result<(), Error>)
        requires
            spend_permitted(balance as int, minimum_balance as int, amount as int)
                ==> old(self).amount_held + spec_fee(amount as int) <= u128::MAX,
        ensures
            final(self).user == old(self).user,
            final(self).expiration == old(self).expiration,
            !fee_fits(amount as int) ==> r == Err::<(), Error>(Error::TransferAmountTooLarge)
                && *final(self) == *old(self),
            fee_fits(amount as int)
                && !spend_permitted(balance as int, minimum_balance as int, amount as int)
                ==> r == Err::<(), Error>(
                (Error::InsufficientFunds {
                    total_balance: balance,
                    potential_balance: spec_capacity(
                        balance as int,
                        minimum_balance as int,
                        spec_fee(amount as int),
                    ) as u128,
                    funds_to_transfer: amount,
                    existential_deposit: minimum_balance,
                }),
            ) && *final(self) == *old(self),
            spend_permitted(balance as int, minimum_balance as int, amount as int)
                ==> r == Ok::<(), Error>(())
                    && final(self).amount_held == old(self).amount_held + spec_fee(amount as int),
    {
        if amount > (u128::MAX - 99) / 3 {
            return Err(Error::TransferAmountTooLarge);
        }
        // fractions are not supported, so the fee is the ceiling value and
        // the minimum fee on a positive amount is 1 unit
        let fee: u128 = (3 * amount + 99) / 100;
        let after_reserve: u128 = if balance > minimum_balance {
            balance - minimum_balance
        } else {
            0
        };
        let current_balance: u128 = if after_reserve > fee {
            after_reserve - fee
        } else {
            0
        };
        if current_balance <= amount {
            return Err(Error::InsufficientFunds {
                total_balance: balance,
                potential_balance: current_balance,
                funds_to_transfer: amount,
                existential_deposit: minimum_balance,
            });
        }
        self.amount_held = self.amount_held + fee;
        Ok(())
    }

    /// Decides the termination of the account: owner-only and time-gated.
    ///
    /// `caller` and `now` are read from the ledger environment by the
    /// caller. On `Ok`, the caller owes the environment the irrevocable
    /// deletion of the account with its entire remaining balance flushed to
    /// `user`; this instance must not be used afterwards. On `Err` the
    /// account is unchanged and stays alive.
    pub fn claim_funds(&mut self, caller: AccountId, now: Timestamp) -> (r: Result<(), Error>)
        ensures
            *final(self) == *old(self),
            caller != old(self).user ==> r == Err::<(), Error>(Error::CallerIsNotOwner),
            caller == old(self).user && now < old(self).expiration ==> r == Err::<(), Error>(
                Error::NotYetExpired,
            ),
            caller == old(self).user && now >= old(self).expiration ==> r == Ok::<(), Error>(()),
    {
        if caller != self.user {
            return Err(Error::CallerIsNotOwner);
        }
        if now < self.expiration {
            return Err(Error::NotYetExpired);
        }
        Ok(())
    }

    /// Decides a withdrawal of all savings: owner-only, time-gated, and
    /// refused outright when paying out the savings would leave the balance
    /// below the minimum reserve.
    ///
    /// `caller`, `now`, `balance` and `minimum_balance` are read from the
    /// ledger environment by the caller. On `Ok`, the savings counter is
    /// reset and the caller owes the environment a transfer of the old
    /// `amount_held` to `user`; should that transfer fail after this check
    /// passed, the whole call must be aborted and this state change rolled
    /// back. On any `Err` the account is unchanged and nothing may move.
    pub fn withdraw_savings(
        &mut self,
        caller: AccountId,
        now: Timestamp,
        balance: Balance,
        minimum_balance: Balance,
    ) -> (r: Result<(), Error>)
        ensures
            final(self).user == old(self).user,
            final(self).expiration == old(self).expiration,
            caller != old(self).user
                ==> r == Err::<(), Error>(Error::CallerIsNotOwner) && *final(self) == *old(self),
            caller == old(self).user && now < old(self).expiration
                ==> r == Err::<(), Error>(Error::NotYetExpired) && *final(self) == *old(self),
            caller == old(self).user && now >= old(self).expiration
                && spec_saturating_sub(balance as int, old(self).amount_held as int)
                    < minimum_balance as int
                ==> r == Err::<(), Error>(Error::WithdrawalFailed) && *final(self) == *old(self),
            caller == old(self).user && now >= old(self).expiration
                && spec_saturating_sub(balance as int, old(self).amount_held as int)
                    >= minimum_balance as int
                ==> r == Ok::<(), Error>(()) && final(self).amount_held == 0,
    {
        if caller != self.user {
            return Err(Error::CallerIsNotOwner);
        }
        if now < self.expiration {
            return Err(Error::NotYetExpired);
        }
        let remainder: u128 = if balance > self.amount_held {
            balance - self.amount_held
        } else {
            0
        };
        if remainder < minimum_balance {
            return Err(Error::WithdrawalFailed);
        }
        self.amount_held = 0;
        Ok(())
    }

    /// The amount currently spendable without touching the savings or the
    /// minimum reserve. Pure read; no authorization required.
    pub fn free(&self, balance: Balance, minimum_balance: Balance) -> (r: Balance)
        ensures
            r as int == spec_saturating_sub(
                spec_saturating_sub(balance as int, minimum_balance as int),
                self.amount_held as int,
            ),
    {
        let after_reserve: u128 = if balance > minimum_balance {
            balance - minimum_balance
        } else {
            0
        };
        if after_reserve > self.amount_held {
            after_reserve - self.amount_held
        } else {
            0
        }
    }

    /// The total value of the funds saved so far.
    pub fn amount_stored(&self) -> (r: Balance)
        ensures
            r == self.amount_held,
    {
        self.amount_held
    }

    /// The expiration moment fixed at construction.
    pub fn get_expiration(&self) -> (r: Timestamp)
        ensures
            r == self.expiration,
    {
        self.expiration
    }
}

} // verus!
