use crate::authority::{signer_seeds_of, PoolAuthority};
use crate::curve::{
    curve_withdrawal, in_proportion, lemma_lp_scale_always_fits, lemma_withdrawal_keeps_proportion,
    released_reserve, withdraw_amounts, Settlement,
};
use crate::errors::AmmError;
use crate::state::{Address, Config, Mint, TokenAccount, LP_DECIMALS};
use crate::token::{burn, burn_refusal, transfer, transfer_refusal};
use vstd::prelude::*;

verus! {

/// Everything that one withdrawal reads and changes: the pool's record, the two vaults
/// and the LP mint in its custody, and the caller's three balances.
#[derive(Clone, Copy, Debug, PartialEq, Eq)]
pub struct Withdraw {
    /// The caller, who burns LP tokens and is paid from the reserves.
    pub signer: Address,
    /// The asset type of reserve X.
    pub mint_x: Address,
    /// The asset type of reserve Y.
    pub mint_y: Address,
    /// The pool's own identity, under which it holds its vaults and its LP mint.
    pub config_key: Address,
    /// The pool's record.
    pub config: Config,
    /// Reserve X.
    pub vault_x: TokenAccount,
    /// Reserve Y.
    pub vault_y: TokenAccount,
    /// The LP token's supply.
    pub mint_lp: Mint,
    /// The caller's balance of asset X.
    pub user_x: TokenAccount,
    /// The caller's balance of asset Y.
    pub user_y: TokenAccount,
    /// The caller's balance of LP tokens.
    pub user_lp: TokenAccount,
}

impl Withdraw {
    /// The degenerate state in which the curve has no ratio: nothing in either reserve
    /// and no LP token in circulation.
    pub open spec fn is_bootstrap(&self) -> bool {
        self.mint_lp.supply == 0 && self.vault_x.amount == 0 && self.vault_y.amount == 0
    }

    /// What burning `amount` LP tokens is settled at, or why it is not settled. A burn
    /// of nothing is invalid in every state, a locked pool included; any other burn a
    /// locked pool refuses. In the bootstrap state the settlement is the caller's two
    /// minimums as they stand. Anywhere else it is what the curve gives at the LP
    /// token's six places, and the minimums are not held against it.
    pub open spec fn settlement_of(&self, amount: u64, min_x: u64, min_y: u64) -> Result<
        Settlement,
        AmmError,
    > {
        if amount == 0 {
            Err(AmmError::InvalidAmount)
        } else if self.config.locked {
            Err(AmmError::PoolLocked)
        } else if self.is_bootstrap() {
            Ok(Settlement { x: min_x, y: min_y })
        } else {
            match curve_withdrawal(
                self.vault_x.amount,
                self.vault_y.amount,
                self.mint_lp.supply,
                amount,
                LP_DECIMALS,
            ) {
                Some(settlement) => Ok(settlement),
                None => Err(AmmError::ArithmeticFailure),
            }
        }
    }

    /// The vault that `is_x` chooses.
    pub open spec fn vault(&self, is_x: bool) -> TokenAccount {
        if is_x {
            self.vault_x
        } else {
            self.vault_y
        }
    }

    /// The caller's balance of the asset that `is_x` chooses.
    pub open spec fn user(&self, is_x: bool) -> TokenAccount {
        if is_x {
            self.user_x
        } else {
            self.user_y
        }
    }

    /// The inputs on which `withdraw` succeeds: something is burnt, of an unlocked pool,
    /// no more than the supply holds and no more than the caller holds; both vaults and
    /// the LP mint are under the pool's authority; and the caller's balances have room
    /// for what the curve pays.
    pub open spec fn withdrawal_is_owed(&self, amount: u64) -> bool {
        &&& amount != 0
        &&& !self.config.locked
        &&& amount <= self.mint_lp.supply
        &&& amount <= self.user_lp.amount
        &&& self.vault_x.owner == self.config_key
        &&& self.vault_y.owner == self.config_key
        &&& self.mint_lp.authority == Some(self.config_key)
        &&& self.user_x.amount + released_reserve(
            self.vault_x.amount as nat,
            self.mint_lp.supply as nat,
            amount as nat,
            1_000_000,
        ) <= u64::MAX
        &&& self.user_y.amount + released_reserve(
            self.vault_y.amount as nat,
            self.mint_lp.supply as nat,
            amount as nat,
            1_000_000,
        ) <= u64::MAX
    }

    /// The state after `amount` has moved from a vault to the caller, or why it cannot.
    pub open spec fn after_withdraw_tokens(self, is_x: bool, amount: u64) -> Result<
        Withdraw,
        AmmError,
    > {
        if is_x {
            match transfer_refusal(self.vault_x, self.user_x, amount, self.config_key) {
                Some(e) => Err(e),
                None => Ok(
                    Withdraw {
                        vault_x: TokenAccount {
                            amount: (self.vault_x.amount - amount) as u64,
                            ..self.vault_x
                        },
                        user_x: TokenAccount {
                            amount: (self.user_x.amount + amount) as u64,
                            ..self.user_x
                        },
                        ..self
                    },
                ),
            }
        } else {
            match transfer_refusal(self.vault_y, self.user_y, amount, self.config_key) {
                Some(e) => Err(e),
                None => Ok(
                    Withdraw {
                        vault_y: TokenAccount {
                            amount: (self.vault_y.amount - amount) as u64,
                            ..self.vault_y
                        },
                        user_y: TokenAccount {
                            amount: (self.user_y.amount + amount) as u64,
                            ..self.user_y
                        },
                        ..self
                    },
                ),
            }
        }
    }

    /// The state after `amount` LP tokens of the caller are burnt, or why they cannot be.
    pub open spec fn after_burn_lp_tokens(self, amount: u64) -> Result<Withdraw, AmmError> {
        match burn_refusal(self.mint_lp, self.user_lp, amount, self.config_key) {
            Some(e) => Err(e),
            None => Ok(
                Withdraw {
                    mint_lp: Mint { supply: (self.mint_lp.supply - amount) as u64, ..self.mint_lp },
                    user_lp: TokenAccount {
                        amount: (self.user_lp.amount - amount) as u64,
                        ..self.user_lp
                    },
                    ..self
                },
            ),
        }
    }

    /// The state after a whole withdrawal, or the first reason why it fails: the
    /// settlement, then the payment from reserve X, the payment from reserve Y, and the
    /// burn, in this order.
    pub open spec fn after_withdraw(self, amount: u64, min_x: u64, min_y: u64) -> Result<
        Withdraw,
        AmmError,
    > {
        match self.settlement_of(amount, min_x, min_y) {
            Err(e) => Err(e),
            Ok(settlement) => match self.after_withdraw_tokens(true, settlement.x) {
                Err(e) => Err(e),
                Ok(paid_x) => match paid_x.after_withdraw_tokens(false, settlement.y) {
                    Err(e) => Err(e),
                    Ok(paid_y) => paid_y.after_burn_lp_tokens(amount),
                },
            },
        }
    }

    /// The state in which a call of `withdraw` leaves the pool, whether it succeeds or
    /// fails.
    pub open spec fn state_after_withdraw(self, amount: u64, min_x: u64, min_y: u64) -> Withdraw {
        match self.after_withdraw(amount, min_x, min_y) {
            Ok(next) => next,
            Err(_) => self,
        }
    }

    /// Rebuilds the pool's authorization proof from its record.
    pub fn signer_seeds(&self) -> (seeds: Vec<Vec<u8>>)
        ensures
            seeds.deep_view() == signer_seeds_of(self.config.seed, self.config.config_bump),
    {
        PoolAuthority::for_pool(self.config_key, &self.config).signer_seeds()
    }

    /// Computes what burning `amount` LP tokens pays, and changes nothing.
    pub fn settlement(&self, amount: u64, min_x: u64, min_y: u64) -> (result: Result<
        Settlement,
        AmmError,
    >)
        ensures
            result == self.settlement_of(amount, min_x, min_y),
            amount == 0 ==> result == Err::<Settlement, AmmError>(AmmError::InvalidAmount),
            amount != 0 && self.config.locked ==> result == Err::<Settlement, AmmError>(
                AmmError::PoolLocked,
            ),
            amount != 0 && !self.config.locked && self.is_bootstrap() ==> result == Ok::<
                Settlement,
                AmmError,
            >(Settlement { x: min_x, y: min_y }),
            amount != 0 && !self.config.locked && !self.is_bootstrap() ==> match result {
                Ok(settlement) => {
                    &&& 0 < self.mint_lp.supply
                    &&& amount <= self.mint_lp.supply
                    &&& settlement.x == released_reserve(
                        self.vault_x.amount as nat,
                        self.mint_lp.supply as nat,
                        amount as nat,
                        1_000_000,
                    )
                    &&& settlement.y == released_reserve(
                        self.vault_y.amount as nat,
                        self.mint_lp.supply as nat,
                        amount as nat,
                        1_000_000,
                    )
                },
                Err(e) => e == AmmError::ArithmeticFailure && (self.mint_lp.supply == 0 || amount
                    > self.mint_lp.supply),
            },
    {
        if amount == 0 {
            return Err(AmmError::InvalidAmount);
        }
        if self.config.locked {
            return Err(AmmError::PoolLocked);
        }
        if self.mint_lp.supply == 0 && self.vault_x.amount == 0 && self.vault_y.amount == 0 {
            return Ok(Settlement { x: min_x, y: min_y });
        }
        proof {
            lemma_lp_scale_always_fits(
                self.vault_x.amount,
                self.vault_y.amount,
                self.mint_lp.supply,
                amount,
            );
            if 0 < self.mint_lp.supply && amount <= self.mint_lp.supply {
                lemma_withdrawal_keeps_proportion(
                    self.vault_x.amount as nat,
                    self.mint_lp.supply as nat,
                    amount as nat,
                    1_000_000,
                );
                lemma_withdrawal_keeps_proportion(
                    self.vault_y.amount as nat,
                    self.mint_lp.supply as nat,
                    amount as nat,
                    1_000_000,
                );
            }
        }
        match withdraw_amounts(
            self.vault_x.amount,
            self.vault_y.amount,
            self.mint_lp.supply,
            amount,
            LP_DECIMALS,
        ) {
            Some(amounts) => Ok(amounts),
            None => Err(AmmError::ArithmeticFailure),
        }
    }

    /// Redeems `amount` LP tokens: pays the settlement out of both vaults to the caller
    /// and burns the tokens, all of it or nothing. It succeeds exactly on the inputs of
    /// `withdrawal_is_owed`.
    pub fn withdraw(&mut self, amount: u64, min_x: u64, min_y: u64) -> (result: Result<
        (),
        AmmError,
    >)
        ensures
            match old(self).after_withdraw(amount, min_x, min_y) {
                Ok(next) => result is Ok,
                Err(e) => result == Err::<(), AmmError>(e),
            },
            *final(self) == old(self).state_after_withdraw(amount, min_x, min_y),
            result is Err ==> *final(self) == *old(self),
            result is Ok <==> old(self).withdrawal_is_owed(amount),
            amount == 0 ==> result == Err::<(), AmmError>(AmmError::InvalidAmount),
            amount != 0 && old(self).config.locked ==> result == Err::<(), AmmError>(
                AmmError::PoolLocked,
            ),
            result is Ok ==> ({
                let before = *old(self);
                let after = *final(self);
                &&& before.vault_x.amount - after.vault_x.amount == after.user_x.amount
                    - before.user_x.amount
                &&& before.vault_y.amount - after.vault_y.amount == after.user_y.amount
                    - before.user_y.amount
                &&& before.mint_lp.supply - after.mint_lp.supply == amount
                &&& before.user_lp.amount - after.user_lp.amount == amount
                &&& before.vault_x.amount - after.vault_x.amount == released_reserve(
                    before.vault_x.amount as nat,
                    before.mint_lp.supply as nat,
                    amount as nat,
                    1_000_000,
                )
                &&& before.vault_y.amount - after.vault_y.amount == released_reserve(
                    before.vault_y.amount as nat,
                    before.mint_lp.supply as nat,
                    amount as nat,
                    1_000_000,
                )
                &&& in_proportion(
                    before.vault_x.amount as nat,
                    after.vault_x.amount as nat,
                    before.mint_lp.supply as nat,
                    after.mint_lp.supply as nat,
                    1_000_000,
                )
                &&& in_proportion(
                    before.vault_y.amount as nat,
                    after.vault_y.amount as nat,
                    before.mint_lp.supply as nat,
                    after.mint_lp.supply as nat,
                    1_000_000,
                )
            }),
    {
        proof {
            lemma_withdraw_succeeds_when_owed(*self, amount, min_x, min_y);
            if self.after_withdraw(amount, min_x, min_y) is Ok {
                lemma_withdraw_keeps_proportion(*self, amount, min_x, min_y);
            }
        }
        let settlement = self.settlement(amount, min_x, min_y)?;
        let mut next: Withdraw = *self;
        next.withdraw_tokens(true, settlement.x)?;
        next.withdraw_tokens(false, settlement.y)?;
        next.burn_lp_tokens(amount)?;
        *self = next;
        Ok(())
    }

    /// Pays `amount` from reserve X (`is_x`) or reserve Y to the caller's balance of the
    /// same asset, under the pool's authority. The vault loses exactly what the caller
    /// gains; a refused payment changes nothing.
    pub fn withdraw_tokens(&mut self, is_x: bool, amount: u64) -> (result: Result<(), AmmError>)
        ensures
            match old(self).after_withdraw_tokens(is_x, amount) {
                Ok(next) => result is Ok && *final(self) == next,
                Err(e) => result == Err::<(), AmmError>(e) && *final(self) == *old(self),
            },
    {
        let authority = PoolAuthority::for_pool(self.config_key, &self.config);
        if is_x {
            transfer(&mut self.vault_x, &mut self.user_x, amount, &authority)
        } else {
            transfer(&mut self.vault_y, &mut self.user_y, amount, &authority)
        }
    }

    /// Burns `amount` LP tokens out of the caller's balance and out of the supply, under
    /// the pool's authority. A refused burn changes nothing.
    pub fn burn_lp_tokens(&mut self, amount: u64) -> (result: Result<(), AmmError>)
        ensures
            match old(self).after_burn_lp_tokens(amount) {
                Ok(next) => result is Ok && *final(self) == next,
                Err(e) => result == Err::<(), AmmError>(e) && *final(self) == *old(self),
            },
    {
        let authority = PoolAuthority::for_pool(self.config_key, &self.config);
        burn(&mut self.mint_lp, &mut self.user_lp, amount, &authority)
    }
}

/// `withdraw` succeeds on the inputs of `withdrawal_is_owed` and on no others. In the
/// bootstrap state it never does: nothing can be burnt of a supply of zero.
pub proof fn lemma_withdraw_succeeds_when_owed(pool: Withdraw, amount: u64, min_x: u64, min_y: u64)
    ensures
        pool.after_withdraw(amount, min_x, min_y) is Ok <==> pool.withdrawal_is_owed(amount),
        pool.is_bootstrap() ==> pool.after_withdraw(amount, min_x, min_y) is Err,
{
    lemma_lp_scale_always_fits(
        pool.vault_x.amount,
        pool.vault_y.amount,
        pool.mint_lp.supply,
        amount,
    );
    if 0 < pool.mint_lp.supply && amount <= pool.mint_lp.supply {
        lemma_withdrawal_keeps_proportion(
            pool.vault_x.amount as nat,
            pool.mint_lp.supply as nat,
            amount as nat,
            1_000_000,
        );
        lemma_withdrawal_keeps_proportion(
            pool.vault_y.amount as nat,
            pool.mint_lp.supply as nat,
            amount as nat,
            1_000_000,
        );
    }
}

/// A withdrawal that succeeds shrinks reserve X, reserve Y and the LP supply in one
/// proportion, up to the rounding of fixed point at a millionth: with `paid` the
/// amount that left a reserve, `paid * supply` is at least `amount * reserve` and
/// exceeds it by less than `supply * (1 + reserve / 1_000_000)`.
pub proof fn lemma_withdraw_keeps_proportion(pool: Withdraw, amount: u64, min_x: u64, min_y: u64)
    requires
        pool.after_withdraw(amount, min_x, min_y) is Ok,
    ensures
        ({
            let next = pool.after_withdraw(amount, min_x, min_y)->Ok_0;
            let supply = pool.mint_lp.supply;
            let paid_x = pool.vault_x.amount - next.vault_x.amount;
            let paid_y = pool.vault_y.amount - next.vault_y.amount;
            &&& !pool.is_bootstrap()
            &&& next.mint_lp.supply == supply - amount
            &&& 0 <= paid_x <= pool.vault_x.amount
            &&& 0 <= paid_y <= pool.vault_y.amount
            &&& in_proportion(
                pool.vault_x.amount as nat,
                next.vault_x.amount as nat,
                supply as nat,
                next.mint_lp.supply as nat,
                1_000_000,
            )
            &&& in_proportion(
                pool.vault_y.amount as nat,
                next.vault_y.amount as nat,
                supply as nat,
                next.mint_lp.supply as nat,
                1_000_000,
            )
            &&& 0 <= paid_x * supply - amount * pool.vault_x.amount
            &&& 1_000_000 * (paid_x * supply - amount * pool.vault_x.amount) < supply * (1_000_000
                + pool.vault_x.amount)
            &&& 0 <= paid_y * supply - amount * pool.vault_y.amount
            &&& 1_000_000 * (paid_y * supply - amount * pool.vault_y.amount) < supply * (1_000_000
                + pool.vault_y.amount)
        }),
{
    lemma_withdraw_succeeds_when_owed(pool, amount, min_x, min_y);
    lemma_lp_scale_always_fits(
        pool.vault_x.amount,
        pool.vault_y.amount,
        pool.mint_lp.supply,
        amount,
    );
    let next = pool.after_withdraw(amount, min_x, min_y)->Ok_0;
    lemma_withdrawal_keeps_proportion(
        pool.vault_x.amount as nat,
        pool.mint_lp.supply as nat,
        amount as nat,
        1_000_000,
    );
    lemma_withdrawal_keeps_proportion(
        pool.vault_y.amount as nat,
        pool.mint_lp.supply as nat,
        amount as nat,
        1_000_000,
    );
    lemma_proportion_in_what_is_paid(
        pool.vault_x.amount as int,
        next.vault_x.amount as int,
        pool.mint_lp.supply as int,
        amount as int,
    );
    lemma_proportion_in_what_is_paid(
        pool.vault_y.amount as int,
        next.vault_y.amount as int,
        pool.mint_lp.supply as int,
        amount as int,
    );
}

/// The proportion of a reserve before and after, said of what was paid out of it.
proof fn lemma_proportion_in_what_is_paid(reserve: int, kept: int, supply: int, amount: int)
    requires
        0 <= kept <= reserve,
        0 <= amount <= supply,
        in_proportion(reserve as nat, kept as nat, supply as nat, (supply - amount) as nat, 1_000_000),
    ensures
        0 <= (reserve - kept) * supply - amount * reserve,
        1_000_000 * ((reserve - kept) * supply - amount * reserve) < supply * (1_000_000 + reserve),
{
    assert(0 <= (reserve - kept) * supply - amount * reserve) by (nonlinear_arith)
        requires
            kept * supply <= reserve * (supply - amount),
    ;
    assert(1_000_000 * ((reserve - kept) * supply - amount * reserve) < supply * (1_000_000
        + reserve)) by (nonlinear_arith)
        requires
            reserve * (supply - amount) * 1_000_000 < (kept + 1) * supply * 1_000_000 + reserve
                * supply,
    ;
}

/// A payment out of a vault that is under the pool's authority and holds the amount,
/// to a balance that has room for it, succeeds, and moves exactly the amount: what the
/// vault loses the caller gains, and the two together hold what they held.
pub proof fn lemma_withdraw_tokens_moves_the_amount(pool: Withdraw, is_x: bool, amount: u64)
    requires
        pool.vault(is_x).owner == pool.config_key,
        amount <= pool.vault(is_x).amount,
        pool.user(is_x).amount + amount <= u64::MAX,
    ensures
        pool.after_withdraw_tokens(is_x, amount) is Ok,
        ({
            let next = pool.after_withdraw_tokens(is_x, amount)->Ok_0;
            &&& pool.vault(is_x).amount - next.vault(is_x).amount == amount
            &&& next.user(is_x).amount - pool.user(is_x).amount == amount
            &&& next.vault(is_x).amount + next.user(is_x).amount == pool.vault(is_x).amount
                + pool.user(is_x).amount
            &&& next.vault(!is_x) == pool.vault(!is_x)
            &&& next.user(!is_x) == pool.user(!is_x)
        }),
{
}

/// A withdrawal that is owed succeeds, and moves value without making or losing any:
/// each vault loses exactly the settlement, the caller gains exactly that, and the
/// caller's LP balance and the LP supply both fall by the amount burnt. Nothing else
/// changes.
pub proof fn lemma_withdraw_conserves(pool: Withdraw, amount: u64, min_x: u64, min_y: u64)
    requires
        pool.withdrawal_is_owed(amount),
    ensures
        ({
            let next = pool.after_withdraw(amount, min_x, min_y)->Ok_0;
            let settlement = pool.settlement_of(amount, min_x, min_y)->Ok_0;
            &&& pool.after_withdraw(amount, min_x, min_y) is Ok
            &&& pool.settlement_of(amount, min_x, min_y) is Ok
            &&& pool.vault_x.amount - next.vault_x.amount == settlement.x
            &&& next.user_x.amount - pool.user_x.amount == settlement.x
            &&& pool.vault_y.amount - next.vault_y.amount == settlement.y
            &&& next.user_y.amount - pool.user_y.amount == settlement.y
            &&& pool.mint_lp.supply - next.mint_lp.supply == amount
            &&& pool.user_lp.amount - next.user_lp.amount == amount
            &&& next == (Withdraw {
                vault_x: TokenAccount { amount: next.vault_x.amount, ..pool.vault_x },
                vault_y: TokenAccount { amount: next.vault_y.amount, ..pool.vault_y },
                mint_lp: Mint { supply: next.mint_lp.supply, ..pool.mint_lp },
                user_x: TokenAccount { amount: next.user_x.amount, ..pool.user_x },
                user_y: TokenAccount { amount: next.user_y.amount, ..pool.user_y },
                user_lp: TokenAccount { amount: next.user_lp.amount, ..pool.user_lp },
                ..pool
            })
        }),
{
    lemma_withdraw_succeeds_when_owed(pool, amount, min_x, min_y);
}

/// A withdrawal that fails leaves the state as it was, so that the same call on it
/// fails again, for the same reason.
pub proof fn lemma_failed_withdraw_repeats(pool: Withdraw, amount: u64, min_x: u64, min_y: u64)
    requires
        pool.after_withdraw(amount, min_x, min_y) is Err,
    ensures
        pool.state_after_withdraw(amount, min_x, min_y) == pool,
        pool.state_after_withdraw(amount, min_x, min_y).after_withdraw(amount, min_x, min_y)
            == pool.after_withdraw(amount, min_x, min_y),
{
}

} // verus!
