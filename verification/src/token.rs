use crate::authority::PoolAuthority;
use crate::errors::AmmError;
use crate::state::{Address, Mint, TokenAccount};
use vstd::prelude::*;

verus! {

/// Why a transfer of `amount` from `from` to `to` under the credential of `signer` is
/// refused, if it is: the credential must match the owner of `from`, `from` must hold
/// the amount, and `to` must have room for it.
pub open spec fn transfer_refusal(
    from: TokenAccount,
    to: TokenAccount,
    amount: u64,
    signer: Address,
) -> Option<AmmError> {
    if from.owner != signer {
        Some(AmmError::Unauthorized)
    } else if from.amount < amount {
        Some(AmmError::InsufficientFunds)
    } else if to.amount + amount > u64::MAX {
        Some(AmmError::ArithmeticFailure)
    } else {
        None
    }
}

/// Why burning `amount` of `mint` out of `from` under the credential of `signer` is
/// refused, if it is: the credential must match the mint's authority, and both the
/// account and the supply must hold the amount.
pub open spec fn burn_refusal(mint: Mint, from: TokenAccount, amount: u64, signer: Address) -> Option<
    AmmError,
> {
    if mint.authority != Some(signer) {
        Some(AmmError::Unauthorized)
    } else if from.amount < amount || mint.supply < amount {
        Some(AmmError::InsufficientFunds)
    } else {
        None
    }
}

/// Moves `amount` from `from` to `to`. What is debited is exactly what is credited; a
/// refused transfer changes neither account.
pub fn transfer(
    from: &mut TokenAccount,
    to: &mut TokenAccount,
    amount: u64,
    authority: &PoolAuthority,
) -> (result: Result<(), AmmError>)
    ensures
        match transfer_refusal(*old(from), *old(to), amount, authority.pool()) {
            Some(e) => result == Err::<(), AmmError>(e) && *final(from) == *old(from) && *final(to)
                == *old(to),
            None => {
                &&& result is Ok
                &&& *final(from) == (TokenAccount {
                    amount: (old(from).amount - amount) as u64,
                    ..*old(from)
                })
                &&& *final(to) == (TokenAccount {
                    amount: (old(to).amount + amount) as u64,
                    ..*old(to)
                })
            },
        },
{
    if !authority.authorizes(&from.owner) {
        return Err(AmmError::Unauthorized);
    }
    if from.amount < amount {
        return Err(AmmError::InsufficientFunds);
    }
    let credited: u64 = match to.amount.checked_add(amount) {
        Some(sum) => sum,
        None => {
            return Err(AmmError::ArithmeticFailure);
        },
    };
    from.amount = from.amount - amount;
    to.amount = credited;
    Ok(())
}

/// Takes `amount` out of `from` and out of the supply of `mint`. A refused burn changes
/// neither.
pub fn burn(mint: &mut Mint, from: &mut TokenAccount, amount: u64, authority: &PoolAuthority) -> (result:
    Result<(), AmmError>)
    ensures
        match burn_refusal(*old(mint), *old(from), amount, authority.pool()) {
            Some(e) => result == Err::<(), AmmError>(e) && *final(mint) == *old(mint) && *final(from)
                == *old(from),
            None => {
                &&& result is Ok
                &&& *final(mint) == (Mint { supply: (old(mint).supply - amount) as u64, ..*old(mint) })
                &&& *final(from) == (TokenAccount {
                    amount: (old(from).amount - amount) as u64,
                    ..*old(from)
                })
            },
        },
{
    let authorized = match mint.authority {
        Some(declared) => authority.authorizes(&declared),
        None => false,
    };
    if !authorized {
        return Err(AmmError::Unauthorized);
    }
    if from.amount < amount || mint.supply < amount {
        return Err(AmmError::InsufficientFunds);
    }
    mint.supply = mint.supply - amount;
    from.amount = from.amount - amount;
    Ok(())
}

} // verus!
