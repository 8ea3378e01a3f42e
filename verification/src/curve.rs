use crate::state::LP_DECIMALS;
use vstd::arithmetic::power::{lemma_pow0, lemma_pow_increases, lemma_pow_positive, pow};
use vstd::prelude::*;

verus! {

/// What a withdrawal pays out of the two reserves.
#[derive(Clone, Copy, Debug, PartialEq, Eq, Structural)]
pub struct Settlement {
    /// Units of asset X owed to the caller.
    pub x: u64,
    /// Units of asset Y owed to the caller.
    pub y: u64,
}

/// The fixed-point unit for a token with `decimals` decimal places: ten to that power.
pub open spec fn fixed_point_scale(decimals: u8) -> nat {
    pow(10, decimals as nat) as nat
}

/// The fraction of the pool that stays after `burn` of `lp_supply` LP tokens are
/// redeemed, in units of `1 / scale`, rounded down.
pub open spec fn retained_share(lp_supply: nat, burn: nat, scale: nat) -> nat
    recommends
        0 < lp_supply,
        burn <= lp_supply,
{
    ((lp_supply - burn) * scale / (lp_supply as int)) as nat
}

/// What stays of `reserve` when the fraction `share / scale` of it stays, rounded down.
pub open spec fn retained_reserve(reserve: nat, share: nat, scale: nat) -> nat
    recommends
        0 < scale,
        share <= scale,
{
    reserve * share / scale
}

/// What leaves `reserve` when `burn` of `lp_supply` LP tokens are redeemed.
pub open spec fn released_reserve(reserve: nat, lp_supply: nat, burn: nat, scale: nat) -> nat
    recommends
        0 < lp_supply,
        burn <= lp_supply,
        0 < scale,
{
    (reserve - retained_reserve(reserve, retained_share(lp_supply, burn, scale), scale)) as nat
}

/// True when one of the products of the computation does not fit in 128 bits.
pub open spec fn curve_overflows(x: u64, y: u64, lp_supply: u64, burn: u64, decimals: u8) -> bool
    recommends
        0 < lp_supply,
        burn <= lp_supply,
{
    let scale = fixed_point_scale(decimals);
    let share = retained_share(lp_supply as nat, burn as nat, scale);
    ||| scale > u128::MAX
    ||| (lp_supply - burn) * scale > u128::MAX
    ||| x * share > u128::MAX
    ||| y * share > u128::MAX
}

/// The settlement of a redemption of `burn` LP tokens against reserves `x` and `y` and
/// a supply of `lp_supply`, computed in fixed point with `decimals` places. There is
/// none when the supply is zero, when more is burnt than the supply holds, or when a
/// product of the computation does not fit in 128 bits.
pub open spec fn curve_withdrawal(x: u64, y: u64, lp_supply: u64, burn: u64, decimals: u8) -> Option<
    Settlement,
> {
    if lp_supply == 0 || burn > lp_supply || curve_overflows(x, y, lp_supply, burn, decimals) {
        None
    } else {
        let scale = fixed_point_scale(decimals);
        Some(
            Settlement {
                x: released_reserve(x as nat, lp_supply as nat, burn as nat, scale) as u64,
                y: released_reserve(y as nat, lp_supply as nat, burn as nat, scale) as u64,
            },
        )
    }
}

/// The retained share never exceeds the whole, and is the whole when nothing is burnt.
pub proof fn lemma_retained_share_bounds(lp_supply: nat, burn: nat, scale: nat)
    requires
        0 < lp_supply,
        burn <= lp_supply,
    ensures
        retained_share(lp_supply, burn, scale) <= scale,
        burn == 0 ==> retained_share(lp_supply, burn, scale) == scale,
        burn == lp_supply ==> retained_share(lp_supply, burn, scale) == 0,
{
    let left = (lp_supply - burn) as int;
    let l = lp_supply as int;
    let s = scale as int;
    assert(left * s / l <= s) by (nonlinear_arith)
        requires
            0 <= left <= l,
            0 < l,
            0 <= s,
    ;
    assert(0 <= left * s / l) by (nonlinear_arith)
        requires
            0 <= left,
            0 < l,
            0 <= s,
    ;
    if burn == 0 {
        assert(l * s / l == s) by (nonlinear_arith)
            requires
                0 < l,
        ;
    }
    if burn == lp_supply {
        assert(0 * s == 0);
        assert(0int / l == 0) by (nonlinear_arith)
            requires
                0 < l,
        ;
    }
}

/// What stays of a reserve is never more than the reserve.
pub proof fn lemma_retained_reserve_bounds(reserve: nat, share: nat, scale: nat)
    requires
        0 < scale,
        share <= scale,
    ensures
        retained_reserve(reserve, share, scale) <= reserve,
        share == scale ==> retained_reserve(reserve, share, scale) == reserve,
        share == 0 ==> retained_reserve(reserve, share, scale) == 0,
{
    let r = reserve as int;
    let q = share as int;
    let s = scale as int;
    assert(0 <= r * q / s <= r) by (nonlinear_arith)
        requires
            0 <= r,
            0 <= q <= s,
            0 < s,
    ;
    if share == scale {
        assert(r * s / s == r) by (nonlinear_arith)
            requires
                0 < s,
        ;
    }
    if share == 0 {
        assert(r * 0 == 0);
        assert(0int / s == 0) by (nonlinear_arith)
            requires
                0 < s,
        ;
    }
}

/// At the LP token's own six places the unit is a million, and no product of the
/// computation leaves 128 bits: the curve then has a settlement exactly when the supply
/// is not zero and no more is burnt than it holds.
pub proof fn lemma_lp_scale_always_fits(x: u64, y: u64, lp_supply: u64, burn: u64)
    ensures
        fixed_point_scale(LP_DECIMALS) == 1_000_000,
        curve_withdrawal(x, y, lp_supply, burn, LP_DECIMALS) is Some <==> 0 < lp_supply && burn
            <= lp_supply,
{
    reveal_with_fuel(pow, 7);
    assert(pow(10, 6) == 1_000_000);
    if 0 < lp_supply && burn <= lp_supply {
        let scale = fixed_point_scale(LP_DECIMALS);
        let share = retained_share(lp_supply as nat, burn as nat, scale);
        lemma_retained_share_bounds(lp_supply as nat, burn as nat, scale);
        assert((lp_supply - burn) * scale == (lp_supply - burn) * 1_000_000);
        assert(x * share <= x * 1_000_000 && y * share <= y * 1_000_000) by (nonlinear_arith)
            requires
                share <= 1_000_000,
        ;
        assert(!curve_overflows(x, y, lp_supply, burn, LP_DECIMALS));
    }
}

/// Whether a reserve has shrunk in the proportion in which the LP supply has, up to
/// the rounding of fixed point at `scale`. Written without division,
/// `reserve_after / reserve_before` is at most `supply_after / supply_before`, and
/// `reserve_after` falls short of the exact proportional part of `reserve_before` by
/// less than one unit plus one part in `scale` of `reserve_before`.
pub open spec fn in_proportion(
    reserve_before: nat,
    reserve_after: nat,
    supply_before: nat,
    supply_after: nat,
    scale: nat,
) -> bool {
    &&& reserve_after * supply_before <= reserve_before * supply_after
    &&& reserve_before * supply_after * scale < (reserve_after + 1) * supply_before * scale
        + reserve_before * supply_before
}

/// A withdrawal shrinks a reserve in the proportion in which it shrinks the LP supply,
/// up to rounding, and never pays the caller less than the exact proportional part of
/// the reserve, nor more than the reserve.
pub proof fn lemma_withdrawal_keeps_proportion(reserve: nat, lp_supply: nat, burn: nat, scale: nat)
    requires
        0 < lp_supply,
        burn <= lp_supply,
        0 < scale,
    ensures
        ({
            let paid = released_reserve(reserve, lp_supply, burn, scale);
            &&& paid <= reserve
            &&& reserve * burn <= paid * lp_supply
            &&& in_proportion(
                reserve,
                (reserve - paid) as nat,
                lp_supply,
                (lp_supply - burn) as nat,
                scale,
            )
        }),
{
    let share = retained_share(lp_supply, burn, scale);
    lemma_retained_share_bounds(lp_supply, burn, scale);
    lemma_retained_reserve_bounds(reserve, share, scale);
    let r = reserve as int;
    let l = lp_supply as int;
    let left = (lp_supply - burn) as int;
    let s = scale as int;
    let q = share as int;
    let kept = retained_reserve(reserve, share, scale) as int;
    assert(q * l <= left * s && left * s < (q + 1) * l) by (nonlinear_arith)
        requires
            q == left * s / l,
            0 < l,
    ;
    assert(kept * s <= r * q && r * q < (kept + 1) * s) by (nonlinear_arith)
        requires
            kept == r * q / s,
            0 < s,
    ;
    assert(kept * l <= r * left) by (nonlinear_arith)
        requires
            kept * s <= r * q,
            q * l <= left * s,
            0 < s,
            0 <= r,
            0 <= l,
            0 <= kept,
    ;
    assert(r * left * s < (kept + 1) * l * s + r * l) by (nonlinear_arith)
        requires
            r * q < (kept + 1) * s,
            left * s < (q + 1) * l,
            0 < l,
            0 <= r,
    ;
    assert(r * (l - left) <= (r - kept) * l) by (nonlinear_arith)
        requires
            kept * l <= r * left,
    ;
}

/// Ten to the power `decimals`, where it fits in 128 bits.
pub fn scale_for(decimals: u8) -> (scale: Option<u128>)
    ensures
        scale == (if fixed_point_scale(decimals) <= u128::MAX {
            Some(fixed_point_scale(decimals) as u128)
        } else {
            None
        }),
{
    let mut acc: u128 = 1;
    let mut i: u8 = 0;
    proof {
        lemma_pow0(10);
    }
    while i < decimals
        invariant
            i <= decimals,
            acc == pow(10, i as nat),
        decreases decimals - i,
    {
        proof {
            reveal(pow);
            assert(pow(10, (i + 1) as nat) == 10 * pow(10, i as nat));
        }
        match acc.checked_mul(10) {
            Some(next) => {
                acc = next;
            },
            None => {
                proof {
                    lemma_pow_increases(10, (i + 1) as nat, decimals as nat);
                }
                return None;
            },
        }
        i = i + 1;
    }
    Some(acc)
}

/// What leaves `reserve` when the fraction `share / scale` of it stays, where the
/// product fits in 128 bits.
fn release(reserve: u64, share: u128, scale: u128) -> (paid: Option<u64>)
    requires
        0 < scale,
        share <= scale,
    ensures
        match paid {
            Some(p) => reserve * share <= u128::MAX && p == reserve - retained_reserve(
                reserve as nat,
                share as nat,
                scale as nat,
            ),
            None => reserve * share > u128::MAX,
        },
{
    proof {
        lemma_retained_reserve_bounds(reserve as nat, share as nat, scale as nat);
    }
    let whole: u128 = reserve as u128;
    match whole.checked_mul(share) {
        Some(product) => {
            let kept: u128 = product / scale;
            let paid: u128 = whole - kept;
            Some(paid as u64)
        },
        None => None,
    }
}

/// Computes the settlement of a redemption of `burn` LP tokens against reserves `x`
/// and `y` and a supply of `lp_supply`, in fixed point with `decimals` places.
///
/// The share of the pool that stays is `(lp_supply - burn) * 10^decimals / lp_supply`,
/// rounded down; of each reserve the part `reserve * share / 10^decimals` stays, rounded
/// down, and the rest is paid. Nothing is clamped: where the supply is zero, `burn`
/// exceeds it, or a product leaves 128 bits, there is no settlement.
pub fn withdraw_amounts(x: u64, y: u64, lp_supply: u64, burn: u64, decimals: u8) -> (amounts:
    Option<Settlement>)
    ensures
        amounts == curve_withdrawal(x, y, lp_supply, burn, decimals),
{
    if lp_supply == 0 || burn > lp_supply {
        return None;
    }
    let scale: u128 = match scale_for(decimals) {
        Some(s) => s,
        None => {
            return None;
        },
    };
    proof {
        lemma_pow_positive(10, decimals as nat);
        lemma_retained_share_bounds(lp_supply as nat, burn as nat, scale as nat);
    }
    let left: u128 = (lp_supply - burn) as u128;
    let share: u128 = match left.checked_mul(scale) {
        Some(product) => product / (lp_supply as u128),
        None => {
            return None;
        },
    };
    let paid_x: u64 = match release(x, share, scale) {
        Some(paid) => paid,
        None => {
            return None;
        },
    };
    let paid_y: u64 = match release(y, share, scale) {
        Some(paid) => paid,
        None => {
            return None;
        },
    };
    Some(Settlement { x: paid_x, y: paid_y })
}

} // verus!
