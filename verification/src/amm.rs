use vstd::prelude::*;

use crate::errors::Error;

verus! {

/// The deposit-ratio rule of the constant-product exchange pool that trades
/// the claim tokens: given the depositor's desired and minimum amounts of
/// the two tokens and the pool's current reserves, picks the actual deposit
/// amounts that keep the reserve ratio.
///
/// Into an empty pool the desired amounts go in as they are.  Otherwise the
/// second token's amount is matched to the first at the reserve ratio when
/// that fits under `desired_b` (refused if it falls below `min_b`), and the
/// first is matched to the second at the reserve ratio in the opposite
/// case (refused if it overshoots `desired_a` or falls below `min_a`).
/// Both ratio divisions truncate.
pub fn get_deposit_amounts(
    desired_a: i128,
    min_a: i128,
    desired_b: i128,
    min_b: i128,
    reserve_a: i128,
    reserve_b: i128,
) -> (r: Result<(i128, i128), Error>)
    requires
        desired_a >= 0,
        desired_b >= 0,
        (reserve_a == 0 && reserve_b == 0) || (reserve_a > 0 && reserve_b > 0),
        reserve_a > 0 ==> desired_a * reserve_b <= i128::MAX && desired_b * reserve_a <= i128::MAX,
    ensures
        reserve_a == 0 && reserve_b == 0 ==> r == Ok::<(i128, i128), Error>(
            (desired_a, desired_b),
        ),
        reserve_a > 0 && reserve_b > 0 ==> ({
            let amount_b = desired_a * reserve_b / (reserve_a as int);
            let amount_a = desired_b * reserve_a / (reserve_b as int);
            if amount_b <= desired_b {
                if amount_b < min_b {
                    r == Err::<(i128, i128), Error>(Error::InvalidAmount)
                } else {
                    r == Ok::<(i128, i128), Error>((desired_a, amount_b as i128))
                }
            } else {
                if amount_a > desired_a || amount_a < min_a {
                    r == Err::<(i128, i128), Error>(Error::InvalidAmount)
                } else {
                    r == Ok::<(i128, i128), Error>((amount_a as i128, desired_b))
                }
            }
        }),
{
    if reserve_a == 0 && reserve_b == 0 {
        return Ok((desired_a, desired_b));
    }
    proof {
        assert(desired_a * reserve_b >= 0) by (nonlinear_arith)
            requires
                desired_a >= 0,
                reserve_b > 0,
        ;
        assert(desired_b * reserve_a >= 0) by (nonlinear_arith)
            requires
                desired_b >= 0,
                reserve_a > 0,
        ;
    }
    let amount_b = desired_a * reserve_b / reserve_a;
    if amount_b <= desired_b {
        if amount_b < min_b {
            Err(Error::InvalidAmount)
        } else {
            Ok((desired_a, amount_b))
        }
    } else {
        let amount_a = desired_b * reserve_a / reserve_b;
        if amount_a > desired_a || amount_a < min_a {
            Err(Error::InvalidAmount)
        } else {
            Ok((amount_a, desired_b))
        }
    }
}

} // verus!
