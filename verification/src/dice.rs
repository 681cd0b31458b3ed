use vstd::prelude::*;

use rand::Rng;

use crate::errors::{DndError, RangeParam};
use crate::model::Player;

verus! {

/// The pseudo-random generator the dice engine draws from: rand's seedable
/// `StdRng`, declared so it can stand in signatures. Each caller owns its
/// generator — built from a fixed seed for deterministic play, or from
/// entropy — and no other operation shares it.
#[verifier::external_type_specification]
#[verifier::external_body]
pub struct ExStdRng(rand::rngs::StdRng);

/// One draw, uniform over `1..=upper`.
///
/// Relies on rand's `Rng::random_range`, which returns a value of the given
/// range and panics only when the range is empty; `upper >= 1` keeps
/// `1..=upper` non-empty.
#[verifier::external_body]
fn sample_die(rng: &mut rand::rngs::StdRng, upper: i32) -> (r: i32)
    requires
        upper >= 1,
    ensures
        1 <= r <= upper,
{
    rng.random_range(1..=upper)
}

impl Player {
    /// One die roll: a value uniform over 1 to `upperbound`, for an upper
    /// bound between 2 and 100; any other bound is rejected before a die is
    /// cast.
    pub fn dice(rng: &mut rand::rngs::StdRng, upperbound: i32) -> (r: Result<i32, DndError>)
        ensures
            r.is_ok() <==> 2 <= upperbound <= 100,
            !(2 <= upperbound <= 100) ==> r == Err::<i32, DndError>(
                DndError::InvalidRange(RangeParam::DieBound),
            ),
            r.is_ok() ==> 1 <= r.unwrap() <= upperbound,
    {
        if upperbound < 2 || upperbound > 100 {
            Err(DndError::InvalidRange(RangeParam::DieBound))
        } else {
            Ok(sample_die(rng, upperbound))
        }
    }

    /// An aggregate roll: for a single die, the roll itself, or under
    /// advantage 1 (or disadvantage -1) the higher (or lower) of two rolls;
    /// for 2 to 10 dice, the sum of exactly `count` rolls, the advantage
    /// flag being meaningful only for a single die. Every parameter is
    /// validated before any die is cast.
    pub fn dice_complex(
        rng: &mut rand::rngs::StdRng,
        upperbound: i32,
        count: i32,
        advantage: i32,
    ) -> (r: Result<i32, DndError>)
        ensures
            !(2 <= upperbound <= 100) ==> r == Err::<i32, DndError>(
                DndError::InvalidRange(RangeParam::DieBound),
            ),
            2 <= upperbound <= 100 && !(1 <= count <= 10) ==> r == Err::<i32, DndError>(
                DndError::InvalidRange(RangeParam::Count),
            ),
            2 <= upperbound <= 100 && 1 <= count <= 10 && !(-1 <= advantage <= 1) ==> r
                == Err::<i32, DndError>(DndError::InvalidRange(RangeParam::Advantage)),
            r.is_ok() <==> (2 <= upperbound <= 100 && 1 <= count <= 10 && -1 <= advantage <= 1),
            r.is_ok() && count == 1 ==> 1 <= r.unwrap() <= upperbound,
            r.is_ok() && count > 1 ==> count <= r.unwrap() <= count * upperbound,
    {
        if upperbound < 2 || upperbound > 100 {
            Err(DndError::InvalidRange(RangeParam::DieBound))
        } else if count < 1 || count > 10 {
            Err(DndError::InvalidRange(RangeParam::Count))
        } else if advantage < -1 || advantage > 1 {
            Err(DndError::InvalidRange(RangeParam::Advantage))
        } else if count == 1 {
            let first = sample_die(rng, upperbound);
            if advantage == 0 {
                Ok(first)
            } else {
                let second = sample_die(rng, upperbound);
                if advantage == 1 {
                    Ok(if first >= second { first } else { second })
                } else {
                    Ok(if first <= second { first } else { second })
                }
            }
        } else {
            let mut sum: i32 = 0;
            let mut rolled: i32 = 0;
            while rolled < count
                invariant
                    0 <= rolled <= count,
                    2 <= upperbound <= 100,
                    2 <= count <= 10,
                    rolled <= sum <= rolled * upperbound,
                decreases count - rolled,
            {
                let die = sample_die(rng, upperbound);
                proof {
                    assert(rolled * upperbound <= 900) by (nonlinear_arith)
                        requires
                            0 <= rolled <= 9 && 2 <= upperbound <= 100,
                    ;
                    assert((rolled + 1) * upperbound == rolled * upperbound + upperbound)
                        by (nonlinear_arith);
                }
                sum = sum + die;
                rolled = rolled + 1;
            }
            Ok(sum)
        }
    }
}

} // verus!
