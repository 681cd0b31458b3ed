use vstd::prelude::*;

use crate::errors::DndError;
use crate::model::{CoinType, Coins, Player};

verus! {

/// The copper value of one coin of a denomination:
/// 1 pp = 10 gp = 20 ep = 100 sp = 1000 cp.
pub open spec fn denomination_value(t: CoinType) -> int {
    match t {
        CoinType::Gold => 100,
        CoinType::Silver => 10,
        CoinType::Copper => 1,
        CoinType::Ep => 50,
        CoinType::Pp => 1000,
    }
}

/// The copper-equivalent total of a purse: the value of all its coins
/// expressed in the smallest unit.
pub open spec fn copper_total(c: Coins) -> int {
    c.gold * 100 + c.silver * 10 + c.copper + c.ep * 50 + c.pp * 1000
}

impl Player {
    /// Re-expresses a purse in one denomination: the number of whole coins
    /// of that denomination the purse is worth, and the copper remainder.
    /// A purse whose copper-equivalent total is negative is rejected;
    /// conversion to copper leaves a zero remainder by construction.
    pub fn coins_to_coin(coins: &Coins, coin_type: CoinType) -> (r: Result<(i64, i64), DndError>)
        ensures
            r.is_ok() <==> copper_total(*coins) >= 0,
            copper_total(*coins) < 0 ==> r == Err::<(i64, i64), DndError>(DndError::NegativePurse),
            r.is_ok() ==> r.unwrap().0 == copper_total(*coins) / denomination_value(coin_type),
            r.is_ok() ==> r.unwrap().1 == copper_total(*coins) % denomination_value(coin_type),
            r.is_ok() && coin_type == CoinType::Copper ==> r.unwrap().1 == 0,
    {
        let total: i64 = (coins.gold as i64) * 100 + (coins.silver as i64) * 10 + (
        coins.copper as i64) + (coins.ep as i64) * 50 + (coins.pp as i64) * 1000;
        if total < 0 {
            return Err(DndError::NegativePurse);
        }
        let value: i64 = match coin_type {
            CoinType::Gold => 100,
            CoinType::Silver => 10,
            CoinType::Copper => 1,
            CoinType::Ep => 50,
            CoinType::Pp => 1000,
        };
        let units: i64 = total / value;
        proof {
            vstd::arithmetic::div_mod::lemma_fundamental_div_mod(total as int, value as int);
            vstd::arithmetic::div_mod::lemma_mod_bound(total as int, value as int);
        }
        let remainder: i64 = total - value * units;
        Ok((units, remainder))
    }
}

} // verus!
