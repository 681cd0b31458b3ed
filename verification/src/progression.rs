use vstd::prelude::*;

use crate::errors::DndError;
use crate::model::Player;

verus! {

/// The level an experience total grants, per the fixed ascending threshold
/// table. Meaningful for `exp >= 0`; every such total maps to a level
/// between 1 and 20.
pub open spec fn level_of_exp(exp: int) -> int {
    if exp < 300 {
        1
    } else if exp < 900 {
        2
    } else if exp < 2700 {
        3
    } else if exp < 6500 {
        4
    } else if exp < 14000 {
        5
    } else if exp < 23000 {
        6
    } else if exp < 34000 {
        7
    } else if exp < 48000 {
        8
    } else if exp < 64000 {
        9
    } else if exp < 85000 {
        10
    } else if exp < 100000 {
        11
    } else if exp < 120000 {
        12
    } else if exp < 140000 {
        13
    } else if exp < 165000 {
        14
    } else if exp < 195000 {
        15
    } else if exp < 225000 {
        16
    } else if exp < 265000 {
        17
    } else if exp < 305000 {
        18
    } else if exp < 355000 {
        19
    } else {
        20
    }
}

/// The proficiency bonus a level grants: 2 for levels 1 to 4, and one more
/// for each further band of four levels, up to 9 at levels 29 and 30.
/// Meaningful for levels 1 to 30.
pub open spec fn proficiency_bonus_of_level(level: int) -> int {
    2 + (level - 1) / 4
}

impl Player {
    /// The level an experience total grants. Negative experience is
    /// rejected; every non-negative total maps to a level between 1 and 20.
    pub fn exp_to_level(exp: i32) -> (r: Result<i32, DndError>)
        ensures
            r.is_ok() <==> exp >= 0,
            exp < 0 ==> r == Err::<i32, DndError>(DndError::InvalidExperience),
            exp >= 0 ==> r == Ok::<i32, DndError>(level_of_exp(exp as int) as i32),
            r.is_ok() ==> 1 <= r.unwrap() <= 20,
    {
        if exp < 0 {
            Err(DndError::InvalidExperience)
        } else if exp < 300 {
            Ok(1)
        } else if exp < 900 {
            Ok(2)
        } else if exp < 2700 {
            Ok(3)
        } else if exp < 6500 {
            Ok(4)
        } else if exp < 14000 {
            Ok(5)
        } else if exp < 23000 {
            Ok(6)
        } else if exp < 34000 {
            Ok(7)
        } else if exp < 48000 {
            Ok(8)
        } else if exp < 64000 {
            Ok(9)
        } else if exp < 85000 {
            Ok(10)
        } else if exp < 100000 {
            Ok(11)
        } else if exp < 120000 {
            Ok(12)
        } else if exp < 140000 {
            Ok(13)
        } else if exp < 165000 {
            Ok(14)
        } else if exp < 195000 {
            Ok(15)
        } else if exp < 225000 {
            Ok(16)
        } else if exp < 265000 {
            Ok(17)
        } else if exp < 305000 {
            Ok(18)
        } else if exp < 355000 {
            Ok(19)
        } else {
            Ok(20)
        }
    }

    /// The proficiency bonus a level grants, or `None` for a level outside
    /// 1 to 30.
    pub fn level_to_proficiency_modifier(level: i32) -> (r: Option<i32>)
        ensures
            r.is_some() <==> 1 <= level <= 30,
            1 <= level <= 30 ==> r == Some::<i32>(proficiency_bonus_of_level(level as int) as i32),
            r.is_some() ==> 2 <= r.unwrap() <= 9,
    {
        if level < 1 || level > 30 {
            None
        } else if level <= 4 {
            Some(2)
        } else if level <= 8 {
            Some(3)
        } else if level <= 12 {
            Some(4)
        } else if level <= 16 {
            Some(5)
        } else if level <= 20 {
            Some(6)
        } else if level <= 24 {
            Some(7)
        } else if level <= 28 {
            Some(8)
        } else {
            Some(9)
        }
    }
}

} // verus!
