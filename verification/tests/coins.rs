use minidnd::{CoinType, Coins, DndError, Player};

#[test]
fn mixed_purse_to_gold() {
    let purse = Coins { gold: 100, silver: 0, copper: 101, ep: 1, pp: 1 };
    // 100*100 + 0 + 101 + 50 + 1000 = 11151 copper: 111 gold, 51 copper left.
    assert_eq!(Player::coins_to_coin(&purse, CoinType::Gold), Ok((111, 51)));
}

#[test]
fn one_of_each_to_copper() {
    let purse = Coins { gold: 1, silver: 1, copper: 1, ep: 1, pp: 1 };
    // 100 + 10 + 1 + 50 + 1000 = 1161 copper, and copper leaves no remainder.
    assert_eq!(Player::coins_to_coin(&purse, CoinType::Copper), Ok((1161, 0)));
}

#[test]
fn each_denomination_value() {
    let purse = Coins { gold: 0, silver: 0, copper: 3000, ep: 0, pp: 0 };
    assert_eq!(Player::coins_to_coin(&purse, CoinType::Pp), Ok((3, 0)));
    assert_eq!(Player::coins_to_coin(&purse, CoinType::Ep), Ok((60, 0)));
    assert_eq!(Player::coins_to_coin(&purse, CoinType::Silver), Ok((300, 0)));
    let odd = Coins { gold: 0, silver: 0, copper: 1234, ep: 0, pp: 0 };
    assert_eq!(Player::coins_to_coin(&odd, CoinType::Pp), Ok((1, 234)));
    assert_eq!(Player::coins_to_coin(&odd, CoinType::Gold), Ok((12, 34)));
    assert_eq!(Player::coins_to_coin(&odd, CoinType::Ep), Ok((24, 34)));
    assert_eq!(Player::coins_to_coin(&odd, CoinType::Silver), Ok((123, 4)));
}

#[test]
fn negative_total_is_rejected() {
    let purse = Coins { gold: -1, silver: 0, copper: 0, ep: 0, pp: 0 };
    assert_eq!(Player::coins_to_coin(&purse, CoinType::Copper), Err(DndError::NegativePurse));
}

#[test]
fn negative_fields_may_cancel() {
    // Only the copper-equivalent total must be non-negative.
    let purse = Coins { gold: -1, silver: 0, copper: 100, ep: 0, pp: 0 };
    assert_eq!(Player::coins_to_coin(&purse, CoinType::Copper), Ok((0, 0)));
}

#[test]
fn empty_purse_converts_to_zero() {
    let purse = Coins { gold: 0, silver: 0, copper: 0, ep: 0, pp: 0 };
    assert_eq!(Player::coins_to_coin(&purse, CoinType::Gold), Ok((0, 0)));
}

#[test]
fn default_purse_values() {
    let purse = Coins::default();
    assert_eq!(purse.gold, 10);
    assert_eq!(purse.silver, 50);
    assert_eq!(purse.copper, 100);
    assert_eq!(purse.ep, 0);
    assert_eq!(purse.pp, 0);
    // 10*100 + 50*10 + 100 = 1600 copper.
    assert_eq!(Player::coins_to_coin(&purse, CoinType::Gold), Ok((16, 0)));
}

#[test]
fn large_purses_do_not_overflow() {
    let purse = Coins { gold: i32::MAX, silver: i32::MAX, copper: i32::MAX, ep: i32::MAX, pp: i32::MAX };
    let total: i64 = (i32::MAX as i64) * (100 + 10 + 1 + 50 + 1000);
    assert_eq!(Player::coins_to_coin(&purse, CoinType::Copper), Ok((total, 0)));
}
