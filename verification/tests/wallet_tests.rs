use paper_trader::wallet::{OrderError, Wallet};
use paper_trader::SCALE;

#[test]
fn test_wallet_creation() {
    let wallet = Wallet::new(1000 * SCALE);
    assert_eq!(wallet.usdt_balance, 1000 * SCALE);
    assert_eq!(wallet.crypto_balance, 0);
    assert!(wallet.positions.is_empty());
}

#[test]
fn test_buy_order_success() {
    let mut wallet = Wallet::new(1000 * SCALE);
    let price = 100 * SCALE;
    let quantity = SCALE;

    // Buy 1 unit at 100.
    let result = wallet.place_buy_order(price, quantity);
    assert!(result.is_ok());

    assert_eq!(wallet.usdt_balance, 900 * SCALE); // 1000 - 100
    assert_eq!(wallet.crypto_balance, SCALE);
    assert_eq!(wallet.positions.len(), 1);
    assert_eq!(wallet.positions[0].entry_price, 100 * SCALE);
}

#[test]
fn test_buy_insufficient_funds() {
    let mut wallet = Wallet::new(100 * SCALE);
    let price = 200 * SCALE;
    let quantity = SCALE;

    // Buy 1 unit at 200 (cost 200) with only 100.
    let result = wallet.place_buy_order(price, quantity);
    assert!(result.is_err());

    assert_eq!(wallet.usdt_balance, 100 * SCALE); // No change
    assert_eq!(wallet.crypto_balance, 0);
}

#[test]
fn test_sell_order_success() {
    let mut wallet = Wallet::new(1000 * SCALE);
    // Setup: Buy 1 unit first
    let _ = wallet.place_buy_order(100 * SCALE, SCALE);

    // Sell 0.5 units at 200
    let result = wallet.place_sell_order(200 * SCALE, SCALE / 2);
    assert!(result.is_ok());

    // Revenue = 0.5 * 200 = 100
    // New cash = 900 + 100 = 1000
    // New asset = 1.0 - 0.5 = 0.5
    assert_eq!(wallet.usdt_balance, 1000 * SCALE);
    assert_eq!(wallet.crypto_balance, SCALE / 2);
}

#[test]
fn test_sell_insufficient_funds() {
    let mut wallet = Wallet::new(1000 * SCALE);
    // Asset balance is 0

    let result = wallet.place_sell_order(100 * SCALE, SCALE);
    assert!(result.is_err());
}

#[test]
fn test_buy_twice_from_same_balance() {
    let mut wallet = Wallet::new(1000 * SCALE);
    assert!(wallet.place_buy_order(100 * SCALE, SCALE).is_ok());
    assert_eq!(wallet.usdt_balance, 900 * SCALE);
    assert_eq!(wallet.crypto_balance, SCALE);
    // 900 >= 100, so the second buy of the same size goes through too.
    assert!(wallet.place_buy_order(100 * SCALE, SCALE).is_ok());
    assert_eq!(wallet.usdt_balance, 800 * SCALE);
    assert_eq!(wallet.crypto_balance, 2 * SCALE);
    assert_eq!(wallet.positions.len(), 2);
}

#[test]
fn test_partial_sell_then_insufficient_asset() {
    let mut wallet = Wallet::new(1000 * SCALE);
    assert!(wallet.place_buy_order(100 * SCALE, SCALE).is_ok());
    assert!(wallet.place_buy_order(100 * SCALE, SCALE).is_ok());
    // cash 800, asset 2; sell 0.5 at 200: revenue 100
    assert_eq!(wallet.place_sell_order(200 * SCALE, SCALE / 2), Ok(()));
    assert_eq!(wallet.usdt_balance, 900 * SCALE);
    assert_eq!(wallet.crypto_balance, SCALE + SCALE / 2);
    // A partial sell leaves the individual lots untouched.
    assert_eq!(wallet.positions.len(), 2);

    // Selling 5 units with only 1.5 held fails and changes nothing.
    let result = wallet.place_sell_order(100 * SCALE, 5 * SCALE);
    assert_eq!(result, Err(OrderError::InsufficientAsset));
    assert_eq!(wallet.usdt_balance, 900 * SCALE);
    assert_eq!(wallet.crypto_balance, SCALE + SCALE / 2);
    assert_eq!(wallet.positions.len(), 2);
}

#[test]
fn test_buy_error_variant() {
    let mut wallet = Wallet::new(SCALE);
    let result = wallet.place_buy_order(2 * SCALE, SCALE);
    assert_eq!(result, Err(OrderError::InsufficientFunds));
}

#[test]
fn test_full_sell_clears_positions() {
    let mut wallet = Wallet::new(1000 * SCALE);
    assert!(wallet.place_buy_order(100 * SCALE, SCALE).is_ok());
    assert!(wallet.place_buy_order(100 * SCALE, SCALE).is_ok());
    assert_eq!(wallet.positions.len(), 2);
    assert!(wallet.place_sell_order(100 * SCALE, 2 * SCALE).is_ok());
    assert_eq!(wallet.crypto_balance, 0);
    assert!(wallet.positions.is_empty());
}

#[test]
fn test_total_equity_formula() {
    let mut wallet = Wallet::new(10 * SCALE);
    // Buy 0.5 units at 2: cost 1, leaving cash 9 and asset 0.5.
    assert!(wallet.place_buy_order(2 * SCALE, SCALE / 2).is_ok());
    assert_eq!(wallet.usdt_balance, 9 * SCALE);
    assert_eq!(wallet.crypto_balance, SCALE / 2);
    // Equity at price 3: 9 + 0.5 * 3 = 10.5
    assert_eq!(wallet.get_total_equity(3 * SCALE), (10 * SCALE + SCALE / 2) as u128);
    // Equity at price 0 is the cash alone.
    assert_eq!(wallet.get_total_equity(0), (9 * SCALE) as u128);
}
