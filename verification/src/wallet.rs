//! The ledger: a simulated cash/asset balance with open-position tracking.
//!
//! Amounts are micro-units (`SCALE` micro-units per whole unit). A price is
//! the number of micro-cash units one whole asset unit costs, so the notional
//! value of a trade is `price * quantity / SCALE`, rounded down.

use vstd::prelude::*;

verus! {

/// Micro-units per whole unit of cash or asset.
pub const SCALE: u64 = 1_000_000;

/// Asset balances at or below this many micro-units count as fully
/// liquidated when deciding whether to clear the open-position list.
pub const DUST_THRESHOLD: u64 = 1;

/// One opened lot: immutable once created, removed (never mutated) when the
/// whole asset balance is liquidated.
#[derive(Debug, Clone)]
pub struct Position {
    /// Micro-cash per whole asset unit at the time the lot was opened.
    pub entry_price: u64,
    /// Micro-asset units in this lot.
    pub quantity: u64,
    /// Seconds since the epoch when the lot was opened.
    pub timestamp: i64,
}

/// Typed rejection of an order: the ledger mutates nothing when it fails.
#[derive(Debug, Clone, Copy, PartialEq, Eq, Structural)]
pub enum OrderError {
    /// A buy whose cost exceeds the cash balance.
    InsufficientFunds,
    /// A sell of more asset than the balance holds.
    InsufficientAsset,
}

/// The sole owner and mutator of the simulated balances.
#[derive(Debug)]
pub struct Wallet {
    /// Cash balance in micro-cash units.
    pub usdt_balance: u64,
    /// Asset balance in micro-asset units.
    pub crypto_balance: u64,
    /// Open lots, in the order they were opened.
    pub positions: Vec<Position>,
}

/// Notional value in micro-cash of `quantity` micro-asset at `price`
/// micro-cash per whole asset, rounded down: the cost of a buy and the
/// revenue of a sell.
pub open spec fn notional_of(price: u64, quantity: u64) -> int {
    (price * quantity) / (SCALE as int)
}

/// The product of two 64-bit values always fits in 128 bits.
pub(crate) proof fn lemma_u64_mul_fits_u128(a: u64, b: u64)
    ensures
        (a as int) * (b as int) <= u128::MAX,
{
    assert((a as int) * (b as int) <= (u64::MAX as int) * (u64::MAX as int)) by (nonlinear_arith)
        requires
            a <= u64::MAX,
            b <= u64::MAX,
    ;
}

/// Relies on chrono::Utc::now: the system clock's seconds since the Unix
/// epoch (chrono aborts if the clock is set before the epoch). Nothing is
/// promised of the value; no contract depends on it.
#[verifier::external_body]
fn current_timestamp() -> i64 {
    chrono::Utc::now().timestamp()
}

impl Wallet {
    /// A fresh ledger: all cash, no asset, no open positions.
    pub fn new(initial_balance: u64) -> (w: Wallet)
        ensures
            w.usdt_balance == initial_balance,
            w.crypto_balance == 0,
            w.positions@ =~= Seq::<Position>::empty(),
    {
        Wallet { usdt_balance: initial_balance, crypto_balance: 0, positions: Vec::new() }
    }

    /// Buy `quantity` micro-asset at `price`: succeeds exactly when the cost
    /// fits in the cash balance, debiting cash, crediting asset and opening
    /// one new position; on failure nothing changes.
    pub fn place_buy_order(&mut self, price: u64, quantity: u64) -> (r: Result<(), OrderError>)
        requires
            price >= 1,
            quantity >= 1,
            old(self).crypto_balance + quantity <= u64::MAX,
        ensures
            r is Ok <==> notional_of(price, quantity) <= old(self).usdt_balance,
            r is Ok ==> {
                &&& final(self).usdt_balance == old(self).usdt_balance - notional_of(price, quantity)
                &&& final(self).crypto_balance == old(self).crypto_balance + quantity
                &&& final(self).positions@.len() == old(self).positions@.len() + 1
                &&& final(self).positions@.last().entry_price == price
                &&& final(self).positions@.last().quantity == quantity
                &&& final(self).positions@.drop_last() =~= old(self).positions@
            },
            r is Err ==> {
                &&& r == Result::<(), OrderError>::Err(OrderError::InsufficientFunds)
                &&& final(self).usdt_balance == old(self).usdt_balance
                &&& final(self).crypto_balance == old(self).crypto_balance
                &&& final(self).positions@ =~= old(self).positions@
            },
    {
        proof {
            lemma_u64_mul_fits_u128(price, quantity);
        }
        let cost_wide: u128 = (price as u128) * (quantity as u128) / (SCALE as u128);
        if cost_wide <= self.usdt_balance as u128 {
            let cost: u64 = cost_wide as u64;
            self.usdt_balance = self.usdt_balance - cost;
            self.crypto_balance = self.crypto_balance + quantity;
            let timestamp = current_timestamp();
            self.positions.push(Position { entry_price: price, quantity, timestamp });
            Ok(())
        } else {
            Err(OrderError::InsufficientFunds)
        }
    }

    /// Sell `quantity` micro-asset at `price`: succeeds exactly when the
    /// asset balance covers it, crediting the revenue and debiting the asset;
    /// the position list is cleared only once the remaining asset balance is
    /// dust, so a partial sell leaves every individual lot untouched.
    pub fn place_sell_order(&mut self, price: u64, quantity: u64) -> (r: Result<(), OrderError>)
        requires
            price >= 1,
            quantity >= 1,
            old(self).usdt_balance + notional_of(price, quantity) <= u64::MAX,
        ensures
            r is Ok <==> quantity <= old(self).crypto_balance,
            r is Ok ==> {
                &&& final(self).usdt_balance == old(self).usdt_balance + notional_of(price, quantity)
                &&& final(self).crypto_balance == old(self).crypto_balance - quantity
                &&& final(self).positions@ =~= (if old(self).crypto_balance - quantity
                    <= DUST_THRESHOLD {
                    Seq::<Position>::empty()
                } else {
                    old(self).positions@
                })
            },
            r is Err ==> {
                &&& r == Result::<(), OrderError>::Err(OrderError::InsufficientAsset)
                &&& final(self).usdt_balance == old(self).usdt_balance
                &&& final(self).crypto_balance == old(self).crypto_balance
                &&& final(self).positions@ =~= old(self).positions@
            },
    {
        if quantity <= self.crypto_balance {
            proof {
                lemma_u64_mul_fits_u128(price, quantity);
            }
            let revenue_wide: u128 = (price as u128) * (quantity as u128) / (SCALE as u128);
            let revenue: u64 = revenue_wide as u64;
            self.crypto_balance = self.crypto_balance - quantity;
            self.usdt_balance = self.usdt_balance + revenue;
            if self.crypto_balance <= DUST_THRESHOLD {
                self.positions = Vec::new();
            }
            Ok(())
        } else {
            Err(OrderError::InsufficientAsset)
        }
    }

    /// Total simulated worth: cash plus the asset balance valued at
    /// `current_price`. Pure; holds for every balance and every price.
    pub fn get_total_equity(&self, current_price: u64) -> (r: u128)
        ensures
            r == self.usdt_balance + notional_of(current_price, self.crypto_balance),
    {
        proof {
            lemma_u64_mul_fits_u128(current_price, self.crypto_balance);
        }
        let valued: u128 = (current_price as u128) * (self.crypto_balance as u128)
            / (SCALE as u128);
        self.usdt_balance as u128 + valued
    }
}

} // verus!
