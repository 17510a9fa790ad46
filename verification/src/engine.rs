//! The orchestrator: one tick takes the latest price, applies
//! stop-loss/take-profit risk control against the open positions, and only
//! when no risk rule fires acts on the crossover signal — buying with half
//! the cash balance or selling the whole asset balance.

use vstd::prelude::*;

verus! {

use vstd::arithmetic::div_mod::{
    lemma_div_is_ordered,
    lemma_div_multiples_vanish,
    lemma_fundamental_div_mod,
};
use vstd::arithmetic::mul::lemma_mul_inequality;

use crate::config::{config_wf, TradingConfig};
use crate::strategy::{crossover_signal, next_history, Signal, SmaStrategy};
use crate::wallet::{lemma_u64_mul_fits_u128, notional_of, Position, Wallet, SCALE};

/// Smallest cash notional (micro-cash) a signal-driven buy may commit.
pub const MIN_ORDER_NOTIONAL: u64 = 10 * SCALE;

/// What the risk-management overlay decided for one tick.
#[derive(Debug, Clone, Copy, PartialEq, Eq, Structural)]
pub enum RiskCheck {
    /// The price fell to or below the stop-loss threshold under the average
    /// entry: liquidate.
    StopLoss,
    /// The price rose to or above the take-profit threshold over the average
    /// entry: liquidate.
    TakeProfit,
    /// Neither threshold was reached.
    Clear,
}

/// How an attempted full liquidation ended.
#[derive(Debug, Clone, Copy, PartialEq, Eq, Structural)]
pub enum SellOutcome {
    /// The whole asset balance was sold.
    Executed,
    /// There was nothing to sell.
    Empty,
    /// The revenue would not fit in the cash balance; nothing was sold.
    TooLarge,
}

/// How an attempted half-cash buy ended.
#[derive(Debug, Clone, Copy, PartialEq, Eq, Structural)]
pub enum BuyOutcome {
    /// The buy was executed.
    Executed,
    /// Half the cash balance is under the minimum order notional; no action.
    BelowMinimum,
    /// The spend buys less than one micro-asset at this price; no action.
    ZeroQuantity,
    /// The quantity would not fit in the asset balance; no action.
    TooLarge,
}

/// Everything one tick did.
#[derive(Debug, Clone, Copy, PartialEq, Eq, Structural)]
pub enum TickEvent {
    /// A risk rule fired and a full liquidation was attempted; the signal
    /// was not acted on this tick.
    Liquidated(RiskCheck, SellOutcome),
    /// The signal said buy.
    Bought(BuyOutcome),
    /// The signal said sell.
    Sold(SellOutcome),
    /// No risk rule fired and the signal was neutral.
    Held,
}

/// Sum of the open quantities, in micro-asset.
pub open spec fn total_quantity(ps: Seq<Position>) -> int
    decreases ps.len(),
{
    if ps.len() == 0 {
        0
    } else {
        total_quantity(ps.drop_last()) + ps.last().quantity
    }
}

/// Sum of `entry_price * quantity` over the open positions: the
/// quantity-weighted entry numerator, whose denominator is
/// `total_quantity * SCALE`.
pub open spec fn weighted_entry(ps: Seq<Position>) -> int
    decreases ps.len(),
{
    if ps.len() == 0 {
        0
    } else {
        weighted_entry(ps.drop_last()) + ps.last().entry_price * ps.last().quantity
    }
}

/// The price sits at or below the stop-loss threshold under the
/// quantity-weighted average entry: with `w = weighted_entry`,
/// `q = total_quantity` and `avg = w / (q * SCALE)` whole-cash units,
/// `(price - avg) / avg <= -stop_loss` cross-multiplied into integers.
pub open spec fn stop_loss_hit(ps: Seq<Position>, price: u64, stop_loss_micros: u64) -> bool {
    let w = weighted_entry(ps);
    let q = total_quantity(ps);
    ps.len() > 0 && q > 0 && SCALE * (w - price * q) >= stop_loss_micros * w
}

/// The price sits at or above the take-profit threshold over the
/// quantity-weighted average entry.
pub open spec fn take_profit_hit(ps: Seq<Position>, price: u64, take_profit_micros: u64) -> bool {
    let w = weighted_entry(ps);
    let q = total_quantity(ps);
    ps.len() > 0 && q > 0 && SCALE * (price * q - w) >= take_profit_micros * w
}

/// The risk decision of one tick: stop loss checked first, then take
/// profit; no memory across ticks.
pub open spec fn risk_decision(
    ps: Seq<Position>,
    price: u64,
    stop_loss_micros: u64,
    take_profit_micros: u64,
) -> RiskCheck {
    if stop_loss_hit(ps, price, stop_loss_micros) {
        RiskCheck::StopLoss
    } else if take_profit_hit(ps, price, take_profit_micros) {
        RiskCheck::TakeProfit
    } else {
        RiskCheck::Clear
    }
}

/// Cash a signal-driven buy commits: half the balance, rounded down.
pub open spec fn spec_buy_spend(cash: u64) -> int {
    (cash as int) / 2
}

/// Micro-asset quantity that spend purchases at `price`, rounded down.
pub open spec fn spec_buy_quantity(cash: u64, price: u64) -> int {
    (spec_buy_spend(cash) * SCALE) / (price as int)
}

/// How a half-cash buy at `price` must end on these balances.
pub open spec fn spec_buy_outcome(cash: u64, asset: u64, price: u64) -> BuyOutcome {
    if spec_buy_spend(cash) < MIN_ORDER_NOTIONAL {
        BuyOutcome::BelowMinimum
    } else if spec_buy_quantity(cash, price) == 0 {
        BuyOutcome::ZeroQuantity
    } else if spec_buy_quantity(cash, price) > u64::MAX - asset {
        BuyOutcome::TooLarge
    } else {
        BuyOutcome::Executed
    }
}

/// How a full liquidation at `price` must end on these balances.
pub open spec fn spec_sell_outcome(cash: u64, asset: u64, price: u64) -> SellOutcome {
    if asset == 0 {
        SellOutcome::Empty
    } else if cash + notional_of(price, asset) > u64::MAX {
        SellOutcome::TooLarge
    } else {
        SellOutcome::Executed
    }
}

/// Both aggregates over positions are nonnegative.
proof fn lemma_aggregates_nonneg(ps: Seq<Position>)
    ensures
        total_quantity(ps) >= 0,
        weighted_entry(ps) >= 0,
    decreases ps.len(),
{
    if ps.len() > 0 {
        lemma_aggregates_nonneg(ps.drop_last());
        lemma_u64_mul_fits_u128(ps.last().entry_price, ps.last().quantity);
        assert(ps.last().entry_price * ps.last().quantity >= 0) by (nonlinear_arith);
    }
}

/// A prefix contributes no more than the whole sequence to either aggregate.
proof fn lemma_prefix_aggregates(ps: Seq<Position>, i: int)
    requires
        0 <= i <= ps.len(),
    ensures
        0 <= total_quantity(ps.subrange(0, i)) <= total_quantity(ps),
        0 <= weighted_entry(ps.subrange(0, i)) <= weighted_entry(ps),
    decreases ps.len() - i,
{
    lemma_aggregates_nonneg(ps.subrange(0, i));
    if i == ps.len() {
        assert(ps.subrange(0, i) =~= ps);
    } else {
        lemma_prefix_aggregates(ps, i + 1);
        let longer = ps.subrange(0, i + 1);
        assert(longer.drop_last() =~= ps.subrange(0, i));
        assert(longer.last() == ps[i]);
        assert(ps[i].entry_price * ps[i].quantity >= 0) by (nonlinear_arith);
    }
}

/// A nonnegative value is bounded by any of its positive multiples.
proof fn lemma_le_own_multiple(x: int, factor: int)
    requires
        0 <= x,
        1 <= factor,
    ensures
        x <= x * factor,
{
    assert(x <= x * factor) by (nonlinear_arith)
        requires
            0 <= x,
            1 <= factor,
    ;
}

/// Evaluates the risk-management overlay on the open positions: the
/// quantity-weighted average entry price against the two thresholds.
/// Pure; the caller liquidates when the answer is not `Clear`.
pub fn evaluate_risk(
    positions: &Vec<Position>,
    price: u64,
    stop_loss_micros: u64,
    take_profit_micros: u64,
) -> (r: RiskCheck)
    requires
        price >= 1,
        1 <= stop_loss_micros <= SCALE,
        1 <= take_profit_micros <= SCALE,
        weighted_entry(positions@) * SCALE <= u128::MAX,
        total_quantity(positions@) * price * SCALE <= u128::MAX,
    ensures
        r == risk_decision(positions@, price, stop_loss_micros, take_profit_micros),
{
    let ghost all = positions@;
    proof {
        lemma_aggregates_nonneg(all);
        lemma_le_own_multiple(weighted_entry(all), SCALE as int);
        lemma_mul_inequality(1, price as int, total_quantity(all));
        lemma_le_own_multiple(total_quantity(all) * price, SCALE as int);
    }
    let mut w: u128 = 0;
    let mut q: u128 = 0;
    let mut i: usize = 0;
    while i < positions.len()
        invariant
            0 <= i <= all.len(),
            all == positions@,
            w == weighted_entry(all.subrange(0, i as int)),
            q == total_quantity(all.subrange(0, i as int)),
            weighted_entry(all) <= u128::MAX,
            total_quantity(all) <= u128::MAX,
        decreases all.len() - i,
    {
        proof {
            lemma_prefix_aggregates(all, i + 1);
            let longer = all.subrange(0, i as int + 1);
            assert(longer.drop_last() =~= all.subrange(0, i as int));
            assert(longer.last() == all[i as int]);
            lemma_u64_mul_fits_u128(positions@[i as int].entry_price, positions@[i as int].quantity);
        }
        let position = &positions[i];
        w = w + (position.entry_price as u128) * (position.quantity as u128);
        q = q + position.quantity as u128;
        i = i + 1;
    }
    proof {
        assert(all.subrange(0, all.len() as int) =~= all);
    }
    if q == 0 {
        return RiskCheck::Clear;
    }
    proof {
        lemma_mul_inequality(1, SCALE as int, total_quantity(all) * price);
    }
    let priced: u128 = (price as u128) * q;
    if w >= priced {
        let shortfall = w - priced;
        proof {
            lemma_mul_inequality(shortfall as int, w as int, SCALE as int);
            lemma_mul_inequality(stop_loss_micros as int, SCALE as int, w as int);
        }
        if (SCALE as u128) * shortfall >= (stop_loss_micros as u128) * w {
            return RiskCheck::StopLoss;
        }
        proof {
            assert(!take_profit_hit(all, price, take_profit_micros)) by (nonlinear_arith)
                requires
                    take_profit_hit(all, price, take_profit_micros) == (all.len() > 0
                        && total_quantity(all) > 0 && SCALE * (price * total_quantity(all)
                        - weighted_entry(all)) >= take_profit_micros * weighted_entry(all)),
                    weighted_entry(all) >= price * total_quantity(all),
                    weighted_entry(all) > 0 || price * total_quantity(all) > 0,
                    price >= 1,
                    total_quantity(all) >= 1,
                    take_profit_micros >= 1,
                    SCALE > 0,
            ;
        }
        RiskCheck::Clear
    } else {
        let excess = priced - w;
        proof {
            lemma_mul_inequality(excess as int, priced as int, SCALE as int);
            lemma_mul_inequality(take_profit_micros as int, SCALE as int, w as int);
            lemma_mul_inequality(w as int, priced as int, SCALE as int);
            assert(!stop_loss_hit(all, price, stop_loss_micros)) by (nonlinear_arith)
                requires
                    stop_loss_hit(all, price, stop_loss_micros) == (all.len() > 0
                        && total_quantity(all) > 0 && SCALE * (weighted_entry(all) - price
                        * total_quantity(all)) >= stop_loss_micros * weighted_entry(all)),
                    weighted_entry(all) < price * total_quantity(all),
                    weighted_entry(all) >= 0,
                    stop_loss_micros >= 1,
                    SCALE > 0,
            ;
        }
        if (SCALE as u128) * excess >= (take_profit_micros as u128) * w {
            return RiskCheck::TakeProfit;
        }
        RiskCheck::Clear
    }
}

/// The orchestrator: exclusive owner of one ledger and one signal engine
/// for the whole run.
pub struct TradingEngine {
    config: TradingConfig,
    wallet: Wallet,
    strategy: SmaStrategy,
}

impl TradingEngine {
    /// The immutable run configuration.
    pub closed spec fn cfg(self) -> TradingConfig {
        self.config
    }

    /// Cash balance in micro-cash.
    pub closed spec fn cash(self) -> u64 {
        self.wallet.usdt_balance
    }

    /// Asset balance in micro-asset.
    pub closed spec fn asset(self) -> u64 {
        self.wallet.crypto_balance
    }

    /// The open positions, oldest first.
    pub closed spec fn positions(self) -> Seq<Position> {
        self.wallet.positions@
    }

    /// The strategy's rolling price history.
    pub closed spec fn history(self) -> Seq<u64> {
        self.strategy.history()
    }

    /// The configuration is well formed and the strategy runs on its windows.
    pub closed spec fn wf(self) -> bool {
        &&& config_wf(self.config)
        &&& self.strategy.wf()
        &&& self.strategy.short() == self.config.sma_short_period
        &&& self.strategy.long() == self.config.sma_long_period
    }

    /// The risk decision one tick at `price` takes, against the open
    /// positions as of the start of the tick.
    pub open spec fn tick_risk(self, price: u64) -> RiskCheck {
        risk_decision(self.positions(), price, self.cfg().stop_loss_micros,
            self.cfg().take_profit_micros)
    }

    /// The signal one tick at `price` computes, on the history with `price`
    /// observed.
    pub open spec fn tick_signal(self, price: u64) -> Signal {
        crossover_signal(
            next_history(self.history(), self.cfg().sma_long_period as int, price),
            self.cfg().sma_short_period as int,
            self.cfg().sma_long_period as int,
        )
    }

    /// The event one tick at `price` reports: risk rules take priority, and
    /// a triggered liquidation suppresses any signal-driven action.
    pub open spec fn tick_event(self, price: u64) -> TickEvent {
        let rd = self.tick_risk(price);
        if rd != RiskCheck::Clear {
            TickEvent::Liquidated(rd, spec_sell_outcome(self.cash(), self.asset(), price))
        } else {
            match self.tick_signal(price) {
                Signal::Buy => TickEvent::Bought(
                    spec_buy_outcome(self.cash(), self.asset(), price),
                ),
                Signal::Sell => TickEvent::Sold(
                    spec_sell_outcome(self.cash(), self.asset(), price),
                ),
                Signal::Hold => TickEvent::Held,
            }
        }
    }

    /// A full liquidation was applied: all asset sold at `price`, the
    /// revenue credited, every position closed.
    pub open spec fn liquidated_from(self, pre_cash: u64, pre_asset: u64, price: u64) -> bool {
        &&& self.cash() == pre_cash + notional_of(price, pre_asset)
        &&& self.asset() == 0
        &&& self.positions() =~= Seq::<Position>::empty()
    }

    /// A half-cash buy was applied: the purchased quantity credited, its
    /// cost debited, one position opened at `price` behind the old ones.
    pub open spec fn bought_from(
        self,
        pre_cash: u64,
        pre_asset: u64,
        pre_positions: Seq<Position>,
        price: u64,
    ) -> bool {
        let qty = spec_buy_quantity(pre_cash, price);
        &&& self.cash() == pre_cash - notional_of(price, qty as u64)
        &&& self.asset() == pre_asset + qty
        &&& self.positions().len() == pre_positions.len() + 1
        &&& self.positions().last().entry_price == price
        &&& self.positions().last().quantity == qty
        &&& self.positions().drop_last() =~= pre_positions
    }

    /// The balances and positions are those of `pre`, untouched.
    pub open spec fn balances_unchanged(self, pre: TradingEngine) -> bool {
        &&& self.cash() == pre.cash()
        &&& self.asset() == pre.asset()
        &&& self.positions() =~= pre.positions()
    }

    /// An engine over a fresh ledger holding the configured starting cash
    /// and a strategy on the configured windows with an empty history.
    pub fn new(config: TradingConfig) -> (e: TradingEngine)
        requires
            config_wf(config),
        ensures
            e.wf(),
            e.cfg() == config,
            e.cash() == config.initial_balance,
            e.asset() == 0,
            e.positions() =~= Seq::<Position>::empty(),
            e.history() =~= Seq::<u64>::empty(),
    {
        let wallet = Wallet::new(config.initial_balance);
        let strategy = SmaStrategy::new(config.sma_short_period, config.sma_long_period);
        TradingEngine { config, wallet, strategy }
    }

    /// Warms the strategy up with fetched closes before live observation.
    pub fn init_history(&mut self, closes: Vec<u64>)
        ensures
            final(self).history() =~= closes@,
            final(self).cfg() == old(self).cfg(),
            final(self).cash() == old(self).cash(),
            final(self).asset() == old(self).asset(),
            final(self).positions() =~= old(self).positions(),
            final(self).wf() == old(self).wf(),
    {
        self.strategy.init_history(closes);
    }

    /// Sells the whole asset balance at `price`; a no-op when there is
    /// nothing to sell or the revenue would overflow the cash balance.
    fn execute_sell(&mut self, price: u64) -> (r: SellOutcome)
        requires
            old(self).wf(),
            price >= 1,
        ensures
            final(self).wf(),
            final(self).cfg() == old(self).cfg(),
            final(self).history() =~= old(self).history(),
            r == spec_sell_outcome(old(self).cash(), old(self).asset(), price),
            r == SellOutcome::Executed ==> final(self).liquidated_from(
                old(self).cash(),
                old(self).asset(),
                price,
            ),
            r != SellOutcome::Executed ==> final(self).balances_unchanged(*old(self)),
    {
        let quantity = self.wallet.crypto_balance;
        if quantity == 0 {
            return SellOutcome::Empty;
        }
        proof {
            lemma_u64_mul_fits_u128(price, quantity);
        }
        let revenue: u128 = (price as u128) * (quantity as u128) / (SCALE as u128);
        if revenue > (u64::MAX - self.wallet.usdt_balance) as u128 {
            return SellOutcome::TooLarge;
        }
        match self.wallet.place_sell_order(price, quantity) {
            Ok(()) => SellOutcome::Executed,
            Err(_) => {
                proof {
                    assert(false);
                }
                SellOutcome::Empty
            },
        }
    }

    /// Buys with half the cash balance at `price`; a no-op when the spend is
    /// under the minimum order notional, buys less than one micro-asset, or
    /// would overflow the asset balance.
    fn execute_buy(&mut self, price: u64) -> (r: BuyOutcome)
        requires
            old(self).wf(),
            price >= 1,
        ensures
            final(self).wf(),
            final(self).cfg() == old(self).cfg(),
            final(self).history() =~= old(self).history(),
            r == spec_buy_outcome(old(self).cash(), old(self).asset(), price),
            r == BuyOutcome::Executed ==> final(self).bought_from(
                old(self).cash(),
                old(self).asset(),
                old(self).positions(),
                price,
            ),
            r != BuyOutcome::Executed ==> final(self).balances_unchanged(*old(self)),
    {
        let spend = self.wallet.usdt_balance / 2;
        if spend < MIN_ORDER_NOTIONAL {
            return BuyOutcome::BelowMinimum;
        }
        proof {
            lemma_u64_mul_fits_u128(spend, SCALE);
        }
        let quantity_wide: u128 = (spend as u128) * (SCALE as u128) / (price as u128);
        if quantity_wide == 0 {
            return BuyOutcome::ZeroQuantity;
        }
        if quantity_wide > (u64::MAX - self.wallet.crypto_balance) as u128 {
            return BuyOutcome::TooLarge;
        }
        let quantity: u64 = quantity_wide as u64;
        proof {
            let spent = (spend as int) * (SCALE as int);
            lemma_fundamental_div_mod(spent, price as int);
            assert((price as int) * (quantity as int) <= spent);
            lemma_div_is_ordered(price as int * quantity as int, spent, SCALE as int);
            lemma_div_multiples_vanish(spend as int, SCALE as int);
            assert(notional_of(price, quantity) <= spend);
        }
        match self.wallet.place_buy_order(price, quantity) {
            Ok(()) => BuyOutcome::Executed,
            Err(_) => {
                proof {
                    assert(false);
                }
                BuyOutcome::BelowMinimum
            },
        }
    }

    /// One full tick at `price`: evaluate the risk overlay on the positions
    /// as of the start of the tick, feed the price to the signal engine, and
    /// either liquidate (risk) or act on the signal — never both.
    pub fn process_tick(&mut self, price: u64) -> (ev: TickEvent)
        requires
            old(self).wf(),
            price >= 1,
            weighted_entry(old(self).positions()) * SCALE <= u128::MAX,
            total_quantity(old(self).positions()) * price * SCALE <= u128::MAX,
        ensures
            final(self).wf(),
            final(self).cfg() == old(self).cfg(),
            final(self).history() =~= next_history(
                old(self).history(),
                old(self).cfg().sma_long_period as int,
                price,
            ),
            ev == old(self).tick_event(price),
            ({
                let rd = old(self).tick_risk(price);
                let sig = old(self).tick_signal(price);
                let sold = spec_sell_outcome(old(self).cash(), old(self).asset(), price);
                let bought = spec_buy_outcome(old(self).cash(), old(self).asset(), price);
                if rd != RiskCheck::Clear || sig == Signal::Sell {
                    if sold == SellOutcome::Executed {
                        final(self).liquidated_from(old(self).cash(), old(self).asset(), price)
                    } else {
                        final(self).balances_unchanged(*old(self))
                    }
                } else if sig == Signal::Buy {
                    if bought == BuyOutcome::Executed {
                        final(self).bought_from(
                            old(self).cash(),
                            old(self).asset(),
                            old(self).positions(),
                            price,
                        )
                    } else {
                        final(self).balances_unchanged(*old(self))
                    }
                } else {
                    final(self).balances_unchanged(*old(self))
                }
            }),
    {
        let risk = evaluate_risk(
            &self.wallet.positions,
            price,
            self.config.stop_loss_micros,
            self.config.take_profit_micros,
        );
        let signal = self.strategy.update(price);
        match risk {
            RiskCheck::Clear => {
                match signal {
                    Signal::Buy => TickEvent::Bought(self.execute_buy(price)),
                    Signal::Sell => TickEvent::Sold(self.execute_sell(price)),
                    Signal::Hold => TickEvent::Held,
                }
            },
            _ => TickEvent::Liquidated(risk, self.execute_sell(price)),
        }
    }

    /// Cash balance in micro-cash.
    pub fn usdt_balance(&self) -> (r: u64)
        ensures
            r == self.cash(),
    {
        self.wallet.usdt_balance
    }

    /// Asset balance in micro-asset.
    pub fn crypto_balance(&self) -> (r: u64)
        ensures
            r == self.asset(),
    {
        self.wallet.crypto_balance
    }

    /// The open positions, oldest first.
    pub fn open_positions(&self) -> (r: &Vec<Position>)
        ensures
            r@ =~= self.positions(),
    {
        &self.wallet.positions
    }

    /// Number of open positions.
    pub fn positions_len(&self) -> (n: usize)
        ensures
            n == self.positions().len(),
    {
        self.wallet.positions.len()
    }

    /// Number of prices the strategy currently holds.
    pub fn history_len(&self) -> (n: usize)
        ensures
            n == self.history().len(),
    {
        self.strategy.history_len()
    }

    /// Total simulated worth at `current_price`.
    pub fn total_equity(&self, current_price: u64) -> (r: u128)
        ensures
            r == self.cash() + notional_of(current_price, self.asset()),
    {
        self.wallet.get_total_equity(current_price)
    }
}

} // verus!
