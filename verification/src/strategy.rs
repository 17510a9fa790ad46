//! The signal engine: a rolling price history and a moving-average-crossover
//! signal.
//!
//! A simple moving average is the rational `sum / period`; the engine never
//! divides, it compares averages by cross-multiplying the window sums, so
//! every crossover decision is exact. The crossover of a history is a pure
//! function of its contents and the two window sizes.

use vstd::prelude::*;

verus! {

/// Directional signal recomputed fresh from the history on every observation.
#[derive(Debug, Clone, Copy, PartialEq, Eq, Structural)]
pub enum Signal {
    Buy,
    Sell,
    /// No directional signal.
    Hold,
}

/// Largest accepted window size; keeps every cross-multiplied comparison
/// within 128 bits.
pub const MAX_WINDOW: usize = 0x4000_0000;

/// Sum of a price sequence.
pub open spec fn sum_of(s: Seq<u64>) -> int
    decreases s.len(),
{
    if s.len() == 0 {
        0
    } else {
        sum_of(s.drop_last()) + s.last()
    }
}

/// The last `period` prices, skipping the `offset` most recent ones.
pub open spec fn window_seq(h: Seq<u64>, period: int, offset: int) -> Seq<u64> {
    h.subrange(h.len() - period - offset, h.len() - offset)
}

/// Whether the history holds enough points for this window and offset.
pub open spec fn sma_defined(h: Seq<u64>, period: int, offset: int) -> bool {
    1 <= period && 0 <= offset && period + offset <= h.len()
}

/// Numerator of the simple moving average `sum / period`; zero when the
/// window does not fit (the defensive fallback of an average of `0`).
pub open spec fn sma_num(h: Seq<u64>, period: int, offset: int) -> int {
    if sma_defined(h, period, offset) {
        sum_of(window_seq(h, period, offset))
    } else {
        0
    }
}

/// Denominator of the simple moving average; `1` for the fallback.
pub open spec fn sma_den(h: Seq<u64>, period: int, offset: int) -> int {
    if sma_defined(h, period, offset) {
        period
    } else {
        1
    }
}

/// The average over window `pa` is at most the average over window `pb`,
/// both taken `offset` observations back: compared by cross-multiplication.
pub open spec fn sma_le(h: Seq<u64>, pa: int, pb: int, offset: int) -> bool {
    sma_num(h, pa, offset) * sma_den(h, pb, offset)
        <= sma_num(h, pb, offset) * sma_den(h, pa, offset)
}

/// Golden cross: the short average moves from at-or-below the long average
/// to strictly above it.
pub open spec fn golden_cross(h: Seq<u64>, short: int, long: int) -> bool {
    sma_le(h, short, long, 1) && !sma_le(h, short, long, 0)
}

/// Death cross: the short average moves from at-or-above the long average
/// to strictly below it.
pub open spec fn death_cross(h: Seq<u64>, short: int, long: int) -> bool {
    sma_le(h, long, short, 1) && !sma_le(h, long, short, 0)
}

/// The signal a history yields: `Hold` until the history holds `long + 1`
/// points, then `Buy` on a golden cross, `Sell` on a death cross.
pub open spec fn crossover_signal(h: Seq<u64>, short: int, long: int) -> Signal {
    if h.len() < long {
        Signal::Hold
    } else if h.len() < long + 1 {
        Signal::Hold
    } else if golden_cross(h, short, long) {
        Signal::Buy
    } else if death_cross(h, short, long) {
        Signal::Sell
    } else {
        Signal::Hold
    }
}

/// The history after observing one price: appended, with the oldest entry
/// evicted once the length passes twice the long window.
pub open spec fn next_history(h: Seq<u64>, long: int, price: u64) -> Seq<u64> {
    let pushed = h.push(price);
    if pushed.len() > 2 * long {
        pushed.drop_first()
    } else {
        pushed
    }
}

/// A signal is never emitted while the history is too short for the
/// previous-step comparison: fewer than `long + 1` points yield `Hold`.
pub proof fn lemma_short_history_no_signal(h: Seq<u64>, short: int, long: int)
    requires
        h.len() < long + 1,
    ensures
        crossover_signal(h, short, long) == Signal::Hold,
{
}

/// The same price sequence reflected about `pivot`: every relative movement
/// is negated.
pub open spec fn mirror_seq(h: Seq<u64>, pivot: u64) -> Seq<u64> {
    Seq::new(h.len(), |i: int| (pivot - h[i]) as u64)
}

/// The opposite direction: `Buy` and `Sell` swap, `Hold` stays.
pub open spec fn mirror_signal(sig: Signal) -> Signal {
    match sig {
        Signal::Buy => Signal::Sell,
        Signal::Sell => Signal::Buy,
        Signal::Hold => Signal::Hold,
    }
}

/// Reflecting every price about `pivot` turns a sum into `len * pivot`
/// minus the original sum.
proof fn lemma_sum_mirror(s: Seq<u64>, pivot: u64)
    requires
        forall|i: int| 0 <= i < s.len() ==> s[i] <= pivot,
    ensures
        sum_of(mirror_seq(s, pivot)) == s.len() * pivot - sum_of(s),
    decreases s.len(),
{
    let m = mirror_seq(s, pivot);
    if s.len() == 0 {
        assert(m =~= Seq::<u64>::empty());
    } else {
        lemma_sum_mirror(s.drop_last(), pivot);
        assert(m.drop_last() =~= mirror_seq(s.drop_last(), pivot));
        assert(m.last() == pivot - s.last());
        assert((s.len() - 1) * pivot + pivot == s.len() * pivot) by (nonlinear_arith);
    }
}

/// Reflecting the history reflects each defined moving-average numerator
/// about `period * pivot` and keeps the denominator.
proof fn lemma_sma_mirror(h: Seq<u64>, pivot: u64, period: int, offset: int)
    requires
        forall|i: int| 0 <= i < h.len() ==> h[i] <= pivot,
        sma_defined(h, period, offset),
    ensures
        sma_num(mirror_seq(h, pivot), period, offset) == period * pivot - sma_num(
            h,
            period,
            offset,
        ),
        sma_den(mirror_seq(h, pivot), period, offset) == period,
{
    let m = mirror_seq(h, pivot);
    let w = window_seq(h, period, offset);
    assert(window_seq(m, period, offset) =~= mirror_seq(w, pivot));
    assert(forall|i: int| 0 <= i < w.len() ==> w[i] <= pivot);
    lemma_sum_mirror(w, pivot);
}

/// Reflecting both averages about the same value flips their
/// cross-multiplied comparison.
proof fn lemma_mirror_flip(a: int, b: int, pa: int, pb: int, c: int)
    ensures
        ((pa * c - a) * pb <= (pb * c - b) * pa) <==> (b * pa <= a * pb),
{
    assert(((pa * c - a) * pb <= (pb * c - b) * pa) <==> (b * pa <= a * pb))
        by (nonlinear_arith);
}

/// Crossover detection is symmetric: a history whose prices are all
/// reflected about one pivot yields, at every step, the opposite of the
/// original history's signal. Holds whenever the short window is no longer
/// than the long one.
pub proof fn lemma_crossover_mirror(h: Seq<u64>, pivot: u64, short: int, long: int)
    requires
        1 <= short <= long,
        forall|i: int| 0 <= i < h.len() ==> h[i] <= pivot,
    ensures
        crossover_signal(mirror_seq(h, pivot), short, long) == mirror_signal(
            crossover_signal(h, short, long),
        ),
{
    let m = mirror_seq(h, pivot);
    assert(m.len() == h.len());
    if h.len() >= long + 1 {
        let c = pivot as int;
        lemma_sma_mirror(h, pivot, short, 0);
        lemma_sma_mirror(h, pivot, short, 1);
        lemma_sma_mirror(h, pivot, long, 0);
        lemma_sma_mirror(h, pivot, long, 1);
        lemma_mirror_flip(sma_num(h, short, 1), sma_num(h, long, 1), short, long, c);
        lemma_mirror_flip(sma_num(h, long, 1), sma_num(h, short, 1), long, short, c);
        lemma_mirror_flip(sma_num(h, short, 0), sma_num(h, long, 0), short, long, c);
        lemma_mirror_flip(sma_num(h, long, 0), sma_num(h, short, 0), long, short, c);
        assert(sma_le(m, short, long, 1) == sma_le(h, long, short, 1));
        assert(sma_le(m, short, long, 0) == sma_le(h, long, short, 0));
        assert(sma_le(m, long, short, 1) == sma_le(h, short, long, 1));
        assert(sma_le(m, long, short, 0) == sma_le(h, short, long, 0));
        assert(golden_cross(m, short, long) == death_cross(h, short, long));
        assert(death_cross(m, short, long) == golden_cross(h, short, long));
    }
}

/// The strategy state: the two window sizes and the rolling history,
/// oldest first.
pub struct SmaStrategy {
    short_period: usize,
    long_period: usize,
    prices: Vec<u64>,
}

impl SmaStrategy {
    /// The short window size.
    pub closed spec fn short(self) -> int {
        self.short_period as int
    }

    /// The long window size.
    pub closed spec fn long(self) -> int {
        self.long_period as int
    }

    /// The rolling price history, oldest first.
    pub closed spec fn history(self) -> Seq<u64> {
        self.prices@
    }

    /// Both windows are positive and small enough for exact comparison.
    pub closed spec fn wf(self) -> bool {
        &&& 1 <= self.short_period <= MAX_WINDOW
        &&& 1 <= self.long_period <= MAX_WINDOW
    }

    /// A strategy with the given windows and an empty history.
    pub fn new(short_period: usize, long_period: usize) -> (s: SmaStrategy)
        requires
            1 <= short_period <= MAX_WINDOW,
            1 <= long_period <= MAX_WINDOW,
        ensures
            s.wf(),
            s.short() == short_period,
            s.long() == long_period,
            s.history() =~= Seq::<u64>::empty(),
    {
        SmaStrategy { short_period, long_period, prices: Vec::new() }
    }

    /// Replaces the history wholesale to warm the averages up before live
    /// observation; the eviction cap is deliberately not applied here, so a
    /// seed longer than twice the long window leaves the buffer over the cap.
    pub fn init_history(&mut self, history: Vec<u64>)
        ensures
            final(self).history() =~= history@,
            final(self).short() == old(self).short(),
            final(self).long() == old(self).long(),
            final(self).wf() == old(self).wf(),
    {
        self.prices = history;
    }

    /// Number of prices currently held.
    pub fn history_len(&self) -> (n: usize)
        ensures
            n == self.history().len(),
    {
        self.prices.len()
    }

    /// Window sum and divisor of the average over the last `period` prices,
    /// `offset` observations back: `(0, 1)` where the window does not fit.
    fn sma_parts(&self, period: usize, offset: usize) -> (r: (u128, u64))
        requires
            1 <= period <= MAX_WINDOW,
            offset <= 1,
        ensures
            r.0 == sma_num(self.history(), period as int, offset as int),
            r.1 == sma_den(self.history(), period as int, offset as int),
            r.0 <= (period as int) * u64::MAX,
            1 <= r.1 <= period,
    {
        let len = self.prices.len();
        if len < period || len - period < offset {
            proof {
                assert(!sma_defined(self.history(), period as int, offset as int));
            }
            return (0, 1);
        }
        let start = len - period - offset;
        let end = len - offset;
        let ghost window = window_seq(self.history(), period as int, offset as int);
        let mut sum: u128 = 0;
        let mut i = start;
        while i < end
            invariant
                start <= i <= end <= len,
                end - start == period,
                len == self.prices@.len(),
                window == window_seq(self.prices@, period as int, offset as int),
                window == self.prices@.subrange(start as int, end as int),
                sum == sum_of(self.prices@.subrange(start as int, i as int)),
                sum <= (i - start) * u64::MAX,
            decreases end - i,
        {
            proof {
                let upto = self.prices@.subrange(start as int, i + 1);
                assert(upto.drop_last() =~= self.prices@.subrange(start as int, i as int));
                assert(upto.last() == self.prices@[i as int]);
            }
            sum = sum + self.prices[i] as u128;
            i = i + 1;
        }
        proof {
            assert(self.prices@.subrange(start as int, end as int) =~= window);
        }
        (sum, period as u64)
    }

    /// Observes one price: appends it (evicting the oldest entry once the
    /// buffer is over twice the long window) and returns the crossover
    /// signal of the new history. The buffer never grows past the cap once
    /// it is at or under it.
    pub fn update(&mut self, price: u64) -> (sig: Signal)
        requires
            old(self).wf(),
        ensures
            final(self).wf(),
            final(self).short() == old(self).short(),
            final(self).long() == old(self).long(),
            final(self).history() =~= next_history(old(self).history(), old(self).long(), price),
            sig == crossover_signal(final(self).history(), old(self).short(), old(self).long()),
            old(self).history().len() <= 2 * old(self).long() ==> final(self).history().len()
                <= 2 * old(self).long(),
    {
        self.prices.push(price);
        if self.prices.len() > 2 * self.long_period {
            self.prices.remove(0);
            proof {
                assert(self.prices@ =~= old(self).prices@.push(price).drop_first());
            }
        }
        proof {
            assert(self.prices@ =~= next_history(old(self).history(), old(self).long(), price));
        }
        if self.prices.len() < self.long_period {
            return Signal::Hold;
        }
        if self.prices.len() < self.long_period + 1 {
            return Signal::Hold;
        }
        let (short_num, short_den) = self.sma_parts(self.short_period, 0);
        let (long_num, long_den) = self.sma_parts(self.long_period, 0);
        let (prev_short_num, prev_short_den) = self.sma_parts(self.short_period, 1);
        let (prev_long_num, prev_long_den) = self.sma_parts(self.long_period, 1);
        proof {
            lemma_cross_product_fits(short_num, long_den);
            lemma_cross_product_fits(long_num, short_den);
            lemma_cross_product_fits(prev_short_num, prev_long_den);
            lemma_cross_product_fits(prev_long_num, prev_short_den);
        }
        let prev_short_le = prev_short_num * (prev_long_den as u128)
            <= prev_long_num * (prev_short_den as u128);
        let prev_long_le = prev_long_num * (prev_short_den as u128)
            <= prev_short_num * (prev_long_den as u128);
        let short_le = short_num * (long_den as u128) <= long_num * (short_den as u128);
        let long_le = long_num * (short_den as u128) <= short_num * (long_den as u128);
        if prev_short_le && !short_le {
            return Signal::Buy;
        }
        if prev_long_le && !long_le {
            return Signal::Sell;
        }
        Signal::Hold
    }
}

/// A cross-multiplied comparison of bounded window sums fits in 128 bits.
proof fn lemma_cross_product_fits(num: u128, den: u64)
    requires
        num <= (MAX_WINDOW as int) * u64::MAX,
        den <= MAX_WINDOW,
    ensures
        num * den <= u128::MAX,
{
    assert(num * den <= ((MAX_WINDOW as int) * u64::MAX) * (MAX_WINDOW as int))
        by (nonlinear_arith)
        requires
            num <= (MAX_WINDOW as int) * u64::MAX,
            0 <= num,
            0 <= den <= MAX_WINDOW,
    ;
}

} // verus!
