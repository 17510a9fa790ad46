use paper_trader::strategy::{Signal, SmaStrategy};

#[test]
fn test_crossover_buy_sequence() {
    // short 2, long 4: six points, at least long + 1, so the fifth
    // observation is the first where a previous-step comparison exists.
    let mut strategy = SmaStrategy::new(2, 4);
    let feed = [10u64, 10, 10, 10, 11, 12];
    let mut signals = Vec::new();
    for price in feed {
        signals.push(strategy.update(price));
    }
    // At the fifth point the short average (10.5) first crosses above the
    // long average (10.25) from a tie; everything before returns no signal.
    assert_eq!(
        signals,
        vec![Signal::Hold, Signal::Hold, Signal::Hold, Signal::Hold, Signal::Buy, Signal::Hold]
    );
}

#[test]
fn test_mirrored_sequence_flips_signal() {
    // The mirror image (every price reflected about 22) of a sequence that
    // produces Buy at step five produces Sell at step five.
    let mut strategy = SmaStrategy::new(2, 4);
    let feed = [12u64, 12, 12, 12, 11, 10];
    let mut signals = Vec::new();
    for price in feed {
        signals.push(strategy.update(price));
    }
    assert_eq!(
        signals,
        vec![Signal::Hold, Signal::Hold, Signal::Hold, Signal::Hold, Signal::Sell, Signal::Hold]
    );
}

#[test]
fn test_no_signal_before_long_plus_one() {
    let mut strategy = SmaStrategy::new(3, 5);
    // Wild swings, but fewer than long + 1 = 6 points: never a signal.
    for price in [1u64, 1000, 1, 1000, 1] {
        assert_eq!(strategy.update(price), Signal::Hold);
    }
}

#[test]
fn test_history_cap() {
    // long 4: the buffer is capped at 8 entries once it reaches the cap.
    let mut strategy = SmaStrategy::new(2, 4);
    for i in 0..20u64 {
        strategy.update(100 + i);
        let expected = if i + 1 > 8 { 8 } else { (i + 1) as usize };
        assert_eq!(strategy.history_len(), expected);
    }
}

#[test]
fn test_seed_bypasses_cap() {
    // Seeding is not capped: a 25-point seed stays, and each observation
    // evicts exactly one entry for the one it appends.
    let mut strategy = SmaStrategy::new(2, 4);
    strategy.init_history(vec![7; 25]);
    assert_eq!(strategy.history_len(), 25);
    strategy.update(7);
    assert_eq!(strategy.history_len(), 25);
}

#[test]
fn test_flat_history_holds() {
    // A constant price never crosses: short and long averages stay tied.
    let mut strategy = SmaStrategy::new(2, 4);
    for _ in 0..12 {
        assert_eq!(strategy.update(500), Signal::Hold);
    }
}
