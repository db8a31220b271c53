use backtester::{
    simulate, BarRecord, IndicatorConfig, LogicMode, Outcome, Position, Signals, Simulator,
    BALANCE_MAX, BALANCE_ONE,
};

const NONE: Signals = Signals { entry: false, exit: false };
const ENTRY: Signals = Signals { entry: true, exit: false };
const EXIT: Signals = Signals { entry: false, exit: true };
const BOTH: Signals = Signals { entry: true, exit: true };

/// Fifty percent, in millionths.
const FIFTY: i64 = 50_000_000;

fn at(close: i64) -> BarRecord {
    BarRecord::new("d".to_string(), close, None, None, None, None, None, None).unwrap()
}

fn with_sma(close: i64, sma: i64) -> BarRecord {
    BarRecord::new("d".to_string(), close, None, Some(sma), None, None, None, None).unwrap()
}

fn long_at(price: i64) -> Simulator {
    let mut simulator = Simulator::new();
    assert_eq!(simulator.step(&at(price), ENTRY, FIFTY, FIFTY), Outcome::Opened);
    simulator
}

fn sma_only() -> IndicatorConfig {
    let mut config = IndicatorConfig::default();
    config.sma.enabled = true;
    config
}

#[test]
fn balance_constants() {
    assert_eq!(BALANCE_ONE, 1_000_000_000);
    assert_eq!(BALANCE_MAX, i64::MAX as u64);
}

#[test]
fn a_new_simulator_is_flat_with_a_balance_of_one() {
    let simulator = Simulator::new();
    assert_eq!(simulator.position(), Position::Flat);
    assert_eq!(simulator.balance(), 1_000_000_000);
    assert_eq!(simulator.roi(), 0);
}

#[test]
fn without_an_entry_signal_nothing_happens() {
    let mut simulator = Simulator::new();
    assert_eq!(simulator.step(&at(100_000_000), NONE, FIFTY, FIFTY), Outcome::Waited);
    assert_eq!(simulator.step(&at(1), EXIT, 0, 0), Outcome::Waited);
    assert_eq!(simulator.position(), Position::Flat);
    assert_eq!(simulator.balance(), BALANCE_ONE);
}

#[test]
fn an_entry_signal_opens_at_the_close_and_leaves_the_balance() {
    let mut simulator = Simulator::new();
    assert_eq!(simulator.step(&at(123_450_000), ENTRY, FIFTY, FIFTY), Outcome::Opened);
    assert_eq!(simulator.position(), Position::Long { entry_price: 123_450_000 });
    assert_eq!(simulator.balance(), BALANCE_ONE);
    assert_eq!(simulator.roi(), 0);
}

#[test]
fn entry_wins_over_exit_when_flat() {
    let mut simulator = Simulator::new();
    assert_eq!(simulator.step(&at(100), BOTH, FIFTY, FIFTY), Outcome::Opened);
    assert_eq!(simulator.position(), Position::Long { entry_price: 100 });
}

#[test]
fn the_bar_that_opens_is_not_tested_against_thresholds() {
    let mut simulator = Simulator::new();
    assert_eq!(simulator.step(&at(100), ENTRY, 0, 0), Outcome::Opened);
    assert_eq!(simulator.position(), Position::Long { entry_price: 100 });
    assert_eq!(simulator.balance(), BALANCE_ONE);
}

#[test]
fn a_position_is_held_without_threshold_or_exit_signal() {
    let mut simulator = long_at(100_000_000);
    assert_eq!(simulator.step(&at(120_000_000), NONE, FIFTY, FIFTY), Outcome::Held);
    assert_eq!(simulator.step(&at(80_000_000), NONE, FIFTY, FIFTY), Outcome::Held);
    assert_eq!(simulator.position(), Position::Long { entry_price: 100_000_000 });
    assert_eq!(simulator.balance(), BALANCE_ONE);
}

#[test]
fn an_entry_signal_is_ignored_while_long() {
    let mut simulator = long_at(100_000_000);
    assert_eq!(simulator.step(&at(120_000_000), ENTRY, FIFTY, FIFTY), Outcome::Held);
    assert_eq!(simulator.position(), Position::Long { entry_price: 100_000_000 });
    assert_eq!(simulator.balance(), BALANCE_ONE);
}

#[test]
fn an_exit_signal_closes_and_compounds() {
    let mut simulator = long_at(100_000_000);
    assert_eq!(simulator.step(&at(110_000_000), EXIT, FIFTY, FIFTY), Outcome::ClosedOnSignal);
    assert_eq!(simulator.position(), Position::Flat);
    assert_eq!(simulator.balance(), 1_100_000_000);
    assert_eq!(simulator.roi(), 100_000_000);
}

#[test]
fn an_exit_signal_at_a_loss_lowers_the_balance() {
    let mut simulator = long_at(100_000_000);
    assert_eq!(simulator.step(&at(75_000_000), BOTH, FIFTY, FIFTY), Outcome::ClosedOnSignal);
    assert_eq!(simulator.position(), Position::Flat);
    assert_eq!(simulator.balance(), 750_000_000);
    assert_eq!(simulator.roi(), -250_000_000);
}

#[test]
fn take_profit_closes_when_the_gain_reaches_it() {
    let ten = 10_000_000;
    let mut simulator = long_at(100_000_000);
    assert_eq!(simulator.step(&at(109_999_999), NONE, ten, FIFTY), Outcome::Held);
    assert_eq!(simulator.step(&at(110_000_000), NONE, ten, FIFTY), Outcome::ClosedOnThreshold);
    assert_eq!(simulator.position(), Position::Flat);
    assert_eq!(simulator.balance(), 1_100_000_000);

    let mut simulator = long_at(100_000_000);
    assert_eq!(simulator.step(&at(150_000_000), NONE, ten, FIFTY), Outcome::ClosedOnThreshold);
    assert_eq!(simulator.balance(), 1_500_000_000);
}

#[test]
fn stop_loss_closes_when_the_loss_reaches_it() {
    let five = 5_000_000;
    let mut simulator = long_at(100_000_000);
    assert_eq!(simulator.step(&at(95_000_001), NONE, FIFTY, five), Outcome::Held);
    assert_eq!(simulator.step(&at(95_000_000), NONE, FIFTY, five), Outcome::ClosedOnThreshold);
    assert_eq!(simulator.position(), Position::Flat);
    assert_eq!(simulator.balance(), 950_000_000);
    assert_eq!(simulator.roi(), -50_000_000);

    let mut simulator = long_at(100_000_000);
    assert_eq!(simulator.step(&at(40_000_000), NONE, FIFTY, five), Outcome::ClosedOnThreshold);
    assert_eq!(simulator.balance(), 400_000_000);
}

#[test]
fn thresholds_are_fractions_of_the_entry_price() {
    // 2.5 percent of 40 is 1.
    let mut simulator = long_at(40_000_000);
    assert_eq!(simulator.step(&at(40_999_999), NONE, 2_500_000, FIFTY), Outcome::Held);
    assert_eq!(simulator.step(&at(41_000_000), NONE, 2_500_000, FIFTY), Outcome::ClosedOnThreshold);
    assert_eq!(simulator.balance(), 1_025_000_000);
}

#[test]
fn a_take_profit_of_zero_closes_at_any_close_not_below_the_entry() {
    let mut simulator = long_at(100);
    assert_eq!(simulator.step(&at(99), NONE, 0, FIFTY), Outcome::Held);
    assert_eq!(simulator.step(&at(100), NONE, 0, FIFTY), Outcome::ClosedOnThreshold);
    assert_eq!(simulator.balance(), BALANCE_ONE);
}

#[test]
fn threshold_exit_comes_before_signal_exit() {
    let ten = 10_000_000;
    let mut simulator = long_at(100_000_000);
    assert_eq!(simulator.step(&at(120_000_000), EXIT, ten, FIFTY), Outcome::ClosedOnThreshold);
    assert_eq!(simulator.position(), Position::Flat);
    // Compounded once, by this bar's close over the entry price.
    assert_eq!(simulator.balance(), 1_200_000_000);
    // Nothing is left to close.
    assert!(!simulator.settle(&at(120_000_000)));
    assert_eq!(simulator.step(&at(130_000_000), EXIT, ten, FIFTY), Outcome::Waited);
    assert_eq!(simulator.balance(), 1_200_000_000);

    let mut by_stop = long_at(100_000_000);
    assert_eq!(by_stop.step(&at(40_000_000), BOTH, ten, FIFTY), Outcome::ClosedOnThreshold);
    assert_eq!(by_stop.balance(), 400_000_000);
    assert_eq!(by_stop.position(), Position::Flat);
}

#[test]
fn both_thresholds_set_to_zero_close_on_every_step() {
    let mut simulator = long_at(100);
    assert_eq!(simulator.step(&at(90), NONE, 0, 0), Outcome::ClosedOnThreshold);
    assert_eq!(simulator.balance(), 900_000_000);
}

#[test]
fn trades_compound() {
    let mut simulator = long_at(100_000_000);
    assert_eq!(simulator.step(&at(110_000_000), EXIT, FIFTY, FIFTY), Outcome::ClosedOnSignal);
    assert_eq!(simulator.balance(), 1_100_000_000);
    assert_eq!(simulator.step(&at(110_000_000), ENTRY, FIFTY, FIFTY), Outcome::Opened);
    assert_eq!(simulator.step(&at(99_000_000), EXIT, FIFTY, FIFTY), Outcome::ClosedOnSignal);
    assert_eq!(simulator.balance(), 990_000_000);
    assert_eq!(simulator.roi(), -10_000_000);
    assert_eq!(simulator.step(&at(50_000_000), ENTRY, FIFTY, FIFTY), Outcome::Opened);
    assert_eq!(simulator.step(&at(100_000_000), NONE, FIFTY, FIFTY), Outcome::ClosedOnThreshold);
    assert_eq!(simulator.balance(), 1_980_000_000);
    assert_eq!(simulator.roi(), 980_000_000);
}

#[test]
fn compounding_rounds_down() {
    let mut simulator = long_at(3_000_000);
    assert_eq!(simulator.step(&at(1_000_000), EXIT, 1_000_000_000, 100_000_000), Outcome::ClosedOnSignal);
    assert_eq!(simulator.balance(), 333_333_333);
    assert_eq!(simulator.roi(), -666_666_667);

    let mut simulator = long_at(3_000_000);
    assert_eq!(simulator.step(&at(2_000_000), EXIT, 1_000_000_000, 100_000_000), Outcome::ClosedOnSignal);
    assert_eq!(simulator.balance(), 666_666_666);
}

#[test]
fn the_balance_stops_at_its_cap() {
    let mut simulator = long_at(1);
    assert_eq!(simulator.step(&at(i64::MAX), NONE, FIFTY, FIFTY), Outcome::ClosedOnThreshold);
    assert_eq!(simulator.balance(), BALANCE_MAX);
    assert_eq!(simulator.roi(), i64::MAX - 1_000_000_000);
    assert_eq!(simulator.step(&at(1), ENTRY, FIFTY, FIFTY), Outcome::Opened);
    assert_eq!(simulator.step(&at(2), NONE, FIFTY, FIFTY), Outcome::ClosedOnThreshold);
    assert_eq!(simulator.balance(), BALANCE_MAX);
}

#[test]
fn the_balance_can_fall_to_zero() {
    let mut simulator = long_at(i64::MAX);
    assert_eq!(simulator.step(&at(1), NONE, i64::MAX, i64::MAX), Outcome::Held);
    assert_eq!(simulator.step(&at(1), NONE, i64::MAX, 99_999_999), Outcome::ClosedOnThreshold);
    assert_eq!(simulator.balance(), 0);
    assert_eq!(simulator.roi(), -1_000_000_000);
    assert_eq!(simulator.step(&at(5), ENTRY, FIFTY, FIFTY), Outcome::Opened);
    assert_eq!(simulator.step(&at(50), EXIT, i64::MAX, FIFTY), Outcome::ClosedOnSignal);
    assert_eq!(simulator.balance(), 0);
}

#[test]
fn extreme_thresholds_do_not_overflow() {
    let mut simulator = long_at(i64::MAX);
    assert_eq!(simulator.step(&at(i64::MAX), NONE, i64::MAX, i64::MAX), Outcome::Held);
    assert_eq!(simulator.step(&at(i64::MAX), NONE, i64::MIN, i64::MAX), Outcome::ClosedOnThreshold);
    assert_eq!(simulator.balance(), BALANCE_ONE);
    let mut simulator = long_at(1);
    assert_eq!(simulator.step(&at(1), NONE, i64::MAX, i64::MIN), Outcome::ClosedOnThreshold);
    assert_eq!(simulator.balance(), BALANCE_ONE);
}

#[test]
fn settling_closes_an_open_position_at_the_given_close() {
    let mut simulator = long_at(80_000_000);
    assert!(simulator.settle(&at(100_000_000)));
    assert_eq!(simulator.position(), Position::Flat);
    assert_eq!(simulator.balance(), 1_250_000_000);
    assert!(!simulator.settle(&at(200_000_000)));
    assert_eq!(simulator.balance(), 1_250_000_000);
}

#[test]
fn settling_a_flat_simulator_changes_nothing() {
    let mut simulator = Simulator::new();
    assert!(!simulator.settle(&at(100_000_000)));
    assert_eq!(simulator.position(), Position::Flat);
    assert_eq!(simulator.balance(), BALANCE_ONE);
}

#[test]
fn no_records_and_one_record_leave_the_balance_at_one() {
    let config = sma_only();
    assert_eq!(simulate(&Vec::new(), &config, LogicMode::RequireAll, FIFTY, FIFTY), BALANCE_ONE);
    let one = vec![with_sma(100, 1)];
    assert_eq!(simulate(&one, &config, LogicMode::RequireAny, 0, 0), BALANCE_ONE);
}

#[test]
fn a_series_that_ends_long_is_closed_at_the_last_close() {
    // Entry on the step to the second bar; no exit afterwards.
    let records = vec![
        with_sma(90_000_000, 95_000_000),
        with_sma(100_000_000, 95_000_000),
        with_sma(105_000_000, 96_000_000),
        with_sma(125_000_000, 99_000_000),
    ];
    let balance = simulate(&records, &sma_only(), LogicMode::RequireAll, FIFTY, FIFTY);
    assert_eq!(balance, 1_250_000_000);
}

#[test]
fn a_series_that_ends_flat_is_not_closed_again() {
    // Entry on the step to the second bar, exit signal on the step to the fourth.
    let records = vec![
        with_sma(90_000_000, 95_000_000),
        with_sma(100_000_000, 95_000_000),
        with_sma(105_000_000, 96_000_000),
        with_sma(98_000_000, 99_000_000),
        with_sma(200_000_000, 99_000_000),
    ];
    let balance = simulate(&records, &sma_only(), LogicMode::RequireAll, FIFTY, FIFTY);
    assert_eq!(balance, 980_000_000);
}

#[test]
fn an_entry_on_the_last_step_is_closed_at_its_own_price() {
    let records = vec![with_sma(90_000_000, 95_000_000), with_sma(100_000_000, 95_000_000)];
    let balance = simulate(&records, &sma_only(), LogicMode::RequireAny, FIFTY, FIFTY);
    assert_eq!(balance, BALANCE_ONE);
}

#[test]
fn a_run_can_trade_more_than_once() {
    let ten = 10_000_000;
    let records = vec![
        with_sma(90_000_000, 95_000_000),
        with_sma(100_000_000, 95_000_000),  // opened at 100
        with_sma(110_000_000, 100_000_000), // take profit: 1.1
        with_sma(99_000_000, 100_000_000),
        with_sma(200_000_000, 120_000_000), // opened at 200
        with_sma(150_000_000, 140_000_000), // stop loss: 1.1 * 0.75
        with_sma(150_000_000, 140_000_000),
    ];
    let balance = simulate(&records, &sma_only(), LogicMode::RequireAll, ten, ten);
    assert_eq!(balance, 825_000_000);
}

#[test]
fn without_a_signal_source_the_simulator_never_trades() {
    let records = vec![
        with_sma(90_000_000, 95_000_000),
        with_sma(100_000_000, 95_000_000),
        with_sma(300_000_000, 96_000_000),
        with_sma(1_000_000, 99_000_000),
    ];
    let mut config = IndicatorConfig::default();
    config.bollinger.enabled = true;
    assert_eq!(simulate(&records, &config, LogicMode::RequireAll, 0, 0), BALANCE_ONE);
    assert_eq!(simulate(&records, &config, LogicMode::RequireAny, 0, 0), BALANCE_ONE);
}
