//! What holds of every run, stated over the models that the contracts use.

use vstd::prelude::*;
use crate::backtest::result_of;
use crate::config::{IndicatorConfig, LogicMode};
use crate::pipeline::{fields_follow, records_of};
use crate::record::{BarRecordView, ObservationView, RunResultView};
use crate::signal::{
    entry_signal, entry_votes, exit_signal, exit_votes, macd_entry, macd_exit, rsi_entry, rsi_exit,
    signals, sma_entry, sma_exit, Signals,
};
use crate::simulator::{
    closing_balance, compounded, initial_state, risk_exit, state_after, step_outcome, stepped,
    Outcome, Position, SimState, BALANCE_MAX,
};

verus! {

/// There is one record for each bar of the series, and record `i` carries the
/// date and the close of bar `i`.
pub proof fn records_follow_series(series: Seq<ObservationView>, config: IndicatorConfig)
    ensures
        records_of(series, config).len() == series.len(),
        forall|i: int|
            0 <= i < series.len() ==> {
                &&& (#[trigger] records_of(series, config)[i]).date == series[i].bar.date
                &&& records_of(series, config)[i].close == series[i].bar.close
            },
{
}

/// Every record of a run holds a value for each indicator that is switched on
/// and none for one that is switched off.
pub proof fn records_hold_what_is_enabled(series: Seq<ObservationView>, config: IndicatorConfig)
    ensures
        forall|i: int|
            0 <= i < series.len() ==> fields_follow(
                #[trigger] records_of(series, config)[i],
                config,
            ),
{
}

/// A record is made of its own bar alone: the records of the first `n` bars
/// are the first `n` records of the whole series.
pub proof fn records_do_not_look_ahead(
    series: Seq<ObservationView>,
    config: IndicatorConfig,
    n: int,
)
    requires
        0 <= n <= series.len(),
    ensures
        records_of(series.take(n), config) == records_of(series, config).take(n),
{
    assert(records_of(series.take(n), config) =~= records_of(series, config).take(n));
}

/// Two runs on the same series, configuration, mode and thresholds report the
/// same result, value for value.
pub proof fn run_is_deterministic(
    first: RunResultView,
    second: RunResultView,
    series: Seq<ObservationView>,
    config: IndicatorConfig,
    mode: LogicMode,
    take_profit: i64,
    stop_loss: i64,
)
    requires
        first == result_of(series, config, mode, take_profit, stop_loss),
        second == result_of(series, config, mode, take_profit, stop_loss),
    ensures
        first == second,
        first.roi == second.roi,
        first.rsi_history == second.rsi_history,
        first.records == second.records,
{
}

/// Under the mode that requires any, a signal is given exactly if one of the
/// switched-on indicators gives it.
pub proof fn require_any_is_disjunction(
    prev: BarRecordView,
    curr: BarRecordView,
    config: IndicatorConfig,
)
    ensures
        entry_signal(prev, curr, config, LogicMode::RequireAny) <==> {
            ||| config.sma.enabled && sma_entry(prev, curr)
            ||| config.rsi.enabled && rsi_entry(prev, curr, config.rsi.spec_oversold())
            ||| config.macd.enabled && macd_entry(prev, curr)
        },
        exit_signal(prev, curr, config, LogicMode::RequireAny) <==> {
            ||| config.sma.enabled && sma_exit(prev, curr)
            ||| config.rsi.enabled && rsi_exit(prev, curr, config.rsi.spec_overbought())
            ||| config.macd.enabled && macd_exit(prev, curr)
        },
{
    let entries = entry_votes(prev, curr, config);
    let exits = exit_votes(prev, curr, config);
    let first: int = 0;
    let second: int = if config.sma.enabled {
        1
    } else {
        0
    };
    let third: int = second + if config.rsi.enabled {
        1int
    } else {
        0int
    };
    if config.sma.enabled {
        assert(entries[first] == sma_entry(prev, curr));
        assert(exits[first] == sma_exit(prev, curr));
    }
    if config.rsi.enabled {
        assert(entries[second] == rsi_entry(prev, curr, config.rsi.spec_oversold()));
        assert(exits[second] == rsi_exit(prev, curr, config.rsi.spec_overbought()));
    }
    if config.macd.enabled {
        assert(entries[third] == macd_entry(prev, curr));
        assert(exits[third] == macd_exit(prev, curr));
    }
}

/// Under the mode that requires all, a signal is given exactly if an
/// indicator that takes part is switched on and every one that is gives it.
pub proof fn require_all_is_conjunction(
    prev: BarRecordView,
    curr: BarRecordView,
    config: IndicatorConfig,
)
    ensures
        entry_signal(prev, curr, config, LogicMode::RequireAll) <==> {
            &&& !config.no_signal_source()
            &&& config.sma.enabled ==> sma_entry(prev, curr)
            &&& config.rsi.enabled ==> rsi_entry(prev, curr, config.rsi.spec_oversold())
            &&& config.macd.enabled ==> macd_entry(prev, curr)
        },
        exit_signal(prev, curr, config, LogicMode::RequireAll) <==> {
            &&& !config.no_signal_source()
            &&& config.sma.enabled ==> sma_exit(prev, curr)
            &&& config.rsi.enabled ==> rsi_exit(prev, curr, config.rsi.spec_overbought())
            &&& config.macd.enabled ==> macd_exit(prev, curr)
        },
{
    let entries = entry_votes(prev, curr, config);
    let exits = exit_votes(prev, curr, config);
    let first: int = 0;
    let second: int = if config.sma.enabled {
        1
    } else {
        0
    };
    let third: int = second + if config.rsi.enabled {
        1int
    } else {
        0int
    };
    if config.sma.enabled {
        assert(entries[first] == sma_entry(prev, curr));
        assert(exits[first] == sma_exit(prev, curr));
    }
    if config.rsi.enabled {
        assert(entries[second] == rsi_entry(prev, curr, config.rsi.spec_oversold()));
        assert(exits[second] == rsi_exit(prev, curr, config.rsi.spec_overbought()));
    }
    if config.macd.enabled {
        assert(entries[third] == macd_entry(prev, curr));
        assert(exits[third] == macd_exit(prev, curr));
    }
}

/// With the moving average, the strength index and the convergence/divergence
/// indicator all switched off, no step has an entry or an exit signal,
/// whatever the mode and whatever the bands.
pub proof fn no_signal_without_sources(
    prev: BarRecordView,
    curr: BarRecordView,
    config: IndicatorConfig,
    mode: LogicMode,
)
    requires
        config.no_signal_source(),
    ensures
        signals(prev, curr, config, mode) == (Signals { entry: false, exit: false }),
{
    assert(entry_votes(prev, curr, config).len() == 0);
    assert(exit_votes(prev, curr, config).len() == 0);
}

/// With those three switched off, the simulator never opens a position: after
/// any number of steps it is where it started.
pub proof fn no_position_without_sources(
    records: Seq<BarRecordView>,
    steps: nat,
    config: IndicatorConfig,
    mode: LogicMode,
    take_profit: i64,
    stop_loss: i64,
)
    requires
        config.no_signal_source(),
    ensures
        state_after(records, steps, config, mode, take_profit, stop_loss) == initial_state(),
    decreases steps,
{
    if steps > 0 {
        no_position_without_sources(
            records,
            (steps - 1) as nat,
            config,
            mode,
            take_profit,
            stop_loss,
        );
        no_signal_without_sources(records[steps - 1], records[steps as int], config, mode);
    }
}

/// With those three switched off, the return is zero, however prices move.
pub proof fn no_return_without_sources(
    series: Seq<ObservationView>,
    config: IndicatorConfig,
    mode: LogicMode,
    take_profit: i64,
    stop_loss: i64,
)
    requires
        config.no_signal_source(),
    ensures
        result_of(series, config, mode, take_profit, stop_loss).roi == 0,
{
    let records = records_of(series, config);
    if records.len() > 0 {
        no_position_without_sources(
            records,
            (records.len() - 1) as nat,
            config,
            mode,
            take_profit,
            stop_loss,
        );
    }
}

/// A risk threshold that is reached closes the position whatever the exit
/// signal says, once, at the close of the bar.
pub proof fn threshold_exit_comes_first(
    state: SimState,
    entry_price: i64,
    close: i64,
    decided: Signals,
    take_profit: i64,
    stop_loss: i64,
)
    requires
        state.position == (Position::Long { entry_price }),
        risk_exit(close as int, entry_price as int, take_profit as int, stop_loss as int),
    ensures
        step_outcome(state, close, decided, take_profit, stop_loss) == Outcome::ClosedOnThreshold,
        stepped(state, close, decided, take_profit, stop_loss) == (SimState {
            position: Position::Flat,
            balance: compounded(state.balance, close as int, entry_price as int),
        }),
{
}

/// While a position is open, an entry signal changes nothing: the step is
/// the same with it and without it.
pub proof fn entry_signal_is_ignored_while_long(
    state: SimState,
    close: i64,
    decided: Signals,
    take_profit: i64,
    stop_loss: i64,
)
    requires
        state.position is Long,
    ensures
        stepped(state, close, decided, take_profit, stop_loss) == stepped(
            state,
            close,
            Signals { entry: !decided.entry, exit: decided.exit },
            take_profit,
            stop_loss,
        ),
{
}

/// A position that is still open after the last step is closed at the last
/// close: the balance is compounded once more, by the last close over the
/// entry price.
pub proof fn open_position_is_liquidated(
    records: Seq<BarRecordView>,
    entry_price: i64,
    config: IndicatorConfig,
    mode: LogicMode,
    take_profit: i64,
    stop_loss: i64,
)
    requires
        records.len() > 0,
        state_after(
            records,
            (records.len() - 1) as nat,
            config,
            mode,
            take_profit,
            stop_loss,
        ).position == (Position::Long { entry_price }),
    ensures
        closing_balance(records, config, mode, take_profit, stop_loss) == compounded(
            state_after(
                records,
                (records.len() - 1) as nat,
                config,
                mode,
                take_profit,
                stop_loss,
            ).balance,
            records.last().close as int,
            entry_price as int,
        ),
{
}

/// With no position open after the last step, the end of the series changes
/// nothing.
pub proof fn flat_end_keeps_balance(
    records: Seq<BarRecordView>,
    config: IndicatorConfig,
    mode: LogicMode,
    take_profit: i64,
    stop_loss: i64,
)
    requires
        records.len() > 0,
        state_after(
            records,
            (records.len() - 1) as nat,
            config,
            mode,
            take_profit,
            stop_loss,
        ).position is Flat,
    ensures
        closing_balance(records, config, mode, take_profit, stop_loss) == state_after(
            records,
            (records.len() - 1) as nat,
            config,
            mode,
            take_profit,
            stop_loss,
        ).balance,
{
}

/// The simulator does not look ahead: its state after `steps` steps is made
/// of the first `steps + 1` records alone.
pub proof fn simulator_does_not_look_ahead(
    records: Seq<BarRecordView>,
    steps: nat,
    config: IndicatorConfig,
    mode: LogicMode,
    take_profit: i64,
    stop_loss: i64,
)
    requires
        steps < records.len(),
    ensures
        state_after(records.take(steps as int + 1), steps, config, mode, take_profit, stop_loss)
            == state_after(records, steps, config, mode, take_profit, stop_loss),
    decreases steps,
{
    if steps > 0 {
        let shorter = records.take(steps as int + 1);
        simulator_does_not_look_ahead(
            records,
            (steps - 1) as nat,
            config,
            mode,
            take_profit,
            stop_loss,
        );
        simulator_does_not_look_ahead(
            shorter,
            (steps - 1) as nat,
            config,
            mode,
            take_profit,
            stop_loss,
        );
        assert(shorter.take(steps as int) =~= records.take(steps as int));
        assert(shorter[steps as int] == records[steps as int]);
        assert(shorter[steps - 1] == records[steps - 1]);
    }
}

/// With positive prices, the balance stays between zero and its cap, and an
/// open position has a positive entry price, after every step.
pub proof fn state_stays_sound(
    records: Seq<BarRecordView>,
    steps: nat,
    config: IndicatorConfig,
    mode: LogicMode,
    take_profit: i64,
    stop_loss: i64,
)
    requires
        steps < records.len(),
        forall|i: int| 0 <= i < records.len() ==> (#[trigger] records[i]).close > 0,
    ensures
        0 <= state_after(records, steps, config, mode, take_profit, stop_loss).balance
            <= BALANCE_MAX,
        state_after(
            records,
            steps,
            config,
            mode,
            take_profit,
            stop_loss,
        ).position matches Position::Long { entry_price } ==> entry_price > 0,
    decreases steps,
{
    if steps > 0 {
        state_stays_sound(records, (steps - 1) as nat, config, mode, take_profit, stop_loss);
        let before = state_after(
            records,
            (steps - 1) as nat,
            config,
            mode,
            take_profit,
            stop_loss,
        );
        let close = records[steps as int].close;
        if let Position::Long { entry_price } = before.position {
            compounding_stays_in_range(before.balance, close as int, entry_price as int);
        }
    }
}

/// Compounding a balance within range by a trade between positive prices
/// gives a balance within range.
pub proof fn compounding_stays_in_range(balance: int, exit_price: int, entry_price: int)
    requires
        0 <= balance,
        0 < exit_price,
        0 < entry_price,
    ensures
        0 <= compounded(balance, exit_price, entry_price) <= BALANCE_MAX,
{
    assert(0 <= balance * exit_price) by (nonlinear_arith)
        requires
            0 <= balance,
            0 < exit_price,
    ;
    assert(0 <= (balance * exit_price) / entry_price) by (nonlinear_arith)
        requires
            0 <= balance * exit_price,
            0 < entry_price,
    ;
}

/// Below the cap, compounding is the exact product `balance * exit_price /
/// entry_price` rounded down to a whole billionth: it is the largest balance
/// that, times the entry price, does not exceed the old balance times the
/// exit price.
pub proof fn compounding_rounds_down(balance: int, exit_price: int, entry_price: int)
    requires
        0 <= balance,
        0 < exit_price,
        0 < entry_price,
        (balance * exit_price) / entry_price <= BALANCE_MAX,
    ensures
        compounded(balance, exit_price, entry_price) * entry_price <= balance * exit_price,
        balance * exit_price < (compounded(balance, exit_price, entry_price) + 1) * entry_price,
{
    let product = balance * exit_price;
    let grown = product / entry_price;
    assert(0 <= product) by (nonlinear_arith)
        requires
            0 <= balance,
            0 < exit_price,
            product == balance * exit_price,
    ;
    vstd::arithmetic::div_mod::lemma_fundamental_div_mod(product, entry_price);
    vstd::arithmetic::div_mod::lemma_mod_pos_bound(product, entry_price);
    assert(grown * entry_price == entry_price * grown) by (nonlinear_arith);
    assert((grown + 1) * entry_price == entry_price * grown + entry_price) by (nonlinear_arith);
}

/// A trade at a higher exit price never ends with the lower balance.
pub proof fn compounding_grows_with_the_exit_price(
    balance: int,
    lower: int,
    higher: int,
    entry_price: int,
)
    requires
        0 <= balance,
        0 < lower <= higher,
        0 < entry_price,
    ensures
        compounded(balance, lower, entry_price) <= compounded(balance, higher, entry_price),
{
    assert(balance * lower <= balance * higher) by (nonlinear_arith)
        requires
            0 <= balance,
            lower <= higher,
    ;
    vstd::arithmetic::div_mod::lemma_div_is_ordered(
        balance * lower,
        balance * higher,
        entry_price,
    );
}

/// A trade that ends where it began leaves the balance as it was.
pub proof fn round_trip_keeps_balance(balance: int, price: int)
    requires
        0 <= balance <= BALANCE_MAX,
        0 < price,
    ensures
        compounded(balance, price, price) == balance,
{
    assert((balance * price) / price == balance) by (nonlinear_arith)
        requires
            0 < price,
    ;
}

} // verus!
