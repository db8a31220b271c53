//! The position simulator: one position at a time, opened on an entry signal
//! and closed on a risk threshold, on an exit signal, or at the end of the
//! series.
//!
//! The balance is a multiplier that starts at one and is compounded by
//! `exit price / entry price` whenever a position is closed. It is counted in
//! billionths; each compounding rounds down to a whole billionth and stops at
//! [`BALANCE_MAX`].

use vstd::prelude::*;
use crate::config::{IndicatorConfig, LogicMode, SCALE};
use crate::record::{record_views, BarRecord, BarRecordView};
use crate::signal::{evaluate, signals, Signals};

verus! {

/// A balance of exactly one.
pub const BALANCE_ONE: u64 = 1_000_000_000;

/// The largest balance that is kept apart from larger ones.
pub const BALANCE_MAX: u64 = 9_223_372_036_854_775_807;

/// Whether a position is open, and at which price it was opened.
#[derive(Clone, Copy, Debug, PartialEq, Eq)]
pub enum Position {
    Flat,
    Long { entry_price: i64 },
}

/// What one step did.
#[derive(Clone, Copy, Debug, PartialEq, Eq)]
pub enum Outcome {
    /// No position before, none after.
    Waited,
    /// A position was opened at the close of the bar.
    Opened,
    /// The open position was kept.
    Held,
    /// The position was closed because the gain reached the take-profit
    /// threshold or the loss reached the stop-loss threshold.
    ClosedOnThreshold,
    /// The position was closed on the exit signal.
    ClosedOnSignal,
}

/// The state of a simulator as plain values.
pub struct SimState {
    pub position: Position,
    pub balance: int,
}

/// Whether the gain from `entry` to `close`, `(close - entry) / entry`, is at
/// least `take_profit` percent. The percentage is counted in millionths; the
/// comparison is stated without the division, for a positive `entry`.
pub open spec fn take_profit_reached(close: int, entry: int, take_profit: int) -> bool {
    (close - entry) * (100 * SCALE) >= take_profit * entry
}

/// Whether the gain from `entry` to `close` is at most minus `stop_loss`
/// percent, stated in the same way.
pub open spec fn stop_loss_reached(close: int, entry: int, stop_loss: int) -> bool {
    (close - entry) * (100 * SCALE) <= -(stop_loss * entry)
}

/// Whether one of the two risk thresholds is reached.
pub open spec fn risk_exit(close: int, entry: int, take_profit: int, stop_loss: int) -> bool {
    take_profit_reached(close, entry, take_profit) || stop_loss_reached(close, entry, stop_loss)
}

/// The balance after a trade from `entry_price` to `exit_price`: the old one
/// times `exit_price / entry_price`, rounded down, and no more than
/// [`BALANCE_MAX`].
pub open spec fn compounded(balance: int, exit_price: int, entry_price: int) -> int {
    let grown = (balance * exit_price) / entry_price;
    if grown > BALANCE_MAX {
        BALANCE_MAX as int
    } else {
        grown
    }
}

/// The state before the first step: no position, a balance of one.
pub open spec fn initial_state() -> SimState {
    SimState { position: Position::Flat, balance: BALANCE_ONE as int }
}

/// What a step does in `state` at a bar that closes at `close`.
pub open spec fn step_outcome(
    state: SimState,
    close: i64,
    decided: Signals,
    take_profit: i64,
    stop_loss: i64,
) -> Outcome {
    match state.position {
        Position::Flat => if decided.entry {
            Outcome::Opened
        } else {
            Outcome::Waited
        },
        Position::Long { entry_price } => if risk_exit(
            close as int,
            entry_price as int,
            take_profit as int,
            stop_loss as int,
        ) {
            Outcome::ClosedOnThreshold
        } else if decided.exit {
            Outcome::ClosedOnSignal
        } else {
            Outcome::Held
        },
    }
}

/// The state after a step in `state` at a bar that closes at `close`.
pub open spec fn stepped(
    state: SimState,
    close: i64,
    decided: Signals,
    take_profit: i64,
    stop_loss: i64,
) -> SimState {
    match step_outcome(state, close, decided, take_profit, stop_loss) {
        Outcome::Waited | Outcome::Held => state,
        Outcome::Opened => SimState {
            position: Position::Long { entry_price: close },
            balance: state.balance,
        },
        Outcome::ClosedOnThreshold | Outcome::ClosedOnSignal => settled(state, close),
    }
}

/// The state after an open position, if there is one, is closed at `close`.
pub open spec fn settled(state: SimState, close: i64) -> SimState {
    match state.position {
        Position::Flat => state,
        Position::Long { entry_price } => SimState {
            position: Position::Flat,
            balance: compounded(state.balance, close as int, entry_price as int),
        },
    }
}

/// The state after the first `steps` steps over `records`; step `k` goes from
/// record `k - 1` to record `k`.
pub open spec fn state_after(
    records: Seq<BarRecordView>,
    steps: nat,
    config: IndicatorConfig,
    mode: LogicMode,
    take_profit: i64,
    stop_loss: i64,
) -> SimState
    decreases steps,
{
    if steps == 0 {
        initial_state()
    } else {
        stepped(
            state_after(records, (steps - 1) as nat, config, mode, take_profit, stop_loss),
            records[steps as int].close,
            signals(records[steps - 1], records[steps as int], config, mode),
            take_profit,
            stop_loss,
        )
    }
}

/// The balance at the end of a run over `records`: every step taken, and a
/// position that is still open closed at the last close.
pub open spec fn closing_balance(
    records: Seq<BarRecordView>,
    config: IndicatorConfig,
    mode: LogicMode,
    take_profit: i64,
    stop_loss: i64,
) -> int {
    if records.len() == 0 {
        BALANCE_ONE as int
    } else {
        settled(
            state_after(
                records,
                (records.len() - 1) as nat,
                config,
                mode,
                take_profit,
                stop_loss,
            ),
            records.last().close,
        ).balance
    }
}

/// The return that a balance stands for.
pub open spec fn roi_of(balance: int) -> int {
    balance - BALANCE_ONE
}

/// Whether the gain from `entry` to `close` has reached a risk threshold.
fn reaches_risk_threshold(close: i64, entry: i64, take_profit: i64, stop_loss: i64) -> (reached:
    bool)
    requires
        close > 0,
        entry > 0,
    ensures
        reached == risk_exit(close as int, entry as int, take_profit as int, stop_loss as int),
{
    let gain: i128 = (close as i128 - entry as i128) * 100_000_000;
    assert(gain == (close - entry) * (100 * SCALE));
    assert(-0x4000_0000_0000_0000_0000_0000_0000_0000 <= take_profit * entry
        <= 0x4000_0000_0000_0000_0000_0000_0000_0000) by (nonlinear_arith)
        requires
            -0x8000_0000_0000_0000 <= take_profit <= 0x8000_0000_0000_0000,
            0 < entry <= 0x8000_0000_0000_0000,
    ;
    assert(-0x4000_0000_0000_0000_0000_0000_0000_0000 <= stop_loss * entry
        <= 0x4000_0000_0000_0000_0000_0000_0000_0000) by (nonlinear_arith)
        requires
            -0x8000_0000_0000_0000 <= stop_loss <= 0x8000_0000_0000_0000,
            0 < entry <= 0x8000_0000_0000_0000,
    ;
    let profit_bound: i128 = (take_profit as i128) * (entry as i128);
    let loss_bound: i128 = -((stop_loss as i128) * (entry as i128));
    gain >= profit_bound || gain <= loss_bound
}

/// Compounds `balance` by a trade from `entry_price` to `exit_price`.
fn compound(balance: u64, exit_price: i64, entry_price: i64) -> (grown: u64)
    requires
        balance <= BALANCE_MAX,
        exit_price > 0,
        entry_price > 0,
    ensures
        grown == compounded(balance as int, exit_price as int, entry_price as int),
        grown <= BALANCE_MAX,
{
    assert(0 <= balance * exit_price <= 0x4000_0000_0000_0000_0000_0000_0000_0000)
        by (nonlinear_arith)
        requires
            0 <= balance <= 0x8000_0000_0000_0000,
            0 < exit_price <= 0x8000_0000_0000_0000,
    ;
    let product: u128 = (balance as u128) * (exit_price as u128);
    let grown: u128 = product / (entry_price as u128);
    if grown > BALANCE_MAX as u128 {
        BALANCE_MAX
    } else {
        grown as u64
    }
}

/// The return that a balance stands for, in billionths.
pub(crate) fn roi_from(balance: u64) -> (roi: i64)
    requires
        balance <= BALANCE_MAX,
    ensures
        roi == roi_of(balance as int),
{
    if balance >= BALANCE_ONE {
        (balance - BALANCE_ONE) as i64
    } else {
        -((BALANCE_ONE - balance) as i64)
    }
}

/// A single-position simulator. An open position always has a positive entry
/// price, and the balance never exceeds [`BALANCE_MAX`].
#[derive(Debug)]
pub struct Simulator {
    position: Position,
    balance: u64,
}

impl View for Simulator {
    type V = SimState;

    closed spec fn view(&self) -> SimState {
        SimState { position: self.position, balance: self.balance as int }
    }
}

impl Simulator {
    #[verifier::type_invariant]
    spec fn sound(self) -> bool {
        &&& self.balance <= BALANCE_MAX
        &&& self.position matches Position::Long { entry_price } ==> entry_price > 0
    }

    /// A simulator with no position and a balance of one.
    pub fn new() -> (simulator: Simulator)
        ensures
            simulator@ == initial_state(),
    {
        Simulator { position: Position::Flat, balance: BALANCE_ONE }
    }

    /// The position held now.
    pub fn position(&self) -> (position: Position)
        ensures
            position == self@.position,
    {
        self.position
    }

    /// The balance now, in billionths.
    pub fn balance(&self) -> (balance: u64)
        ensures
            balance == self@.balance,
            balance <= BALANCE_MAX,
    {
        proof {
            use_type_invariant(self);
        }
        self.balance
    }

    /// The return now, in billionths: the balance less one.
    pub fn roi(&self) -> (roi: i64)
        ensures
            roi == roi_of(self@.balance),
    {
        proof {
            use_type_invariant(self);
        }
        roi_from(self.balance)
    }

    /// Takes the step to the bar `curr`, for which `decided` holds the
    /// signals. Without a position, an entry signal opens one at the close of
    /// `curr`. With a position, a risk threshold that is reached closes it,
    /// whatever the exit signal says; else the exit signal closes it; else it
    /// is kept. An entry signal is ignored while a position is open.
    pub fn step(&mut self, curr: &BarRecord, decided: Signals, take_profit: i64, stop_loss: i64)
        -> (outcome: Outcome)
        ensures
            outcome == step_outcome(old(self)@, curr@.close, decided, take_profit, stop_loss),
            final(self)@ == stepped(old(self)@, curr@.close, decided, take_profit, stop_loss),
    {
        proof {
            use_type_invariant(&*self);
        }
        let close = curr.close();
        match self.position {
            Position::Flat => {
                if decided.entry {
                    self.position = Position::Long { entry_price: close };
                    Outcome::Opened
                } else {
                    Outcome::Waited
                }
            },
            Position::Long { entry_price } => {
                if reaches_risk_threshold(close, entry_price, take_profit, stop_loss) {
                    self.balance = compound(self.balance, close, entry_price);
                    self.position = Position::Flat;
                    Outcome::ClosedOnThreshold
                } else if decided.exit {
                    self.balance = compound(self.balance, close, entry_price);
                    self.position = Position::Flat;
                    Outcome::ClosedOnSignal
                } else {
                    Outcome::Held
                }
            },
        }
    }

    /// Closes a position that is still open at the close of `last`, and says
    /// whether there was one.
    pub fn settle(&mut self, last: &BarRecord) -> (closed: bool)
        ensures
            closed == (old(self)@.position is Long),
            final(self)@ == settled(old(self)@, last@.close),
    {
        proof {
            use_type_invariant(&*self);
        }
        match self.position {
            Position::Flat => false,
            Position::Long { entry_price } => {
                self.balance = compound(self.balance, last.close(), entry_price);
                self.position = Position::Flat;
                true
            },
        }
    }
}

/// Runs the simulator over `records` from the second bar on, closes what is
/// still open at the last bar, and returns the balance in billionths.
pub fn simulate(
    records: &Vec<BarRecord>,
    config: &IndicatorConfig,
    mode: LogicMode,
    take_profit: i64,
    stop_loss: i64,
) -> (balance: u64)
    ensures
        balance == closing_balance(record_views(records@), *config, mode, take_profit, stop_loss),
        balance <= BALANCE_MAX,
{
    let mut simulator = Simulator::new();
    if records.len() == 0 {
        return simulator.balance();
    }
    let ghost views = record_views(records@);
    let mut i: usize = 1;
    while i < records.len()
        invariant
            1 <= i <= records.len(),
            views == record_views(records@),
            simulator@ == state_after(views, (i - 1) as nat, *config, mode, take_profit, stop_loss),
        decreases records.len() - i,
    {
        let decided = evaluate(&records[i - 1], &records[i], config, mode);
        simulator.step(&records[i], decided, take_profit, stop_loss);
        i += 1;
    }
    simulator.settle(&records[records.len() - 1]);
    simulator.balance()
}

} // verus!
