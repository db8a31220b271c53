//! A backtesting core for a single-position, multi-indicator trading strategy.
//!
//! A run has three stages:
//!
//! 1. [`Pipeline::new`] finds the configuration free of faults and builds a
//!    unit for each indicator that is switched on.
//! 2. The caller advances each unit by the closing price of each bar, in
//!    order, and pairs the bar with what the units reported
//!    ([`Observation`]). This is the one stage that works on real numbers,
//!    and it is the caller's.
//! 3. [`run`] makes one record per bar, derives the entry and exit signals of
//!    each step from two consecutive records, drives the position simulator
//!    with them, and reports the return.
//!
//! Every real quantity is held as an integer count of a fixed fraction:
//! prices, indicator values, thresholds and percentages in millionths
//! ([`config::SCALE`]), balances and returns in billionths
//! ([`simulator::BALANCE_ONE`]). Comparisons are therefore exact, and the one
//! rounding step, the division that closes a trade, is stated in the
//! contracts.

pub mod backtest;
pub mod config;
pub mod laws;
pub mod pipeline;
pub mod record;
pub mod signal;
pub mod simulator;
pub mod units;

pub use config::{
    BollingerConfig, IndicatorConfig, InvalidParameter, LogicMode, MacdConfig, RsiConfig,
    SmaConfig, SCALE,
};
pub use record::{
    BarRecord, BarRecordView, Observation, ObservationView, PriceBar, PriceBarView, Readings,
    RsiPoint, RsiPointView, RunResult, RunResultView,
};
pub use signal::{combine, evaluate, Signals};
pub use simulator::{simulate, Outcome, Position, SimState, Simulator, BALANCE_MAX, BALANCE_ONE};
pub use units::{BollingerParameters, IndicatorUnits, MacdUnit, RsiUnit, SmaUnit};
pub use pipeline::{make_record, process, rsi_history, Pipeline};
pub use backtest::run;
