//! A whole run: records, history of the strength index, and return.

use vstd::prelude::*;
use crate::config::{IndicatorConfig, LogicMode};
use crate::pipeline::{fields_follow, process, records_of, rsi_history, rsi_history_of, Pipeline};
use crate::record::{observation_views, Observation, ObservationView, RunResult, RunResultView};
use crate::simulator::{closing_balance, roi_from, roi_of, simulate, BALANCE_ONE};

verus! {

/// What a run over `series` reports: the records of the series, the history
/// of the strength index, and the return of the simulator over the records.
pub open spec fn result_of(
    series: Seq<ObservationView>,
    config: IndicatorConfig,
    mode: LogicMode,
    take_profit: i64,
    stop_loss: i64,
) -> RunResultView {
    let records = records_of(series, config);
    RunResultView {
        roi: roi_of(closing_balance(records, config, mode, take_profit, stop_loss)),
        rsi_history: rsi_history_of(series, config),
        records,
    }
}

/// Runs the strategy over `series`. `take_profit` and `stop_loss` are
/// percentages in millionths: 5_000_000 is five percent.
///
/// A series without bars gives no record and a return of zero; a series of
/// one bar gives its record and a return of zero. No run loses more than the
/// whole balance.
pub fn run(
    pipeline: &Pipeline,
    series: &Vec<Observation>,
    mode: LogicMode,
    take_profit: i64,
    stop_loss: i64,
) -> (result: RunResult)
    ensures
        result@ == result_of(
            observation_views(series@),
            pipeline.spec_config(),
            mode,
            take_profit,
            stop_loss,
        ),
        result.records.len() == series.len(),
        forall|i: int|
            0 <= i < result.records.len() ==> fields_follow(
                #[trigger] result.records[i]@,
                pipeline.spec_config(),
            ),
        series.len() <= 1 ==> result.roi == 0,
        -BALANCE_ONE <= result.roi,
{
    let config = pipeline.config();
    let records = process(series, &config);
    let history = rsi_history(series, &config);
    let balance = simulate(&records, &config, mode, take_profit, stop_loss);
    RunResult { roi: roi_from(balance), rsi_history: history, records }
}

} // verus!
