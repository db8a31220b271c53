//! Entry and exit signals for the step from one bar to the next.
//!
//! Each indicator that takes part has a crossover rule of its own. The rules
//! of the switched-on indicators are gathered into a list of votes, and the
//! logic mode of the run turns the list into one decision. An indicator that is
//! switched off casts no vote at all, and an empty list decides `false`.

use vstd::prelude::*;
use crate::config::{IndicatorConfig, LogicMode};
use crate::record::{BarRecord, BarRecordView};

verus! {

/// The two decisions for one step.
#[derive(Clone, Copy, Debug, PartialEq, Eq)]
pub struct Signals {
    pub entry: bool,
    pub exit: bool,
}

/// The close crosses above the moving average.
pub open spec fn sma_entry(prev: BarRecordView, curr: BarRecordView) -> bool {
    match (prev.sma, curr.sma) {
        (Some(before), Some(now)) => prev.close < before && curr.close > now,
        _ => false,
    }
}

/// The close crosses below the moving average.
pub open spec fn sma_exit(prev: BarRecordView, curr: BarRecordView) -> bool {
    match (prev.sma, curr.sma) {
        (Some(before), Some(now)) => prev.close > before && curr.close < now,
        _ => false,
    }
}

/// The strength index crosses above the oversold level.
pub open spec fn rsi_entry(prev: BarRecordView, curr: BarRecordView, oversold: i64) -> bool {
    match (prev.rsi, curr.rsi) {
        (Some(before), Some(now)) => before < oversold && now > oversold,
        _ => false,
    }
}

/// The strength index crosses below the overbought level.
pub open spec fn rsi_exit(prev: BarRecordView, curr: BarRecordView, overbought: i64) -> bool {
    match (prev.rsi, curr.rsi) {
        (Some(before), Some(now)) => before > overbought && now < overbought,
        _ => false,
    }
}

/// The convergence/divergence value crosses above its signal line.
pub open spec fn macd_entry(prev: BarRecordView, curr: BarRecordView) -> bool {
    match (prev.macd, prev.macd_signal, curr.macd, curr.macd_signal) {
        (Some(before), Some(line_before), Some(now), Some(line_now)) => before < line_before
            && now > line_now,
        _ => false,
    }
}

/// The convergence/divergence value crosses below its signal line.
pub open spec fn macd_exit(prev: BarRecordView, curr: BarRecordView) -> bool {
    match (prev.macd, prev.macd_signal, curr.macd, curr.macd_signal) {
        (Some(before), Some(line_before), Some(now), Some(line_now)) => before > line_before
            && now < line_now,
        _ => false,
    }
}

/// The entry votes of the switched-on indicators: moving average, strength
/// index, convergence/divergence, in this order.
pub open spec fn entry_votes(prev: BarRecordView, curr: BarRecordView, config: IndicatorConfig)
    -> Seq<bool> {
    (if config.sma.enabled {
        seq![sma_entry(prev, curr)]
    } else {
        Seq::empty()
    }) + (if config.rsi.enabled {
        seq![rsi_entry(prev, curr, config.rsi.spec_oversold())]
    } else {
        Seq::empty()
    }) + (if config.macd.enabled {
        seq![macd_entry(prev, curr)]
    } else {
        Seq::empty()
    })
}

/// The exit votes of the switched-on indicators, in the same order.
pub open spec fn exit_votes(prev: BarRecordView, curr: BarRecordView, config: IndicatorConfig)
    -> Seq<bool> {
    (if config.sma.enabled {
        seq![sma_exit(prev, curr)]
    } else {
        Seq::empty()
    }) + (if config.rsi.enabled {
        seq![rsi_exit(prev, curr, config.rsi.spec_overbought())]
    } else {
        Seq::empty()
    }) + (if config.macd.enabled {
        seq![macd_exit(prev, curr)]
    } else {
        Seq::empty()
    })
}

/// What the logic mode makes of a list of votes: `false` of an empty list, the
/// conjunction or the disjunction of the others.
pub open spec fn combined(votes: Seq<bool>, mode: LogicMode) -> bool {
    votes.len() > 0 && match mode {
        LogicMode::RequireAll => forall|i: int| 0 <= i < votes.len() ==> votes[i],
        LogicMode::RequireAny => exists|i: int| 0 <= i < votes.len() && votes[i],
    }
}

/// The entry decision for the step from `prev` to `curr`.
pub open spec fn entry_signal(
    prev: BarRecordView,
    curr: BarRecordView,
    config: IndicatorConfig,
    mode: LogicMode,
) -> bool {
    combined(entry_votes(prev, curr, config), mode)
}

/// The exit decision for the step from `prev` to `curr`.
pub open spec fn exit_signal(
    prev: BarRecordView,
    curr: BarRecordView,
    config: IndicatorConfig,
    mode: LogicMode,
) -> bool {
    combined(exit_votes(prev, curr, config), mode)
}

/// Both decisions for the step from `prev` to `curr`.
pub open spec fn signals(
    prev: BarRecordView,
    curr: BarRecordView,
    config: IndicatorConfig,
    mode: LogicMode,
) -> Signals {
    Signals {
        entry: entry_signal(prev, curr, config, mode),
        exit: exit_signal(prev, curr, config, mode),
    }
}

/// Whether `before` lay below its reference and `now` lies above its own.
fn crosses_above(before: i64, reference_before: i64, now: i64, reference_now: i64) -> (crossed:
    bool)
    ensures
        crossed == (before < reference_before && now > reference_now),
{
    before < reference_before && now > reference_now
}

/// Whether `before` lay above its reference and `now` lies below its own.
fn crosses_below(before: i64, reference_before: i64, now: i64, reference_now: i64) -> (crossed:
    bool)
    ensures
        crossed == (before > reference_before && now < reference_now),
{
    before > reference_before && now < reference_now
}

/// The crossover votes of the moving average for one step.
pub fn sma_crossover(prev: &BarRecord, curr: &BarRecord) -> (vote: Signals)
    ensures
        vote.entry == sma_entry(prev@, curr@),
        vote.exit == sma_exit(prev@, curr@),
{
    match (prev.sma(), curr.sma()) {
        (Some(before), Some(now)) => Signals {
            entry: crosses_above(prev.close(), before, curr.close(), now),
            exit: crosses_below(prev.close(), before, curr.close(), now),
        },
        _ => Signals { entry: false, exit: false },
    }
}

/// The crossover votes of the strength index for one step.
pub fn rsi_crossover(prev: &BarRecord, curr: &BarRecord, oversold: i64, overbought: i64) -> (vote:
    Signals)
    ensures
        vote.entry == rsi_entry(prev@, curr@, oversold),
        vote.exit == rsi_exit(prev@, curr@, overbought),
{
    match (prev.rsi(), curr.rsi()) {
        (Some(before), Some(now)) => Signals {
            entry: crosses_above(before, oversold, now, oversold),
            exit: crosses_below(before, overbought, now, overbought),
        },
        _ => Signals { entry: false, exit: false },
    }
}

/// The crossover votes of the convergence/divergence indicator for one step.
pub fn macd_crossover(prev: &BarRecord, curr: &BarRecord) -> (vote: Signals)
    ensures
        vote.entry == macd_entry(prev@, curr@),
        vote.exit == macd_exit(prev@, curr@),
{
    match (prev.macd(), prev.macd_signal(), curr.macd(), curr.macd_signal()) {
        (Some(before), Some(line_before), Some(now), Some(line_now)) => Signals {
            entry: crosses_above(before, line_before, now, line_now),
            exit: crosses_below(before, line_before, now, line_now),
        },
        _ => Signals { entry: false, exit: false },
    }
}

/// Combines a list of votes under the logic mode.
pub fn combine(votes: &Vec<bool>, mode: LogicMode) -> (decision: bool)
    ensures
        decision == combined(votes@, mode),
{
    let mut all = true;
    let mut any = false;
    let mut i: usize = 0;
    while i < votes.len()
        invariant
            i <= votes.len(),
            all == (forall|j: int| 0 <= j < i ==> votes@[j]),
            any == (exists|j: int| 0 <= j < i && votes@[j]),
        decreases votes.len() - i,
    {
        if votes[i] {
            any = true;
        } else {
            all = false;
        }
        i += 1;
    }
    if votes.len() == 0 {
        false
    } else {
        match mode {
            LogicMode::RequireAll => all,
            LogicMode::RequireAny => any,
        }
    }
}

/// The entry and the exit decision for the step from `prev` to `curr`.
pub fn evaluate(prev: &BarRecord, curr: &BarRecord, config: &IndicatorConfig, mode: LogicMode)
    -> (decided: Signals)
    ensures
        decided == signals(prev@, curr@, *config, mode),
{
    let mut entries: Vec<bool> = Vec::new();
    let mut exits: Vec<bool> = Vec::new();
    if config.sma.enabled {
        let vote = sma_crossover(prev, curr);
        entries.push(vote.entry);
        exits.push(vote.exit);
    }
    if config.rsi.enabled {
        let vote = rsi_crossover(prev, curr, config.rsi.oversold(), config.rsi.overbought());
        entries.push(vote.entry);
        exits.push(vote.exit);
    }
    if config.macd.enabled {
        let vote = macd_crossover(prev, curr);
        entries.push(vote.entry);
        exits.push(vote.exit);
    }
    assert(entries@ =~= entry_votes(prev@, curr@, *config));
    assert(exits@ =~= exit_votes(prev@, curr@, *config));
    Signals { entry: combine(&entries, mode), exit: combine(&exits, mode) }
}

} // verus!
