//! The indicator units of a run. The library builds them and hands them to
//! the caller, who advances each by one closing price per bar; what they
//! report comes back as [`crate::record::Readings`].
//!
//! The units themselves are those of the `ta` crate. Nothing is proved of
//! them; what is taken on trust is stated at each constructor below.

use vstd::prelude::*;
use crate::config::{smoothing_period, window_period, IndicatorConfig, InvalidParameter};

verus! {

/// The simple moving average of `ta`, carried as it is.
#[verifier::external_type_specification]
#[verifier::external_body]
pub struct ExSimpleMovingAverage(ta::indicators::SimpleMovingAverage);

/// The relative strength index of `ta`, carried as it is.
#[verifier::external_type_specification]
#[verifier::external_body]
pub struct ExRelativeStrengthIndex(ta::indicators::RelativeStrengthIndex);

/// The convergence/divergence indicator of `ta`, carried as it is.
#[verifier::external_type_specification]
#[verifier::external_body]
pub struct ExMovingAverageConvergenceDivergence(
    ta::indicators::MovingAverageConvergenceDivergence,
);

/// The error of `ta`, of which only its presence is read.
#[verifier::external_type_specification]
#[verifier::external_body]
pub struct ExTaError(ta::errors::TaError);

/// `ta::indicators::SimpleMovingAverage::new`. Taken on trust: it fails for a
/// window of zero and for no other. It allocates eight bytes for each bar of
/// the window, so the window is kept within what one allocation may hold.
#[verifier::external_body]
fn moving_average(period: usize) -> (made: Result<
    ta::indicators::SimpleMovingAverage,
    ta::errors::TaError,
>)
    requires
        period * 8 <= isize::MAX,
    ensures
        made is Err <==> period == 0,
{
    ta::indicators::SimpleMovingAverage::new(period)
}

/// `ta::indicators::RelativeStrengthIndex::new`. Taken on trust: it fails for
/// a period of zero and for no other. It adds one to the period, so the
/// largest index is kept away from it.
#[verifier::external_body]
fn strength_index(period: usize) -> (made: Result<
    ta::indicators::RelativeStrengthIndex,
    ta::errors::TaError,
>)
    requires
        period < usize::MAX,
    ensures
        made is Err <==> period == 0,
{
    ta::indicators::RelativeStrengthIndex::new(period)
}

/// `ta::indicators::MovingAverageConvergenceDivergence::new`. Taken on trust:
/// it fails if one of the three periods is zero, and only then. It adds one
/// to each period, so the largest index is kept away from them.
#[verifier::external_body]
fn convergence_divergence(fast: usize, slow: usize, signal: usize) -> (made: Result<
    ta::indicators::MovingAverageConvergenceDivergence,
    ta::errors::TaError,
>)
    requires
        fast < usize::MAX,
        slow < usize::MAX,
        signal < usize::MAX,
    ensures
        made is Err <==> fast == 0 || slow == 0 || signal == 0,
{
    ta::indicators::MovingAverageConvergenceDivergence::new(fast, slow, signal)
}

/// A simple moving average that has seen no bar yet.
#[derive(Debug)]
pub struct SmaUnit {
    /// The window that `state` was built with.
    pub period: u32,
    pub state: ta::indicators::SimpleMovingAverage,
}

/// A relative strength index that has seen no bar yet.
#[derive(Debug)]
pub struct RsiUnit {
    /// The period that `state` was built with.
    pub period: u32,
    pub state: ta::indicators::RelativeStrengthIndex,
}

/// A convergence/divergence indicator that has seen no bar yet.
#[derive(Debug)]
pub struct MacdUnit {
    /// The periods that `state` was built with.
    pub fast: u32,
    pub slow: u32,
    pub signal: u32,
    pub state: ta::indicators::MovingAverageConvergenceDivergence,
}

/// The checked parameters of the bands. Their width is a real number, so the
/// unit itself is built where real numbers live.
#[derive(Clone, Copy, Debug)]
pub struct BollingerParameters {
    pub period: u32,
    /// Distance of each band from the mean, in millionths of a standard
    /// deviation; never negative.
    pub multiplier: i64,
}

/// Whether a window of this many bars, at eight bytes each, is within what
/// one allocation may hold.
fn allocatable(period: u32) -> (fits: bool)
    ensures
        fits == (period * 8 <= isize::MAX),
{
    (period as usize) <= (isize::MAX as usize) / 8
}

/// Whether a period fits the platform's index type with room for its
/// successor.
fn leaves_room(period: u32) -> (fits: bool)
    ensures
        fits == (period + 1 <= usize::MAX),
{
    (period as usize) < usize::MAX
}

impl SmaUnit {
    /// Builds the unit, unless the window is zero or too large.
    pub fn new(period: u32) -> (unit: Result<SmaUnit, InvalidParameter>)
        ensures
            unit is Ok <==> window_period(period),
            unit matches Ok(u) ==> u.period == period,
            unit matches Err(e) ==> e == InvalidParameter::SmaPeriod,
    {
        if !allocatable(period) {
            return Err(InvalidParameter::SmaPeriod);
        }
        match moving_average(period as usize) {
            Ok(state) => Ok(SmaUnit { period, state }),
            Err(_) => Err(InvalidParameter::SmaPeriod),
        }
    }
}

impl RsiUnit {
    /// Builds the unit, unless the period cannot be smoothed over.
    pub fn new(period: u32) -> (unit: Result<RsiUnit, InvalidParameter>)
        ensures
            unit is Ok <==> smoothing_period(period),
            unit matches Ok(u) ==> u.period == period,
            unit matches Err(e) ==> e == InvalidParameter::RsiPeriod,
    {
        if !leaves_room(period) {
            return Err(InvalidParameter::RsiPeriod);
        }
        match strength_index(period as usize) {
            Ok(state) => Ok(RsiUnit { period, state }),
            Err(_) => Err(InvalidParameter::RsiPeriod),
        }
    }
}

impl MacdUnit {
    /// Builds the unit, unless one of the periods cannot be smoothed over.
    /// The periods are not compared with one another: a fast period may be
    /// as long as the slow one, or longer.
    pub fn new(fast: u32, slow: u32, signal: u32) -> (unit: Result<MacdUnit, InvalidParameter>)
        ensures
            unit is Ok <==> smoothing_period(fast) && smoothing_period(slow) && smoothing_period(
                signal,
            ),
            unit matches Ok(u) ==> u.fast == fast && u.slow == slow && u.signal == signal,
            unit matches Err(e) ==> e == InvalidParameter::MacdPeriod,
    {
        if !leaves_room(fast) || !leaves_room(slow) || !leaves_room(signal) {
            return Err(InvalidParameter::MacdPeriod);
        }
        match convergence_divergence(fast as usize, slow as usize, signal as usize) {
            Ok(state) => Ok(MacdUnit { fast, slow, signal, state }),
            Err(_) => Err(InvalidParameter::MacdPeriod),
        }
    }
}

impl BollingerParameters {
    /// Checks the parameters: the window must be neither zero nor too large,
    /// and the width not negative. Where both faults are there, the window is
    /// reported.
    pub fn new(period: u32, multiplier: i64) -> (checked: Result<
        BollingerParameters,
        InvalidParameter,
    >)
        ensures
            checked is Ok <==> window_period(period) && multiplier >= 0,
            checked matches Ok(p) ==> p.period == period && p.multiplier == multiplier,
            checked matches Err(e) ==> e == (if !window_period(period) {
                InvalidParameter::BollingerPeriod
            } else {
                InvalidParameter::BollingerMultiplier
            }),
    {
        if period == 0 || !allocatable(period) {
            Err(InvalidParameter::BollingerPeriod)
        } else if multiplier < 0 {
            Err(InvalidParameter::BollingerMultiplier)
        } else {
            Ok(BollingerParameters { period, multiplier })
        }
    }
}

/// The units of one run: one for each indicator that is switched on.
#[derive(Debug)]
pub struct IndicatorUnits {
    pub sma: Option<SmaUnit>,
    pub macd: Option<MacdUnit>,
    pub bollinger: Option<BollingerParameters>,
    pub rsi: Option<RsiUnit>,
}

impl IndicatorUnits {
    /// Whether there is a unit for exactly the indicators that `config`
    /// switches on, each with the parameters that `config` gives or defaults
    /// to.
    pub open spec fn built_for(&self, config: IndicatorConfig) -> bool {
        &&& self.sma is Some <==> config.sma.enabled
        &&& self.sma matches Some(u) ==> u.period == config.sma.spec_period()
        &&& self.macd is Some <==> config.macd.enabled
        &&& self.macd matches Some(u) ==> u.fast == config.macd.spec_fast() && u.slow
            == config.macd.spec_slow() && u.signal == config.macd.spec_signal()
        &&& self.bollinger is Some <==> config.bollinger.enabled
        &&& self.bollinger matches Some(p) ==> p.period == config.bollinger.spec_period()
            && p.multiplier == config.bollinger.spec_std_dev()
        &&& self.rsi is Some <==> config.rsi.enabled
        &&& self.rsi matches Some(u) ==> u.period == config.rsi.spec_period()
    }

    /// Builds the units that `config` switches on: moving average,
    /// convergence/divergence, bands, strength index. The first fault ends
    /// the attempt, and nothing is built for an indicator that is switched
    /// off.
    pub fn build(config: &IndicatorConfig) -> (units: Result<IndicatorUnits, InvalidParameter>)
        ensures
            units is Ok <==> config.first_invalid() is None,
            units matches Ok(u) ==> u.built_for(*config),
            units matches Err(e) ==> config.first_invalid() == Some(e),
    {
        let sma = if config.sma.enabled {
            match SmaUnit::new(config.sma.period()) {
                Ok(unit) => Some(unit),
                Err(fault) => {
                    return Err(fault);
                },
            }
        } else {
            None
        };
        let macd = if config.macd.enabled {
            match MacdUnit::new(config.macd.fast(), config.macd.slow(), config.macd.signal()) {
                Ok(unit) => Some(unit),
                Err(fault) => {
                    return Err(fault);
                },
            }
        } else {
            None
        };
        let bollinger = if config.bollinger.enabled {
            match BollingerParameters::new(config.bollinger.period(), config.bollinger.std_dev()) {
                Ok(checked) => Some(checked),
                Err(fault) => {
                    return Err(fault);
                },
            }
        } else {
            None
        };
        let rsi = if config.rsi.enabled {
            match RsiUnit::new(config.rsi.period()) {
                Ok(unit) => Some(unit),
                Err(fault) => {
                    return Err(fault);
                },
            }
        } else {
            None
        };
        Ok(IndicatorUnits { sma, macd, bollinger, rsi })
    }
}

} // verus!
