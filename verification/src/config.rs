//! What a run is configured with: the four indicator kinds, each with its
//! switch and its parameters, and the mode that combines their signals.

use vstd::prelude::*;

verus! {

/// One whole unit of a price, an indicator value, a threshold or a percentage,
/// all of which are counted in millionths.
pub const SCALE: i64 = 1_000_000;

/// Window of the simple moving average when none is given.
pub const DEFAULT_SMA_PERIOD: u32 = 20;

/// Smoothing period of the strength index when none is given.
pub const DEFAULT_RSI_PERIOD: u32 = 14;

/// Oversold threshold of the strength index when none is given: 30.
pub const DEFAULT_RSI_OVERSOLD: i64 = 30_000_000;

/// Overbought threshold of the strength index when none is given: 70.
pub const DEFAULT_RSI_OVERBOUGHT: i64 = 70_000_000;

/// Fast period of the convergence/divergence indicator when none is given.
pub const DEFAULT_MACD_FAST: u32 = 12;

/// Slow period of the convergence/divergence indicator when none is given.
pub const DEFAULT_MACD_SLOW: u32 = 26;

/// Signal period of the convergence/divergence indicator when none is given.
pub const DEFAULT_MACD_SIGNAL: u32 = 9;

/// Window of the bands when none is given.
pub const DEFAULT_BOLLINGER_PERIOD: u32 = 20;

/// Width of the bands in standard deviations when none is given: 2.
pub const DEFAULT_BOLLINGER_MULTIPLIER: i64 = 2_000_000;

/// How the signals of the switched-on indicators combine into one decision.
/// The same mode serves entries and exits.
#[derive(Clone, Copy, Debug, PartialEq, Eq)]
pub enum LogicMode {
    /// Every switched-on indicator must signal.
    RequireAll,
    /// One switched-on indicator that signals is enough.
    RequireAny,
}

/// Why a configuration cannot be run.
#[derive(Clone, Copy, Debug, PartialEq, Eq)]
pub enum InvalidParameter {
    /// The moving average is switched on with a window that is zero or too
    /// large to be held in memory.
    SmaPeriod,
    /// The convergence/divergence indicator is switched on with a period that
    /// is zero or too large to be smoothed over.
    MacdPeriod,
    /// The bands are switched on with a window that is zero or too large to
    /// be held in memory.
    BollingerPeriod,
    /// The bands are switched on with a negative width.
    BollingerMultiplier,
    /// The strength index is switched on with a period that is zero or too
    /// large to be smoothed over.
    RsiPeriod,
}

/// Simple moving average of the closing price.
#[derive(Clone, Copy, Debug)]
pub struct SmaConfig {
    pub enabled: bool,
    /// Number of bars in the window.
    pub period: Option<u32>,
}

/// Relative strength index of the closing price.
#[derive(Clone, Copy, Debug)]
pub struct RsiConfig {
    pub enabled: bool,
    /// Number of bars that gains and losses are smoothed over.
    pub period: Option<u32>,
    /// Level above which the index counts as overbought, in millionths.
    pub overbought: Option<i64>,
    /// Level below which the index counts as oversold, in millionths.
    pub oversold: Option<i64>,
}

/// Moving-average convergence/divergence with its signal line.
#[derive(Clone, Copy, Debug)]
pub struct MacdConfig {
    pub enabled: bool,
    pub fast: Option<u32>,
    pub slow: Option<u32>,
    pub signal: Option<u32>,
}

/// Bollinger bands around the closing price.
#[derive(Clone, Copy, Debug)]
pub struct BollingerConfig {
    pub enabled: bool,
    /// Number of bars in the window.
    pub period: Option<u32>,
    /// Distance of each band from the mean, in millionths of a standard
    /// deviation.
    pub std_dev: Option<i64>,
}

/// The configuration of all four indicator kinds.
#[derive(Clone, Copy, Debug)]
pub struct IndicatorConfig {
    pub rsi: RsiConfig,
    pub sma: SmaConfig,
    pub macd: MacdConfig,
    pub bollinger: BollingerConfig,
}

/// A window that can be held in memory: positive, and of no more than
/// `isize::MAX` bytes at eight bytes for each bar.
pub open spec fn window_period(period: u32) -> bool {
    0 < period && period * 8 <= isize::MAX
}

/// A period that an exponential average can smooth over: positive, and with
/// room for its successor in the platform's index type.
pub open spec fn smoothing_period(period: u32) -> bool {
    0 < period && period + 1 <= usize::MAX
}

impl SmaConfig {
    /// The window, or its default.
    pub open spec fn spec_period(&self) -> u32 {
        match self.period {
            Some(p) => p,
            None => DEFAULT_SMA_PERIOD,
        }
    }

    /// The window, or its default of 20.
    #[verifier::when_used_as_spec(spec_period)]
    pub fn period(&self) -> (p: u32)
        ensures
            p == self.spec_period(),
    {
        match self.period {
            Some(p) => p,
            None => DEFAULT_SMA_PERIOD,
        }
    }
}

impl RsiConfig {
    /// The smoothing period, or its default.
    pub open spec fn spec_period(&self) -> u32 {
        match self.period {
            Some(p) => p,
            None => DEFAULT_RSI_PERIOD,
        }
    }

    /// The oversold level, or its default.
    pub open spec fn spec_oversold(&self) -> i64 {
        match self.oversold {
            Some(level) => level,
            None => DEFAULT_RSI_OVERSOLD,
        }
    }

    /// The overbought level, or its default.
    pub open spec fn spec_overbought(&self) -> i64 {
        match self.overbought {
            Some(level) => level,
            None => DEFAULT_RSI_OVERBOUGHT,
        }
    }

    /// The smoothing period, or its default of 14.
    #[verifier::when_used_as_spec(spec_period)]
    pub fn period(&self) -> (p: u32)
        ensures
            p == self.spec_period(),
    {
        match self.period {
            Some(p) => p,
            None => DEFAULT_RSI_PERIOD,
        }
    }

    /// The oversold level, or its default of 30.
    #[verifier::when_used_as_spec(spec_oversold)]
    pub fn oversold(&self) -> (level: i64)
        ensures
            level == self.spec_oversold(),
    {
        match self.oversold {
            Some(level) => level,
            None => DEFAULT_RSI_OVERSOLD,
        }
    }

    /// The overbought level, or its default of 70.
    #[verifier::when_used_as_spec(spec_overbought)]
    pub fn overbought(&self) -> (level: i64)
        ensures
            level == self.spec_overbought(),
    {
        match self.overbought {
            Some(level) => level,
            None => DEFAULT_RSI_OVERBOUGHT,
        }
    }
}

impl MacdConfig {
    /// The fast period, or its default.
    pub open spec fn spec_fast(&self) -> u32 {
        match self.fast {
            Some(p) => p,
            None => DEFAULT_MACD_FAST,
        }
    }

    /// The slow period, or its default.
    pub open spec fn spec_slow(&self) -> u32 {
        match self.slow {
            Some(p) => p,
            None => DEFAULT_MACD_SLOW,
        }
    }

    /// The signal period, or its default.
    pub open spec fn spec_signal(&self) -> u32 {
        match self.signal {
            Some(p) => p,
            None => DEFAULT_MACD_SIGNAL,
        }
    }

    /// The fast period, or its default of 12.
    #[verifier::when_used_as_spec(spec_fast)]
    pub fn fast(&self) -> (p: u32)
        ensures
            p == self.spec_fast(),
    {
        match self.fast {
            Some(p) => p,
            None => DEFAULT_MACD_FAST,
        }
    }

    /// The slow period, or its default of 26.
    #[verifier::when_used_as_spec(spec_slow)]
    pub fn slow(&self) -> (p: u32)
        ensures
            p == self.spec_slow(),
    {
        match self.slow {
            Some(p) => p,
            None => DEFAULT_MACD_SLOW,
        }
    }

    /// The signal period, or its default of 9.
    #[verifier::when_used_as_spec(spec_signal)]
    pub fn signal(&self) -> (p: u32)
        ensures
            p == self.spec_signal(),
    {
        match self.signal {
            Some(p) => p,
            None => DEFAULT_MACD_SIGNAL,
        }
    }
}

impl BollingerConfig {
    /// The window, or its default.
    pub open spec fn spec_period(&self) -> u32 {
        match self.period {
            Some(p) => p,
            None => DEFAULT_BOLLINGER_PERIOD,
        }
    }

    /// The width of the bands, or its default.
    pub open spec fn spec_std_dev(&self) -> i64 {
        match self.std_dev {
            Some(m) => m,
            None => DEFAULT_BOLLINGER_MULTIPLIER,
        }
    }

    /// The window, or its default of 20.
    #[verifier::when_used_as_spec(spec_period)]
    pub fn period(&self) -> (p: u32)
        ensures
            p == self.spec_period(),
    {
        match self.period {
            Some(p) => p,
            None => DEFAULT_BOLLINGER_PERIOD,
        }
    }

    /// The width of the bands, or its default of two standard deviations.
    #[verifier::when_used_as_spec(spec_std_dev)]
    pub fn std_dev(&self) -> (m: i64)
        ensures
            m == self.spec_std_dev(),
    {
        match self.std_dev {
            Some(m) => m,
            None => DEFAULT_BOLLINGER_MULTIPLIER,
        }
    }
}

impl Default for SmaConfig {
    /// Switched off, with every parameter left to its default.
    fn default() -> (config: SmaConfig)
        ensures
            config == (SmaConfig { enabled: false, period: None }),
    {
        SmaConfig { enabled: false, period: None }
    }
}

impl Default for RsiConfig {
    /// Switched off, with every parameter left to its default.
    fn default() -> (config: RsiConfig)
        ensures
            config == (RsiConfig { enabled: false, period: None, overbought: None, oversold: None }),
    {
        RsiConfig { enabled: false, period: None, overbought: None, oversold: None }
    }
}

impl Default for MacdConfig {
    /// Switched off, with every parameter left to its default.
    fn default() -> (config: MacdConfig)
        ensures
            config == (MacdConfig { enabled: false, fast: None, slow: None, signal: None }),
    {
        MacdConfig { enabled: false, fast: None, slow: None, signal: None }
    }
}

impl Default for BollingerConfig {
    /// Switched off, with every parameter left to its default.
    fn default() -> (config: BollingerConfig)
        ensures
            config == (BollingerConfig { enabled: false, period: None, std_dev: None }),
    {
        BollingerConfig { enabled: false, period: None, std_dev: None }
    }
}

impl Default for IndicatorConfig {
    /// Every indicator switched off.
    fn default() -> (config: IndicatorConfig)
        ensures
            config.first_invalid() is None,
            config.no_signal_source(),
            config == (IndicatorConfig {
                rsi: RsiConfig { enabled: false, period: None, overbought: None, oversold: None },
                sma: SmaConfig { enabled: false, period: None },
                macd: MacdConfig { enabled: false, fast: None, slow: None, signal: None },
                bollinger: BollingerConfig { enabled: false, period: None, std_dev: None },
            }),
    {
        IndicatorConfig {
            rsi: RsiConfig { enabled: false, period: None, overbought: None, oversold: None },
            sma: SmaConfig { enabled: false, period: None },
            macd: MacdConfig { enabled: false, fast: None, slow: None, signal: None },
            bollinger: BollingerConfig { enabled: false, period: None, std_dev: None },
        }
    }
}

impl IndicatorConfig {
    /// The first fault of the configuration, in the order in which the units
    /// are built: moving average, convergence/divergence, bands, strength
    /// index. Parameters of an indicator that is switched off are not looked
    /// at.
    pub open spec fn first_invalid(self) -> Option<InvalidParameter> {
        if self.sma.enabled && !window_period(self.sma.spec_period()) {
            Some(InvalidParameter::SmaPeriod)
        } else if self.macd.enabled && !(smoothing_period(self.macd.spec_fast())
            && smoothing_period(self.macd.spec_slow()) && smoothing_period(
            self.macd.spec_signal(),
        )) {
            Some(InvalidParameter::MacdPeriod)
        } else if self.bollinger.enabled && !window_period(self.bollinger.spec_period()) {
            Some(InvalidParameter::BollingerPeriod)
        } else if self.bollinger.enabled && self.bollinger.spec_std_dev() < 0 {
            Some(InvalidParameter::BollingerMultiplier)
        } else if self.rsi.enabled && !smoothing_period(self.rsi.spec_period()) {
            Some(InvalidParameter::RsiPeriod)
        } else {
            None
        }
    }

    /// Whether no indicator that takes part in signals is switched on. The
    /// bands never do.
    pub open spec fn no_signal_source(self) -> bool {
        !self.sma.enabled && !self.rsi.enabled && !self.macd.enabled
    }
}

} // verus!
