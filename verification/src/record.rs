//! The data that flows through a run: price bars coming in, one record per
//! bar and the result going out.

use vstd::prelude::*;

verus! {

/// What a [`PriceBar`] is, as plain values.
pub struct PriceBarView {
    pub date: Seq<char>,
    pub open: i64,
    pub high: i64,
    pub low: i64,
    pub close: i64,
    pub volume: i64,
}

/// One bar of the price series. Its closing price is positive; nothing but
/// the date and the close is read by a run.
#[derive(Debug)]
pub struct PriceBar {
    date: String,
    open: i64,
    high: i64,
    low: i64,
    close: i64,
    volume: i64,
}

impl View for PriceBar {
    type V = PriceBarView;

    closed spec fn view(&self) -> PriceBarView {
        PriceBarView {
            date: self.date@,
            open: self.open,
            high: self.high,
            low: self.low,
            close: self.close,
            volume: self.volume,
        }
    }
}

impl PriceBar {
    #[verifier::type_invariant]
    spec fn priced(self) -> bool {
        self.close > 0
    }

    /// A bar of these values, unless the closing price is zero or negative.
    pub fn new(date: String, open: i64, high: i64, low: i64, close: i64, volume: i64) -> (bar:
        Option<PriceBar>)
        ensures
            bar is Some <==> close > 0,
            bar matches Some(b) ==> b@ == (PriceBarView {
                date: date@,
                open,
                high,
                low,
                close,
                volume,
            }),
    {
        if close > 0 {
            Some(PriceBar { date, open, high, low, close, volume })
        } else {
            None
        }
    }

    pub fn date(&self) -> (date: &String)
        ensures
            date@ == self@.date,
    {
        &self.date
    }

    pub fn open(&self) -> (open: i64)
        ensures
            open == self@.open,
    {
        self.open
    }

    pub fn high(&self) -> (high: i64)
        ensures
            high == self@.high,
    {
        self.high
    }

    pub fn low(&self) -> (low: i64)
        ensures
            low == self@.low,
    {
        self.low
    }

    /// The closing price, which is positive.
    pub fn close(&self) -> (close: i64)
        ensures
            close == self@.close,
            close > 0,
    {
        proof {
            use_type_invariant(self);
        }
        self.close
    }

    pub fn volume(&self) -> (volume: i64)
        ensures
            volume == self@.volume,
    {
        self.volume
    }
}

impl Clone for PriceBar {
    fn clone(&self) -> (copy: Self)
        ensures
            copy@ == self@,
    {
        proof {
            use_type_invariant(self);
        }
        PriceBar {
            date: self.date.clone(),
            open: self.open,
            high: self.high,
            low: self.low,
            close: self.close,
            volume: self.volume,
        }
    }
}

/// What the indicator units reported for one bar, in millionths. A field that
/// belongs to a unit that is switched off is never read.
#[derive(Clone, Copy, Debug)]
pub struct Readings {
    pub rsi: i64,
    pub sma: i64,
    pub macd: i64,
    pub macd_signal: i64,
    pub bb_upper: i64,
    pub bb_lower: i64,
}

/// What an [`Observation`] is, as plain values.
pub struct ObservationView {
    pub bar: PriceBarView,
    pub readings: Readings,
}

/// One bar of the series together with what the units reported for it.
#[derive(Debug)]
pub struct Observation {
    pub bar: PriceBar,
    pub readings: Readings,
}

impl View for Observation {
    type V = ObservationView;

    open spec fn view(&self) -> ObservationView {
        ObservationView { bar: self.bar@, readings: self.readings }
    }
}

/// The series as plain values, bar by bar.
pub open spec fn observation_views(series: Seq<Observation>) -> Seq<ObservationView> {
    series.map_values(|o: Observation| o@)
}

/// What a [`BarRecord`] is, as plain values.
pub struct BarRecordView {
    pub date: Seq<char>,
    pub close: i64,
    pub rsi: Option<i64>,
    pub sma: Option<i64>,
    pub macd: Option<i64>,
    pub macd_signal: Option<i64>,
    pub bb_upper: Option<i64>,
    pub bb_lower: Option<i64>,
}

/// What a run keeps of one bar: its date, its positive closing price, and the
/// value of each indicator that was switched on.
#[derive(Debug)]
pub struct BarRecord {
    date: String,
    close: i64,
    rsi: Option<i64>,
    sma: Option<i64>,
    macd: Option<i64>,
    macd_signal: Option<i64>,
    bb_upper: Option<i64>,
    bb_lower: Option<i64>,
}

impl View for BarRecord {
    type V = BarRecordView;

    closed spec fn view(&self) -> BarRecordView {
        BarRecordView {
            date: self.date@,
            close: self.close,
            rsi: self.rsi,
            sma: self.sma,
            macd: self.macd,
            macd_signal: self.macd_signal,
            bb_upper: self.bb_upper,
            bb_lower: self.bb_lower,
        }
    }
}

impl BarRecord {
    #[verifier::type_invariant]
    spec fn priced(self) -> bool {
        self.close > 0
    }

    /// A record of these values, unless the closing price is zero or
    /// negative.
    pub fn new(
        date: String,
        close: i64,
        rsi: Option<i64>,
        sma: Option<i64>,
        macd: Option<i64>,
        macd_signal: Option<i64>,
        bb_upper: Option<i64>,
        bb_lower: Option<i64>,
    ) -> (record: Option<BarRecord>)
        ensures
            record is Some <==> close > 0,
            record matches Some(r) ==> r@ == (BarRecordView {
                date: date@,
                close,
                rsi,
                sma,
                macd,
                macd_signal,
                bb_upper,
                bb_lower,
            }),
    {
        if close > 0 {
            Some(BarRecord { date, close, rsi, sma, macd, macd_signal, bb_upper, bb_lower })
        } else {
            None
        }
    }

    pub fn date(&self) -> (date: &String)
        ensures
            date@ == self@.date,
    {
        &self.date
    }

    /// The closing price, which is positive.
    pub fn close(&self) -> (close: i64)
        ensures
            close == self@.close,
            close > 0,
    {
        proof {
            use_type_invariant(self);
        }
        self.close
    }

    pub fn rsi(&self) -> (rsi: Option<i64>)
        ensures
            rsi == self@.rsi,
    {
        self.rsi
    }

    pub fn sma(&self) -> (sma: Option<i64>)
        ensures
            sma == self@.sma,
    {
        self.sma
    }

    pub fn macd(&self) -> (macd: Option<i64>)
        ensures
            macd == self@.macd,
    {
        self.macd
    }

    pub fn macd_signal(&self) -> (macd_signal: Option<i64>)
        ensures
            macd_signal == self@.macd_signal,
    {
        self.macd_signal
    }

    pub fn bb_upper(&self) -> (bb_upper: Option<i64>)
        ensures
            bb_upper == self@.bb_upper,
    {
        self.bb_upper
    }

    pub fn bb_lower(&self) -> (bb_lower: Option<i64>)
        ensures
            bb_lower == self@.bb_lower,
    {
        self.bb_lower
    }
}

impl Clone for BarRecord {
    fn clone(&self) -> (copy: Self)
        ensures
            copy@ == self@,
    {
        proof {
            use_type_invariant(self);
        }
        BarRecord {
            date: self.date.clone(),
            close: self.close,
            rsi: self.rsi,
            sma: self.sma,
            macd: self.macd,
            macd_signal: self.macd_signal,
            bb_upper: self.bb_upper,
            bb_lower: self.bb_lower,
        }
    }
}

/// The records as plain values, bar by bar.
pub open spec fn record_views(records: Seq<BarRecord>) -> Seq<BarRecordView> {
    records.map_values(|r: BarRecord| r@)
}

/// What an [`RsiPoint`] is, as plain values.
pub struct RsiPointView {
    pub date: Seq<char>,
    pub rsi: i64,
}

/// The strength index at one bar.
#[derive(Debug)]
pub struct RsiPoint {
    pub date: String,
    pub rsi: i64,
}

impl View for RsiPoint {
    type V = RsiPointView;

    open spec fn view(&self) -> RsiPointView {
        RsiPointView { date: self.date@, rsi: self.rsi }
    }
}

/// The history as plain values, bar by bar.
pub open spec fn rsi_point_views(history: Seq<RsiPoint>) -> Seq<RsiPointView> {
    history.map_values(|p: RsiPoint| p@)
}

/// What a [`RunResult`] is, as plain values.
pub struct RunResultView {
    pub roi: int,
    pub rsi_history: Seq<RsiPointView>,
    pub records: Seq<BarRecordView>,
}

/// What a run reports.
#[derive(Debug)]
pub struct RunResult {
    /// The final balance less one, in billionths: 50_000_000 is a gain of 5%.
    pub roi: i64,
    /// The strength index bar by bar; empty when it is switched off.
    pub rsi_history: Vec<RsiPoint>,
    /// One record per bar, in the order of the series.
    pub records: Vec<BarRecord>,
}

impl View for RunResult {
    type V = RunResultView;

    open spec fn view(&self) -> RunResultView {
        RunResultView {
            roi: self.roi as int,
            rsi_history: rsi_point_views(self.rsi_history@),
            records: record_views(self.records@),
        }
    }
}

} // verus!
