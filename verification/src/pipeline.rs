//! The indicator pipeline: the units of one run, and the records that are
//! made of the bars and of what the units reported for them.

use vstd::prelude::*;
use crate::config::{IndicatorConfig, InvalidParameter};
use crate::record::{
    observation_views, record_views, rsi_point_views, BarRecord, BarRecordView, Observation,
    ObservationView, RsiPoint, RsiPointView,
};
use crate::units::IndicatorUnits;

verus! {

/// The record of one bar: its date and close, and the reading of each
/// indicator that `config` switches on. What a unit that is switched off may
/// have left in the readings is dropped.
pub open spec fn record_of(observation: ObservationView, config: IndicatorConfig)
    -> BarRecordView {
    BarRecordView {
        date: observation.bar.date,
        close: observation.bar.close,
        rsi: if config.rsi.enabled {
            Some(observation.readings.rsi)
        } else {
            None
        },
        sma: if config.sma.enabled {
            Some(observation.readings.sma)
        } else {
            None
        },
        macd: if config.macd.enabled {
            Some(observation.readings.macd)
        } else {
            None
        },
        macd_signal: if config.macd.enabled {
            Some(observation.readings.macd_signal)
        } else {
            None
        },
        bb_upper: if config.bollinger.enabled {
            Some(observation.readings.bb_upper)
        } else {
            None
        },
        bb_lower: if config.bollinger.enabled {
            Some(observation.readings.bb_lower)
        } else {
            None
        },
    }
}

/// The records of a series: one for each bar, in the order of the series.
pub open spec fn records_of(series: Seq<ObservationView>, config: IndicatorConfig) -> Seq<
    BarRecordView,
> {
    series.map_values(|o: ObservationView| record_of(o, config))
}

/// The strength index at one bar.
pub open spec fn rsi_point_of(observation: ObservationView) -> RsiPointView {
    RsiPointView { date: observation.bar.date, rsi: observation.readings.rsi }
}

/// The history of the strength index over a series: one point for each bar
/// if the index is switched on, nothing if it is not.
pub open spec fn rsi_history_of(series: Seq<ObservationView>, config: IndicatorConfig) -> Seq<
    RsiPointView,
> {
    if config.rsi.enabled {
        series.map_values(|o: ObservationView| rsi_point_of(o))
    } else {
        Seq::empty()
    }
}

/// Whether a record holds a value for exactly the indicators that `config`
/// switches on.
pub open spec fn fields_follow(record: BarRecordView, config: IndicatorConfig) -> bool {
    &&& record.rsi is Some <==> config.rsi.enabled
    &&& record.sma is Some <==> config.sma.enabled
    &&& record.macd is Some <==> config.macd.enabled
    &&& record.macd_signal is Some <==> config.macd.enabled
    &&& record.bb_upper is Some <==> config.bollinger.enabled
    &&& record.bb_lower is Some <==> config.bollinger.enabled
}

/// Makes the record of one bar.
pub fn make_record(observation: &Observation, config: &IndicatorConfig) -> (record: BarRecord)
    ensures
        record@ == record_of(observation@, *config),
        fields_follow(record@, *config),
{
    let bar = &observation.bar;
    let readings = &observation.readings;
    let made = BarRecord::new(
        bar.date().clone(),
        bar.close(),
        if config.rsi.enabled {
            Some(readings.rsi)
        } else {
            None
        },
        if config.sma.enabled {
            Some(readings.sma)
        } else {
            None
        },
        if config.macd.enabled {
            Some(readings.macd)
        } else {
            None
        },
        if config.macd.enabled {
            Some(readings.macd_signal)
        } else {
            None
        },
        if config.bollinger.enabled {
            Some(readings.bb_upper)
        } else {
            None
        },
        if config.bollinger.enabled {
            Some(readings.bb_lower)
        } else {
            None
        },
    );
    made.unwrap()
}

/// Makes the records of a series: as many as there are bars, in their order,
/// each with a value for exactly the indicators that are switched on.
pub fn process(series: &Vec<Observation>, config: &IndicatorConfig) -> (records: Vec<BarRecord>)
    ensures
        records.len() == series.len(),
        record_views(records@) == records_of(observation_views(series@), *config),
        forall|i: int| 0 <= i < records.len() ==> fields_follow(#[trigger] records[i]@, *config),
{
    let mut records: Vec<BarRecord> = Vec::new();
    let mut i: usize = 0;
    while i < series.len()
        invariant
            i <= series.len(),
            records.len() == i,
            forall|j: int| 0 <= j < i ==> (#[trigger] records[j])@ == record_of(series[j]@, *config),
        decreases series.len() - i,
    {
        records.push(make_record(&series[i], config));
        i += 1;
    }
    assert(record_views(records@) =~= records_of(observation_views(series@), *config));
    records
}

/// Makes the history of the strength index over a series.
pub fn rsi_history(series: &Vec<Observation>, config: &IndicatorConfig) -> (history: Vec<
    RsiPoint,
>)
    ensures
        rsi_point_views(history@) == rsi_history_of(observation_views(series@), *config),
        config.rsi.enabled ==> history.len() == series.len(),
        !config.rsi.enabled ==> history.len() == 0,
{
    let mut history: Vec<RsiPoint> = Vec::new();
    if config.rsi.enabled {
        let mut i: usize = 0;
        while i < series.len()
            invariant
                i <= series.len(),
                history.len() == i,
                forall|j: int|
                    0 <= j < i ==> (#[trigger] history[j])@ == rsi_point_of(series[j]@),
            decreases series.len() - i,
        {
            let observation = &series[i];
            history.push(
                RsiPoint { date: observation.bar.date().clone(), rsi: observation.readings.rsi },
            );
            i += 1;
        }
    }
    assert(rsi_point_views(history@) =~= rsi_history_of(observation_views(series@), *config));
    history
}

/// The pipeline of one run: a configuration that was found free of faults,
/// and the units that were built from it.
#[derive(Debug)]
pub struct Pipeline {
    config: IndicatorConfig,
    units: IndicatorUnits,
}

impl Pipeline {
    /// The configuration that the pipeline was built from.
    pub closed spec fn spec_config(&self) -> IndicatorConfig {
        self.config
    }

    /// The units that the pipeline owns.
    pub closed spec fn spec_units(&self) -> IndicatorUnits {
        self.units
    }

    /// Builds the pipeline and its units, or reports the first fault of
    /// `config`. Nothing is built for an indicator that is switched off.
    pub fn new(config: IndicatorConfig) -> (pipeline: Result<Pipeline, InvalidParameter>)
        ensures
            pipeline is Ok <==> config.first_invalid() is None,
            pipeline matches Ok(p) ==> p.spec_config() == config && p.spec_units().built_for(config),
            pipeline matches Err(e) ==> config.first_invalid() == Some(e),
    {
        match IndicatorUnits::build(&config) {
            Ok(units) => Ok(Pipeline { config, units }),
            Err(fault) => Err(fault),
        }
    }

    /// The configuration that the pipeline was built from.
    #[verifier::when_used_as_spec(spec_config)]
    pub fn config(&self) -> (config: IndicatorConfig)
        ensures
            config == self.spec_config(),
    {
        self.config
    }

    /// The units, for the caller to advance by one close per bar.
    pub fn units_mut(&mut self) -> (units: &mut IndicatorUnits)
        ensures
            *units == old(self).spec_units(),
            final(self).spec_units() == *final(units),
            final(self).spec_config() == old(self).spec_config(),
    {
        &mut self.units
    }

    /// Makes the records of a series under the pipeline's configuration.
    pub fn process(&self, series: &Vec<Observation>) -> (records: Vec<BarRecord>)
        ensures
            records.len() == series.len(),
            record_views(records@) == records_of(observation_views(series@), self.spec_config()),
            forall|i: int|
                0 <= i < records.len() ==> fields_follow(
                    #[trigger] records[i]@,
                    self.spec_config(),
                ),
    {
        process(series, &self.config)
    }
}

} // verus!
