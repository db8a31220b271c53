use backtester::{run, IndicatorConfig, LogicMode, Observation, Pipeline, PriceBar, Readings};
use ta::indicators::{
    MovingAverageConvergenceDivergence, RelativeStrengthIndex, SimpleMovingAverage,
};
use ta::Next;

const CLOSES: [f64; 12] =
    [100.0, 101.5, 99.25, 98.0, 102.75, 104.0, 103.5, 97.0, 96.5, 99.0, 105.25, 106.0];

fn fixed(value: f64) -> i64 {
    (value * 1_000_000.0).round() as i64
}

fn bar(index: usize, close: f64) -> PriceBar {
    PriceBar::new(format!("bar-{}", index), fixed(close), fixed(close), fixed(close), fixed(close), 0)
        .unwrap()
}

fn blank() -> Readings {
    Readings { rsi: 0, sma: 0, macd: 0, macd_signal: 0, bb_upper: 0, bb_lower: 0 }
}

#[test]
fn moving_average_matches_the_mean_of_its_window() {
    let period = 4;
    let mut config = IndicatorConfig::default();
    config.sma.enabled = true;
    config.sma.period = Some(period as u32);
    let mut pipeline = Pipeline::new(config).unwrap();

    let mut series = Vec::new();
    let mut reported = Vec::new();
    for (i, close) in CLOSES.iter().enumerate() {
        let value = pipeline.units_mut().sma.as_mut().unwrap().state.next(*close);
        reported.push(value);
        series.push(Observation { bar: bar(i, *close), readings: Readings { sma: fixed(value), ..blank() } });
    }
    let result = run(&pipeline, &series, LogicMode::RequireAll, 50_000_000, 50_000_000);

    for i in 0..CLOSES.len() {
        let start = if i + 1 > period { i + 1 - period } else { 0 };
        let window = &CLOSES[start..=i];
        let mean = window.iter().sum::<f64>() / window.len() as f64;
        assert!((reported[i] - mean).abs() < 1e-9);

        let mut fresh = SimpleMovingAverage::new(period).unwrap();
        let mut last = 0.0;
        for close in window {
            last = fresh.next(*close);
        }
        assert!((reported[i] - last).abs() < 1e-9);
        assert!((result.records[i].sma().unwrap() - fixed(mean)).abs() <= 1);
    }
}

#[test]
fn strength_index_matches_a_fresh_unit_fed_the_same_bars() {
    let mut config = IndicatorConfig::default();
    config.rsi.enabled = true;
    config.rsi.period = Some(5);
    let mut pipeline = Pipeline::new(config).unwrap();

    let mut series = Vec::new();
    let mut reported = Vec::new();
    for (i, close) in CLOSES.iter().enumerate() {
        let value = pipeline.units_mut().rsi.as_mut().unwrap().state.next(*close);
        reported.push(value);
        series.push(Observation { bar: bar(i, *close), readings: Readings { rsi: fixed(value), ..blank() } });
    }
    let result = run(&pipeline, &series, LogicMode::RequireAll, 50_000_000, 50_000_000);
    assert_eq!(result.rsi_history.len(), CLOSES.len());

    for i in 0..CLOSES.len() {
        let mut fresh = RelativeStrengthIndex::new(5).unwrap();
        let mut last = 0.0;
        for close in &CLOSES[..=i] {
            last = fresh.next(*close);
        }
        assert!((reported[i] - last).abs() < 1e-9);
        assert!((0.0..=100.0).contains(&reported[i]));
        assert_eq!(result.records[i].rsi(), Some(fixed(last)));
        assert_eq!(result.rsi_history[i].rsi, fixed(last));
        assert_eq!(result.rsi_history[i].date, format!("bar-{}", i));
    }
}

#[test]
fn convergence_divergence_matches_a_fresh_unit_fed_the_same_bars() {
    let mut config = IndicatorConfig::default();
    config.macd.enabled = true;
    config.macd.fast = Some(3);
    config.macd.slow = Some(6);
    config.macd.signal = Some(4);
    let mut pipeline = Pipeline::new(config).unwrap();

    let mut series = Vec::new();
    let mut reported = Vec::new();
    for (i, close) in CLOSES.iter().enumerate() {
        let out = pipeline.units_mut().macd.as_mut().unwrap().state.next(*close);
        series.push(Observation {
            bar: bar(i, *close),
            readings: Readings { macd: fixed(out.macd), macd_signal: fixed(out.signal), ..blank() },
        });
        reported.push(out);
    }
    let result = run(&pipeline, &series, LogicMode::RequireAll, 50_000_000, 50_000_000);

    for i in 0..CLOSES.len() {
        let mut fresh = MovingAverageConvergenceDivergence::new(3, 6, 4).unwrap();
        let mut last = fresh.next(CLOSES[0]);
        for close in &CLOSES[1..=i] {
            last = fresh.next(*close);
        }
        assert!((reported[i].macd - last.macd).abs() < 1e-9);
        assert!((reported[i].signal - last.signal).abs() < 1e-9);
        assert_eq!(result.records[i].macd(), Some(fixed(last.macd)));
        assert_eq!(result.records[i].macd_signal(), Some(fixed(last.signal)));
    }
}
