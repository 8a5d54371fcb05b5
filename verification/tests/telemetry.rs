use pc_simulator::telemetry::{Series, TerminalChart};

const ALL: [Series; 7] = [
    Series::TargetPos,
    Series::TruePos,
    Series::NoisyPos,
    Series::CleanPos,
    Series::TargetAngle,
    Series::TrueAngle,
    Series::CleanAngle,
];

fn tick(chart: &mut TerminalChart<f32>, t: f32) {
    chart.record(t, 75.0, t * 10.0, t * 10.0 + 1.0, t * 10.0 - 1.0, 0.0, t, t / 2.0);
}

#[test]
fn new_chart_is_empty() {
    let chart: TerminalChart<f32> = TerminalChart::new(100);
    assert_eq!(chart.max_points(), 100);
    assert_eq!(chart.len(), 0);
    assert_eq!(chart.window_start(), None);
    for s in ALL {
        assert!(chart.series(s).is_empty());
    }
}

#[test]
fn record_keeps_every_sample_below_capacity() {
    let mut chart = TerminalChart::new(5);
    tick(&mut chart, 0.01);
    tick(&mut chart, 0.02);
    tick(&mut chart, 0.03);
    assert_eq!(chart.len(), 3);
    assert_eq!(chart.window_start(), Some(0.01));
    assert_eq!(chart.series(Series::TargetPos), vec![(0.01, 75.0), (0.02, 75.0), (0.03, 75.0)]);
    assert_eq!(chart.series(Series::TrueAngle), vec![(0.01, 0.01), (0.02, 0.02), (0.03, 0.03)]);
}

#[test]
fn record_drops_the_oldest_sample_once_full() {
    let mut chart = TerminalChart::new(2);
    tick(&mut chart, 1.0);
    tick(&mut chart, 2.0);
    tick(&mut chart, 3.0);
    assert_eq!(chart.len(), 2);
    assert_eq!(chart.window_start(), Some(2.0));
    assert_eq!(chart.series(Series::TruePos), vec![(2.0, 20.0), (3.0, 30.0)]);
    assert_eq!(chart.series(Series::NoisyPos), vec![(2.0, 21.0), (3.0, 31.0)]);
    assert_eq!(chart.series(Series::CleanPos), vec![(2.0, 19.0), (3.0, 29.0)]);
    assert_eq!(chart.series(Series::TargetAngle), vec![(2.0, 0.0), (3.0, 0.0)]);
    assert_eq!(chart.series(Series::CleanAngle), vec![(2.0, 1.0), (3.0, 1.5)]);
}

#[test]
fn traces_stay_in_lockstep_and_show_the_last_window() {
    let mut chart = TerminalChart::new(4);
    for i in 0..10 {
        tick(&mut chart, i as f32);
        for s in ALL {
            assert_eq!(chart.series(s).len(), chart.len());
        }
        assert!(chart.len() <= 4);
    }
    let times: Vec<f32> = chart.series(Series::TruePos).iter().map(|p| p.0).collect();
    assert_eq!(times, vec![6.0, 7.0, 8.0, 9.0]);
    assert_eq!(chart.window_start(), Some(6.0));
}

#[test]
fn window_of_size_zero_holds_nothing() {
    let mut chart = TerminalChart::new(0);
    tick(&mut chart, 1.0);
    assert_eq!(chart.len(), 0);
    assert_eq!(chart.window_start(), None);
}

#[test]
fn window_of_size_one_holds_the_latest_tick() {
    let mut chart = TerminalChart::new(1);
    tick(&mut chart, 1.0);
    tick(&mut chart, 2.0);
    assert_eq!(chart.series(Series::TruePos), vec![(2.0, 20.0)]);
    assert_eq!(chart.window_start(), Some(2.0));
}

#[test]
fn chart_works_for_integer_samples() {
    let mut chart: TerminalChart<u32> = TerminalChart::new(3);
    for t in 0..5u32 {
        chart.record(t, 1, 2, 3, 4, 5, 6, 7);
    }
    assert_eq!(chart.series(Series::CleanAngle), vec![(2, 7), (3, 7), (4, 7)]);
}
