use foreci::dashboard::App;
use foreci::telemetry::{jitter, scaled_rate, JitterDraws, NetData, Sample};

fn sample(cpu: u64, mem: u64, rx: u64, tx: u64) -> Sample {
    Sample { cpu_hundredths: cpu, mem_hundredths: mem, net_rx: rx, net_tx: tx }
}

fn draws(v: u64) -> JitterDraws {
    JitterDraws { cpu: v, mem: v, rx: v, tx: v }
}

#[test]
fn first_sample_is_baseline_second_adds_one_point() {
    let mut app = App::new();
    let args = app.start_analytics_stream("abc").expect("stream starts");
    assert_eq!(args, vec!["stream".to_string(), "abc".to_string()]);
    assert_eq!(app.net_data.len(), 20);
    assert!(app.poll_analytics_with(&vec![sample(1234, 500, 1000, 2000)], 10, draws(0)));
    assert_eq!(app.net_data.len(), 20);
    assert!(app.poll_analytics_with(&vec![sample(1234, 500, 1500, 12000)], 20, draws(0)));
    assert_eq!(app.net_data.len(), 21);
    assert_eq!(app.net_data.last(), Some(NetData { net_rx: 5, net_tx: 100 }));
    assert_eq!(app.cpu_data_as_slice().last(), Some(&1234));
    assert_eq!(app.mem_data_as_slice().last(), Some(&500));
}

#[test]
fn counter_that_goes_back_counts_as_zero() {
    let mut app = App::new();
    app.start_analytics_stream("abc");
    app.poll_analytics_with(&vec![sample(1, 1, 90000, 90000), sample(1, 1, 10, 91234)], 10, draws(0));
    assert_eq!(app.net_data.last(), Some(NetData { net_rx: 5, net_tx: 12 }));
}

#[test]
fn zero_readings_are_floored_to_one() {
    let mut app = App::new();
    app.start_analytics_stream("abc");
    app.poll_analytics_with(&vec![sample(0, 0, 0, 0)], 10, draws(0));
    assert_eq!(app.cpu_data_as_slice().last(), Some(&1));
    assert_eq!(app.mem_data_as_slice().last(), Some(&1));
}

#[test]
fn second_start_keeps_stream_and_charts() {
    let mut app = App::new();
    assert!(app.start_analytics_stream("abc").is_some());
    app.poll_analytics_with(&vec![sample(777, 888, 1, 1)], 10, draws(0));
    let cpu = app.cpu_data_as_slice();
    let mem = app.mem_data_as_slice();
    assert!(app.start_analytics_stream("abc").is_none());
    assert!(app.analytics_active);
    assert_eq!(app.cpu_data_as_slice(), cpu);
    assert_eq!(app.mem_data_as_slice(), mem);
    assert_eq!(app.net_baseline, Some((1, 1)));
}

#[test]
fn start_seeds_twenty_points() {
    let mut app = App::new();
    app.start_analytics_stream("abc");
    assert_eq!(app.cpu_data_as_slice(), vec![5u64; 20]);
    assert_eq!(app.mem_data_as_slice(), vec![10u64; 20]);
    assert_eq!(app.net_data.snapshot(), vec![NetData { net_rx: 5, net_tx: 5 }; 20]);
    assert_eq!(app.net_baseline, None);
}

#[test]
fn scaled_rate_values() {
    assert_eq!(scaled_rate(0, 0), 5);
    assert_eq!(scaled_rate(100, 50), 5);
    assert_eq!(scaled_rate(0, 499), 5);
    assert_eq!(scaled_rate(0, 600), 6);
    assert_eq!(scaled_rate(1000, 101000), 1000);
}

#[test]
fn jitter_exact_values() {
    assert_eq!(jitter(100, 0, 10, 1), 90);
    assert_eq!(jitter(100, 10, 10, 1), 100);
    assert_eq!(jitter(100, 20, 10, 1), 110);
    assert_eq!(jitter(100, 21, 10, 1), 90);
    assert_eq!(jitter(1000, 3, 5, 1), 980);
    assert_eq!(jitter(7, 0, 20, 5), 6);
    assert_eq!(jitter(5, 0, 20, 5), 5);
    assert_eq!(jitter(u64::MAX, 40, 20, 5), u64::MAX);
}

#[test]
fn synthesized_values_never_fall_below_floor() {
    for last in 1..40u64 {
        for draw in 0..50u64 {
            assert!(jitter(last, draw, 10, 1) >= 1);
            assert!(jitter(last, draw, 5, 1) >= 1);
            assert!(jitter(last, draw, 20, 5) >= 5);
        }
    }
    let mut app = App::new();
    app.start_analytics_stream("abc");
    for step in 1..40u64 {
        app.poll_analytics(&vec![], step * 1000);
        assert!(*app.cpu_data_as_slice().last().unwrap() >= 1);
        assert!(*app.mem_data_as_slice().last().unwrap() >= 1);
        let n = app.net_data.last().unwrap();
        assert!(n.net_rx >= 5 && n.net_tx >= 5);
    }
}

#[test]
fn heartbeat_waits_for_silence() {
    let mut app = App::new();
    app.start_analytics_stream("abc");
    assert!(!app.poll_analytics_with(&vec![], 499, draws(40)));
    assert_eq!(app.cpu_data.len(), 20);
    assert!(!app.poll_analytics_with(&vec![], 500, draws(40)));
    assert_eq!(app.cpu_data.len(), 21);
    assert_eq!(app.last_heartbeat_ms, 500);
    app.poll_analytics_with(&vec![], 900, draws(40));
    assert_eq!(app.cpu_data.len(), 21);
    assert_eq!(app.net_data.last(), Some(NetData { net_rx: 6, net_tx: 6 }));
}

#[test]
fn heartbeat_needs_data() {
    let mut app = App::new();
    app.poll_analytics_with(&vec![], 5000, draws(3));
    assert!(app.cpu_data.is_empty());
    assert!(app.net_data.is_empty());
}

#[test]
fn cpu_chart_holds_at_most_one_hundred_twenty_points() {
    let mut app = App::new();
    for v in 0..200u64 {
        app.cpu_push_data(v);
        app.mem_push_data(v);
    }
    let cpu = app.cpu_data_as_slice();
    assert_eq!(cpu.len(), 120);
    assert_eq!(cpu[0], 80);
    assert_eq!(app.mem_data_as_slice().len(), 120);
}

#[test]
fn chart_scroll_steps_after_interval() {
    let mut app = App::new();
    app.update_cpu_scroll(1000);
    assert_eq!(app.scroll_offset, 0);
    app.cpu_push_data(1);
    app.cpu_push_data(2);
    app.update_cpu_scroll(100);
    assert_eq!(app.scroll_offset, 0);
    app.update_cpu_scroll(101);
    assert_eq!(app.scroll_offset, 1);
    app.update_cpu_scroll(300);
    assert_eq!(app.scroll_offset, 0);
}

#[test]
fn poll_without_due_heartbeat_changes_nothing() {
    let mut app = App::new();
    app.start_analytics_stream("abc");
    let before = app.cpu_data_as_slice();
    assert!(!app.poll_analytics(&vec![], 100));
    assert_eq!(app.cpu_data_as_slice(), before);
    assert!(app.poll_analytics(&vec![sample(42, 43, 0, 0)], 200));
    assert_eq!(app.cpu_data_as_slice().last(), Some(&42));
    assert_eq!(app.last_heartbeat_ms, 200);
}
