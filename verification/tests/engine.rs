use accel_core::conf::{Config, HPF_CORNER, ODR_LPF, Range};
use accel_core::driver::Adxl355;
use accel_core::engine::{Engine, SampleOutcome};
use accel_core::fanout::{FanoutChannel, PollOutcome};
use accel_core::sim::SimBus;

fn engine_1000hz(index: u32, sample: (i32, i32, i32)) -> Engine<SimBus> {
    let cfg = Config::new()
        .odr(ODR_LPF::ODR_1000_Hz)
        .hpf(HPF_CORNER::_0_0238_ODR)
        .range(Range::_2G);
    let bus = SimBus::new(sample);
    let mut dev = Adxl355::new(bus, &cfg).unwrap();
    dev.start().unwrap();
    Engine::new(dev, index)
}

#[test]
fn thousand_hertz_for_a_second_reports_a_thousand_hertz() {
    // A device at a 1000 Hz nominal rate over a simulated bus that answers
    // a fixed raw triple: after triggers spaced 1000 us apart, the rate
    // tracker reports about 1000 Hz exactly once per elapsed second.
    let mut engine = engine_1000hz(0, (1000, -1000, 524287));
    let mut chan = FanoutChannel::new(100);
    let mut sub = chan.subscribe();
    let mut reports = Vec::new();
    let mut readings = Vec::new();
    let mut t: u64 = 0;
    while t <= 3_000_000 {
        let out = engine.on_trigger(t, &mut chan);
        match out.sample {
            SampleOutcome::Published(_) => {}
            other => panic!("expected a published reading, got {other:?}"),
        }
        if let Some(rep) = out.rate_report {
            reports.push((t, rep));
        }
        while let PollOutcome::Data(r) = sub.poll(&chan) {
            readings.push(r);
        }
        t += 1000;
    }

    assert_eq!(reports.len(), 3);
    for (when, rep) in &reports {
        assert_eq!(when % 1_000_000, 0);
        let hz = rep.count as f32 / (rep.elapsed_micros as f32 / 1_000_000.0);
        assert!((hz - 1000.0).abs() <= 1.5, "observed {hz} Hz");
    }

    assert_eq!(readings.len(), 3001);
    assert_eq!(readings[0].gap, 0);
    for r in &readings[1..] {
        assert_eq!(r.gap, 1000);
    }
    // The fixed raw triple normalizes under the +-2g range on every reading.
    for r in &readings {
        assert_eq!((r.x.num, r.x.den), (2000, 524287));
        assert_eq!((r.y.num, r.y.den), (-2000, 524287));
        assert_eq!(r.z.num as f32 / r.z.den as f32, 2.0);
        assert_eq!(r.idx, 0);
    }
}

#[test]
fn two_devices_never_share_gap_history() {
    // Two simulated devices with independent, deterministic clocks publish
    // into one channel; each device's gaps come only from its own history.
    let mut e0 = engine_1000hz(0, (10, 10, 10));
    let mut e1 = engine_1000hz(1, (20, 20, 20));
    let mut chan = FanoutChannel::new(1000);
    let mut sub = chan.subscribe();

    // Device 0 triggers every 1000 us from 0; device 1 every 700 us from 350.
    let mut events: Vec<(u64, u32)> = Vec::new();
    for i in 0..200u64 {
        events.push((i * 1000, 0));
        events.push((350 + i * 700, 1));
    }
    events.sort();
    for &(t, dev) in &events {
        if dev == 0 {
            e0.on_trigger(t, &mut chan);
        } else {
            e1.on_trigger(t, &mut chan);
        }
    }

    let mut first = [true, true];
    while let PollOutcome::Data(r) = sub.poll(&chan) {
        let idx = r.idx as usize;
        if first[idx] {
            assert_eq!(r.gap, 0, "first reading of device {idx}");
            first[idx] = false;
        } else if idx == 0 {
            assert_eq!(r.gap, 1000);
        } else {
            assert_eq!(r.gap, 700);
        }
    }
    assert!(!first[0] && !first[1]);
}

#[test]
fn nothing_is_published_with_zero_subscribers() {
    let mut engine = engine_1000hz(0, (1, 2, 3));
    let mut chan = FanoutChannel::new(10);
    let out = engine.on_trigger(1000, &mut chan);
    match out.sample {
        SampleOutcome::NoSubscribers(r) => assert_eq!(r.gap, 0),
        other => panic!("expected a dropped reading, got {other:?}"),
    }
    // A later subscriber starts clean: the dropped reading was never queued.
    let mut sub = chan.subscribe();
    assert_eq!(sub.poll(&chan), PollOutcome::Empty);
}

#[test]
fn failed_read_drops_the_sample_and_keeps_going() {
    let mut engine = engine_1000hz(0, (5, 5, 5));
    let mut chan = FanoutChannel::new(10);
    let mut sub = chan.subscribe();

    let out = engine.on_trigger(1000, &mut chan);
    assert!(matches!(out.sample, SampleOutcome::Published(_)));

    engine.device.spi.fail = true;
    let out = engine.on_trigger(2000, &mut chan);
    assert!(matches!(out.sample, SampleOutcome::ReadFailed));

    engine.device.spi.fail = false;
    let out = engine.on_trigger(3500, &mut chan);
    assert!(matches!(out.sample, SampleOutcome::Published(_)));

    // The subscriber sees the two successful readings only; the trigger of
    // the failed read still advanced the timestamp slot, so the gap after
    // recovery is measured from that trigger.
    assert!(matches!(sub.poll(&chan), PollOutcome::Data(r) if r.gap == 0));
    assert!(matches!(sub.poll(&chan), PollOutcome::Data(r) if r.gap == 1500));
    assert_eq!(sub.poll(&chan), PollOutcome::Empty);
}

#[test]
fn first_reading_after_initialization_reports_gap_zero() {
    let mut engine = engine_1000hz(3, (0, 0, 0));
    let mut chan = FanoutChannel::new(4);
    let mut sub = chan.subscribe();
    engine.on_trigger(987654, &mut chan);
    match sub.poll(&chan) {
        PollOutcome::Data(r) => {
            assert_eq!(r.idx, 3);
            assert_eq!(r.gap, 0);
        }
        other => panic!("expected a reading, got {other:?}"),
    }
}
