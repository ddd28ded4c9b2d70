//! The acquisition engine: per-device state and the trigger step that turns
//! one data-ready event or poll tick into at most one published reading.
//! The engine owns its device's sensor handle, timestamp slot and rate
//! tracker outright, so triggers for one device can never touch another
//! device's state; whoever drives it supplies the instant of each trigger.

use vstd::prelude::*;

use crate::data::Reading;
use crate::driver::{Adxl355, SpiTransport};
use crate::fanout::FanoutChannel;
use crate::timing;
use crate::timing::{RateReport, RateWindow, TimestampSlot};

verus! {

/// What one trigger did with its sample.
#[derive(Clone, Copy, Debug, PartialEq, Eq, Structural)]
pub enum SampleOutcome {
    /// The sample was read and the reading handed to the fan-out.
    Published(Reading),
    /// The sample was read, but nobody is subscribed: publishing with zero
    /// subscribers would only grow an undrained buffer, so the reading was
    /// deliberately dropped.
    NoSubscribers(Reading),
    /// The bus transaction failed: the sample is dropped and the engine
    /// simply waits for the next trigger — never a retry, never fatal.
    ReadFailed,
}

/// Everything one trigger produced: the sample's fate and, at most once per
/// elapsed second, a rate report for diagnostics.
#[derive(Clone, Copy, Debug, PartialEq, Eq, Structural)]
pub struct TriggerOutcome {
    /// The sample's fate.
    pub sample: SampleOutcome,
    /// The diagnostic report, when this trigger closed a rate window.
    pub rate_report: Option<RateReport>,
}

/// The acquisition engine for one device: the sensor handle, the timestamp
/// slot behind the gap computation, and the rate tracker. One engine exists
/// per configured device; edge-triggered and fixed-period deployments both
/// drive it through [`Engine::on_trigger`].
pub struct Engine<SPI> {
    /// The exclusively owned sensor handle.
    pub device: Adxl355<SPI>,
    /// Index of this device in the deployment's configuration.
    pub index: u32,
    /// Timestamp of the previous trigger, exchanged on every trigger.
    pub slot: TimestampSlot,
    /// Windowed counter behind the observed-rate diagnostic.
    pub rate: RateWindow,
}

impl<SPI: SpiTransport> Engine<SPI> {
    /// Readies a freshly initialized device for steady-state triggering:
    /// no previous timestamp, so the first reading will report a gap of
    /// zero, and an empty rate window.
    pub fn new(device: Adxl355<SPI>, index: u32) -> (e: Engine<SPI>)
        ensures
            e.device.odr == device.odr,
            e.device.hpf == device.hpf,
            e.device.range == device.range,
            e.index == index,
            e.slot.stamp is None,
            e.rate.window_start is None,
            e.rate.count == 0,
    {
        Engine { device, index, slot: TimestampSlot::new(), rate: RateWindow::new() }
    }

    /// One trigger at instant `now`: exchanges the timestamp slot (so the
    /// reading's gap is computed from this device's own previous trigger
    /// and nothing else), counts the sample for the rate diagnostic, reads
    /// one normalized sample, and publishes the reading — only when at
    /// least one subscriber exists, and only when the read succeeded. A
    /// failed read leaves the fan-out untouched and is reported, not
    /// retried; the slot keeps `now` either way, as the trigger did happen.
    pub fn on_trigger(&mut self, now: u64, chan: &mut FanoutChannel) -> (out: TriggerOutcome)
        requires
            old(self).slot.stamp matches Some(p) ==> p <= now,
            old(self).rate.window_start matches Some(s) ==> s <= now,
            old(self).rate.count < u64::MAX,
            old(chan).wf(),
            old(chan).history().len() < u64::MAX,
        ensures
            final(self).device.odr == old(self).device.odr,
            final(self).device.hpf == old(self).device.hpf,
            final(self).device.range == old(self).device.range,
            final(self).index == old(self).index,
            final(self).slot.stamp == Some(now),
            final(self).rate == timing::rate_step(old(self).rate, now),
            out.rate_report == timing::rate_report_of(old(self).rate, now),
            final(chan).wf(),
            final(chan).capacity == old(chan).capacity,
            final(chan).subscribers == old(chan).subscribers,
            out.sample matches SampleOutcome::Published(r) ==> {
                &&& old(chan).subscribers > 0
                &&& final(chan).history() == old(chan).history().push(r)
                &&& r.idx == old(self).index
                &&& r.gap == timing::gap_of(old(self).slot.stamp, now)
                &&& r.wf()
            },
            out.sample matches SampleOutcome::NoSubscribers(r) ==> {
                &&& old(chan).subscribers == 0
                &&& final(chan).history() == old(chan).history()
                &&& r.idx == old(self).index
                &&& r.gap == timing::gap_of(old(self).slot.stamp, now)
                &&& r.wf()
            },
            out.sample is ReadFailed ==> final(chan).history() == old(chan).history(),
    {
        let prev = self.slot.exchange(now);
        let rate_report = self.rate.on_sample(now);
        match self.device.accel_norm() {
            Ok(n) => {
                let reading = Reading::assemble(self.index, prev, now, n);
                if chan.subscriber_count() > 0 {
                    chan.publish(reading);
                    TriggerOutcome { sample: SampleOutcome::Published(reading), rate_report }
                } else {
                    TriggerOutcome { sample: SampleOutcome::NoSubscribers(reading), rate_report }
                }
            },
            Err(_) => TriggerOutcome { sample: SampleOutcome::ReadFailed, rate_report },
        }
    }
}

} // verus!
