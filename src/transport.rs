//! Decisions of the fixed-rate transport loop.
//!
//! The loop itself (timer, serial writes, the producer task) runs outside
//! the library; on each event it asks the state here what to do next.
//! Producer and loop meet in a single slot that keeps only the latest
//! channel vector.

use vstd::prelude::*;
use crate::crsf::crc::Crc8Table;
use crate::crsf::encoder::{encode_rc_channels_frame_with, is_rc_frame};
use crate::crsf::protocol::{RcChannels, CRSF_CHANNEL_VALUE_CENTER};

verus! {

/// Packet rate of the loop, in Hz.
pub const PACKET_RATE_HZ: u32 = 250;

/// Successful packets between two status summaries.
pub const LOG_INTERVAL_PACKETS: u64 = 1000;

/// Consecutive failures from which a failure is reported as a warning.
pub const FAILURE_WARNING_THRESHOLD: u32 = 10;

/// Capacity of the hand-off between producer and loop.
pub const CHANNEL_BUFFER_SIZE: usize = 1;

/// Period of the loop's timer, in milliseconds, for a rate in Hz.
pub fn packet_period_ms(rate_hz: u32) -> (r: u32)
    requires
        rate_hz > 0,
    ensures
        r == 1000u32 / rate_hz,
{
    1000 / rate_hz
}

/// Every channel at neutral (1024).
pub open spec fn is_neutral(ch: Seq<u16>) -> bool {
    ch.len() == 16 && forall|i: int| 0 <= i < 16 ==> ch[i] == CRSF_CHANNEL_VALUE_CENTER
}

/// The channel vector the loop sends before the producer has published one.
pub fn neutral_channels() -> (r: RcChannels)
    ensures
        is_neutral(r@),
{
    [CRSF_CHANNEL_VALUE_CENTER; 16]
}

/// A single-slot hand-off: publishing overwrites what is there, taking
/// empties it. The most recent vector wins.
#[derive(Debug)]
pub struct LatestSlot {
    value: Option<RcChannels>,
}

impl View for LatestSlot {
    type V = Option<RcChannels>;

    closed spec fn view(&self) -> Option<RcChannels> {
        self.value
    }
}

impl LatestSlot {
    /// An empty slot.
    pub fn new() -> (r: LatestSlot)
        ensures
            r@ is None,
    {
        LatestSlot { value: None }
    }

    /// Puts `channels` in the slot, replacing what was there.
    pub fn publish(&mut self, channels: RcChannels)
        ensures
            final(self)@ == Some(channels),
    {
        self.value = Some(channels);
    }

    /// Takes the latest vector out of the slot, leaving it empty.
    pub fn take(&mut self) -> (r: Option<RcChannels>)
        ensures
            r == old(self)@,
            final(self)@ is None,
    {
        let r = self.value;
        self.value = None;
        r
    }
}

/// How loudly a transmission failure is reported.
#[derive(Debug, Clone, Copy, PartialEq, Eq, Structural)]
pub enum Severity {
    Debug,
    Warning,
}

/// What the loop observed.
#[derive(Debug, Clone, Copy)]
pub enum LoopEvent {
    /// The timer fired; the slot held this vector, if any.
    Tick(Option<RcChannels>),
    /// A shutdown was requested.
    Shutdown,
    /// The producer ended without an error of its own.
    ProducerFinished,
    /// The producer ended with an error.
    ProducerFailed,
}

/// What the loop does next.
#[derive(Debug, Clone)]
pub enum LoopAction {
    /// Send these frame bytes, then report the outcome.
    Transmit(Vec<u8>),
    /// Stop cleanly, sending nothing more.
    Exit,
    /// Stop with a failure: the producer is gone.
    Fail,
}

/// The loop's own state: the vector it sends and its counters.
#[derive(Debug)]
pub struct TransportState {
    /// The channel vector sent on each tick.
    pub current: RcChannels,
    /// Failures since the last success.
    pub consecutive_failures: u32,
    /// Packets sent successfully.
    pub total_sent: u64,
    /// `total_sent` when the last status summary was due.
    pub last_log_count: u64,
    /// Consecutive failures from which failures are warnings.
    pub warning_threshold: u32,
    /// Successful packets between status summaries.
    pub log_interval: u64,
    /// CRC table for the frames sent, built with the state.
    pub crc_table: Crc8Table,
}

/// The severity of the `count`-th consecutive failure.
pub open spec fn failure_severity(count: int, threshold: int) -> Severity {
    if count >= threshold {
        Severity::Warning
    } else {
        Severity::Debug
    }
}

/// `after` is `before` with one more failure recorded, reported at `s`:
/// the run grows by one (up to `u32::MAX`), the severity follows the
/// threshold, and nothing else changes.
pub open spec fn failure_recorded(before: TransportState, after: TransportState, s: Severity) -> bool {
    &&& after.consecutive_failures == if before.consecutive_failures < u32::MAX {
        before.consecutive_failures + 1
    } else {
        before.consecutive_failures as int
    }
    &&& s == failure_severity(after.consecutive_failures as int, before.warning_threshold as int)
    &&& after.total_sent == before.total_sent
    &&& after.last_log_count == before.last_log_count
    &&& after.current == before.current
    &&& after.warning_threshold == before.warning_threshold
    &&& after.log_interval == before.log_interval
}

proof fn lemma_failure_run_prefix(states: Seq<TransportState>, severities: Seq<Severity>, n: int)
    requires
        states.len() == severities.len() + 1,
        states[0].consecutive_failures == 0,
        severities.len() < u32::MAX,
        forall|k: int|
            0 <= k < severities.len() ==> failure_recorded(
                #[trigger] states[k],
                states[k + 1],
                severities[k],
            ),
        0 <= n < states.len(),
    ensures
        forall|k: int|
            0 <= k <= n ==> #[trigger] states[k].consecutive_failures == k
                && states[k].warning_threshold == states[0].warning_threshold,
    decreases n,
{
    if n > 0 {
        lemma_failure_run_prefix(states, severities, n - 1);
        assert(failure_recorded(states[n - 1], states[n], severities[n - 1]));
    }
}

/// A run of failures after a success: starting from a run of 0, the
/// `k`-th failure recorded (counting from 1) leaves the run at `k` and is
/// reported at debug level while `k` is below the warning threshold and
/// as a warning from the threshold on. Nothing in the run stops the loop:
/// `record_failure` returns only a severity.
pub proof fn lemma_failure_escalation(states: Seq<TransportState>, severities: Seq<Severity>)
    requires
        states.len() == severities.len() + 1,
        states[0].consecutive_failures == 0,
        severities.len() < u32::MAX,
        forall|k: int|
            0 <= k < severities.len() ==> failure_recorded(
                #[trigger] states[k],
                states[k + 1],
                severities[k],
            ),
    ensures
        forall|k: int| 0 <= k < states.len() ==> #[trigger] states[k].consecutive_failures == k,
        forall|k: int|
            0 <= k < severities.len() ==> (#[trigger] severities[k] == Severity::Debug <==> k + 1
                < states[0].warning_threshold),
        forall|k: int|
            0 <= k < severities.len() ==> (severities[k] == Severity::Warning <==> k + 1
                >= states[0].warning_threshold),
{
    lemma_failure_run_prefix(states, severities, states.len() - 1);
    assert forall|k: int| 0 <= k < severities.len() implies (#[trigger] severities[k]
        == Severity::Debug <==> k + 1 < states[0].warning_threshold) by {
        assert(failure_recorded(states[k], states[k + 1], severities[k]));
        assert(states[k + 1].consecutive_failures == k + 1);
    }
    assert forall|k: int| 0 <= k < severities.len() implies (severities[k] == Severity::Warning
        <==> k + 1 >= states[0].warning_threshold) by {
        assert(failure_recorded(states[k], states[k + 1], severities[k]));
        assert(states[k + 1].consecutive_failures == k + 1);
    }
}

impl TransportState {
    /// The initial state: neutral channels, counters at zero.
    pub fn new(warning_threshold: u32, log_interval: u64) -> (r: TransportState)
        ensures
            is_neutral(r.current@),
            r.consecutive_failures == 0,
            r.total_sent == 0,
            r.last_log_count == 0,
            r.warning_threshold == warning_threshold,
            r.log_interval == log_interval,
    {
        TransportState {
            current: neutral_channels(),
            consecutive_failures: 0,
            total_sent: 0,
            last_log_count: 0,
            warning_threshold,
            log_interval,
            crc_table: Crc8Table::new(),
        }
    }

    /// Decides on an event. A tick adopts the vector from the slot, if any,
    /// and sends the frame of the current vector; a shutdown stops the loop
    /// cleanly with nothing sent; a producer that ended, with or without an
    /// error, leaves the loop without input and stops it with a failure.
    /// Counters are left as they are.
    pub fn on_event(&mut self, event: LoopEvent) -> (r: LoopAction)
        ensures
            final(self).consecutive_failures == old(self).consecutive_failures,
            final(self).total_sent == old(self).total_sent,
            final(self).last_log_count == old(self).last_log_count,
            final(self).warning_threshold == old(self).warning_threshold,
            final(self).log_interval == old(self).log_interval,
            match event {
                LoopEvent::Tick(latest) => {
                    &&& final(self).current == (match latest {
                        Some(ch) => ch,
                        None => old(self).current,
                    })
                    &&& r is Transmit
                    &&& is_rc_frame(r->Transmit_0@, final(self).current@)
                },
                LoopEvent::Shutdown => r is Exit && final(self).current == old(self).current,
                LoopEvent::ProducerFinished => r is Fail && final(self).current == old(
                    self,
                ).current,
                LoopEvent::ProducerFailed => r is Fail && final(self).current == old(self).current,
            },
    {
        match event {
            LoopEvent::Tick(latest) => {
                if let Some(channels) = latest {
                    self.current = channels;
                }
                LoopAction::Transmit(encode_rc_channels_frame_with(&self.crc_table, &self.current))
            },
            LoopEvent::Shutdown => LoopAction::Exit,
            LoopEvent::ProducerFinished => LoopAction::Fail,
            LoopEvent::ProducerFailed => LoopAction::Fail,
        }
    }

    /// Records a successful transmission: the failure run ends and the
    /// sent counter grows. Returns whether a status summary is due, that
    /// is whether `log_interval` packets went out since the last one.
    pub fn record_success(&mut self) -> (due: bool)
        requires
            old(self).total_sent < u64::MAX,
            old(self).last_log_count <= old(self).total_sent,
        ensures
            final(self).consecutive_failures == 0,
            final(self).total_sent == old(self).total_sent + 1,
            due == (final(self).total_sent - old(self).last_log_count >= old(self).log_interval),
            final(self).last_log_count == if due {
                final(self).total_sent
            } else {
                old(self).last_log_count
            },
            final(self).current == old(self).current,
            final(self).warning_threshold == old(self).warning_threshold,
            final(self).log_interval == old(self).log_interval,
    {
        self.consecutive_failures = 0;
        self.total_sent = self.total_sent + 1;
        if self.total_sent - self.last_log_count >= self.log_interval {
            self.last_log_count = self.total_sent;
            true
        } else {
            false
        }
    }

    /// Records a failed transmission and says how loudly to report it:
    /// below the threshold of consecutive failures at debug level, from
    /// the threshold on as a warning. The loop goes on either way.
    pub fn record_failure(&mut self) -> (s: Severity)
        ensures
            final(self).consecutive_failures == if old(self).consecutive_failures < u32::MAX {
                old(self).consecutive_failures + 1
            } else {
                old(self).consecutive_failures as int
            },
            s == failure_severity(
                final(self).consecutive_failures as int,
                old(self).warning_threshold as int,
            ),
            final(self).total_sent == old(self).total_sent,
            final(self).last_log_count == old(self).last_log_count,
            final(self).current == old(self).current,
            final(self).warning_threshold == old(self).warning_threshold,
            final(self).log_interval == old(self).log_interval,
            failure_recorded(*old(self), *final(self), s),
    {
        if self.consecutive_failures < u32::MAX {
            self.consecutive_failures = self.consecutive_failures + 1;
        }
        if self.consecutive_failures >= self.warning_threshold {
            Severity::Warning
        } else {
            Severity::Debug
        }
    }
}

} // verus!
