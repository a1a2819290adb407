//! The history reassembler: a state machine that consumes notification
//! frames and rebuilds one sensor's complete sample series.  Frames may
//! arrive in any order; each carries a 1-based start index and a run of
//! encoded values, and the series is complete exactly when every declared
//! position has been written.  There is no end-of-stream marker: the
//! caller feeds frames until the machine reports `Complete`, aborts, or a
//! deadline of the caller's choosing expires.

use vstd::prelude::*;

use crate::codec::decode_value;
use crate::codec::le16_at;
use crate::codec::raw_at;
use crate::sensor::Sensor;
use crate::ProtocolError;

verus! {

/// Why a retrieval ended without completing.
#[derive(Clone, Copy, Debug, PartialEq, Eq, Structural)]
pub enum AbortReason {
    /// A frame carried the wrong sensor id or addressed positions outside
    /// the declared range.
    ProtocolViolation,
    /// The caller cancelled the wait for further frames.
    Timeout,
}

/// The reassembler's phase.  `Complete` and `Aborted` are terminal.
#[derive(Clone, Copy, Debug, PartialEq, Eq, Structural)]
pub enum Phase {
    /// The range request has not been sent yet.
    Requesting,
    /// The request is out and frames are being consumed.
    AwaitingFrames,
    /// Every declared position has been written.
    Complete,
    /// The retrieval ended early.
    Aborted(AbortReason),
}

/// Mathematical state of a reassembler: the target sensor, the declared
/// total, the sample series so far (`None` is the unwritten sentinel) and
/// the phase.
#[verifier::ext_equal]
pub struct ReassemblerView {
    pub sensor: Sensor,
    pub total: int,
    pub samples: Seq<Option<u16>>,
    pub phase: Phase,
}

/// How many positions of the series have been written.
pub open spec fn count_written(s: Seq<Option<u16>>) -> int
    decreases s.len(),
{
    if s.len() == 0 {
        0
    } else {
        count_written(s.drop_last()) + if s.last() is Some {
            1int
        } else {
            0int
        }
    }
}

/// Sensor id carried by a frame.
pub open spec fn frame_sensor_id(p: Seq<u8>) -> u8 {
    p[0]
}

/// 1-based start index carried by a frame.
pub open spec fn frame_start(p: Seq<u8>) -> int {
    le16_at(p, 1)
}

/// Number of values carried by a frame.
pub open spec fn frame_count(p: Seq<u8>) -> int {
    p[3] as int
}

/// The `j`-th raw value carried by a frame of `sensor`.
pub open spec fn frame_value(sensor: Sensor, p: Seq<u8>, j: int) -> u16 {
    raw_at(sensor, p, 4 + j * sensor.width_spec()) as u16
}

/// Whether the positions a frame addresses lie within `1..=total`.
pub open spec fn frame_in_range(p: Seq<u8>, total: int) -> bool {
    1 <= frame_start(p) && frame_start(p) + frame_count(p) - 1 <= total
}

/// Whether a frame is long enough to hold the values it announces.
pub open spec fn frame_payload_complete(sensor: Sensor, p: Seq<u8>) -> bool {
    p.len() >= 4 + frame_count(p) * sensor.width_spec()
}

/// The series after a frame's values land: positions the frame addresses
/// take its values, every other position keeps what it had.
pub open spec fn samples_after(v: ReassemblerView, p: Seq<u8>) -> Seq<Option<u16>> {
    Seq::new(
        v.samples.len(),
        |i: int|
            if frame_start(p) - 1 <= i < frame_start(p) - 1 + frame_count(p) {
                Some(frame_value(v.sensor, p, i - (frame_start(p) - 1)))
            } else {
                v.samples[i]
            },
    )
}

/// One step of the state machine on frame payload `p`.  Outside
/// `AwaitingFrames` a frame changes nothing.  A payload too short for the
/// header changes nothing.  A wrong sensor id or an out-of-range index
/// window aborts with `ProtocolViolation`, leaving the series untouched.
/// A payload shorter than its announced run changes nothing.  Otherwise
/// the values land and the machine completes exactly when every declared
/// position has been written.
pub open spec fn step_spec(v: ReassemblerView, p: Seq<u8>) -> ReassemblerView {
    if !(v.phase is AwaitingFrames) {
        v
    } else if p.len() < 4 {
        v
    } else if frame_sensor_id(p) != v.sensor.id_spec() || !frame_in_range(p, v.total) {
        ReassemblerView { phase: Phase::Aborted(AbortReason::ProtocolViolation), ..v }
    } else if !frame_payload_complete(v.sensor, p) {
        v
    } else {
        let s2 = samples_after(v, p);
        ReassemblerView {
            samples: s2,
            phase: if count_written(s2) == v.total {
                Phase::Complete
            } else {
                Phase::AwaitingFrames
            },
            ..v
        }
    }
}

/// What a step reports to the caller, matching `step_spec` case by case.
pub open spec fn step_result_spec(v: ReassemblerView, p: Seq<u8>) -> Result<(), ProtocolError> {
    if !(v.phase is AwaitingFrames) {
        Ok(())
    } else if p.len() < 4 {
        Err(ProtocolError::BufferUnderflow)
    } else if frame_sensor_id(p) != v.sensor.id_spec() || !frame_in_range(p, v.total) {
        Err(ProtocolError::ProtocolViolation)
    } else if !frame_payload_complete(v.sensor, p) {
        Err(ProtocolError::BufferUnderflow)
    } else {
        Ok(())
    }
}

/// The state machine that rebuilds one sensor's sample series.
pub struct HistoryReassembler {
    sensor: Sensor,
    total: u16,
    samples: Vec<Option<u16>>,
    written: usize,
    phase: Phase,
}

impl View for HistoryReassembler {
    type V = ReassemblerView;

    closed spec fn view(&self) -> ReassemblerView {
        ReassemblerView {
            sensor: self.sensor,
            total: self.total as int,
            samples: self.samples@,
            phase: self.phase,
        }
    }
}

impl HistoryReassembler {
    /// The series always has the declared length, and the running tally
    /// of written positions is exact.
    pub closed spec fn wf(self) -> bool {
        &&& self@.samples.len() == self@.total
        &&& self.written == count_written(self@.samples)
    }

    /// A fresh retrieval of `total` samples of `sensor`: every position
    /// holds the unwritten sentinel, and the range request is still to be
    /// sent.
    pub fn new(sensor: Sensor, total: u16) -> (r: HistoryReassembler)
        ensures
            r.wf(),
            r@.sensor == sensor,
            r@.total == total as int,
            r@.phase == Phase::Requesting,
            r@.samples.len() == total as int,
            forall|i: int| 0 <= i < total as int ==> r@.samples[i] is None,
    {
        let mut samples: Vec<Option<u16>> = Vec::new();
        let mut i: usize = 0;
        while i < total as usize
            invariant
                i <= total as usize,
                samples@.len() == i as int,
                forall|k: int| 0 <= k < i as int ==> samples@[k] is None,
                count_written(samples@) == 0,
            decreases total as usize - i,
        {
            proof {
                lemma_count_push(samples@, None);
            }
            samples.push(None);
            i = i + 1;
        }
        HistoryReassembler { sensor, total, samples, written: 0, phase: Phase::Requesting }
    }

    pub fn sensor(&self) -> (r: Sensor)
        ensures
            r == self@.sensor,
    {
        self.sensor
    }

    pub fn total(&self) -> (r: u16)
        ensures
            r as int == self@.total,
    {
        self.total
    }

    pub fn phase(&self) -> (r: Phase)
        ensures
            r == self@.phase,
    {
        self.phase
    }

    pub fn is_complete(&self) -> (r: bool)
        ensures
            r == (self@.phase is Complete),
    {
        match self.phase {
            Phase::Complete => true,
            _ => false,
        }
    }

    /// How many distinct positions have been written so far.
    pub fn written(&self) -> (r: usize)
        requires
            self.wf(),
        ensures
            r == count_written(self@.samples),
    {
        self.written
    }

    /// Hand the series out, ending the retrieval.  Unwritten positions
    /// still hold the sentinel.
    pub fn into_samples(self) -> (r: Vec<Option<u16>>)
        ensures
            r@ == self@.samples,
    {
        self.samples
    }

    /// The range request has been sent and the notification subscription
    /// is active: start consuming frames.
    pub fn begin(&mut self)
        requires
            old(self).wf(),
            old(self)@.phase == Phase::Requesting,
        ensures
            final(self).wf(),
            final(self)@ == (ReassemblerView { phase: Phase::AwaitingFrames, ..old(self)@ }),
    {
        self.phase = Phase::AwaitingFrames;
    }

    /// The caller's deadline expired: a retrieval still in flight moves
    /// to `Aborted(Timeout)`; a finished one is left as it is.
    pub fn cancel(&mut self)
        requires
            old(self).wf(),
        ensures
            final(self).wf(),
            final(self)@ == if old(self)@.phase is Requesting || old(self)@.phase is AwaitingFrames {
                (ReassemblerView { phase: Phase::Aborted(AbortReason::Timeout), ..old(self)@ })
            } else {
                old(self)@
            },
    {
        match self.phase {
            Phase::Requesting | Phase::AwaitingFrames => {
                self.phase = Phase::Aborted(AbortReason::Timeout);
            },
            _ => {},
        }
    }

    /// Consume one notification frame payload.  The new state is exactly
    /// `step_spec` of the old one, and the result exactly
    /// `step_result_spec`: values land at the frame's positions, a wrong
    /// sensor id aborts, a short payload is rejected atomically.
    pub fn step(&mut self, payload: &Vec<u8>) -> (r: Result<(), ProtocolError>)
        requires
            old(self).wf(),
        ensures
            final(self).wf(),
            final(self)@ == step_spec(old(self)@, payload@),
            r == step_result_spec(old(self)@, payload@),
    {
        match self.phase {
            Phase::AwaitingFrames => {},
            _ => { return Ok(()) },
        }
        if payload.len() < 4 {
            return Err(ProtocolError::BufferUnderflow);
        }
        let sid = payload[0];
        let start: u16 = payload[1] as u16 + 0x100 * (payload[2] as u16);
        let count: u8 = payload[3];
        if sid != self.sensor.id() || start == 0 || (start - 1) as usize + count as usize
            > self.total as usize {
            self.phase = Phase::Aborted(AbortReason::ProtocolViolation);
            return Err(ProtocolError::ProtocolViolation);
        }
        let w = self.sensor.width();
        proof {
            assert(1 <= w <= 2);
            assert(count as int * w <= 510) by (nonlinear_arith)
                requires
                    0 <= count as int <= 255,
                    0 <= w <= 2,
            ;
        }
        let needed: usize = 4 + count as usize * w;
        if payload.len() < needed {
            return Err(ProtocolError::BufferUnderflow);
        }
        let base: usize = start as usize - 1;
        let ghost v0 = self@;
        let mut j: usize = 0;
        let mut pos: usize = 4;
        while j < count as usize
            invariant
                self.wf(),
                self.sensor == v0.sensor,
                self.total as int == v0.total,
                self.phase == v0.phase,
                v0.phase is AwaitingFrames,
                self@.samples.len() == v0.samples.len(),
                v0.samples.len() == v0.total,
                base == frame_start(payload@) - 1,
                count as int == frame_count(payload@),
                base + count as int <= v0.total,
                w == v0.sensor.width_spec(),
                payload@.len() >= 4,
                payload@.len() >= 4 + count as int * w,
                j <= count as usize,
                pos == 4 + j as int * w,
                forall|i: int|
                    0 <= i < v0.samples.len() ==> self@.samples[i] == (if base <= i < base
                        + j as int {
                        Some(frame_value(v0.sensor, payload@, i - base))
                    } else {
                        v0.samples[i]
                    }),
            decreases count as usize - j,
        {
            proof {
                assert((j + 1) * w <= count as int * w) by (nonlinear_arith)
                    requires
                        j + 1 <= count as int,
                        w >= 0,
                ;
                assert(j as int * w + w == (j + 1) * w) by (nonlinear_arith);
            }
            let (raw, npos) = match decode_value(self.sensor, payload, pos) {
                Ok(p) => p,
                Err(_) => { return Err(ProtocolError::BufferUnderflow) },
            };
            let idx = base + j;
            let was_none = self.samples[idx].is_none();
            proof {
                lemma_count_bounds(self@.samples);
                lemma_count_update(self@.samples, idx as int, Some(raw));
            }
            if was_none {
                self.written = self.written + 1;
            }
            self.samples[idx] = Some(raw);
            pos = npos;
            j = j + 1;
        }
        proof {
            assert(self@.samples =~= samples_after(v0, payload@));
        }
        if self.written == self.total as usize {
            self.phase = Phase::Complete;
        }
        Ok(())
    }
}

/// Appending one element changes the tally by one exactly when it is
/// written.
proof fn lemma_count_push(s: Seq<Option<u16>>, o: Option<u16>)
    ensures
        count_written(s.push(o)) == count_written(s) + if o is Some {
            1int
        } else {
            0int
        },
{
    assert(s.push(o).drop_last() =~= s);
    assert(s.push(o).last() == o);
}

/// Overwriting one position changes the tally by the difference between
/// the new and the old occupancy of that position.
proof fn lemma_count_update(s: Seq<Option<u16>>, i: int, v: Option<u16>)
    requires
        0 <= i < s.len(),
    ensures
        count_written(s.update(i, v)) == count_written(s) - (if s[i] is Some {
            1int
        } else {
            0int
        }) + (if v is Some {
            1int
        } else {
            0int
        }),
    decreases s.len(),
{
    let t = s.update(i, v);
    if i == s.len() - 1 {
        assert(t.drop_last() =~= s.drop_last());
        assert(t.last() == v);
        assert(s.last() == s[i]);
    } else {
        assert(t.drop_last() =~= s.drop_last().update(i, v));
        assert(t.last() == s.last());
        lemma_count_update(s.drop_last(), i, v);
    }
}

/// The tally never exceeds the series' length.
pub proof fn lemma_count_bounds(s: Seq<Option<u16>>)
    ensures
        0 <= count_written(s) <= s.len(),
    decreases s.len(),
{
    if s.len() > 0 {
        lemma_count_bounds(s.drop_last());
    }
}

/// A frame that carries the wrong sensor id aborts the retrieval with
/// `ProtocolViolation` and leaves the sample series untouched.
pub proof fn lemma_mismatch_aborts(v: ReassemblerView, p: Seq<u8>)
    requires
        v.phase is AwaitingFrames,
        p.len() >= 4,
        frame_sensor_id(p) != v.sensor.id_spec(),
    ensures
        step_spec(v, p).phase == Phase::Aborted(AbortReason::ProtocolViolation),
        step_spec(v, p).samples == v.samples,
{
}

/// Feeding the same frame twice leaves exactly the state that the first
/// feeding produced: an overwrite lands the same values, so it is safe
/// and delivery order of disjoint frames cannot matter.
pub proof fn lemma_step_idempotent(v: ReassemblerView, p: Seq<u8>)
    ensures
        step_spec(step_spec(v, p), p) == step_spec(v, p),
{
    let v1 = step_spec(v, p);
    if v.phase is AwaitingFrames && p.len() >= 4 && frame_sensor_id(p) == v.sensor.id_spec()
        && frame_in_range(p, v.total) && frame_payload_complete(v.sensor, p)
        && v1.phase is AwaitingFrames {
        assert(samples_after(v1, p) =~= v1.samples);
        assert(step_spec(v1, p) =~= v1);
    }
}

/// A step writes only the positions its frame addresses; every other
/// position keeps its value, whatever the frame and the outcome.
pub proof fn lemma_step_preserves_unaddressed(v: ReassemblerView, p: Seq<u8>, i: int)
    requires
        0 <= i < v.samples.len(),
        !(frame_start(p) - 1 <= i < frame_start(p) - 1 + frame_count(p)),
    ensures
        step_spec(v, p).samples[i] == v.samples[i],
{
}

/// While fewer positions have been written than the series holds, some
/// position still carries the unwritten sentinel, and the sentinel is
/// distinguishable from every decoded value.
pub proof fn lemma_incomplete_retains_sentinel(s: Seq<Option<u16>>)
    requires
        count_written(s) < s.len(),
    ensures
        exists|i: int|
            0 <= i < s.len() && s[i] is None && forall|raw: u16| s[i] != Some(raw),
    decreases s.len(),
{
    lemma_count_bounds(s);
    if s.last() is None {
        let i = s.len() - 1;
        assert(0 <= i < s.len() && s[i] is None && forall|raw: u16| s[i] != Some(raw));
    } else {
        lemma_incomplete_retains_sentinel(s.drop_last());
        let i = choose|i: int|
            0 <= i < s.drop_last().len() && s.drop_last()[i] is None && forall|raw: u16|
                s.drop_last()[i] != Some(raw);
        assert(s[i] == s.drop_last()[i]);
        assert(0 <= i < s.len() && s[i] is None && forall|raw: u16| s[i] != Some(raw));
    }
}

} // verus!
