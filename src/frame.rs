//! The frame transmitter: the order of hardware operations that put one
//! universe on the wire.
//!
//! The transmitter does not touch the hardware. It names the next operation
//! (`next_op`); the caller performs it and reports the outcome (`step`). The
//! operations of one frame are a restart of the lane (break and mark after
//! break), one queue write per byte of the start code and the 512 channels,
//! retried while the queue is full, and a drain of the queue.

use vstd::prelude::*;
use crate::engine::DmxPIO;
use crate::frame_lemmas::lemma_step_wf;

verus! {

/// Channels in one universe.
pub const DMX_UNIVERSE_SIZE: usize = 512;

/// Bytes in one frame: the start code and the channels.
pub const DMX_FRAME_LEN: usize = 513;

/// The start code of a frame of dimmer data.
pub const START_CODE: u8 = 0;

/// One hardware operation asked of the caller.
#[derive(Clone, Copy, Debug, PartialEq, Eq, Structural)]
pub enum HwOp {
    /// Restart the lane: it sends the break and the mark after break.
    Restart,
    /// Write one byte to the transmit queue.
    Write(u8),
    /// Wait until the transmit queue is empty.
    Drain,
}

/// What the caller reports after performing an operation.
#[derive(Clone, Copy, Debug, PartialEq, Eq, Structural)]
pub enum Event {
    /// The lane was restarted.
    Restarted,
    /// The queue took the byte.
    Accepted,
    /// The queue was full; the byte was not taken.
    QueueFull,
    /// The queue ran empty.
    Drained,
}

/// Where the transmitter stands in a frame.
#[derive(Clone, Copy, Debug, PartialEq, Eq, Structural)]
pub enum Phase {
    /// No frame in flight.
    Idle,
    /// A frame was given; the lane is to be restarted.
    Restart,
    /// Bytes of the frame are being queued.
    Stream,
    /// All bytes are queued; the queue is to run empty.
    Drain,
}

/// Why a universe was not taken.
#[derive(Clone, Copy, Debug, PartialEq, Eq, Structural)]
pub enum TransmitError {
    /// A frame is still in flight.
    Busy,
}

/// The state of the transmitter as the contracts see it. `trace` is the
/// list of operations performed so far for the current (or last) frame.
pub struct FrameState {
    pub phase: Phase,
    pub pos: nat,
    pub universe: Seq<u8>,
    pub trace: Seq<HwOp>,
}

/// The bytes of the frame of universe `u`: the start code, then the channels.
pub open spec fn frame_bytes(u: Seq<u8>) -> Seq<u8> {
    seq![START_CODE].add(u)
}

/// Queue writes of `b`, in order.
pub open spec fn writes(b: Seq<u8>) -> Seq<HwOp> {
    b.map_values(|x: u8| HwOp::Write(x))
}

/// The operations of one whole frame of universe `u`.
pub open spec fn frame_trace(u: Seq<u8>) -> Seq<HwOp> {
    seq![HwOp::Restart].add(writes(frame_bytes(u))).push(HwOp::Drain)
}

/// The operations done after `pos` bytes of a frame of `u` were queued.
pub open spec fn streamed_trace(u: Seq<u8>, pos: nat) -> Seq<HwOp> {
    seq![HwOp::Restart].add(writes(frame_bytes(u).take(pos as int)))
}

/// Every state the transmitter can be in.
pub open spec fn frame_wf(s: FrameState) -> bool {
    &&& s.universe.len() == DMX_UNIVERSE_SIZE
    &&& match s.phase {
        Phase::Idle => s.trace == Seq::<HwOp>::empty() || s.trace == frame_trace(s.universe),
        Phase::Restart => s.pos == 0 && s.trace == Seq::<HwOp>::empty(),
        Phase::Stream => s.pos < DMX_FRAME_LEN && s.trace == streamed_trace(s.universe, s.pos),
        Phase::Drain => s.pos == DMX_FRAME_LEN && s.trace == streamed_trace(
            s.universe,
            s.pos,
        ),
    }
}

/// The operation the transmitter asks for in state `s`.
pub open spec fn next_op_spec(s: FrameState) -> Option<HwOp> {
    match s.phase {
        Phase::Idle => None,
        Phase::Restart => Some(HwOp::Restart),
        Phase::Stream => Some(HwOp::Write(frame_bytes(s.universe)[s.pos as int])),
        Phase::Drain => Some(HwOp::Drain),
    }
}

/// The state after the caller reports `e` in state `s`, and whether `e`
/// answered the operation that was asked for. An event that does not answer
/// it leaves the state as it is.
pub open spec fn step_spec(s: FrameState, e: Event) -> (FrameState, bool) {
    match (s.phase, e) {
        (Phase::Restart, Event::Restarted) => (
            FrameState { phase: Phase::Stream, pos: 0, trace: s.trace.push(HwOp::Restart), ..s },
            true,
        ),
        (Phase::Stream, Event::Accepted) => (
            FrameState {
                phase: if s.pos + 1 == DMX_FRAME_LEN {
                    Phase::Drain
                } else {
                    Phase::Stream
                },
                pos: s.pos + 1,
                trace: s.trace.push(HwOp::Write(frame_bytes(s.universe)[s.pos as int])),
                ..s
            },
            true,
        ),
        (Phase::Stream, Event::QueueFull) => (s, true),
        (Phase::Drain, Event::Drained) => (
            FrameState { phase: Phase::Idle, trace: s.trace.push(HwOp::Drain), ..s },
            true,
        ),
        _ => (s, false),
    }
}

/// The state after a universe `u` is handed to the transmitter in state `s`.
pub open spec fn begin_spec(s: FrameState, u: Seq<u8>) -> FrameState {
    if s.phase == Phase::Idle {
        FrameState { phase: Phase::Restart, pos: 0, universe: u, trace: Seq::empty() }
    } else {
        s
    }
}

/// The state after the events `evs` are reported in order, from `s`.
pub open spec fn run(s: FrameState, evs: Seq<Event>) -> FrameState
    decreases evs.len(),
{
    if evs.len() == 0 {
        s
    } else {
        run(step_spec(s, evs[0]).0, evs.drop_first())
    }
}

/// The frame transmitter. It owns the binding of its lane.
pub struct Dmx {
    pio: DmxPIO,
    universe: [u8; 512],
    phase: Phase,
    pos: usize,
    trace: Ghost<Seq<HwOp>>,
}

impl View for Dmx {
    type V = FrameState;

    closed spec fn view(&self) -> FrameState {
        FrameState {
            phase: self.phase,
            pos: self.pos as nat,
            universe: self.universe@,
            trace: self.trace@,
        }
    }
}

impl Dmx {
    pub closed spec fn spec_engine(&self) -> DmxPIO {
        self.pio
    }

    pub open spec fn wf(&self) -> bool {
        frame_wf(self@)
    }

    /// A transmitter over the binding `pio`, with no frame in flight.
    pub fn new(pio: DmxPIO) -> (r: Dmx)
        ensures
            r.wf(),
            r@.phase == Phase::Idle,
            r@.trace == Seq::<HwOp>::empty(),
            r.spec_engine() == pio,
    {
        Dmx { pio, universe: [0u8; 512], phase: Phase::Idle, pos: 0, trace: Ghost(Seq::empty()) }
    }

    /// The binding this transmitter drives.
    pub fn engine(&self) -> (r: &DmxPIO)
        ensures
            *r == self.spec_engine(),
    {
        &self.pio
    }

    /// Whether no frame is in flight.
    pub fn is_idle(&self) -> (r: bool)
        ensures
            r == (self@.phase == Phase::Idle),
    {
        match self.phase {
            Phase::Idle => true,
            _ => false,
        }
    }

    /// Starts a frame of `universe`. The frame is sent by the operations
    /// that `next_op` then names. Refused while a frame is in flight.
    pub fn send_universe(&mut self, universe: &[u8; 512]) -> (r: Result<(), TransmitError>)
        requires
            old(self).wf(),
        ensures
            final(self).wf(),
            r is Ok <==> old(self)@.phase == Phase::Idle,
            final(self)@ == begin_spec(old(self)@, universe@),
            final(self).spec_engine() == old(self).spec_engine(),
    {
        match self.phase {
            Phase::Idle => {
                self.universe = *universe;
                self.phase = Phase::Restart;
                self.pos = 0;
                self.trace = Ghost(Seq::empty());
                Ok(())
            },
            _ => Err(TransmitError::Busy),
        }
    }

    /// The byte at `pos` of the frame.
    fn frame_byte(&self, pos: usize) -> (r: u8)
        requires
            self.wf(),
            pos < DMX_FRAME_LEN,
        ensures
            r == frame_bytes(self@.universe)[pos as int],
    {
        if pos == 0 {
            START_CODE
        } else {
            self.universe[pos - 1]
        }
    }

    /// The hardware operation to perform next; `None` when no frame is in
    /// flight.
    pub fn next_op(&self) -> (r: Option<HwOp>)
        requires
            self.wf(),
        ensures
            r == next_op_spec(self@),
    {
        match self.phase {
            Phase::Idle => None,
            Phase::Restart => Some(HwOp::Restart),
            Phase::Stream => Some(HwOp::Write(self.frame_byte(self.pos))),
            Phase::Drain => Some(HwOp::Drain),
        }
    }

    /// Takes the outcome `e` of the operation last named by `next_op`.
    /// Returns whether `e` answered that operation; if not, nothing changes.
    pub fn step(&mut self, e: Event) -> (r: bool)
        requires
            old(self).wf(),
        ensures
            final(self).wf(),
            final(self)@ == step_spec(old(self)@, e).0,
            r == step_spec(old(self)@, e).1,
            final(self).spec_engine() == old(self).spec_engine(),
    {
        proof {
            lemma_step_wf(self@, e);
        }
        match (self.phase, e) {
            (Phase::Restart, Event::Restarted) => {
                self.phase = Phase::Stream;
                self.trace = Ghost(self.trace@.push(HwOp::Restart));
                true
            },
            (Phase::Stream, Event::Accepted) => {
                let b = self.frame_byte(self.pos);
                self.trace = Ghost(self.trace@.push(HwOp::Write(b)));
                self.pos = self.pos + 1;
                if self.pos == DMX_FRAME_LEN {
                    self.phase = Phase::Drain;
                }
                true
            },
            (Phase::Stream, Event::QueueFull) => true,
            (Phase::Drain, Event::Drained) => {
                self.phase = Phase::Idle;
                self.trace = Ghost(self.trace@.push(HwOp::Drain));
                true
            },
            _ => false,
        }
    }
}

} // verus!
