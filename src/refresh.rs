//! Continuous refresh: the transmitter is started again on each tick of a
//! timer, from a double buffer of universes.
//!
//! The application writes channels into the pending buffer only. At a tick
//! with no frame in flight the two buffers change roles by an exchange of
//! their index; the new pending buffer then takes the values just sent, so a
//! channel keeps its value until it is written again. A tick that finds a
//! frame still in flight is dropped and counted.

use vstd::prelude::*;
use crate::engine::DmxPIO;
use crate::frame::{begin_spec, step_spec, Dmx, Event, FrameState, HwOp, Phase, DMX_UNIVERSE_SIZE};

verus! {

/// Why a refresh operation did not take effect.
#[derive(Clone, Copy, Debug, PartialEq, Eq, Structural)]
pub enum RefreshError {
    /// The channel index is not below 512.
    ChannelOutOfRange,
    /// A tick came while the previous frame was still in flight; it was
    /// dropped.
    QueueOverrunDropped,
}

/// A transmitter that is refreshed from a double buffer.
pub struct ContinuousRefresh {
    dmx: Dmx,
    buffers: [[u8; 512]; 2],
    active: usize,
    tick_period_us: u32,
    dropped: u32,
}

impl ContinuousRefresh {
    /// The transmitter's state.
    pub closed spec fn frame(&self) -> FrameState {
        self.dmx@
    }

    /// The universe last handed to the transmitter.
    pub closed spec fn active_view(&self) -> Seq<u8> {
        self.buffers[self.active as int]@
    }

    /// The universe the application is writing.
    pub closed spec fn pending_view(&self) -> Seq<u8> {
        self.buffers[1 - self.active as int]@
    }

    pub closed spec fn spec_dropped(&self) -> u32 {
        self.dropped
    }

    pub closed spec fn spec_tick_period_us(&self) -> u32 {
        self.tick_period_us
    }

    pub closed spec fn spec_engine(&self) -> DmxPIO {
        self.dmx.spec_engine()
    }

    /// The transmitter is valid, and while a frame is in flight it sends the
    /// active buffer.
    pub closed spec fn wf(&self) -> bool {
        &&& self.dmx.wf()
        &&& self.active < 2
        &&& self.dmx@.phase != Phase::Idle ==> self.dmx@.universe == self.active_view()
    }

    /// A refresh over the binding `binding`, ticked every `tick_period_us`
    /// microseconds by the caller's timer; both buffers hold zeros.
    pub fn new(binding: DmxPIO, tick_period_us: u32) -> (r: ContinuousRefresh)
        ensures
            r.wf(),
            r.frame().phase == Phase::Idle,
            r.active_view() == Seq::new(DMX_UNIVERSE_SIZE as nat, |i: int| 0u8),
            r.pending_view() == Seq::new(DMX_UNIVERSE_SIZE as nat, |i: int| 0u8),
            r.spec_dropped() == 0,
            r.spec_tick_period_us() == tick_period_us,
            r.spec_engine() == binding,
    {
        let r = ContinuousRefresh {
            dmx: Dmx::new(binding),
            buffers: [[0u8; 512]; 2],
            active: 0,
            tick_period_us,
            dropped: 0,
        };
        assert(r.active_view() =~= Seq::new(DMX_UNIVERSE_SIZE as nat, |i: int| 0u8));
        assert(r.pending_view() =~= Seq::new(DMX_UNIVERSE_SIZE as nat, |i: int| 0u8));
        r
    }

    /// Sets channel `index` (0 is channel 1) of the pending universe to
    /// `value`. The universe in flight is never written.
    pub fn write_channel(&mut self, index: u16, value: u8) -> (r: Result<(), RefreshError>)
        requires
            old(self).wf(),
        ensures
            final(self).wf(),
            r is Err <==> index as int >= DMX_UNIVERSE_SIZE,
            r is Err ==> r == Err::<(), RefreshError>(RefreshError::ChannelOutOfRange),
            r is Ok ==> final(self).pending_view() == old(self).pending_view().update(
                index as int,
                value,
            ),
            r is Err ==> final(self).pending_view() == old(self).pending_view(),
            final(self).active_view() == old(self).active_view(),
            final(self).frame() == old(self).frame(),
            final(self).spec_dropped() == old(self).spec_dropped(),
            final(self).spec_engine() == old(self).spec_engine(),
    {
        if index as usize >= DMX_UNIVERSE_SIZE {
            return Err(RefreshError::ChannelOutOfRange);
        }
        let p: usize = 1 - self.active;
        self.buffers[p][index as usize] = value;
        Ok(())
    }

    /// One tick of the refresh timer. With no frame in flight the pending
    /// universe becomes the active one and its frame is started; the new
    /// pending universe starts as a copy of it. With a frame in flight the
    /// tick is dropped and counted.
    pub fn tick(&mut self) -> (r: Result<(), RefreshError>)
        requires
            old(self).wf(),
        ensures
            final(self).wf(),
            r is Ok <==> old(self).frame().phase == Phase::Idle,
            r is Ok ==> {
                &&& final(self).active_view() == old(self).pending_view()
                &&& final(self).pending_view() == old(self).pending_view()
                &&& final(self).frame() == begin_spec(old(self).frame(), old(self).pending_view())
                &&& final(self).spec_dropped() == old(self).spec_dropped()
            },
            r is Err ==> {
                &&& r == Err::<(), RefreshError>(RefreshError::QueueOverrunDropped)
                &&& final(self).active_view() == old(self).active_view()
                &&& final(self).pending_view() == old(self).pending_view()
                &&& final(self).frame() == old(self).frame()
                &&& final(self).spec_dropped() as int == if old(self).spec_dropped() == u32::MAX {
                    u32::MAX as int
                } else {
                    old(self).spec_dropped() + 1
                }
            },
            final(self).spec_engine() == old(self).spec_engine(),
    {
        if !self.dmx.is_idle() {
            self.dropped = self.dropped.saturating_add(1);
            return Err(RefreshError::QueueOverrunDropped);
        }
        let a: usize = 1 - self.active;
        self.active = a;
        let sent = self.dmx.send_universe(&self.buffers[a]);
        let copy: [u8; 512] = self.buffers[a];
        self.buffers[1 - a] = copy;
        proof {
            assert(sent is Ok);
        }
        Ok(())
    }

    /// The hardware operation to perform next for the frame in flight.
    pub fn next_op(&self) -> (r: Option<HwOp>)
        requires
            self.wf(),
        ensures
            r == crate::frame::next_op_spec(self.frame()),
    {
        self.dmx.next_op()
    }

    /// Takes the outcome `e` of the operation last named by `next_op`;
    /// returns whether it answered that operation.
    pub fn step(&mut self, e: Event) -> (r: bool)
        requires
            old(self).wf(),
        ensures
            final(self).wf(),
            final(self).frame() == step_spec(old(self).frame(), e).0,
            r == step_spec(old(self).frame(), e).1,
            final(self).active_view() == old(self).active_view(),
            final(self).pending_view() == old(self).pending_view(),
            final(self).spec_dropped() == old(self).spec_dropped(),
            final(self).spec_engine() == old(self).spec_engine(),
    {
        self.dmx.step(e)
    }

    /// The universe last handed to the transmitter.
    pub fn active(&self) -> (r: &[u8; 512])
        requires
            self.wf(),
        ensures
            r@ == self.active_view(),
    {
        &self.buffers[self.active]
    }

    /// The universe the application is writing.
    pub fn pending(&self) -> (r: &[u8; 512])
        requires
            self.wf(),
        ensures
            r@ == self.pending_view(),
    {
        &self.buffers[1 - self.active]
    }

    /// Ticks dropped because a frame was still in flight, saturating.
    pub fn dropped_ticks(&self) -> (r: u32)
        ensures
            r == self.spec_dropped(),
    {
        self.dropped
    }

    /// The period of the refresh timer, in microseconds.
    pub fn tick_period_us(&self) -> (r: u32)
        ensures
            r == self.spec_tick_period_us(),
    {
        self.tick_period_us
    }

    /// Whether a frame is in flight.
    pub fn is_transmitting(&self) -> (r: bool)
        ensures
            r == (self.frame().phase != Phase::Idle),
    {
        !self.dmx.is_idle()
    }
}

} // verus!
