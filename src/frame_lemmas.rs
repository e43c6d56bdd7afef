//! What holds of every run of the frame transmitter.

use vstd::prelude::*;
use crate::frame::{
    begin_spec, frame_bytes, frame_trace, frame_wf, next_op_spec, run, step_spec, streamed_trace,
    writes, Event, FrameState, HwOp, Phase, DMX_FRAME_LEN, DMX_UNIVERSE_SIZE, START_CODE,
};

verus! {

/// A step keeps the transmitter in a valid state, with its universe.
pub proof fn lemma_step_wf(s: FrameState, e: Event)
    requires
        frame_wf(s),
    ensures
        frame_wf(step_spec(s, e).0),
        step_spec(s, e).0.universe == s.universe,
{
    let u = s.universe;
    let f = frame_bytes(u);
    match (s.phase, e) {
        (Phase::Restart, Event::Restarted) => {
            assert(f.take(0) =~= Seq::<u8>::empty());
            assert(s.trace.push(HwOp::Restart) =~= streamed_trace(u, 0));
        },
        (Phase::Stream, Event::Accepted) => {
            assert(f.take((s.pos + 1) as int) =~= f.take(s.pos as int).push(f[s.pos as int]));
            assert(writes(f.take((s.pos + 1) as int)) =~= writes(f.take(s.pos as int)).push(
                HwOp::Write(f[s.pos as int]),
            ));
            assert(streamed_trace(u, s.pos + 1) =~= s.trace.push(HwOp::Write(f[s.pos as int])));
        },
        (Phase::Drain, Event::Drained) => {
            assert(f.take(DMX_FRAME_LEN as int) =~= f);
        },
        _ => {},
    }
}

/// A run keeps the transmitter in a valid state, with its universe.
pub proof fn lemma_run_wf(s: FrameState, evs: Seq<Event>)
    requires
        frame_wf(s),
    ensures
        frame_wf(run(s, evs)),
        run(s, evs).universe == s.universe,
    decreases evs.len(),
{
    if evs.len() > 0 {
        lemma_step_wf(s, evs[0]);
        lemma_run_wf(step_spec(s, evs[0]).0, evs.drop_first());
    }
}

/// Events reported while no frame is in flight change nothing.
pub proof fn lemma_run_idle(s: FrameState, evs: Seq<Event>)
    requires
        s.phase == Phase::Idle,
    ensures
        run(s, evs) == s,
    decreases evs.len(),
{
    if evs.len() > 0 {
        lemma_run_idle(step_spec(s, evs[0]).0, evs.drop_first());
    }
}

/// Reporting `a` and then `b` is reporting `a + b`.
pub proof fn lemma_run_append(s: FrameState, a: Seq<Event>, b: Seq<Event>)
    ensures
        run(s, a.add(b)) == run(run(s, a), b),
    decreases a.len(),
{
    if a.len() == 0 {
        assert(a.add(b) =~= b);
    } else {
        assert(a.add(b).drop_first() =~= a.drop_first().add(b));
        lemma_run_append(step_spec(s, a[0]).0, a.drop_first(), b);
    }
}

/// The operations done part way through a frame begin the frame's operations.
proof fn lemma_streamed_prefix(u: Seq<u8>, pos: nat)
    requires
        u.len() == DMX_UNIVERSE_SIZE,
        pos <= DMX_FRAME_LEN,
    ensures
        streamed_trace(u, pos) == frame_trace(u).take((pos + 1) as int),
{
    assert(streamed_trace(u, pos) =~= frame_trace(u).take((pos + 1) as int));
}

/// The operations of one frame: a single restart first, then one write for
/// the start code and one for each channel in index order, 513 writes in
/// all and no restart among them, then the drain. This holds of every
/// universe alike, all zeros and all 0xFF included.
pub proof fn lemma_frame_trace_shape(u: Seq<u8>)
    requires
        u.len() == DMX_UNIVERSE_SIZE,
    ensures
        frame_bytes(u).len() == DMX_FRAME_LEN,
        frame_bytes(u)[0] == START_CODE,
        forall|i: int| 0 <= i < DMX_UNIVERSE_SIZE ==> #[trigger] frame_bytes(u)[i + 1] == u[i],
        frame_trace(u).len() == DMX_FRAME_LEN + 2,
        frame_trace(u)[0] == HwOp::Restart,
        forall|i: int|
            0 <= i < DMX_FRAME_LEN ==> #[trigger] frame_trace(u)[i + 1] == HwOp::Write(
                frame_bytes(u)[i],
            ),
        frame_trace(u)[DMX_FRAME_LEN + 1] == HwOp::Drain,
        forall|i: int| 0 < i < frame_trace(u).len() ==> #[trigger] frame_trace(u)[i] != HwOp::Restart,
{
    let t = frame_trace(u);
    assert forall|i: int| 0 < i < t.len() implies #[trigger] t[i] != HwOp::Restart by {
        if i <= DMX_FRAME_LEN {
            assert(t[i] == HwOp::Write(frame_bytes(u)[i - 1]));
        }
    }
}

/// Sending a universe `u`, whatever the caller reports in between, the
/// operations done so far always begin the frame of `u`; once the
/// transmitter is idle again they are the whole frame of `u`.
pub proof fn lemma_frame_sent(s0: FrameState, u: Seq<u8>, evs: Seq<Event>)
    requires
        frame_wf(s0),
        s0.phase == Phase::Idle,
        u.len() == DMX_UNIVERSE_SIZE,
    ensures
        frame_wf(run(begin_spec(s0, u), evs)),
        run(begin_spec(s0, u), evs).universe == u,
        run(begin_spec(s0, u), evs).trace == frame_trace(u).take(
            run(begin_spec(s0, u), evs).trace.len() as int,
        ),
        run(begin_spec(s0, u), evs).phase == Phase::Idle ==> run(begin_spec(s0, u), evs).trace
            == frame_trace(u),
{
    lemma_sent_from(begin_spec(s0, u), evs);
}

proof fn lemma_sent_from(s: FrameState, evs: Seq<Event>)
    requires
        frame_wf(s),
        s.phase != Phase::Idle || s.trace == frame_trace(s.universe),
    ensures
        frame_wf(run(s, evs)),
        run(s, evs).universe == s.universe,
        run(s, evs).trace == frame_trace(s.universe).take(run(s, evs).trace.len() as int),
        run(s, evs).phase == Phase::Idle ==> run(s, evs).trace == frame_trace(s.universe),
    decreases evs.len(),
{
    let u = s.universe;
    if evs.len() == 0 {
        match s.phase {
            Phase::Idle => {
                assert(frame_trace(u).take(frame_trace(u).len() as int) =~= frame_trace(u));
            },
            Phase::Restart => {
                assert(frame_trace(u).take(0) =~= s.trace);
            },
            _ => {
                lemma_streamed_prefix(u, s.pos);
            },
        }
    } else {
        lemma_step_wf(s, evs[0]);
        lemma_sent_from(step_spec(s, evs[0]).0, evs.drop_first());
    }
}

/// Sending the same universe twice in succession gives two identical
/// frames.
pub proof fn lemma_resend_identical(
    s0: FrameState,
    u: Seq<u8>,
    evs1: Seq<Event>,
    evs2: Seq<Event>,
)
    requires
        frame_wf(s0),
        s0.phase == Phase::Idle,
        u.len() == DMX_UNIVERSE_SIZE,
        run(begin_spec(s0, u), evs1).phase == Phase::Idle,
        run(begin_spec(run(begin_spec(s0, u), evs1), u), evs2).phase == Phase::Idle,
    ensures
        run(begin_spec(s0, u), evs1).trace == run(
            begin_spec(run(begin_spec(s0, u), evs1), u),
            evs2,
        ).trace,
{
    let t1 = run(begin_spec(s0, u), evs1);
    lemma_frame_sent(s0, u, evs1);
    lemma_frame_sent(t1, u, evs2);
}

/// Full queue reports, any number of them, neither drop nor move the byte
/// being queued: it is asked for again, and once the queue takes it the
/// transmitter goes on to the next byte in order.
pub proof fn lemma_queue_full_retries(s: FrameState, n: nat)
    requires
        frame_wf(s),
        s.phase == Phase::Stream,
    ensures
        run(s, Seq::new(n, |i: int| Event::QueueFull)) == s,
        next_op_spec(run(s, Seq::new(n, |i: int| Event::QueueFull))) == Some(
            HwOp::Write(frame_bytes(s.universe)[s.pos as int]),
        ),
        run(s, Seq::new(n, |i: int| Event::QueueFull).push(Event::Accepted)).trace == s.trace.push(
            HwOp::Write(frame_bytes(s.universe)[s.pos as int]),
        ),
        run(s, Seq::new(n, |i: int| Event::QueueFull).push(Event::Accepted)).pos == s.pos + 1,
    decreases n,
{
    let full = Seq::new(n, |i: int| Event::QueueFull);
    lemma_run_full(s, n);
    lemma_run_append(s, full, seq![Event::Accepted]);
    assert(full.push(Event::Accepted) =~= full.add(seq![Event::Accepted]));
    let one = seq![Event::Accepted];
    assert(one.drop_first() =~= Seq::<Event>::empty());
    assert(run(step_spec(s, Event::Accepted).0, one.drop_first()) == step_spec(s, Event::Accepted).0);
    assert(run(s, one) == step_spec(s, Event::Accepted).0);
}

proof fn lemma_run_full(s: FrameState, n: nat)
    requires
        s.phase == Phase::Stream,
    ensures
        run(s, Seq::new(n, |i: int| Event::QueueFull)) == s,
    decreases n,
{
    if n > 0 {
        let full = Seq::new(n, |i: int| Event::QueueFull);
        assert(full.drop_first() =~= Seq::new((n - 1) as nat, |i: int| Event::QueueFull));
        lemma_run_full(s, (n - 1) as nat);
    }
}

} // verus!
