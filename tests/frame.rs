use pico_dmx::engine::DmxPIO;
use pico_dmx::frame::{Dmx, Event, HwOp, TransmitError};

fn transmitter() -> Dmx {
    Dmx::new(DmxPIO::new(2, Some(0), 13, 125_000_000).unwrap())
}

/// Runs one frame against an in-memory queue that reports full `full_polls`
/// times before each byte it takes; returns the operations performed.
fn run_frame(dmx: &mut Dmx, full_polls: usize) -> Vec<HwOp> {
    let mut ops = Vec::new();
    let mut full_left = full_polls;
    while let Some(op) = dmx.next_op() {
        let ev = match op {
            HwOp::Restart => Event::Restarted,
            HwOp::Write(_) => {
                if full_left > 0 {
                    full_left -= 1;
                    let before = dmx.next_op();
                    assert!(dmx.step(Event::QueueFull));
                    assert_eq!(dmx.next_op(), before);
                    continue;
                }
                full_left = full_polls;
                Event::Accepted
            }
            HwOp::Drain => Event::Drained,
        };
        ops.push(op);
        assert!(dmx.step(ev));
    }
    ops
}

fn written(ops: &[HwOp]) -> Vec<u8> {
    ops.iter()
        .filter_map(|o| match o {
            HwOp::Write(b) => Some(*b),
            _ => None,
        })
        .collect()
}

fn check_frame(ops: &[HwOp], universe: &[u8; 512]) {
    assert_eq!(ops.len(), 515);
    assert_eq!(ops[0], HwOp::Restart);
    assert_eq!(ops[514], HwOp::Drain);
    assert_eq!(ops.iter().filter(|o| **o == HwOp::Restart).count(), 1);
    let bytes = written(ops);
    assert_eq!(bytes.len(), 513);
    assert_eq!(bytes[0], 0);
    assert_eq!(&bytes[1..], &universe[..]);
}

#[test]
fn short_universe_is_padded_with_zeros() {
    let mut u = [0u8; 512];
    u[..4].copy_from_slice(&[1, 2, 3, 4]);
    let mut dmx = transmitter();
    dmx.send_universe(&u).unwrap();
    let ops = run_frame(&mut dmx, 0);
    let bytes = written(&ops);
    let mut expected = vec![0u8, 1, 2, 3, 4];
    expected.resize(513, 0);
    assert_eq!(bytes, expected);
    assert!(dmx.is_idle());
}

#[test]
fn every_channel_in_index_order() {
    let mut u = [0u8; 512];
    for (i, c) in u.iter_mut().enumerate() {
        *c = (i * 7 + 3) as u8;
    }
    let mut dmx = transmitter();
    dmx.send_universe(&u).unwrap();
    let ops = run_frame(&mut dmx, 0);
    check_frame(&ops, &u);
}

#[test]
fn restart_comes_first_and_once() {
    let u = [9u8; 512];
    let mut dmx = transmitter();
    dmx.send_universe(&u).unwrap();
    assert_eq!(dmx.next_op(), Some(HwOp::Restart));
    assert!(dmx.step(Event::Restarted));
    assert_eq!(dmx.next_op(), Some(HwOp::Write(0)));
    assert!(dmx.step(Event::Accepted));
    assert_eq!(dmx.next_op(), Some(HwOp::Write(9)));
    // A second restart report mid-frame is not taken.
    assert!(!dmx.step(Event::Restarted));
    assert_eq!(dmx.next_op(), Some(HwOp::Write(9)));
}

#[test]
fn same_universe_twice_gives_identical_frames() {
    let mut u = [0u8; 512];
    for (i, c) in u.iter_mut().enumerate() {
        *c = (i % 251) as u8;
    }
    let mut dmx = transmitter();
    dmx.send_universe(&u).unwrap();
    let first = run_frame(&mut dmx, 0);
    dmx.send_universe(&u).unwrap();
    let second = run_frame(&mut dmx, 2);
    assert_eq!(first, second);
    check_frame(&second, &u);
}

#[test]
fn all_zero_and_all_ff_universes() {
    for v in [0u8, 0xFF] {
        let u = [v; 512];
        let mut dmx = transmitter();
        dmx.send_universe(&u).unwrap();
        let ops = run_frame(&mut dmx, 0);
        check_frame(&ops, &u);
    }
}

#[test]
fn full_queue_delays_but_keeps_each_byte() {
    let mut u = [0u8; 512];
    for (i, c) in u.iter_mut().enumerate() {
        *c = (255 - i % 256) as u8;
    }
    let mut dmx = transmitter();
    dmx.send_universe(&u).unwrap();
    let ops = run_frame(&mut dmx, 5);
    check_frame(&ops, &u);
}

#[test]
fn send_while_busy_is_refused() {
    let mut dmx = transmitter();
    dmx.send_universe(&[1u8; 512]).unwrap();
    assert_eq!(dmx.send_universe(&[2u8; 512]), Err(TransmitError::Busy));
    let ops = run_frame(&mut dmx, 0);
    check_frame(&ops, &[1u8; 512]);
}

#[test]
fn idle_transmitter_asks_nothing() {
    let mut dmx = transmitter();
    assert!(dmx.is_idle());
    assert_eq!(dmx.next_op(), None);
    assert!(!dmx.step(Event::Accepted));
    assert!(!dmx.step(Event::Drained));
    assert_eq!(dmx.engine().pin(), 2);
}

#[test]
fn unexpected_events_change_nothing() {
    let mut dmx = transmitter();
    dmx.send_universe(&[5u8; 512]).unwrap();
    assert!(!dmx.step(Event::Accepted));
    assert!(!dmx.step(Event::QueueFull));
    assert!(!dmx.step(Event::Drained));
    assert_eq!(dmx.next_op(), Some(HwOp::Restart));
}
