use pico_dmx::engine::DmxPIO;
use pico_dmx::frame::{Event, HwOp};
use pico_dmx::refresh::{ContinuousRefresh, RefreshError};

fn refresh() -> ContinuousRefresh {
    ContinuousRefresh::new(DmxPIO::new(3, Some(0), 13, 125_000_000).unwrap(), 25_000)
}

fn finish_frame(r: &mut ContinuousRefresh) -> Vec<u8> {
    let mut bytes = Vec::new();
    while let Some(op) = r.next_op() {
        let ev = match op {
            HwOp::Restart => Event::Restarted,
            HwOp::Write(b) => {
                bytes.push(b);
                Event::Accepted
            }
            HwOp::Drain => Event::Drained,
        };
        assert!(r.step(ev));
    }
    bytes
}

#[test]
fn channel_index_out_of_range() {
    let mut r = refresh();
    assert_eq!(r.write_channel(512, 1), Err(RefreshError::ChannelOutOfRange));
    assert_eq!(r.write_channel(u16::MAX, 1), Err(RefreshError::ChannelOutOfRange));
    assert_eq!(r.write_channel(511, 1), Ok(()));
    assert_eq!(r.pending()[511], 1);
}

#[test]
fn tick_sends_the_pending_universe() {
    let mut r = refresh();
    assert_eq!(r.tick_period_us(), 25_000);
    r.write_channel(0, 10).unwrap();
    r.write_channel(7, 70).unwrap();
    assert_eq!(r.active()[0], 0);
    assert_eq!(r.tick(), Ok(()));
    assert!(r.is_transmitting());
    assert_eq!(r.active()[0], 10);
    assert_eq!(r.pending()[7], 70);
    let bytes = finish_frame(&mut r);
    assert_eq!(bytes.len(), 513);
    assert_eq!(bytes[0], 0);
    assert_eq!(bytes[1], 10);
    assert_eq!(bytes[8], 70);
}

#[test]
fn writes_during_a_frame_do_not_touch_it() {
    let mut r = refresh();
    r.write_channel(1, 11).unwrap();
    r.tick().unwrap();
    r.write_channel(1, 99).unwrap();
    assert_eq!(r.active()[1], 11);
    let bytes = finish_frame(&mut r);
    assert_eq!(bytes[2], 11);
    r.tick().unwrap();
    let bytes = finish_frame(&mut r);
    assert_eq!(bytes[2], 99);
}

#[test]
fn overrun_tick_is_dropped_and_counted() {
    let mut r = refresh();
    r.tick().unwrap();
    assert_eq!(r.tick(), Err(RefreshError::QueueOverrunDropped));
    assert_eq!(r.tick(), Err(RefreshError::QueueOverrunDropped));
    assert_eq!(r.dropped_ticks(), 2);
    let bytes = finish_frame(&mut r);
    assert_eq!(bytes.len(), 513);
    assert!(!r.is_transmitting());
    assert_eq!(r.tick(), Ok(()));
    assert_eq!(r.dropped_ticks(), 2);
}
