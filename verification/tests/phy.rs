use profirust::phy::{
    trace_window, DropReport, PhyData, PinLevel, PollAction, PollEvent, ReadReply, Rp2040Phy,
    Rp2040PioPhy,
};
use profirust::time::{Duration, Instant};
use profirust::Baudrate;

fn at(micros: i64) -> Instant {
    Instant::from_micros(micros)
}

fn phy(size: usize) -> Rp2040Phy {
    let baudrate = Baudrate::new(3_000_000, 4, 3, Duration::from_micros(0)).unwrap();
    Rp2040Phy::new(vec![0; size], baudrate).0
}

fn pio_phy(size: usize) -> Rp2040PioPhy {
    let baudrate = Baudrate::new(9600, 1, 0, Duration::from_micros(104)).unwrap();
    Rp2040PioPhy::new(vec![0; size], baudrate, 125_000_000).0
}

fn fill(telegram: &'static [u8]) -> impl FnOnce(&mut [u8]) -> (usize, usize) {
    move |buffer: &mut [u8]| {
        buffer[..telegram.len()].copy_from_slice(telegram);
        (telegram.len(), buffer.len())
    }
}

/// One whole poll with a UART that takes up to `takes` bytes. Returns what the poll returns.
fn poll(
    phy: &mut Rp2040Phy,
    now: i64,
    takes: usize,
    busy: bool,
    wire: &mut Vec<u8>,
    line: &mut PinLevel,
) -> bool {
    let mut event = PollEvent::Poll { now: at(now) };
    loop {
        match phy.poll_transmission(event) {
            PollAction::Return(in_progress) => return in_progress,
            PollAction::Write => {
                let pending = phy.data().pending();
                let n = takes.min(pending.len());
                wire.extend_from_slice(&pending[..n]);
                event = if n == 0 {
                    PollEvent::WouldBlock
                } else {
                    PollEvent::Written { remaining: pending.len() - n }
                };
            }
            PollAction::QueryBusy => event = PollEvent::Busy { busy },
            PollAction::Release(level) => {
                *line = level;
                return false;
            }
        }
    }
}

#[test]
fn modes_of_phy_data() {
    let mut data = PhyData::new(vec![1, 2, 3]);
    assert!(data.is_rx());
    assert!(!data.is_tx());
    data.make_rx();
    assert!(data.is_rx());
    data.start_transmission(2, at(5));
    assert!(data.is_tx());
    assert!(!data.is_rx());
    assert_eq!(data.pending(), [1, 2]);
    assert_eq!(data.received(), []);
    assert_eq!(data.received_len(), 0);
    data.make_rx();
    assert!(data.is_rx());
    assert_eq!(data.received_len(), 0);
    assert_eq!(data.pending(), []);
    assert_eq!(data.buffer_mut(), [1, 2, 3]);
}

#[test]
fn make_rx_keeps_received_bytes_in_receive_mode() {
    let mut data = PhyData::new(vec![1, 2, 3]);
    data.accept_read(ReadReply::Received(2));
    data.make_rx();
    assert_eq!(data.received(), [1, 2]);
}

#[test]
fn idle_phy_reports_no_transmission() {
    let mut phy = phy(8);
    assert_eq!(phy.poll_transmission(PollEvent::Poll { now: at(0) }), PollAction::Return(false));
}

#[test]
fn telegram_goes_out_whole_after_setup_time() {
    let mut phy = phy(8);
    let mut line = PinLevel::Low;
    let mut wire = Vec::new();
    let (size, level) = phy.transmit_data(at(1000), fill(&[10, 20, 30, 40, 50]));
    assert_eq!(size, 8);
    assert_eq!(level, Some(PinLevel::High));
    line = level.unwrap_or(line);

    // Setup time: nothing is sent.
    assert!(poll(&mut phy, 1000, 8, false, &mut wire, &mut line));
    assert!(poll(&mut phy, 1001, 8, false, &mut wire, &mut line));
    assert_eq!(wire, []);
    // The UART takes the telegram bit by bit.
    assert!(poll(&mut phy, 1002, 2, false, &mut wire, &mut line));
    assert_eq!(wire, [10, 20]);
    assert!(poll(&mut phy, 1003, 0, false, &mut wire, &mut line));
    assert_eq!(wire, [10, 20]);
    assert!(poll(&mut phy, 1004, 2, false, &mut wire, &mut line));
    assert!(poll(&mut phy, 1005, 2, false, &mut wire, &mut line));
    assert_eq!(wire, [10, 20, 30, 40, 50]);
    assert_eq!(line, PinLevel::High);
    // The UART shifts out the last bytes.
    assert!(poll(&mut phy, 1006, 8, true, &mut wire, &mut line));
    assert_eq!(line, PinLevel::High);
    assert!(phy.data().is_tx());
    assert!(!poll(&mut phy, 1007, 8, false, &mut wire, &mut line));
    assert_eq!(line, PinLevel::Low);
    assert!(phy.data().is_rx());
    assert_eq!(phy.data().received_len(), 0);
    // Nothing more is sent.
    assert!(!poll(&mut phy, 1008, 8, false, &mut wire, &mut line));
    assert_eq!(wire, [10, 20, 30, 40, 50]);
}

#[test]
fn poll_asks_for_one_thing_at_a_time() {
    let mut phy = phy(4);
    phy.transmit_data(at(0), fill(&[7]));
    assert_eq!(phy.poll_transmission(PollEvent::Poll { now: at(1) }), PollAction::Return(true));
    assert_eq!(phy.poll_transmission(PollEvent::Poll { now: at(2) }), PollAction::Write);
    assert_eq!(phy.poll_transmission(PollEvent::WouldBlock), PollAction::Return(true));
    assert_eq!(phy.poll_transmission(PollEvent::Poll { now: at(2) }), PollAction::Write);
    assert_eq!(
        phy.poll_transmission(PollEvent::Written { remaining: 0 }),
        PollAction::Return(true)
    );
    assert_eq!(phy.poll_transmission(PollEvent::Poll { now: at(2) }), PollAction::QueryBusy);
    assert_eq!(phy.poll_transmission(PollEvent::Busy { busy: true }), PollAction::Return(true));
    assert_eq!(
        phy.poll_transmission(PollEvent::Busy { busy: false }),
        PollAction::Release(PinLevel::Low)
    );
}

#[test]
fn transmission_ends_within_one_poll_per_byte_and_one_more() {
    let mut phy = phy(8);
    let (mut wire, mut line) = (Vec::new(), PinLevel::High);
    phy.transmit_data(at(0), fill(&[1, 2, 3]));
    for i in 0..3 {
        assert!(poll(&mut phy, 10 + i, 1, false, &mut wire, &mut line));
    }
    assert!(!poll(&mut phy, 13, 1, false, &mut wire, &mut line));
}

#[test]
fn empty_telegram_is_not_sent() {
    let mut phy = phy(4);
    phy.spare_mut()[..2].copy_from_slice(&[5, 6]);
    phy.receive_data(ReadReply::Received(2), |_| (0, ()));
    let (res, level) = phy.transmit_data(at(0), |buffer: &mut [u8]| {
        buffer[0] = 9;
        (0, "nothing")
    });
    assert_eq!(res, "nothing");
    assert_eq!(level, None);
    assert!(phy.data().is_rx());
    // The received length stays, what was written into the buffer too.
    assert_eq!(phy.data().received(), [9, 6]);
}

#[test]
fn received_bytes_are_put_together() {
    let mut phy = phy(8);
    assert_eq!(phy.spare_mut().len(), 8);
    phy.spare_mut()[..3].copy_from_slice(&[1, 2, 3]);
    let (seen, report) = phy.receive_data(ReadReply::Received(3), |bytes| (0, bytes.to_vec()));
    assert_eq!(seen, [1, 2, 3]);
    assert_eq!(report, DropReport::Kept);

    assert_eq!(phy.spare_mut().len(), 5);
    let (seen, _) = phy.receive_data(ReadReply::WouldBlock, |bytes| (0, bytes.to_vec()));
    assert_eq!(seen, [1, 2, 3]);

    // Bytes that come with an error do not count.
    phy.spare_mut()[0] = 99;
    let (seen, _) = phy.receive_data(ReadReply::Failed, |bytes| (0, bytes.to_vec()));
    assert_eq!(seen, [1, 2, 3]);

    phy.spare_mut()[..2].copy_from_slice(&[4, 5]);
    let (seen, report) =
        phy.receive_data(ReadReply::Received(2), |bytes| (bytes.len(), bytes.to_vec()));
    assert_eq!(seen, [1, 2, 3, 4, 5]);
    assert_eq!(report, DropReport::Dropped);
    assert_eq!(phy.data().received_len(), 0);
    assert_eq!(phy.spare_mut().len(), 8);
}

#[test]
fn partial_drop_empties_the_buffer() {
    let mut phy = phy(8);
    phy.spare_mut()[..3].copy_from_slice(&[1, 2, 3]);
    let (_, report) = phy.receive_data(ReadReply::Received(3), |_| (2, ()));
    assert_eq!(report, DropReport::Partial { dropped: 2, length: 3 });
    assert_eq!(phy.data().received_len(), 0);

    // More than was received.
    let (_, report) = phy.receive_data(ReadReply::WouldBlock, |_| (4, ()));
    assert_eq!(report, DropReport::Partial { dropped: 4, length: 0 });
    assert_eq!(phy.data().received_len(), 0);

    // Nothing received and nothing dropped.
    let (_, report) = phy.receive_data(ReadReply::WouldBlock, |_| (0, ()));
    assert_eq!(report, DropReport::Kept);
}

#[test]
fn full_buffer_has_no_room() {
    let mut phy = phy(2);
    phy.receive_data(ReadReply::Received(2), |_| (0, ()));
    assert_eq!(phy.spare_mut().len(), 0);
    let (seen, _) = phy.receive_data(ReadReply::Received(0), |bytes| (0, bytes.len()));
    assert_eq!(seen, 2);
}

#[test]
fn trace_window_is_limited() {
    let bytes: Vec<u8> = (0..30).collect();
    assert_eq!(trace_window(&bytes), &bytes[..20]);
    assert_eq!(trace_window(&bytes[..20]), &bytes[..20]);
    assert_eq!(trace_window(&bytes[..19]), &bytes[..19]);
    assert_eq!(trace_window(&[]), &[] as &[u8]);
}

#[test]
fn pio_phy_drives_the_line_by_fifo_words() {
    let mut phy = pio_phy(8);
    let (size, word) = phy.transmit_data(at(50), fill(&[1, 2]));
    assert_eq!(size, 8);
    assert_eq!(word, Some(1));
    assert_eq!(phy.poll_transmission(PollEvent::Poll { now: at(153) }), PollAction::Return(true));
    assert_eq!(phy.poll_transmission(PollEvent::Poll { now: at(154) }), PollAction::Write);
    assert_eq!(phy.data().pending(), [1, 2]);
    assert_eq!(
        phy.poll_transmission(PollEvent::Written { remaining: 1 }),
        PollAction::Return(true)
    );
    assert_eq!(phy.data().pending(), [2]);
    assert_eq!(phy.poll_transmission(PollEvent::Poll { now: at(155) }), PollAction::Write);
    assert_eq!(
        phy.poll_transmission(PollEvent::Written { remaining: 0 }),
        PollAction::Return(true)
    );
    assert_eq!(phy.poll_transmission(PollEvent::Poll { now: at(156) }), PollAction::QueryBusy);
    assert_eq!(phy.poll_transmission(PollEvent::Busy { busy: true }), PollAction::Return(true));
    assert_eq!(phy.poll_transmission(PollEvent::Poll { now: at(157) }), PollAction::QueryBusy);
    assert_eq!(phy.poll_transmission(PollEvent::Busy { busy: false }), PollAction::Release(0));
    assert!(phy.data().is_rx());
    assert_eq!(phy.poll_transmission(PollEvent::Poll { now: at(158) }), PollAction::Return(false));
}

#[test]
fn pio_phy_sends_no_empty_telegram() {
    let mut phy = pio_phy(8);
    let (_, word) = phy.transmit_data(at(0), fill(&[]));
    assert_eq!(word, None);
    assert!(phy.data().is_rx());
}

#[test]
fn pio_phy_receives() {
    let mut phy = pio_phy(4);
    phy.spare_mut()[..2].copy_from_slice(&[8, 9]);
    let (seen, report) = phy.receive_data(ReadReply::Received(2), |bytes| (0, bytes.to_vec()));
    assert_eq!(seen, [8, 9]);
    assert_eq!(report, DropReport::Kept);
    let (seen, report) = phy.receive_data(ReadReply::Failed, |bytes| (1, bytes.to_vec()));
    assert_eq!(seen, [8, 9]);
    assert_eq!(report, DropReport::Partial { dropped: 1, length: 2 });
    assert_eq!(phy.data().received_len(), 0);
}
