use profirust::decimal::append_decimal;
use profirust::dp::DpStatistics;

#[test]
fn default_statistics_are_zero() {
    let s = DpStatistics::default();
    assert_eq!(s.cycles_completed, 0);
    assert_eq!(s.data_exchanges, 0);
    assert_eq!(s.correct_data_received, 0);
    assert_eq!(s.retries, 0);
    assert_eq!(s.timeouts, 0);
    assert_eq!(s.offline_events, 0);
    assert_eq!(s.diagnostics_events, 0);
    assert_eq!(s.crc_errors, 0);
    assert_eq!(s.malformed_telegrams, 0);
    assert_eq!(s.framing_errors, 0);
    assert_eq!(s.invalid_fc_errors, 0);
    assert_eq!(s.unexpected_telegrams, 0);
    assert_eq!(s.token_losses, 0);
    assert_eq!(s.collisions, 0);
    assert_eq!(s.rx_buffer_overruns, 0);
    assert!(!s.first_data_exchanged);
    assert_eq!(s.expected_data, Some(&[0x03u8, 0x0C][..]));
}

#[test]
fn cycles_count_only_after_first_exchange() {
    let mut s = DpStatistics::default();
    s.inc_cycles();
    s.inc_cycles();
    assert_eq!(s.cycles_completed, 0);
    s.mark_first_data_exchanged();
    s.mark_first_data_exchanged();
    s.inc_cycles();
    assert_eq!(s.cycles_completed, 1);
    s.inc_cycles();
    assert_eq!(s.cycles_completed, 2);
}

#[test]
fn cycles_at_the_limit_are_left_alone_before_first_exchange() {
    let mut s = DpStatistics::default();
    s.cycles_completed = u64::MAX;
    s.inc_cycles();
    assert_eq!(s.cycles_completed, u64::MAX);
}

#[test]
fn every_event_has_its_own_counter() {
    let mut s = DpStatistics::default();
    let events: [fn(&mut DpStatistics); 14] = [
        DpStatistics::inc_data_exchanges,
        DpStatistics::inc_correct,
        DpStatistics::inc_retries,
        DpStatistics::inc_timeouts,
        DpStatistics::inc_rx_overruns,
        DpStatistics::inc_offline,
        DpStatistics::inc_diagnostics,
        DpStatistics::inc_crc_errors,
        DpStatistics::inc_malformed,
        DpStatistics::inc_framing_error,
        DpStatistics::inc_invalid_fc,
        DpStatistics::inc_unexpected,
        DpStatistics::inc_token_loss,
        DpStatistics::inc_collision,
    ];
    for (i, event) in events.iter().enumerate() {
        for _ in 0..=i {
            event(&mut s);
        }
    }
    assert_eq!(s.data_exchanges, 1);
    assert_eq!(s.correct_data_received, 2);
    assert_eq!(s.retries, 3);
    assert_eq!(s.timeouts, 4);
    assert_eq!(s.rx_buffer_overruns, 5);
    assert_eq!(s.offline_events, 6);
    assert_eq!(s.diagnostics_events, 7);
    assert_eq!(s.crc_errors, 8);
    assert_eq!(s.malformed_telegrams, 9);
    assert_eq!(s.framing_errors, 10);
    assert_eq!(s.invalid_fc_errors, 11);
    assert_eq!(s.unexpected_telegrams, 12);
    assert_eq!(s.token_losses, 13);
    assert_eq!(s.collisions, 14);
    assert_eq!(s.cycles_completed, 0);
    assert!(!s.first_data_exchanged);
}

#[test]
fn order_of_events_does_not_matter() {
    let mut a = DpStatistics::default();
    a.inc_retries();
    a.inc_timeouts();
    let mut b = DpStatistics::default();
    b.inc_timeouts();
    b.inc_retries();
    assert_eq!(format!("{:?}", a), format!("{:?}", b));
}

#[test]
fn clone_keeps_everything() {
    let mut s = DpStatistics::default();
    s.mark_first_data_exchanged();
    s.inc_cycles();
    s.inc_collision();
    s.expected_data = None;
    let t = s.clone();
    assert_eq!(format!("{:?}", s), format!("{:?}", t));
}

#[test]
fn ratio_needs_a_data_exchange() {
    let mut s = DpStatistics::default();
    s.inc_correct();
    assert_eq!(s.ok_ratio(), None);
    s.inc_data_exchanges();
    s.inc_data_exchanges();
    assert_eq!(s.ok_ratio(), Some((1, 2)));
}

#[test]
fn summary_lines() {
    let mut s = DpStatistics::default();
    s.cycles_completed = 1234567890;
    s.data_exchanges = 8;
    s.correct_data_received = 7;
    s.retries = 1;
    s.timeouts = 20;
    s.offline_events = 300;
    s.diagnostics_events = 4;
    s.crc_errors = 10;
    s.malformed_telegrams = 11;
    s.framing_errors = 12;
    s.invalid_fc_errors = 13;
    s.unexpected_telegrams = 14;
    s.token_losses = 15;
    s.collisions = 16;
    s.rx_buffer_overruns = u64::MAX;
    let (correct, data) = s.ok_ratio().unwrap();
    let pct = format!("{:.1}", (correct as f64 / data as f64) * 100.0);
    let (dp, link) = s.log_summary(&pct);
    assert_eq!(
        dp,
        "DP: cycles=1234567890 data_ok=87.5% (7/8) retries=1 timeouts=20 offline=300 diag=4"
    );
    assert_eq!(
        link,
        "Link: crc=10 malformed=11 framing=12 bad_fc=13 unexpected=14 token_loss=15 collisions=16 rx_overrun=18446744073709551615"
    );
}

#[test]
fn summary_of_default_statistics() {
    let (dp, link) = DpStatistics::default().log_summary("");
    assert_eq!(dp, "DP: cycles=0 data_ok=0.0% (0/0) retries=0 timeouts=0 offline=0 diag=0");
    assert_eq!(
        link,
        "Link: crc=0 malformed=0 framing=0 bad_fc=0 unexpected=0 token_loss=0 collisions=0 rx_overrun=0"
    );
}

#[test]
fn decimal_agrees_with_std() {
    for n in [0, 1, 9, 10, 11, 99, 100, 1001, 65535, u64::MAX - 1, u64::MAX] {
        let mut text = String::from("n=");
        append_decimal(&mut text, n);
        assert_eq!(text, format!("n={}", n));
    }
}
