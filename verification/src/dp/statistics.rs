//! Statistical counters for the DP master.
use vstd::prelude::*;

use crate::decimal::append_decimal;

verus! {

/// Statistical counters for the DP master.
///
/// These counters track the number of successful and failed cycles, retransmissions, timeouts,
/// and other events that help assess link quality.
#[derive(Debug)]
pub struct DpStatistics {
    /// Number of completed polling cycles (all peripherals processed).
    pub cycles_completed: u64,
    /// Number of successful data exchange cycles (received valid PDU).
    pub data_exchanges: u64,
    /// Number of correct data exchange cycles (received expected PDU).
    pub correct_data_received: u64,
    /// Number of request retries (first retry for any reason).
    pub retries: u64,
    /// Number of timeouts waiting for a reply.
    pub timeouts: u64,
    /// Number of times a peripheral went offline (max retries exceeded).
    pub offline_events: u64,
    /// Number of times a diagnostics request was made (separate from data exchange).
    pub diagnostics_events: u64,
    /// Number of CRC errors detected in received telegrams.
    pub crc_errors: u64,
    /// Number of length/structure errors (LE/LEr, too short, DSAP/SSAP missing, etc.).
    pub malformed_telegrams: u64,
    /// Number of telegrams with bad start/end delimiters (corrupted framing).
    pub framing_errors: u64,
    /// Number of telegrams with invalid function codes.
    pub invalid_fc_errors: u64,
    /// Number of unexpected telegrams received (reply from wrong address).
    pub unexpected_telegrams: u64,
    /// Number of times the token was lost.
    pub token_losses: u64,
    /// Number of address collisions detected.
    pub collisions: u64,
    /// Number of times the receive buffer had to be dropped (overrun).
    pub rx_buffer_overruns: u64,
    /// When set, each successful data exchange telegram that matches this pattern counts as
    /// correct.
    pub expected_data: Option<&'static [u8]>,
    /// Has there been a successful data exchange?
    pub first_data_exchanged: bool,
}

/// The mathematical counterpart of [`DpStatistics`].
#[verifier::ext_equal]
pub struct StatisticsModel {
    pub cycles_completed: nat,
    pub data_exchanges: nat,
    pub correct_data_received: nat,
    pub retries: nat,
    pub timeouts: nat,
    pub offline_events: nat,
    pub diagnostics_events: nat,
    pub crc_errors: nat,
    pub malformed_telegrams: nat,
    pub framing_errors: nat,
    pub invalid_fc_errors: nat,
    pub unexpected_telegrams: nat,
    pub token_losses: nat,
    pub collisions: nat,
    pub rx_buffer_overruns: nat,
    pub expected_data: Option<Seq<u8>>,
    pub first_data_exchanged: bool,
}

/// What the statistics are told of.
pub enum DpEvent {
    /// A polling cycle was completed.
    Cycle,
    /// The first data exchange has occurred.
    FirstDataExchange,
    /// A data exchange.
    DataExchange,
    /// A data exchange with the expected data.
    CorrectData,
    /// A retry of a request.
    Retry,
    /// A timeout.
    Timeout,
    /// An overrun of the receive buffer.
    RxOverrun,
    /// A peripheral that went offline.
    Offline,
    /// A diagnostics request.
    Diagnostics,
    /// A CRC error.
    CrcError,
    /// A malformed telegram.
    Malformed,
    /// A framing error.
    FramingError,
    /// An invalid function code.
    InvalidFc,
    /// An unexpected telegram.
    Unexpected,
    /// A lost token.
    TokenLoss,
    /// An address collision.
    Collision,
}

impl StatisticsModel {
    /// The statistics before anything has happened.
    pub open spec fn initial() -> StatisticsModel {
        StatisticsModel {
            cycles_completed: 0,
            data_exchanges: 0,
            correct_data_received: 0,
            retries: 0,
            timeouts: 0,
            offline_events: 0,
            diagnostics_events: 0,
            crc_errors: 0,
            malformed_telegrams: 0,
            framing_errors: 0,
            invalid_fc_errors: 0,
            unexpected_telegrams: 0,
            token_losses: 0,
            collisions: 0,
            rx_buffer_overruns: 0,
            expected_data: Some(seq![0x03u8, 0x0Cu8]),
            first_data_exchanged: false,
        }
    }

    /// The statistics after an event. Each event is counted on its own counter; cycles are not
    /// counted before the first data exchange.
    pub open spec fn after(self, event: DpEvent) -> StatisticsModel {
        match event {
            DpEvent::Cycle => if self.first_data_exchanged {
                StatisticsModel { cycles_completed: self.cycles_completed + 1, ..self }
            } else {
                self
            },
            DpEvent::FirstDataExchange => StatisticsModel { first_data_exchanged: true, ..self },
            DpEvent::DataExchange => StatisticsModel {
                data_exchanges: self.data_exchanges + 1,
                ..self
            },
            DpEvent::CorrectData => StatisticsModel {
                correct_data_received: self.correct_data_received + 1,
                ..self
            },
            DpEvent::Retry => StatisticsModel {
                retries: self.retries + 1,
                ..self
            },
            DpEvent::Timeout => StatisticsModel {
                timeouts: self.timeouts + 1,
                ..self
            },
            DpEvent::RxOverrun => StatisticsModel {
                rx_buffer_overruns: self.rx_buffer_overruns + 1,
                ..self
            },
            DpEvent::Offline => StatisticsModel {
                offline_events: self.offline_events + 1,
                ..self
            },
            DpEvent::Diagnostics => StatisticsModel {
                diagnostics_events: self.diagnostics_events + 1,
                ..self
            },
            DpEvent::CrcError => StatisticsModel {
                crc_errors: self.crc_errors + 1,
                ..self
            },
            DpEvent::Malformed => StatisticsModel {
                malformed_telegrams: self.malformed_telegrams + 1,
                ..self
            },
            DpEvent::FramingError => StatisticsModel {
                framing_errors: self.framing_errors + 1,
                ..self
            },
            DpEvent::InvalidFc => StatisticsModel {
                invalid_fc_errors: self.invalid_fc_errors + 1,
                ..self
            },
            DpEvent::Unexpected => StatisticsModel {
                unexpected_telegrams: self.unexpected_telegrams + 1,
                ..self
            },
            DpEvent::TokenLoss => StatisticsModel {
                token_losses: self.token_losses + 1,
                ..self
            },
            DpEvent::Collision => StatisticsModel {
                collisions: self.collisions + 1,
                ..self
            },
        }
    }

    /// The part of the data exchanges that were correct, as a numerator and a denominator;
    /// `None` before the first data exchange is counted.
    pub open spec fn ok_ratio(self) -> Option<(nat, nat)> {
        if self.data_exchanges > 0 {
            Some((self.correct_data_received, self.data_exchanges))
        } else {
            None
        }
    }

    /// The first line of the summary. `ok_pct` is the percentage of correct data exchanges, which
    /// is taken to be zero as long as there are none.
    pub open spec fn dp_line(self, ok_pct: Seq<char>) -> Seq<char> {
        "DP: cycles="@
            + crate::decimal::decimal(self.cycles_completed)
            + " data_ok="@
            + (if self.data_exchanges > 0 { ok_pct } else { "0.0"@ })
            + "% ("@
            + crate::decimal::decimal(self.correct_data_received)
            + "/"@
            + crate::decimal::decimal(self.data_exchanges)
            + ") retries="@
            + crate::decimal::decimal(self.retries)
            + " timeouts="@
            + crate::decimal::decimal(self.timeouts)
            + " offline="@
            + crate::decimal::decimal(self.offline_events)
            + " diag="@
            + crate::decimal::decimal(self.diagnostics_events)
    }

    /// The second line of the summary.
    pub open spec fn link_line(self) -> Seq<char> {
        "Link: crc="@
            + crate::decimal::decimal(self.crc_errors)
            + " malformed="@
            + crate::decimal::decimal(self.malformed_telegrams)
            + " framing="@
            + crate::decimal::decimal(self.framing_errors)
            + " bad_fc="@
            + crate::decimal::decimal(self.invalid_fc_errors)
            + " unexpected="@
            + crate::decimal::decimal(self.unexpected_telegrams)
            + " token_loss="@
            + crate::decimal::decimal(self.token_losses)
            + " collisions="@
            + crate::decimal::decimal(self.collisions)
            + " rx_overrun="@
            + crate::decimal::decimal(self.rx_buffer_overruns)
    }

    /// The statistics after a series of events.
    pub open spec fn after_all(self, events: Seq<DpEvent>) -> StatisticsModel
        decreases events.len(),
    {
        if events.len() == 0 {
            self
        } else {
            self.after_all(events.drop_last()).after(events.last())
        }
    }

    /// The counter that an event is counted on; `None` for the event that only sets a mark.
    pub open spec fn counter(self, event: DpEvent) -> Option<nat> {
        match event {
            DpEvent::Cycle => Some(self.cycles_completed),
            DpEvent::FirstDataExchange => None,
            DpEvent::DataExchange => Some(self.data_exchanges),
            DpEvent::CorrectData => Some(self.correct_data_received),
            DpEvent::Retry => Some(self.retries),
            DpEvent::Timeout => Some(self.timeouts),
            DpEvent::RxOverrun => Some(self.rx_buffer_overruns),
            DpEvent::Offline => Some(self.offline_events),
            DpEvent::Diagnostics => Some(self.diagnostics_events),
            DpEvent::CrcError => Some(self.crc_errors),
            DpEvent::Malformed => Some(self.malformed_telegrams),
            DpEvent::FramingError => Some(self.framing_errors),
            DpEvent::InvalidFc => Some(self.invalid_fc_errors),
            DpEvent::Unexpected => Some(self.unexpected_telegrams),
            DpEvent::TokenLoss => Some(self.token_losses),
            DpEvent::Collision => Some(self.collisions),
        }
    }
}

impl View for DpStatistics {
    type V = StatisticsModel;

    open spec fn view(&self) -> StatisticsModel {
        StatisticsModel {
            cycles_completed: self.cycles_completed as nat,
            data_exchanges: self.data_exchanges as nat,
            correct_data_received: self.correct_data_received as nat,
            retries: self.retries as nat,
            timeouts: self.timeouts as nat,
            offline_events: self.offline_events as nat,
            diagnostics_events: self.diagnostics_events as nat,
            crc_errors: self.crc_errors as nat,
            malformed_telegrams: self.malformed_telegrams as nat,
            framing_errors: self.framing_errors as nat,
            invalid_fc_errors: self.invalid_fc_errors as nat,
            unexpected_telegrams: self.unexpected_telegrams as nat,
            token_losses: self.token_losses as nat,
            collisions: self.collisions as nat,
            rx_buffer_overruns: self.rx_buffer_overruns as nat,
            expected_data: match self.expected_data {
                Some(pattern) => Some(pattern@),
                None => None,
            },
            first_data_exchanged: self.first_data_exchanged,
        }
    }
}

impl Default for DpStatistics {
    /// All counters are zero, and the expected data is set to a default pattern.
    fn default() -> (r: DpStatistics)
        ensures
            r@ == StatisticsModel::initial(),
    {
        DpStatistics {
            cycles_completed: 0,
            data_exchanges: 0,
            correct_data_received: 0,
            retries: 0,
            timeouts: 0,
            offline_events: 0,
            diagnostics_events: 0,
            crc_errors: 0,
            malformed_telegrams: 0,
            framing_errors: 0,
            invalid_fc_errors: 0,
            unexpected_telegrams: 0,
            token_losses: 0,
            collisions: 0,
            rx_buffer_overruns: 0,
            expected_data: Some(&[0x03, 0x0C]),
            first_data_exchanged: false,
        }
    }
}

impl Clone for DpStatistics {
    fn clone(&self) -> (r: DpStatistics)
        ensures
            r@ == self@,
    {
        DpStatistics {
            cycles_completed: self.cycles_completed,
            data_exchanges: self.data_exchanges,
            correct_data_received: self.correct_data_received,
            retries: self.retries,
            timeouts: self.timeouts,
            offline_events: self.offline_events,
            diagnostics_events: self.diagnostics_events,
            crc_errors: self.crc_errors,
            malformed_telegrams: self.malformed_telegrams,
            framing_errors: self.framing_errors,
            invalid_fc_errors: self.invalid_fc_errors,
            unexpected_telegrams: self.unexpected_telegrams,
            token_losses: self.token_losses,
            collisions: self.collisions,
            rx_buffer_overruns: self.rx_buffer_overruns,
            expected_data: self.expected_data,
            first_data_exchanged: self.first_data_exchanged,
        }
    }
}

impl DpStatistics {
    /// The part of the data exchanges that were correct, as a numerator and a denominator;
    /// `None` before the first data exchange is counted.
    pub fn ok_ratio(&self) -> (r: Option<(u64, u64)>)
        ensures
            match r {
                Some((correct, data)) => self@.ok_ratio() == Some((correct as nat, data as nat)),
                None => self@.ok_ratio() is None,
            },
    {
        if self.data_exchanges > 0 {
            Some((self.correct_data_received, self.data_exchanges))
        } else {
            None
        }
    }

    /// The current statistics as two lines for the log. `ok_pct` is the text of the percentage
    /// of correct data exchanges, with one decimal; it matters only if there was an exchange.
    pub fn log_summary(&self, ok_pct: &str) -> (r: (String, String))
        ensures
            r.0@ == self@.dp_line(ok_pct@),
            r.1@ == self@.link_line(),
    {
        let mut dp: String = "DP: cycles=".to_owned();
        append_decimal(&mut dp, self.cycles_completed);
        dp.append(" data_ok=");
        if self.data_exchanges > 0 {
            dp.append(ok_pct);
        } else {
            dp.append("0.0");
        }
        dp.append("% (");
        append_decimal(&mut dp, self.correct_data_received);
        dp.append("/");
        append_decimal(&mut dp, self.data_exchanges);
        dp.append(") retries=");
        append_decimal(&mut dp, self.retries);
        dp.append(" timeouts=");
        append_decimal(&mut dp, self.timeouts);
        dp.append(" offline=");
        append_decimal(&mut dp, self.offline_events);
        dp.append(" diag=");
        append_decimal(&mut dp, self.diagnostics_events);

        let mut link: String = "Link: crc=".to_owned();
        append_decimal(&mut link, self.crc_errors);
        link.append(" malformed=");
        append_decimal(&mut link, self.malformed_telegrams);
        link.append(" framing=");
        append_decimal(&mut link, self.framing_errors);
        link.append(" bad_fc=");
        append_decimal(&mut link, self.invalid_fc_errors);
        link.append(" unexpected=");
        append_decimal(&mut link, self.unexpected_telegrams);
        link.append(" token_loss=");
        append_decimal(&mut link, self.token_losses);
        link.append(" collisions=");
        append_decimal(&mut link, self.collisions);
        link.append(" rx_overrun=");
        append_decimal(&mut link, self.rx_buffer_overruns);
        (dp, link)
    }

    /// Increment `cycles_completed`, but only after the first data exchange.
    pub fn inc_cycles(&mut self)
        requires
            old(self).first_data_exchanged ==> old(self).cycles_completed < u64::MAX,
        ensures
            final(self)@ == old(self)@.after(DpEvent::Cycle),
    {
        if self.first_data_exchanged {
            self.cycles_completed = self.cycles_completed + 1;
        }
    }

    /// Mark that the first data exchange has occurred.
    pub fn mark_first_data_exchanged(&mut self)
        ensures
            final(self)@ == old(self)@.after(DpEvent::FirstDataExchange),
    {
        self.first_data_exchanged = true;
    }

    /// Count a data exchange.
    pub fn inc_data_exchanges(&mut self)
        requires
            old(self).data_exchanges < u64::MAX,
        ensures
            final(self)@ == old(self)@.after(DpEvent::DataExchange),
    {
        self.data_exchanges = self.data_exchanges + 1;
    }

    /// Count a data exchange with the expected data.
    pub fn inc_correct(&mut self)
        requires
            old(self).correct_data_received < u64::MAX,
        ensures
            final(self)@ == old(self)@.after(DpEvent::CorrectData),
    {
        self.correct_data_received = self.correct_data_received + 1;
    }

    /// Count a retry of a request.
    pub fn inc_retries(&mut self)
        requires
            old(self).retries < u64::MAX,
        ensures
            final(self)@ == old(self)@.after(DpEvent::Retry),
    {
        self.retries = self.retries + 1;
    }

    /// Count a timeout.
    pub fn inc_timeouts(&mut self)
        requires
            old(self).timeouts < u64::MAX,
        ensures
            final(self)@ == old(self)@.after(DpEvent::Timeout),
    {
        self.timeouts = self.timeouts + 1;
    }

    /// Count an overrun of the receive buffer.
    pub fn inc_rx_overruns(&mut self)
        requires
            old(self).rx_buffer_overruns < u64::MAX,
        ensures
            final(self)@ == old(self)@.after(DpEvent::RxOverrun),
    {
        self.rx_buffer_overruns = self.rx_buffer_overruns + 1;
    }

    /// Count a peripheral that went offline.
    pub fn inc_offline(&mut self)
        requires
            old(self).offline_events < u64::MAX,
        ensures
            final(self)@ == old(self)@.after(DpEvent::Offline),
    {
        self.offline_events = self.offline_events + 1;
    }

    /// Count a diagnostics request.
    pub fn inc_diagnostics(&mut self)
        requires
            old(self).diagnostics_events < u64::MAX,
        ensures
            final(self)@ == old(self)@.after(DpEvent::Diagnostics),
    {
        self.diagnostics_events = self.diagnostics_events + 1;
    }

    /// Count a CRC error.
    pub fn inc_crc_errors(&mut self)
        requires
            old(self).crc_errors < u64::MAX,
        ensures
            final(self)@ == old(self)@.after(DpEvent::CrcError),
    {
        self.crc_errors = self.crc_errors + 1;
    }

    /// Count a malformed telegram.
    pub fn inc_malformed(&mut self)
        requires
            old(self).malformed_telegrams < u64::MAX,
        ensures
            final(self)@ == old(self)@.after(DpEvent::Malformed),
    {
        self.malformed_telegrams = self.malformed_telegrams + 1;
    }

    /// Count a framing error.
    pub fn inc_framing_error(&mut self)
        requires
            old(self).framing_errors < u64::MAX,
        ensures
            final(self)@ == old(self)@.after(DpEvent::FramingError),
    {
        self.framing_errors = self.framing_errors + 1;
    }

    /// Count an invalid function code.
    pub fn inc_invalid_fc(&mut self)
        requires
            old(self).invalid_fc_errors < u64::MAX,
        ensures
            final(self)@ == old(self)@.after(DpEvent::InvalidFc),
    {
        self.invalid_fc_errors = self.invalid_fc_errors + 1;
    }

    /// Count an unexpected telegram.
    pub fn inc_unexpected(&mut self)
        requires
            old(self).unexpected_telegrams < u64::MAX,
        ensures
            final(self)@ == old(self)@.after(DpEvent::Unexpected),
    {
        self.unexpected_telegrams = self.unexpected_telegrams + 1;
    }

    /// Count a lost token.
    pub fn inc_token_loss(&mut self)
        requires
            old(self).token_losses < u64::MAX,
        ensures
            final(self)@ == old(self)@.after(DpEvent::TokenLoss),
    {
        self.token_losses = self.token_losses + 1;
    }

    /// Count an address collision.
    pub fn inc_collision(&mut self)
        requires
            old(self).collisions < u64::MAX,
        ensures
            final(self)@ == old(self)@.after(DpEvent::Collision),
    {
        self.collisions = self.collisions + 1;
    }
}

/// No event lowers a counter or takes back the first data exchange, and none but its own event
/// raises a counter.
pub proof fn law_events_only_add(statistics: StatisticsModel, event: DpEvent, other: DpEvent)
    requires
        !(other is FirstDataExchange),
    ensures
        statistics.first_data_exchanged ==> statistics.after(event).first_data_exchanged,
        statistics.after(event).expected_data == statistics.expected_data,
        statistics.counter(other)->0 <= statistics.after(event).counter(other)->0
            <= statistics.counter(other)->0 + 1,
        other != event ==> statistics.after(event).counter(other) == statistics.counter(other),
{
}

/// The order of two events does not matter, except for a cycle and the first data exchange.
pub proof fn law_events_commute(statistics: StatisticsModel, first: DpEvent, second: DpEvent)
    requires
        statistics.first_data_exchanged || !(first is Cycle && second is FirstDataExchange
            || first is FirstDataExchange && second is Cycle),
    ensures
        statistics.after(first).after(second) == statistics.after(second).after(first),
{
}

/// Marking the first data exchange again changes nothing.
pub proof fn law_first_data_exchange_is_marked_once(statistics: StatisticsModel)
    ensures
        statistics.after(DpEvent::FirstDataExchange).after(DpEvent::FirstDataExchange)
            == statistics.after(DpEvent::FirstDataExchange),
{
}

/// The number of times that an event occurs.
pub open spec fn tally(events: Seq<DpEvent>, event: DpEvent) -> nat
    decreases events.len(),
{
    if events.len() == 0 {
        0
    } else {
        tally(events.drop_last(), event) + if events.last() == event {
            1nat
        } else {
            0
        }
    }
}

/// The number of cycles that were completed after the first data exchange.
pub open spec fn counted_cycles(events: Seq<DpEvent>) -> nat
    decreases events.len(),
{
    if events.len() == 0 {
        0
    } else {
        counted_cycles(events.drop_last()) + if events.last() is Cycle
            && events.drop_last().contains(DpEvent::FirstDataExchange) {
            1nat
        } else {
            0
        }
    }
}

/// From the initial statistics on, every counter is the number of its events, and the counter of
/// cycles is the number of cycles after the first data exchange.
pub proof fn law_counters_are_tallies(events: Seq<DpEvent>, event: DpEvent)
    ensures
        ({
            let statistics = StatisticsModel::initial().after_all(events);
            &&& statistics.first_data_exchanged == events.contains(DpEvent::FirstDataExchange)
            &&& statistics.counter(event) == match event {
                DpEvent::Cycle => Some(counted_cycles(events)),
                DpEvent::FirstDataExchange => None,
                _ => Some(tally(events, event)),
            }
        }),
    decreases events.len(),
{
    if events.len() > 0 {
        let before = events.drop_last();
        law_counters_are_tallies(before, event);
        assert(events =~= before.push(events.last()));
        if before.contains(DpEvent::FirstDataExchange) {
            let i = choose|i: int| 0 <= i < before.len() && before[i] == DpEvent::FirstDataExchange;
            assert(events[i] == DpEvent::FirstDataExchange);
        }
        if events.contains(DpEvent::FirstDataExchange) {
            let i = choose|i: int| 0 <= i < events.len() && events[i] == DpEvent::FirstDataExchange;
            if i < before.len() {
                assert(before[i] == DpEvent::FirstDataExchange);
            }
        }
        assert(events.last() == events[events.len() - 1]);
    }
}

} // verus!
