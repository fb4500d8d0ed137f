//! What the operations on the statistics do, told from the counters before and after a call and
//! from what the call returned.
use vstd::prelude::*;

use super::statistics::DpStatistics;

verus! {

/// All counters.
pub open spec fn counters(s: DpStatistics) -> Seq<u64> {
    seq![
        s.cycles_completed,
        s.data_exchanges,
        s.correct_data_received,
        s.retries,
        s.timeouts,
        s.offline_events,
        s.diagnostics_events,
        s.crc_errors,
        s.malformed_telegrams,
        s.framing_errors,
        s.invalid_fc_errors,
        s.unexpected_telegrams,
        s.token_losses,
        s.collisions,
        s.rx_buffer_overruns,
    ]
}

/// The expected data.
pub open spec fn pattern(s: DpStatistics) -> Option<Seq<u8>> {
    match s.expected_data {
        Some(data) => Some(data@),
        None => None,
    }
}

/// One counter, by its place in the list, is one higher; nothing else is different.
pub open spec fn counts_one(before: DpStatistics, after: DpStatistics, place: int) -> bool {
    &&& counters(after)[place] == counters(before)[place] + 1
    &&& forall|i: int|
        0 <= i < counters(before).len() && i != place ==> #[trigger] counters(after)[i]
            == counters(before)[i]
    &&& pattern(after) == pattern(before)
    &&& after.first_data_exchanged == before.first_data_exchanged
}

/// Nothing is different.
pub open spec fn is_same(before: DpStatistics, after: DpStatistics) -> bool {
    &&& counters(after) == counters(before)
    &&& pattern(after) == pattern(before)
    &&& after.first_data_exchanged == before.first_data_exchanged
}

/// New statistics have counted nothing, know of no data exchange and expect the default pattern.
pub proof fn law_new_statistics_are_empty(s: DpStatistics)
    requires
        call_ensures(DpStatistics::default, (), s),
    ensures
        forall|i: int| 0 <= i < counters(s).len() ==> #[trigger] counters(s)[i] == 0,
        !s.first_data_exchanged,
        pattern(s) == Some(seq![0x03u8, 0x0Cu8]),
{
}

/// A clone has the same contents.
pub proof fn law_clone_is_same(s: DpStatistics, r: DpStatistics)
    requires
        call_ensures(DpStatistics::clone, (&s,), r),
    ensures
        is_same(s, r),
{
}

/// Each event adds one to its own counter, whatever the counters are, and leaves everything else
/// alone. It can be counted as long as its counter can still grow.
pub proof fn law_event_counts_one()
    ensures
        forall|s: &mut DpStatistics| #[trigger]
            call_ensures(DpStatistics::inc_data_exchanges, (s,), ()) && s.data_exchanges < u64::MAX
                ==> counts_one(*s, *final(s), 1),
        forall|s: &mut DpStatistics| #[trigger]
            call_requires(DpStatistics::inc_data_exchanges, (s,)) <== s.data_exchanges < u64::MAX,
        forall|s: &mut DpStatistics| #[trigger]
            call_ensures(DpStatistics::inc_correct, (s,), ()) && s.correct_data_received < u64::MAX
                ==> counts_one(*s, *final(s), 2),
        forall|s: &mut DpStatistics| #[trigger]
            call_requires(DpStatistics::inc_correct, (s,)) <== s.correct_data_received < u64::MAX,
        forall|s: &mut DpStatistics| #[trigger]
            call_ensures(DpStatistics::inc_retries, (s,), ()) && s.retries < u64::MAX
                ==> counts_one(*s, *final(s), 3),
        forall|s: &mut DpStatistics| #[trigger]
            call_requires(DpStatistics::inc_retries, (s,)) <== s.retries < u64::MAX,
        forall|s: &mut DpStatistics| #[trigger]
            call_ensures(DpStatistics::inc_timeouts, (s,), ()) && s.timeouts < u64::MAX
                ==> counts_one(*s, *final(s), 4),
        forall|s: &mut DpStatistics| #[trigger]
            call_requires(DpStatistics::inc_timeouts, (s,)) <== s.timeouts < u64::MAX,
        forall|s: &mut DpStatistics| #[trigger]
            call_ensures(DpStatistics::inc_offline, (s,), ()) && s.offline_events < u64::MAX
                ==> counts_one(*s, *final(s), 5),
        forall|s: &mut DpStatistics| #[trigger]
            call_requires(DpStatistics::inc_offline, (s,)) <== s.offline_events < u64::MAX,
        forall|s: &mut DpStatistics| #[trigger]
            call_ensures(DpStatistics::inc_diagnostics, (s,), ()) && s.diagnostics_events < u64::MAX
                ==> counts_one(*s, *final(s), 6),
        forall|s: &mut DpStatistics| #[trigger]
            call_requires(DpStatistics::inc_diagnostics, (s,)) <== s.diagnostics_events < u64::MAX,
        forall|s: &mut DpStatistics| #[trigger]
            call_ensures(DpStatistics::inc_crc_errors, (s,), ()) && s.crc_errors < u64::MAX
                ==> counts_one(*s, *final(s), 7),
        forall|s: &mut DpStatistics| #[trigger]
            call_requires(DpStatistics::inc_crc_errors, (s,)) <== s.crc_errors < u64::MAX,
        forall|s: &mut DpStatistics| #[trigger]
            call_ensures(DpStatistics::inc_malformed, (s,), ()) && s.malformed_telegrams < u64::MAX
                ==> counts_one(*s, *final(s), 8),
        forall|s: &mut DpStatistics| #[trigger]
            call_requires(DpStatistics::inc_malformed, (s,)) <== s.malformed_telegrams < u64::MAX,
        forall|s: &mut DpStatistics| #[trigger]
            call_ensures(DpStatistics::inc_framing_error, (s,), ()) && s.framing_errors < u64::MAX
                ==> counts_one(*s, *final(s), 9),
        forall|s: &mut DpStatistics| #[trigger]
            call_requires(DpStatistics::inc_framing_error, (s,)) <== s.framing_errors < u64::MAX,
        forall|s: &mut DpStatistics| #[trigger]
            call_ensures(DpStatistics::inc_invalid_fc, (s,), ()) && s.invalid_fc_errors < u64::MAX
                ==> counts_one(*s, *final(s), 10),
        forall|s: &mut DpStatistics| #[trigger]
            call_requires(DpStatistics::inc_invalid_fc, (s,)) <== s.invalid_fc_errors < u64::MAX,
        forall|s: &mut DpStatistics| #[trigger]
            call_ensures(DpStatistics::inc_unexpected, (s,), ()) && s.unexpected_telegrams
                < u64::MAX ==> counts_one(*s, *final(s), 11),
        forall|s: &mut DpStatistics| #[trigger]
            call_requires(DpStatistics::inc_unexpected, (s,)) <== s.unexpected_telegrams < u64::MAX,
        forall|s: &mut DpStatistics| #[trigger]
            call_ensures(DpStatistics::inc_token_loss, (s,), ()) && s.token_losses < u64::MAX
                ==> counts_one(*s, *final(s), 12),
        forall|s: &mut DpStatistics| #[trigger]
            call_requires(DpStatistics::inc_token_loss, (s,)) <== s.token_losses < u64::MAX,
        forall|s: &mut DpStatistics| #[trigger]
            call_ensures(DpStatistics::inc_collision, (s,), ()) && s.collisions < u64::MAX
                ==> counts_one(*s, *final(s), 13),
        forall|s: &mut DpStatistics| #[trigger]
            call_requires(DpStatistics::inc_collision, (s,)) <== s.collisions < u64::MAX,
        forall|s: &mut DpStatistics| #[trigger]
            call_ensures(DpStatistics::inc_rx_overruns, (s,), ()) && s.rx_buffer_overruns < u64::MAX
                ==> counts_one(*s, *final(s), 14),
        forall|s: &mut DpStatistics| #[trigger]
            call_requires(DpStatistics::inc_rx_overruns, (s,)) <== s.rx_buffer_overruns < u64::MAX,
{
}

/// A cycle adds one to the cycles if there was a data exchange, and nothing otherwise.
pub proof fn law_cycle_counts_after_first_data_exchange()
    ensures
        forall|s: &mut DpStatistics| #[trigger]
            call_ensures(DpStatistics::inc_cycles, (s,), ()) && s.first_data_exchanged
                && s.cycles_completed < u64::MAX ==> counts_one(*s, *final(s), 0),
        forall|s: &mut DpStatistics| #[trigger]
            call_ensures(DpStatistics::inc_cycles, (s,), ()) && !s.first_data_exchanged
                ==> is_same(*s, *final(s)),
        forall|s: &mut DpStatistics| #[trigger]
            call_requires(DpStatistics::inc_cycles, (s,)) <== !s.first_data_exchanged
                || s.cycles_completed < u64::MAX,
{
}

/// The mark of the first data exchange is set, and nothing else changes.
pub proof fn law_first_data_exchange_is_marked()
    ensures
        forall|s: &mut DpStatistics| #[trigger]
            call_ensures(DpStatistics::mark_first_data_exchanged, (s,), ()) ==> {
                &&& final(s).first_data_exchanged
                &&& counters(*final(s)) == counters(*s)
                &&& pattern(*final(s)) == pattern(*s)
            },
        forall|s: &mut DpStatistics| #[trigger]
            call_requires(DpStatistics::mark_first_data_exchanged, (s,)),
{
}

/// The ratio is that of the correct data exchanges to all of them; there is one as soon as there
/// was an exchange.
pub proof fn law_ratio_is_correct_of_all(s: DpStatistics, r: Option<(u64, u64)>)
    requires
        call_ensures(DpStatistics::ok_ratio, (&s,), r),
    ensures
        r is Some <==> s.data_exchanges > 0,
        r matches Some((correct, all)) ==> correct == s.correct_data_received && all
            == s.data_exchanges,
        call_requires(DpStatistics::ok_ratio, (&s,)),
{
}

/// A line of text: labels, each followed by its value.
pub open spec fn line(entries: Seq<(Seq<char>, Seq<char>)>) -> Seq<char>
    decreases entries.len(),
{
    if entries.len() == 0 {
        Seq::empty()
    } else {
        line(entries.drop_last()) + entries.last().0 + entries.last().1
    }
}

/// A line ends with its last entry.
proof fn lemma_line_push(entries: Seq<(Seq<char>, Seq<char>)>, entry: (Seq<char>, Seq<char>))
    ensures
        line(entries.push(entry)) == line(entries) + entry.0 + entry.1,
{
    assert(entries.push(entry).drop_last() =~= entries);
}

/// A counter as it is shown.
pub open spec fn shown(n: u64) -> Seq<char> {
    crate::decimal::decimal(n as nat)
}

/// The figures of the DP master, each behind its label.
pub open spec fn dp_entries(s: DpStatistics, percentage: Seq<char>) -> Seq<(Seq<char>, Seq<char>)> {
    seq![
        ("DP: cycles="@, shown(s.cycles_completed)),
        (" data_ok="@, percentage),
        ("% ("@, shown(s.correct_data_received)),
        ("/"@, shown(s.data_exchanges)),
        (") retries="@, shown(s.retries)),
        (" timeouts="@, shown(s.timeouts)),
        (" offline="@, shown(s.offline_events)),
        (" diag="@, shown(s.diagnostics_events)),
    ]
}

/// The figures of the link, each behind its label.
pub open spec fn link_entries(s: DpStatistics) -> Seq<(Seq<char>, Seq<char>)> {
    seq![
        ("Link: crc="@, shown(s.crc_errors)),
        (" malformed="@, shown(s.malformed_telegrams)),
        (" framing="@, shown(s.framing_errors)),
        (" bad_fc="@, shown(s.invalid_fc_errors)),
        (" unexpected="@, shown(s.unexpected_telegrams)),
        (" token_loss="@, shown(s.token_losses)),
        (" collisions="@, shown(s.collisions)),
        (" rx_overrun="@, shown(s.rx_buffer_overruns)),
    ]
}

/// The summary shows every counter behind its label, and the given percentage as soon as there was
/// a data exchange, whatever the percentage and the other counters are.
pub proof fn law_summary_shows_every_counter(
    s: DpStatistics,
    ok_pct: &str,
    percentage: Seq<char>,
    r: (String, String),
)
    requires
        call_ensures(DpStatistics::log_summary, (&s, ok_pct), r),
        s.data_exchanges > 0 ==> percentage == ok_pct@,
        s.data_exchanges == 0 ==> percentage == "0.0"@,
    ensures
        r.0@ == line(dp_entries(s, percentage)),
        r.1@ == line(link_entries(s)),
        call_requires(DpStatistics::log_summary, (&s, ok_pct)),
{
    let dp0 = Seq::<(Seq<char>, Seq<char>)>::empty();
    let dp1 = dp0.push(("DP: cycles="@, shown(s.cycles_completed)));
    lemma_line_push(dp0, ("DP: cycles="@, shown(s.cycles_completed)));
    let dp2 = dp1.push((" data_ok="@, percentage));
    lemma_line_push(dp1, (" data_ok="@, percentage));
    let dp3 = dp2.push(("% ("@, shown(s.correct_data_received)));
    lemma_line_push(dp2, ("% ("@, shown(s.correct_data_received)));
    let dp4 = dp3.push(("/"@, shown(s.data_exchanges)));
    lemma_line_push(dp3, ("/"@, shown(s.data_exchanges)));
    let dp5 = dp4.push((") retries="@, shown(s.retries)));
    lemma_line_push(dp4, (") retries="@, shown(s.retries)));
    let dp6 = dp5.push((" timeouts="@, shown(s.timeouts)));
    lemma_line_push(dp5, (" timeouts="@, shown(s.timeouts)));
    let dp7 = dp6.push((" offline="@, shown(s.offline_events)));
    lemma_line_push(dp6, (" offline="@, shown(s.offline_events)));
    let dp8 = dp7.push((" diag="@, shown(s.diagnostics_events)));
    lemma_line_push(dp7, (" diag="@, shown(s.diagnostics_events)));
    assert(dp8 =~= dp_entries(s, percentage));
    let link0 = Seq::<(Seq<char>, Seq<char>)>::empty();
    let link1 = link0.push(("Link: crc="@, shown(s.crc_errors)));
    lemma_line_push(link0, ("Link: crc="@, shown(s.crc_errors)));
    let link2 = link1.push((" malformed="@, shown(s.malformed_telegrams)));
    lemma_line_push(link1, (" malformed="@, shown(s.malformed_telegrams)));
    let link3 = link2.push((" framing="@, shown(s.framing_errors)));
    lemma_line_push(link2, (" framing="@, shown(s.framing_errors)));
    let link4 = link3.push((" bad_fc="@, shown(s.invalid_fc_errors)));
    lemma_line_push(link3, (" bad_fc="@, shown(s.invalid_fc_errors)));
    let link5 = link4.push((" unexpected="@, shown(s.unexpected_telegrams)));
    lemma_line_push(link4, (" unexpected="@, shown(s.unexpected_telegrams)));
    let link6 = link5.push((" token_loss="@, shown(s.token_losses)));
    lemma_line_push(link5, (" token_loss="@, shown(s.token_losses)));
    let link7 = link6.push((" collisions="@, shown(s.collisions)));
    lemma_line_push(link6, (" collisions="@, shown(s.collisions)));
    let link8 = link7.push((" rx_overrun="@, shown(s.rx_buffer_overruns)));
    lemma_line_push(link7, (" rx_overrun="@, shown(s.rx_buffer_overruns)));
    assert(link8 =~= link_entries(s));
}

/// The percentage is the given one exactly if there is a ratio, and stands between its label and
/// the counts: what is in front of it and behind it does not depend on it.
pub proof fn law_percentage_is_shown_if_there_is_a_ratio(
    s: DpStatistics,
    ok_pct: &str,
    ratio: Option<(u64, u64)>,
    r: (String, String),
)
    requires
        call_ensures(DpStatistics::ok_ratio, (&s,), ratio),
        call_ensures(DpStatistics::log_summary, (&s, ok_pct), r),
    ensures
        ({
            let front = "DP: cycles="@ + shown(s.cycles_completed) + " data_ok="@;
            let back = "% ("@ + shown(s.correct_data_received) + "/"@ + shown(s.data_exchanges)
                + ") retries="@ + shown(s.retries) + " timeouts="@ + shown(s.timeouts)
                + " offline="@ + shown(s.offline_events) + " diag="@
                + shown(s.diagnostics_events);
            &&& ratio is Some ==> r.0@ == front + ok_pct@ + back
            &&& ratio is None ==> r.0@ == front + "0.0"@ + back
        }),
{
    let front = "DP: cycles="@ + shown(s.cycles_completed) + " data_ok="@;
    let back = "% ("@ + shown(s.correct_data_received) + "/"@ + shown(s.data_exchanges)
        + ") retries="@ + shown(s.retries) + " timeouts="@ + shown(s.timeouts) + " offline="@
        + shown(s.offline_events) + " diag="@ + shown(s.diagnostics_events);
    if ratio is Some {
        assert(r.0@ =~= front + ok_pct@ + back);
    } else {
        assert(r.0@ =~= front + "0.0"@ + back);
    }
}

} // verus!
