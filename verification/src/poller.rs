use vstd::prelude::*;

use crate::data::{logs_view, LogEntry, LogEntryView, ProgressData, ProgressDataView, StatusReport,
    StatusReportView};

verus! {

/// One discrete event published to the UI event sink.
#[derive(Debug, PartialEq, Eq)]
pub enum UiEvent {
    /// Unconditional progress notification, one per successful poll.
    Progress { progress: usize, total: usize },
    /// One newly appended log entry, one event per entry, in order.
    Log(LogEntry),
    /// The terminal status report, forwarded verbatim.
    Complete(StatusReport),
    /// The terminal error message, forwarded verbatim.
    UpdateError(String),
}

/// Mathematical image of a [`UiEvent`].
pub enum UiEventView {
    Progress { progress: int, total: int },
    Log(LogEntryView),
    Complete(StatusReportView),
    UpdateError(Seq<char>),
}

impl View for UiEvent {
    type V = UiEventView;

    open spec fn view(&self) -> UiEventView {
        match self {
            UiEvent::Progress { progress, total } => UiEventView::Progress {
                progress: *progress as int,
                total: *total as int,
            },
            UiEvent::Log(l) => UiEventView::Log(l@),
            UiEvent::Complete(r) => UiEventView::Complete(r@),
            UiEvent::UpdateError(e) => UiEventView::UpdateError(e@),
        }
    }
}

/// A sequence of events, as views.
pub open spec fn events_view(es: Seq<UiEvent>) -> Seq<UiEventView> {
    es.map_values(|e: UiEvent| e@)
}

/// The fixed inter-poll delay of the status loop, in milliseconds.
pub const POLL_INTERVAL_MS: u64 = 500;

/// The event channel name under which each event is published to the UI
/// collaborator.
pub open spec fn channel_name_spec(e: UiEventView) -> Seq<char> {
    match e {
        UiEventView::Progress { .. } => "update_progress"@,
        UiEventView::Log(_) => "log_message"@,
        UiEventView::Complete(_) => "update_complete"@,
        UiEventView::UpdateError(_) => "update_error"@,
    }
}

impl UiEvent {
    /// The event channel name under which this event is published.
    pub fn channel_name(&self) -> (r: &'static str)
        ensures
            r@ == channel_name_spec(self@),
    {
        match self {
            UiEvent::Progress { .. } => "update_progress",
            UiEvent::Log(_) => "log_message",
            UiEvent::Complete(_) => "update_complete",
            UiEvent::UpdateError(_) => "update_error",
        }
    }
}

/// What one poll of the status endpoint produced.
pub enum PollEvent {
    /// The endpoint could not be reached: the run ends silently.
    Unreachable,
    /// The endpoint answered but the body did not decode: no status is
    /// available this round; the run goes on.
    NoStatus,
    /// A decoded status snapshot.
    Snapshot(ProgressData),
}

/// How the run proceeds after one poll.
#[derive(Debug, PartialEq, Eq)]
pub enum PollOutcome {
    /// Sleep the inter-poll delay and poll again.
    KeepPolling,
    /// The snapshot was terminal: the run ends, no further poll is made.
    Finished,
    /// Connectivity was lost: the run ends, no further poll is made.
    ConnectionLost,
}

/// The log entries a snapshot appends past the delivered-count watermark:
/// the suffix past `delivered` when the log sequence has grown beyond it,
/// nothing otherwise.
pub open spec fn log_delta(logs: Seq<LogEntryView>, delivered: int) -> Seq<LogEntryView> {
    if logs.len() > delivered {
        logs.subrange(delivered, logs.len() as int)
    } else {
        Seq::empty()
    }
}

/// The watermark after a poll: advanced to the log sequence's length when
/// it has grown beyond the watermark, unchanged otherwise.
pub open spec fn next_delivered(logs_len: int, delivered: int) -> int {
    if logs_len > delivered {
        logs_len
    } else {
        delivered
    }
}

/// Log entries wrapped as log events, order preserved.
pub open spec fn log_events(ls: Seq<LogEntryView>) -> Seq<UiEventView> {
    ls.map_values(|l: LogEntryView| UiEventView::Log(l))
}

/// The events a terminal snapshot appends after its log delta: the status
/// report, if present, then the error, if present. Both fire for the same
/// poll when both are present; a non-terminal snapshot appends nothing.
pub open spec fn terminal_events(s: ProgressDataView) -> Seq<UiEventView> {
    if s.completed {
        (match s.status_report {
            Some(r) => seq![UiEventView::Complete(r)],
            None => Seq::empty(),
        }) + (match s.error {
            Some(e) => seq![UiEventView::UpdateError(e)],
            None => Seq::empty(),
        })
    } else {
        Seq::empty()
    }
}

/// Every event one snapshot emits, in order: the unconditional progress
/// event, one log event per newly appended entry, then the terminal
/// events if the snapshot is terminal.
pub open spec fn step_events(s: ProgressDataView, delivered: int) -> Seq<UiEventView> {
    seq![UiEventView::Progress { progress: s.progress, total: s.total }] + log_events(
        log_delta(s.logs, delivered),
    ) + terminal_events(s)
}

/// Whether the run goes on after this snapshot.
pub open spec fn step_outcome(s: ProgressDataView) -> PollOutcome {
    if s.completed {
        PollOutcome::Finished
    } else {
        PollOutcome::KeepPolling
    }
}

proof fn lemma_events_view_push(es: Seq<UiEvent>, e: UiEvent)
    ensures
        events_view(es.push(e)) == events_view(es).push(e@),
{
    assert(events_view(es.push(e)) =~= events_view(es).push(e@));
}

/// The state of one poll run: how many log entries have already been
/// delivered to the event sink in this run.
pub struct PollRun {
    delivered: usize,
}

impl PollRun {
    /// The delivered-count watermark.
    pub closed spec fn delivered(self) -> int {
        self.delivered as int
    }

    /// A fresh run: nothing delivered yet.
    pub fn new() -> (r: PollRun)
        ensures
            r.delivered() == 0,
    {
        PollRun { delivered: 0 }
    }

    /// One iteration of the polling loop. An unreachable endpoint ends
    /// the run with no event at all; an undecodable body emits nothing
    /// and keeps polling; a snapshot emits exactly `step_events`: the
    /// progress event, the newly appended log entries in order (never
    /// re-delivered, never reordered), and on a terminal snapshot the
    /// report and error events, after which no further poll is made.
    pub fn poll_step(&mut self, event: PollEvent) -> (r: (Vec<UiEvent>, PollOutcome))
        ensures
            event is Unreachable ==> r.0@ == Seq::<UiEvent>::empty() && r.1 is ConnectionLost
                && final(self).delivered() == old(self).delivered(),
            event is NoStatus ==> r.0@ == Seq::<UiEvent>::empty() && r.1 is KeepPolling
                && final(self).delivered() == old(self).delivered(),
            event matches PollEvent::Snapshot(s) ==> events_view(r.0@) == step_events(
                s@,
                old(self).delivered(),
            ) && final(self).delivered() == next_delivered(s@.logs.len() as int, old(self).delivered())
                && r.1 == step_outcome(s@),
    {
        match event {
            PollEvent::Unreachable => (Vec::new(), PollOutcome::ConnectionLost),
            PollEvent::NoStatus => (Vec::new(), PollOutcome::KeepPolling),
            PollEvent::Snapshot(s) => {
                let ghost sv = s@;
                let ghost d0 = self.delivered as int;
                let ProgressData { progress, total, logs, completed, error, status_report } = s;
                let mut events: Vec<UiEvent> = Vec::new();
                events.push(UiEvent::Progress { progress, total });
                proof {
                    assert(events_view(events@) =~= seq![
                        UiEventView::Progress { progress: sv.progress, total: sv.total },
                    ]);
                }
                if logs.len() > self.delivered {
                    let ghost base = events@;
                    let mut i: usize = self.delivered;
                    while i < logs.len()
                        invariant
                            0 <= d0 <= i <= logs@.len(),
                            events_view(events@) == events_view(base) + log_events(
                                logs_view(logs@).subrange(d0, i as int),
                            ),
                        decreases logs@.len() - i,
                    {
                        let entry = logs[i].duplicate();
                        proof {
                            lemma_events_view_push(events@, UiEvent::Log(entry));
                            assert(logs_view(logs@)[i as int] == logs@[i as int]@);
                            assert(events_view(events@).push((UiEvent::Log(entry))@) =~= events_view(
                                base,
                            ) + log_events(logs_view(logs@).subrange(d0, i + 1)));
                        }
                        events.push(UiEvent::Log(entry));
                        i = i + 1;
                    }
                    self.delivered = logs.len();
                    proof {
                        assert(logs_view(logs@).subrange(d0, logs@.len() as int) == log_delta(
                            sv.logs,
                            d0,
                        ));
                    }
                } else {
                    proof {
                        assert(log_delta(sv.logs, d0) =~= Seq::<LogEntryView>::empty());
                        assert(log_events(log_delta(sv.logs, d0)) =~= Seq::<UiEventView>::empty());
                    }
                }
                let ghost mid = events@;
                let outcome: PollOutcome;
                if completed {
                    if let Some(report) = status_report {
                        proof {
                            lemma_events_view_push(events@, UiEvent::Complete(report));
                        }
                        events.push(UiEvent::Complete(report));
                    }
                    if let Some(e) = error {
                        proof {
                            lemma_events_view_push(events@, UiEvent::UpdateError(e));
                        }
                        events.push(UiEvent::UpdateError(e));
                    }
                    outcome = PollOutcome::Finished;
                } else {
                    outcome = PollOutcome::KeepPolling;
                }
                proof {
                    assert(events_view(events@) =~= events_view(mid) + terminal_events(sv));
                    assert(events_view(mid) =~= seq![
                        UiEventView::Progress { progress: sv.progress, total: sv.total },
                    ] + log_events(log_delta(sv.logs, d0)));
                    assert(events_view(events@) =~= step_events(sv, d0));
                }
                (events, outcome)
            },
        }
    }
}

/// The log entries a whole run delivers: the concatenation of the log
/// deltas of its successive snapshots' log sequences, each step advancing
/// the watermark as `poll_step` does.
pub open spec fn run_log_deltas(snaps: Seq<Seq<LogEntryView>>, delivered: int) -> Seq<LogEntryView>
    decreases snaps.len(),
{
    if snaps.len() == 0 {
        Seq::empty()
    } else {
        log_delta(snaps[0], delivered) + run_log_deltas(
            snaps.drop_first(),
            next_delivered(snaps[0].len() as int, delivered),
        )
    }
}

proof fn lemma_chain_first_prefix_of_last(snaps: Seq<Seq<LogEntryView>>)
    requires
        snaps.len() > 0,
        forall|i: int, j: int|
            0 <= i && j == i + 1 && j < snaps.len() ==> #[trigger] snaps[i].is_prefix_of(snaps[j]),
    ensures
        snaps[0].is_prefix_of(snaps.last()),
    decreases snaps.len(),
{
    if snaps.len() > 1 {
        let rest = snaps.drop_first();
        assert forall|i: int, j: int|
            0 <= i && j == i + 1 && j < rest.len() implies #[trigger] rest[i].is_prefix_of(
            rest[j],
        ) by {
            assert(rest[i] == snaps[i + 1]);
            assert(rest[j] == snaps[j + 1]);
            assert(snaps[i + 1].is_prefix_of(snaps[j + 1]));
        }
        lemma_chain_first_prefix_of_last(rest);
        assert(snaps[0].is_prefix_of(snaps[1]));
        assert(rest[0] == snaps[1]);
        assert(rest.last() == snaps.last());
        assert(snaps[0] =~= snaps.last().subrange(0, snaps[0].len() as int));
    }
}

/// Law: log delta correctness over a whole run. For any run whose log
/// sequences only grow by appending, the deltas delivered step by step
/// concatenate to exactly the final log sequence past the starting
/// watermark: every appended entry is delivered exactly once, in its
/// original position, with no duplicates, no drops and no reordering.
/// (A run that starts with nothing delivered therefore delivers the final
/// log sequence entry for entry.)
pub proof fn lemma_log_delta_exact(snaps: Seq<Seq<LogEntryView>>, delivered: int)
    requires
        snaps.len() > 0,
        0 <= delivered <= snaps[0].len(),
        forall|i: int, j: int|
            0 <= i && j == i + 1 && j < snaps.len() ==> #[trigger] snaps[i].is_prefix_of(snaps[j]),
    ensures
        run_log_deltas(snaps, delivered) == snaps.last().skip(delivered),
    decreases snaps.len(),
{
    let first = snaps[0];
    let last = snaps.last();
    let d1 = next_delivered(first.len() as int, delivered);
    if snaps.len() == 1 {
        assert(run_log_deltas(snaps.drop_first(), d1) == Seq::<LogEntryView>::empty());
        assert(log_delta(first, delivered) + Seq::<LogEntryView>::empty() =~= first.skip(
            delivered,
        ));
    } else {
        let rest = snaps.drop_first();
        assert forall|i: int, j: int|
            0 <= i && j == i + 1 && j < rest.len() implies #[trigger] rest[i].is_prefix_of(
            rest[j],
        ) by {
            assert(rest[i] == snaps[i + 1]);
            assert(rest[j] == snaps[j + 1]);
            assert(snaps[i + 1].is_prefix_of(snaps[j + 1]));
        }
        assert(snaps[0].is_prefix_of(snaps[1]));
        assert(rest[0] == snaps[1]);
        assert(d1 <= rest[0].len());
        lemma_log_delta_exact(rest, d1);
        lemma_chain_first_prefix_of_last(snaps);
        assert(rest.last() == last);
        assert(first =~= last.subrange(0, first.len() as int));
        assert(log_delta(first, delivered) + last.skip(d1) =~= last.skip(delivered));
    }
}

/// Law: terminal detection. A snapshot with `completed` set that carries
/// both a status report and an error emits, in one step, the progress
/// event, its log delta, then *both* the completion event and the error
/// event, in that order -- and the step's outcome ends the run, so no
/// further poll occurs.
pub proof fn lemma_terminal_both_events(s: ProgressDataView, delivered: int)
    requires
        s.completed,
        s.status_report is Some,
        s.error is Some,
    ensures
        step_events(s, delivered) == seq![
            UiEventView::Progress { progress: s.progress, total: s.total },
        ] + log_events(log_delta(s.logs, delivered)) + seq![
            UiEventView::Complete(s.status_report->0),
            UiEventView::UpdateError(s.error->0),
        ],
        step_outcome(s) == PollOutcome::Finished,
{
    assert(terminal_events(s) =~= seq![
        UiEventView::Complete(s.status_report->0),
        UiEventView::UpdateError(s.error->0),
    ]);
}

} // verus!
