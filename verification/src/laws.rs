//! What holds of the console over whole runs, proved from the transitions.

use crate::app::{ActionView, AppView};
use crate::event_loop::ArrivalView;
use crate::input::{is_back_key, Event, KeyEvent};
use crate::message::MessageView;
use crate::screen::{screen_of, Screen};
use vstd::prelude::*;

verus! {

/// The state after a run: the arrivals taken one after the other, from
/// `start`.
pub open spec fn replay(start: AppView, arrivals: Seq<ArrivalView>) -> AppView
    decreases arrivals.len(),
{
    if arrivals.len() == 0 {
        start
    } else {
        replay(start, arrivals.drop_last()).step(arrivals.last()).0
    }
}

/// The state after the bus has delivered `messages`, in order, and nothing
/// else has happened.
pub open spec fn receive_all(start: AppView, messages: Seq<MessageView>) -> AppView
    decreases messages.len(),
{
    if messages.len() == 0 {
        start
    } else {
        receive_all(start, messages.drop_last()).receive(messages.last())
    }
}

/// The findings among `messages`, in the order in which they were sent.
pub open spec fn findings_in(messages: Seq<MessageView>) -> Seq<Seq<char>>
    decreases messages.len(),
{
    if messages.len() == 0 {
        Seq::empty()
    } else {
        match messages.last() {
            MessageView::Suspicion(line) => findings_in(messages.drop_last()).push(line),
            MessageView::ScanEnded => findings_in(messages.drop_last()),
        }
    }
}

/// No arrival leads out of the well-formed states: afterwards the cursor
/// still points at a device, or is 0 where there is none, and a session is
/// active only while a report exists.
pub proof fn lemma_step_keeps_wf(state: AppView, arrival: ArrivalView)
    requires
        state.wf(),
    ensures
        state.step(arrival).0.wf(),
{
}

/// Whatever arrives, in whatever order, key presses, listings, messages
/// and failures alike, the state stays well formed. In particular the
/// cursor is at all times an index into the devices, or 0 where there are
/// none.
pub proof fn lemma_replay_keeps_wf(start: AppView, arrivals: Seq<ArrivalView>)
    requires
        start.wf(),
    ensures
        replay(start, arrivals).wf(),
    decreases arrivals.len(),
{
    if arrivals.len() > 0 {
        lemma_replay_keeps_wf(start, arrivals.drop_last());
        lemma_step_keeps_wf(replay(start, arrivals.drop_last()), arrivals.last());
    }
}

/// A console that has just been created is well formed, and so is every
/// state that any run leads to from there.
pub proof fn lemma_reachable_is_wf(arrivals: Seq<ArrivalView>)
    ensures
        AppView::initial().wf(),
        replay(AppView::initial(), arrivals).wf(),
{
    lemma_replay_keeps_wf(AppView::initial(), arrivals);
}

/// At most one scan session is active at any time: after any run, the
/// console asks for a scan to be started only when no session is active,
/// and then counts exactly that one as active.
pub proof fn lemma_one_session_at_a_time(
    start: AppView,
    arrivals: Seq<ArrivalView>,
    next: ArrivalView,
)
    ensures
        ({
            let state = replay(start, arrivals);
            let (after, action) = state.step(next);
            action matches Some(ActionView::StartScan(device)) ==> {
                &&& !state.scanning
                &&& state.report is None
                &&& state.selected() == Some(device)
                &&& after.scanning
                &&& after.report == Some(Seq::<Seq<char>>::empty())
            }
        }),
{
}

/// How many scans the console asks the loop to start in a run.
pub open spec fn scans_started(start: AppView, arrivals: Seq<ArrivalView>) -> nat
    decreases arrivals.len(),
{
    if arrivals.len() == 0 {
        0
    } else {
        let before = replay(start, arrivals.drop_last());
        let asked: nat = match before.step(arrivals.last()).1 {
            Some(ActionView::StartScan(_)) => 1,
            _ => 0,
        };
        scans_started(start, arrivals.drop_last()) + asked
    }
}

/// How many times a session ends in a run: by cancellation, by the message
/// that the scan is over, or because the scan could not be started.
pub open spec fn sessions_ended(start: AppView, arrivals: Seq<ArrivalView>) -> nat
    decreases arrivals.len(),
{
    if arrivals.len() == 0 {
        0
    } else {
        let before = replay(start, arrivals.drop_last());
        let after = before.step(arrivals.last()).0;
        let ended: nat = if before.scanning && !after.scanning {
            1
        } else {
            0
        };
        sessions_ended(start, arrivals.drop_last()) + ended
    }
}

/// Starts and ends keep step over every run: from a state without a
/// session, the scans asked for are as many as the sessions that have
/// ended, or one more, and they are one more exactly while a session is
/// active. So no run has two sessions open at once.
pub proof fn lemma_sessions_never_overlap(start: AppView, arrivals: Seq<ArrivalView>)
    requires
        !start.scanning,
    ensures
        ({
            let open: nat = if replay(start, arrivals).scanning {
                1
            } else {
                0
            };
            scans_started(start, arrivals) == sessions_ended(start, arrivals) + open
        }),
    decreases arrivals.len(),
{
    if arrivals.len() > 0 {
        lemma_sessions_never_overlap(start, arrivals.drop_last());
    }
}

/// Backing out of a running scan ends the session at once and leaves the
/// sending of the cancellation signal to the loop; the report stays. The
/// session stays ended through everything the bus delivers afterwards, the
/// message that the scan is over included.
pub proof fn lemma_cancel_ends_session(state: AppView, key: KeyEvent, messages: Seq<MessageView>)
    requires
        state.scanning,
        is_back_key(key),
    ensures
        ({
            let (cancelled, action) = state.on_event(Event::Key(key));
            &&& action == Some(ActionView::CancelScan)
            &&& cancelled == (AppView { scanning: false, ..state })
            &&& !receive_all(cancelled, messages).scanning
        }),
    decreases messages.len(),
{
    if messages.len() > 0 {
        lemma_cancel_ends_session(state, key, messages.drop_last());
    }
}

/// The message that the scan is over ends the session and changes nothing
/// else, in every state; a second such message changes nothing at all.
pub proof fn lemma_scan_ended_ends_session(state: AppView)
    ensures
        state.receive(MessageView::ScanEnded) == (AppView { scanning: false, ..state }),
        state.receive(MessageView::ScanEnded).receive(MessageView::ScanEnded) == state.receive(
            MessageView::ScanEnded,
        ),
{
}

/// No finding is lost: while a report exists, it grows by exactly the
/// findings that the bus delivers, each once and in the order in which
/// they were sent. Without a report they go nowhere. Messages change
/// neither the devices nor the cursor.
pub proof fn lemma_findings_kept_in_order(start: AppView, messages: Seq<MessageView>)
    ensures
        ({
            let after = receive_all(start, messages);
            &&& after.report == match start.report {
                Some(lines) => Some(lines + findings_in(messages)),
                None => None,
            }
            &&& after.devices == start.devices
            &&& after.cursor == start.cursor
        }),
    decreases messages.len(),
{
    if messages.len() == 0 {
        if let Some(lines) = start.report {
            assert(lines + findings_in(messages) =~= lines);
        }
    } else {
        lemma_findings_kept_in_order(start, messages.drop_last());
        if let Some(lines) = start.report {
            let before = findings_in(messages.drop_last());
            if let MessageView::Suspicion(line) = messages.last() {
                assert((lines + before).push(line) =~= lines + before.push(line));
            }
        }
    }
}

/// The messages that carry `findings`, in order.
pub open spec fn finding_messages(findings: Seq<Seq<char>>) -> Seq<MessageView> {
    findings.map_values(|line: Seq<char>| MessageView::Suspicion(line))
}

/// What a scan puts on the bus from its start to its end: a message for
/// each of its findings, in order, and then, once, the message that it is
/// over.
pub open spec fn scan_output(findings: Seq<Seq<char>>) -> Seq<MessageView> {
    finding_messages(findings).push(MessageView::ScanEnded)
}

/// Findings alone add themselves to a report and change nothing else.
pub proof fn lemma_findings_add_to_report(start: AppView, findings: Seq<Seq<char>>)
    ensures
        receive_all(start, finding_messages(findings)) == (AppView {
            report: match start.report {
                Some(lines) => Some(lines + findings),
                None => None,
            },
            ..start
        }),
    decreases findings.len(),
{
    let messages = finding_messages(findings);
    if findings.len() == 0 {
        if let Some(lines) = start.report {
            assert(lines + findings =~= lines);
        }
    } else {
        lemma_findings_add_to_report(start, findings.drop_last());
        assert(messages.drop_last() =~= finding_messages(findings.drop_last()));
        if let Some(lines) = start.report {
            assert((lines + findings.drop_last()).push(findings.last()) =~= lines + findings);
        }
    }
}

/// A scan that runs to its end, or gives up by itself, leaves the report
/// with exactly its findings behind what was there, in order, and the
/// session ended.
pub proof fn lemma_scan_ends_with_its_findings(start: AppView, findings: Seq<Seq<char>>)
    requires
        start.report is Some,
    ensures
        receive_all(start, scan_output(findings)) == (AppView {
            report: Some(start.report.unwrap() + findings),
            scanning: false,
            ..start
        }),
{
    lemma_findings_add_to_report(start, findings);
    assert(scan_output(findings).drop_last() =~= finding_messages(findings));
}

/// Cancelling changes nothing about where a scan ends. Let the operator
/// back out after the first `early` findings of a running scan have
/// arrived, and let the rest arrive afterwards, up to the message that the
/// scan is over: the session is ended from the key press on, and at the end
/// the report holds every finding once, in the order in which the scan
/// sent them.
pub proof fn lemma_cancelled_scan_ends_with_its_findings(
    start: AppView,
    key: KeyEvent,
    findings: Seq<Seq<char>>,
    early: int,
)
    requires
        start.scanning,
        start.report is Some,
        is_back_key(key),
        0 <= early <= findings.len(),
    ensures
        ({
            let seen = receive_all(start, finding_messages(findings.take(early)));
            let (cancelled, action) = seen.on_event(Event::Key(key));
            let end = receive_all(cancelled, scan_output(findings.skip(early)));
            &&& action == Some(ActionView::CancelScan)
            &&& !cancelled.scanning
            &&& end == (AppView {
                report: Some(start.report.unwrap() + findings),
                scanning: false,
                ..start
            })
        }),
{
    let lines = start.report.unwrap();
    let seen = receive_all(start, finding_messages(findings.take(early)));
    lemma_findings_add_to_report(start, findings.take(early));
    let cancelled = seen.on_event(Event::Key(key)).0;
    lemma_scan_ends_with_its_findings(cancelled, findings.skip(early));
    assert((lines + findings.take(early)) + findings.skip(early) =~= lines + findings);
}

/// While a scan is running, nothing that arrives takes a finding out of
/// the report or moves one: a finding goes to its end, a failed start
/// drops a report that is still empty, and everything else leaves the
/// report as it is.
pub proof fn lemma_report_grows_while_scanning(state: AppView, arrival: ArrivalView)
    requires
        state.wf(),
        state.scanning,
    ensures
        ({
            let before = state.report.unwrap();
            let after = state.step(arrival).0.report;
            match arrival {
                ArrivalView::Message(MessageView::Suspicion(line)) => after == Some(
                    before.push(line),
                ),
                ArrivalView::StartFailed => after == if before.len() == 0 {
                    None
                } else {
                    Some(before)
                },
                _ => after == Some(before),
            }
        }),
{
    if arrival is StartFailed {
        let before = state.report.unwrap();
        assert(before.len() == 0 ==> before =~= Seq::empty());
    }
}

/// The bus alone is what `replay` makes of a run in which nothing but
/// messages arrives.
pub proof fn lemma_receive_all_is_replay(start: AppView, messages: Seq<MessageView>)
    ensures
        receive_all(start, messages) == replay(
            start,
            messages.map_values(|message: MessageView| ArrivalView::Message(message)),
        ),
    decreases messages.len(),
{
    let arrivals = messages.map_values(|message: MessageView| ArrivalView::Message(message));
    if messages.len() > 0 {
        lemma_receive_all_is_replay(start, messages.drop_last());
        assert(arrivals.drop_last() =~= messages.drop_last().map_values(
            |message: MessageView| ArrivalView::Message(message),
        ));
    }
}

/// The screen shows the findings exactly when a report exists, whether or
/// not a scan is still running.
pub proof fn lemma_findings_shown_iff_report(
    state: AppView,
    product: Seq<char>,
    version: Seq<char>,
)
    ensures
        screen_of(state, product, version).body is Findings <==> state.report is Some,
        screen_of(state, product, version).body is Devices <==> state.report is None,
{
}

/// Laying out the screen twice for one state gives the same screen.
pub proof fn lemma_same_state_same_screen(
    first: Screen,
    second: Screen,
    state: AppView,
    product: Seq<char>,
    version: Seq<char>,
)
    requires
        first@ == screen_of(state, product, version),
        second@ == screen_of(state, product, version),
    ensures
        first@ == second@,
{
}

} // verus!
