//! Whole sessions: what the driver does over any sequence of events.
//!
//! The theorems are stated over [`run_model`], the effect of taking events
//! one at a time with [`Driver::step`](crate::driver::Driver::step).

use vstd::prelude::*;
use crate::driver::{
    connected_notice, disconnected_notice, failure_notice, notify, step_model, DriverState,
    EffectView, EventView,
};
use crate::event::{request_of, CursorView};

verus! {

/// The state reached and the effects called for, in order, when `events`
/// are taken one after the other starting from `state`.
pub open spec fn run_model(state: DriverState, port: u16, events: Seq<EventView>) -> (
    DriverState,
    Seq<EffectView>,
)
    decreases events.len(),
{
    if events.len() == 0 {
        (state, Seq::empty())
    } else {
        let first = step_model(state, port, events[0]);
        let rest = run_model(first.0, port, events.drop_first());
        (rest.0, first.1 + rest.1)
    }
}

/// How far a session has come: connecting, then streaming, then closed.
pub open spec fn progress(state: DriverState) -> nat {
    match state {
        DriverState::Connecting => 0,
        DriverState::Streaming => 1,
        DriverState::Closed => 2,
    }
}

/// Every message put on the inbound channel is followed at once by a wake,
/// and every wake follows at once on a message.
pub open spec fn every_message_signalled(effects: Seq<EffectView>) -> bool {
    forall|i: int|
        0 <= i < effects.len() ==> {
            &&& #[trigger] effects[i] is Enqueue ==> i + 1 < effects.len() && effects[i + 1] is Wake
            &&& effects[i] is Wake ==> i > 0 && effects[i - 1] is Enqueue
        }
}

/// No effect other than a report comes before a report.
pub open spec fn reports_come_first(effects: Seq<EffectView>) -> bool {
    forall|i: int, j: int|
        0 <= j < i < effects.len() && #[trigger] effects[i] is Report ==> #[trigger] effects[j] is Report
}

/// Taking `event` and then `later` is one step followed by the run of
/// `later` from the state that the step reached.
pub proof fn lemma_run_after_step(
    state: DriverState,
    port: u16,
    event: EventView,
    later: Seq<EventView>,
)
    ensures
        run_model(state, port, seq![event] + later).0 == run_model(
            step_model(state, port, event).0,
            port,
            later,
        ).0,
        run_model(state, port, seq![event] + later).1 == step_model(state, port, event).1
            + run_model(step_model(state, port, event).0, port, later).1,
{
    assert((seq![event] + later).drop_first() =~= later);
}

/// Taking `earlier` and then `later` is the run of `earlier` followed by
/// the run of `later` from the state that `earlier` reached.
pub proof fn lemma_run_in_two_parts(
    state: DriverState,
    port: u16,
    earlier: Seq<EventView>,
    later: Seq<EventView>,
)
    ensures
        run_model(state, port, earlier + later).0 == run_model(
            run_model(state, port, earlier).0,
            port,
            later,
        ).0,
        run_model(state, port, earlier + later).1 == run_model(state, port, earlier).1
            + run_model(run_model(state, port, earlier).0, port, later).1,
    decreases earlier.len(),
{
    if earlier.len() > 0 {
        assert((earlier + later).drop_first() =~= earlier.drop_first() + later);
        lemma_run_in_two_parts(
            step_model(state, port, earlier[0]).0,
            port,
            earlier.drop_first(),
            later,
        );
    }
}

/// A closed session is over: whatever arrives, it stays closed and calls
/// for nothing.
pub proof fn lemma_closed_session_is_over(port: u16, events: Seq<EventView>)
    ensures
        run_model(DriverState::Closed, port, events).0 == DriverState::Closed,
        run_model(DriverState::Closed, port, events).1 == Seq::<EffectView>::empty(),
    decreases events.len(),
{
    if events.len() > 0 {
        lemma_closed_session_is_over(port, events.drop_first());
    }
}

/// A session never goes back: the connection is attempted once, and a closed
/// session is never reopened.
pub proof fn lemma_session_only_advances(state: DriverState, port: u16, events: Seq<EventView>)
    ensures
        progress(run_model(state, port, events).0) >= progress(state),
    decreases events.len(),
{
    if events.len() > 0 {
        lemma_session_only_advances(
            step_model(state, port, events[0]).0,
            port,
            events.drop_first(),
        );
    }
}

/// A failed connection attempt calls for exactly one message, an error, and
/// its wake. The session is then closed: no "connected" notice and no report
/// follow, whatever arrives later.
pub proof fn lemma_failed_connection_ends_session(
    port: u16,
    cause: Seq<char>,
    later: Seq<EventView>,
)
    ensures
        run_model(
            DriverState::Connecting,
            port,
            seq![EventView::ConnectFailed(cause)] + later,
        ).0 == DriverState::Closed,
        run_model(
            DriverState::Connecting,
            port,
            seq![EventView::ConnectFailed(cause)] + later,
        ).1 == notify(failure_notice(port, cause)),
        failure_notice(port, cause).err,
{
    lemma_run_after_step(DriverState::Connecting, port, EventView::ConnectFailed(cause), later);
    lemma_closed_session_is_over(port, later);
}

/// The end of the outbound channel calls for exactly one message, the
/// "disconnected" notice, and its wake. The session is then closed: no
/// report follows, whatever arrives later.
pub proof fn lemma_outbound_close_ends_session(port: u16, later: Seq<EventView>)
    ensures
        run_model(DriverState::Streaming, port, seq![EventView::OutboundClosed] + later).0
            == DriverState::Closed,
        run_model(DriverState::Streaming, port, seq![EventView::OutboundClosed] + later).1
            == notify(disconnected_notice()),
{
    lemma_run_after_step(DriverState::Streaming, port, EventView::OutboundClosed, later);
    lemma_closed_session_is_over(port, later);
}

/// While streaming, cursor positions are reported one for one and in the
/// order in which they arrived.
pub proof fn lemma_reports_keep_cursor_order(port: u16, cursors: Seq<CursorView>)
    ensures
        run_model(
            DriverState::Streaming,
            port,
            cursors.map_values(|cursor: CursorView| EventView::Cursor(cursor)),
        ).0 == DriverState::Streaming,
        run_model(
            DriverState::Streaming,
            port,
            cursors.map_values(|cursor: CursorView| EventView::Cursor(cursor)),
        ).1 == cursors.map_values(|cursor: CursorView| EffectView::Report(request_of(cursor))),
    decreases cursors.len(),
{
    if cursors.len() > 0 {
        let events = cursors.map_values(|cursor: CursorView| EventView::Cursor(cursor));
        let rest = cursors.drop_first();
        lemma_reports_keep_cursor_order(port, rest);
        assert(events.drop_first() =~= rest.map_values(
            |cursor: CursorView| EventView::Cursor(cursor),
        ));
    }
}

/// From the streaming state on, reports come before anything else: once the
/// closing notice is out, nothing is reported any more.
pub proof fn lemma_streaming_reports_come_first(port: u16, events: Seq<EventView>)
    ensures
        reports_come_first(run_model(DriverState::Streaming, port, events).1),
    decreases events.len(),
{
    if events.len() > 0 {
        if step_model(DriverState::Streaming, port, events[0]).0 == DriverState::Closed {
            lemma_closed_session_is_over(port, events.drop_first());
        } else {
            lemma_streaming_reports_come_first(port, events.drop_first());
        }
    }
}

/// A successful connection attempt calls for exactly one message, the
/// "connected" notice, which is no error, and its wake. Whatever arrives
/// later, a report is only ever preceded by that notice, its wake and other
/// reports.
pub proof fn lemma_connection_announced_before_reports(port: u16, later: Seq<EventView>)
    ensures
        step_model(DriverState::Connecting, port, EventView::Connected).1 == notify(
            connected_notice(),
        ),
        !connected_notice().err,
        ({
            let effects = run_model(
                DriverState::Connecting,
                port,
                seq![EventView::Connected] + later,
            ).1;
            &&& effects.len() >= 2
            &&& effects[0] == EffectView::Enqueue(connected_notice())
            &&& effects[1] == EffectView::Wake
            &&& forall|i: int, j: int|
                2 <= j < i < effects.len() && #[trigger] effects[i] is Report
                    ==> #[trigger] effects[j] is Report
        }),
{
    lemma_run_after_step(DriverState::Connecting, port, EventView::Connected, later);
    lemma_streaming_reports_come_first(port, later);
}

/// A report that failed is passed over: the session goes on as if the event
/// had not arrived.
pub proof fn lemma_failed_report_changes_nothing(port: u16, later: Seq<EventView>)
    ensures
        run_model(DriverState::Streaming, port, seq![EventView::ReportFailed] + later)
            == run_model(DriverState::Streaming, port, later),
{
    lemma_run_after_step(DriverState::Streaming, port, EventView::ReportFailed, later);
}

/// A whole session that connects, receives `cursors` and then sees the
/// outbound channel close: the "connected" notice, one report for each
/// cursor position in the order of arrival, and the "disconnected" notice,
/// each notice with its wake.
pub proof fn lemma_complete_session(port: u16, cursors: Seq<CursorView>)
    ensures
        run_model(
            DriverState::Connecting,
            port,
            seq![EventView::Connected] + (cursors.map_values(
                |cursor: CursorView| EventView::Cursor(cursor),
            ) + seq![EventView::OutboundClosed]),
        ).0 == DriverState::Closed,
        run_model(
            DriverState::Connecting,
            port,
            seq![EventView::Connected] + (cursors.map_values(
                |cursor: CursorView| EventView::Cursor(cursor),
            ) + seq![EventView::OutboundClosed]),
        ).1 == notify(connected_notice()) + (cursors.map_values(
            |cursor: CursorView| EffectView::Report(request_of(cursor)),
        ) + notify(disconnected_notice())),
{
    let arrivals = cursors.map_values(|cursor: CursorView| EventView::Cursor(cursor));
    let closing = seq![EventView::OutboundClosed];
    lemma_run_after_step(DriverState::Connecting, port, EventView::Connected, arrivals + closing);
    lemma_run_in_two_parts(DriverState::Streaming, port, arrivals, closing);
    lemma_reports_keep_cursor_order(port, cursors);
    lemma_outbound_close_ends_session(port, Seq::empty());
}

/// Joining two effect lists keeps messages and wakes paired.
proof fn lemma_signalled_concat(a: Seq<EffectView>, b: Seq<EffectView>)
    requires
        every_message_signalled(a),
        every_message_signalled(b),
    ensures
        every_message_signalled(a + b),
{
    let all = a + b;
    assert forall|i: int| 0 <= i < all.len() implies {
        &&& #[trigger] all[i] is Enqueue ==> i + 1 < all.len() && all[i + 1] is Wake
        &&& all[i] is Wake ==> i > 0 && all[i - 1] is Enqueue
    } by {
        if i < a.len() {
            assert(all[i] == a[i]);
        } else {
            assert(all[i] == b[i - a.len()]);
        }
    }
}

/// In every session, from every state, each message put on the inbound
/// channel is followed at once by a wake, and no wake comes without a
/// message just before it.
pub proof fn lemma_every_message_is_signalled(
    state: DriverState,
    port: u16,
    events: Seq<EventView>,
)
    ensures
        every_message_signalled(run_model(state, port, events).1),
    decreases events.len(),
{
    if events.len() > 0 {
        let first = step_model(state, port, events[0]);
        lemma_every_message_is_signalled(first.0, port, events.drop_first());
        lemma_signalled_concat(first.1, run_model(first.0, port, events.drop_first()).1);
    }
}

} // verus!
