//! The inbound side of the bridge, seen from the editor's loop.
//!
//! The worker carries out the driver's effects on its own thread. The
//! editor's loop answers a wake by running one callback, which takes one
//! message from the inbound channel with a blocking receive and shows it.
//! Wakes coalesce: several wakes before a callback give one callback.
//!
//! This module models the two sides taking turns in any order and proves
//! that the receive never finds the channel empty, so the editor never
//! stalls, and that messages are shown in the order they were sent. The
//! model is a statement about the protocol, not about the channel or the
//! wake-up handle that the embedding program uses to carry it out.

use vstd::prelude::*;
use crate::driver::{DriverState, EffectView, EventView};
use crate::event::MessageView;
use crate::trace::{every_message_signalled, lemma_every_message_is_signalled, run_model};

verus! {

/// Which side acts next.
pub enum Turn {
    /// The worker carries out its next effect, if one is left.
    Worker,
    /// The editor's loop runs the wake callback, if a wake is pending.
    Host,
}

/// The bridge at one moment.
pub struct BridgeView {
    /// How many of its effects the worker has carried out.
    pub performed: nat,
    /// The messages on the inbound channel, oldest first.
    pub queued: Seq<MessageView>,
    /// Whether a wake has been signalled that no callback has answered yet.
    pub wake_pending: bool,
    /// The messages shown to the user so far, in order.
    pub shown: Seq<MessageView>,
    /// Whether a callback has found the inbound channel empty, which blocks
    /// the editor.
    pub stalled: bool,
}

/// The bridge before anything has happened.
pub open spec fn bridge_start() -> BridgeView {
    BridgeView {
        performed: 0,
        queued: Seq::empty(),
        wake_pending: false,
        shown: Seq::empty(),
        stalled: false,
    }
}

/// The worker carries out the next of `effects`: a message goes on the
/// channel, a wake is signalled, a report leaves the bridge as it is.
pub open spec fn worker_turn(bridge: BridgeView, effects: Seq<EffectView>) -> BridgeView {
    if bridge.performed >= effects.len() {
        bridge
    } else {
        let after = BridgeView { performed: bridge.performed + 1, ..bridge };
        match effects[bridge.performed as int] {
            EffectView::Enqueue(message) => BridgeView {
                queued: bridge.queued.push(message),
                ..after
            },
            EffectView::Wake => BridgeView { wake_pending: true, ..after },
            EffectView::Report(_) => after,
        }
    }
}

/// The editor's loop answers a pending wake: the callback takes the oldest
/// message and shows it. With an empty channel the callback would block.
pub open spec fn host_turn(bridge: BridgeView) -> BridgeView {
    if !bridge.wake_pending {
        bridge
    } else if bridge.queued.len() == 0 {
        BridgeView { wake_pending: false, stalled: true, ..bridge }
    } else {
        BridgeView {
            wake_pending: false,
            queued: bridge.queued.drop_first(),
            shown: bridge.shown.push(bridge.queued[0]),
            ..bridge
        }
    }
}

/// The bridge after the two sides have taken the turns of `schedule`, the
/// worker working through `effects`.
pub open spec fn bridge_run(effects: Seq<EffectView>, schedule: Seq<Turn>) -> BridgeView
    decreases schedule.len(),
{
    if schedule.len() == 0 {
        bridge_start()
    } else {
        let before = bridge_run(effects, schedule.drop_last());
        match schedule.last() {
            Turn::Worker => worker_turn(before, effects),
            Turn::Host => host_turn(before),
        }
    }
}

/// The messages among `effects`, in order.
pub open spec fn messages_in(effects: Seq<EffectView>) -> Seq<MessageView>
    decreases effects.len(),
{
    if effects.len() == 0 {
        Seq::empty()
    } else {
        let earlier = messages_in(effects.drop_last());
        match effects.last() {
            EffectView::Enqueue(message) => earlier.push(message),
            _ => earlier,
        }
    }
}

/// What the channel must hold for the next callback to find a message: one
/// for a pending wake, and one more while the worker stands between a
/// message and its wake.
spec fn messages_owed(bridge: BridgeView, effects: Seq<EffectView>) -> nat {
    let for_wake: nat = if bridge.wake_pending { 1 } else { 0 };
    let for_message: nat = if 0 < bridge.performed <= effects.len()
        && effects[bridge.performed - 1] is Enqueue {
        1
    } else {
        0
    };
    for_wake + for_message
}

/// Where every message is followed at once by its wake, the channel always
/// holds what the callbacks still to come will take.
proof fn lemma_channel_covers_wakes(effects: Seq<EffectView>, schedule: Seq<Turn>)
    requires
        every_message_signalled(effects),
    ensures
        !bridge_run(effects, schedule).stalled,
        bridge_run(effects, schedule).performed <= effects.len(),
        bridge_run(effects, schedule).queued.len() >= messages_owed(
            bridge_run(effects, schedule),
            effects,
        ),
    decreases schedule.len(),
{
    if schedule.len() > 0 {
        lemma_channel_covers_wakes(effects, schedule.drop_last());
        let k = bridge_run(effects, schedule.drop_last()).performed as int;
        if schedule.last() is Worker && k < effects.len() {
            // A message just sent is followed by its wake, and a wake comes
            // straight after its message.
            assert(k > 0 && effects[k - 1] is Enqueue ==> effects[k] is Wake);
            assert(effects[k] is Wake ==> k > 0 && effects[k - 1] is Enqueue);
        }
    }
}

/// The editor never stalls: where every message is followed at once by its
/// wake, no callback finds the inbound channel empty, however the turns of
/// the two sides fall.
pub proof fn lemma_host_never_stalls(effects: Seq<EffectView>, schedule: Seq<Turn>)
    requires
        every_message_signalled(effects),
    ensures
        !bridge_run(effects, schedule).stalled,
{
    lemma_channel_covers_wakes(effects, schedule);
}

/// Whatever a session of the driver calls for, and however the turns fall,
/// the editor never stalls.
pub proof fn lemma_session_never_stalls_host(
    state: DriverState,
    port: u16,
    events: Seq<EventView>,
    schedule: Seq<Turn>,
)
    ensures
        !bridge_run(run_model(state, port, events).1, schedule).stalled,
{
    lemma_every_message_is_signalled(state, port, events);
    lemma_host_never_stalls(run_model(state, port, events).1, schedule);
}

/// Messages are shown in the order in which they were sent, none twice and
/// none skipped: what has been shown, followed by what is still on the
/// channel, is what the worker has sent so far.
pub proof fn lemma_messages_shown_in_order(effects: Seq<EffectView>, schedule: Seq<Turn>)
    ensures
        bridge_run(effects, schedule).performed <= effects.len(),
        bridge_run(effects, schedule).shown + bridge_run(effects, schedule).queued == messages_in(
            effects.take(bridge_run(effects, schedule).performed as int),
        ),
    decreases schedule.len(),
{
    if schedule.len() > 0 {
        lemma_messages_shown_in_order(effects, schedule.drop_last());
        let k = bridge_run(effects, schedule.drop_last()).performed as int;
        if schedule.last() is Worker && k < effects.len() {
            assert(effects.take(k + 1).drop_last() =~= effects.take(k));
        }
    }
}

} // verus!
