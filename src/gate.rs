//! The handshake gate: from an accepted connection to a dial of its upstream,
//! under one deadline.
use vstd::prelude::*;
use crate::route::StreamType;

verus! {

/// Where a connection stands before its bridge runs.
#[derive(Clone, Copy, Debug, PartialEq, Eq, Structural)]
pub enum GateState {
    /// The WebSocket upgrade is in progress.
    Handshaking,
    /// The upgrade succeeded; the resolved target is awaited.
    AwaitingTarget,
    /// The upstream was dialed: the bridge owns the connection.
    Bridging,
    /// The upgrade was refused or failed.
    Rejected,
    /// The deadline passed before a target was received.
    TimedOut,
    /// The target never came.
    Dropped,
}

/// What happened to a connection in its handshake.
#[derive(Clone, Debug)]
pub enum GateEvent {
    /// The upgrade completed.
    HandshakeAccepted,
    /// The upgrade was refused, malformed or broke off.
    HandshakeFailed,
    /// The routing decision handed over its target.
    TargetReceived(StreamType),
    /// The handoff closed with no target in it.
    ChannelClosed,
    /// The handshake deadline passed.
    DeadlineElapsed,
}

/// What to do with a connection next.
#[derive(Clone, Debug)]
pub enum GateAction {
    /// Keep waiting.
    Wait,
    /// Drop the connection.
    Drop,
    /// Dial this target and bridge the connection to it.
    Dial(StreamType),
}

/// The state and action that follow one event.
pub open spec fn gate_decision(state: GateState, ev: GateEvent) -> (GateState, GateAction) {
    match state {
        GateState::Handshaking => match ev {
            GateEvent::HandshakeAccepted => (GateState::AwaitingTarget, GateAction::Wait),
            GateEvent::HandshakeFailed => (GateState::Rejected, GateAction::Drop),
            GateEvent::DeadlineElapsed => (GateState::TimedOut, GateAction::Drop),
            _ => (GateState::Handshaking, GateAction::Wait),
        },
        GateState::AwaitingTarget => match ev {
            GateEvent::TargetReceived(t) => (GateState::Bridging, GateAction::Dial(t)),
            GateEvent::ChannelClosed => (GateState::Dropped, GateAction::Drop),
            GateEvent::DeadlineElapsed => (GateState::TimedOut, GateAction::Drop),
            _ => (GateState::AwaitingTarget, GateAction::Wait),
        },
        _ => (state, GateAction::Wait),
    }
}

/// A target is dialed only once the upgrade has completed and the target has
/// come; a refused upgrade, a closed handoff or the deadline drop the
/// connection; settled connections stay as they are.
pub fn gate_step(state: GateState, ev: GateEvent) -> (r: (GateState, GateAction))
    ensures
        r == gate_decision(state, ev),
{
    match state {
        GateState::Handshaking => match ev {
            GateEvent::HandshakeAccepted => (GateState::AwaitingTarget, GateAction::Wait),
            GateEvent::HandshakeFailed => (GateState::Rejected, GateAction::Drop),
            GateEvent::DeadlineElapsed => (GateState::TimedOut, GateAction::Drop),
            _ => (GateState::Handshaking, GateAction::Wait),
        },
        GateState::AwaitingTarget => match ev {
            GateEvent::TargetReceived(t) => (GateState::Bridging, GateAction::Dial(t)),
            GateEvent::ChannelClosed => (GateState::Dropped, GateAction::Drop),
            GateEvent::DeadlineElapsed => (GateState::TimedOut, GateAction::Drop),
            _ => (GateState::AwaitingTarget, GateAction::Wait),
        },
        _ => (state, GateAction::Wait),
    }
}

/// Whether a run of events, from `state`, dials an upstream at some point.
pub open spec fn dials(state: GateState, events: Seq<GateEvent>) -> bool
    decreases events.len(),
{
    events.len() > 0 && {
        let (next, a) = gate_decision(state, events[0]);
        a is Dial || dials(next, events.drop_first())
    }
}

/// Whether a state comes before the bridge.
pub open spec fn before_bridge(state: GateState) -> bool {
    state is Handshaking || state is AwaitingTarget
}

/// A connection that times out is never bridged: no later event dials.
pub proof fn lemma_timed_out_stays(events: Seq<GateEvent>)
    ensures
        !dials(GateState::TimedOut, events),
    decreases events.len(),
{
    if events.len() > 0 {
        lemma_timed_out_stays(events.drop_first());
    }
}

/// When the deadline passes before the bridge, the connection is dropped and
/// no upstream dial is ever attempted, whatever follows.
pub proof fn lemma_deadline_never_dials(state: GateState, after: Seq<GateEvent>)
    requires
        before_bridge(state),
    ensures
        gate_decision(state, GateEvent::DeadlineElapsed) == (GateState::TimedOut, GateAction::Drop),
        !dials(state, seq![GateEvent::DeadlineElapsed] + after),
{
    let all = seq![GateEvent::DeadlineElapsed] + after;
    assert(all[0] == GateEvent::DeadlineElapsed);
    assert(all.drop_first() =~= after);
    lemma_timed_out_stays(after);
}

/// Nothing is dialed while the upgrade is still in progress.
pub proof fn lemma_no_dial_while_handshaking(ev: GateEvent)
    ensures
        !(gate_decision(GateState::Handshaking, ev).1 is Dial),
{
}

} // verus!
