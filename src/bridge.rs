//! The decisions of the two forwarding directions of a bridged connection.
use vstd::prelude::*;

verus! {

/// The most bytes taken from the upstream socket in one read.
pub const READ_CHUNK: usize = 1024;

/// A fresh read buffer of `READ_CHUNK` zero bytes.
pub fn read_buffer() -> (r: Vec<u8>)
    ensures
        r@.len() == READ_CHUNK,
        forall|i: int| 0 <= i < r@.len() ==> r@[i] == 0,
{
    let mut r: Vec<u8> = Vec::new();
    while r.len() < READ_CHUNK
        invariant
            r@.len() <= READ_CHUNK,
            forall|i: int| 0 <= i < r@.len() ==> r@[i] == 0,
        decreases READ_CHUNK - r@.len(),
    {
        r.push(0);
    }
    r
}

/// What happened next on the client-to-upstream direction.
#[derive(Clone, Debug)]
pub enum ClientEvent {
    /// A binary message with its payload.
    Binary(Vec<u8>),
    /// A text message with its payload as bytes.
    Text(Vec<u8>),
    /// A ping, pong or close message.
    Control,
    /// The message stream ended.
    Ended,
    /// Reading a message failed.
    Failed,
    /// Writing to the upstream socket failed.
    WriteFailed,
}

/// What to do with the upstream socket after a client event.
#[derive(Clone, Debug)]
pub enum UpAction {
    /// Write these bytes upstream and wait for the next event.
    Write(Vec<u8>),
    /// Forward nothing and wait for the next event.
    Skip,
    /// Shut both directions of the upstream socket down and stop.
    Shutdown,
}

/// The decision for one client event.
pub open spec fn up_decision(ev: ClientEvent) -> UpAction {
    match ev {
        ClientEvent::Binary(d) => UpAction::Write(d),
        ClientEvent::Text(d) => UpAction::Write(d),
        ClientEvent::Control => UpAction::Skip,
        ClientEvent::Ended => UpAction::Shutdown,
        ClientEvent::Failed => UpAction::Shutdown,
        ClientEvent::WriteFailed => UpAction::Shutdown,
    }
}

/// Data messages go upstream as their raw payload, control messages are not
/// forwarded, and the end of the stream or an error on either side shuts the
/// upstream down.
pub fn upstream_step(ev: ClientEvent) -> (r: UpAction)
    ensures
        r == up_decision(ev),
{
    match ev {
        ClientEvent::Binary(d) => UpAction::Write(d),
        ClientEvent::Text(d) => UpAction::Write(d),
        ClientEvent::Control => UpAction::Skip,
        ClientEvent::Ended => UpAction::Shutdown,
        ClientEvent::Failed => UpAction::Shutdown,
        ClientEvent::WriteFailed => UpAction::Shutdown,
    }
}

/// The bytes written upstream for a run of client events.
pub open spec fn written(events: Seq<ClientEvent>) -> Seq<u8>
    decreases events.len(),
{
    if events.len() == 0 {
        Seq::empty()
    } else {
        match up_decision(events[0]) {
            UpAction::Write(d) => d@ + written(events.drop_first()),
            UpAction::Skip => written(events.drop_first()),
            UpAction::Shutdown => Seq::empty(),
        }
    }
}

/// Whether the upstream socket is shut down within a run of client events.
pub open spec fn shuts_down(events: Seq<ClientEvent>) -> bool
    decreases events.len(),
{
    events.len() > 0 && (up_decision(events[0]) is Shutdown || shuts_down(events.drop_first()))
}

/// The payload of a data message (empty for any other event).
pub open spec fn data_payload(e: ClientEvent) -> Seq<u8> {
    match e {
        ClientEvent::Binary(d) => d@,
        ClientEvent::Text(d) => d@,
        _ => Seq::empty(),
    }
}

/// Until the client's stream ends or fails, the upstream receives the
/// payloads of the binary and text messages, one after another, in order,
/// with nothing added; control messages add nothing.
pub proof fn lemma_messages_round_trip(events: Seq<ClientEvent>)
    requires
        forall|i: int| 0 <= i < events.len() ==> !(up_decision(#[trigger] events[i]) is Shutdown),
    ensures
        written(events) == events.map_values(|e: ClientEvent| data_payload(e)).flatten(),
        !shuts_down(events),
    decreases events.len(),
{
    if events.len() > 0 {
        assert(events.map_values(|e: ClientEvent| data_payload(e)).drop_first()
            =~= events.drop_first().map_values(|e: ClientEvent| data_payload(e)));
        assert(forall|i: int|
            0 <= i < events.drop_first().len() ==> #[trigger] events.drop_first()[i] == events[i
                + 1]);
        assert(!(up_decision(events[0]) is Shutdown));
        lemma_messages_round_trip(events.drop_first());
        if events[0] is Control {
            assert(data_payload(events[0]) + written(events.drop_first()) =~= written(
                events.drop_first(),
            ));
        }
    }
}

/// Once the client's stream ends, the upstream is shut down and nothing
/// after that is written.
pub proof fn lemma_client_end_shuts_down(before: Seq<ClientEvent>, after: Seq<ClientEvent>)
    requires
        forall|i: int| 0 <= i < before.len() ==> !(up_decision(#[trigger] before[i]) is Shutdown),
    ensures
        shuts_down(before.push(ClientEvent::Ended) + after),
        written(before.push(ClientEvent::Ended) + after) == written(before),
    decreases before.len(),
{
    let all = before.push(ClientEvent::Ended) + after;
    if before.len() == 0 {
        assert(all[0] == ClientEvent::Ended);
        assert(written(before) == Seq::<u8>::empty());
    } else {
        assert(all.drop_first() =~= before.drop_first().push(ClientEvent::Ended) + after);
        assert(all[0] == before[0]);
        assert(!(up_decision(before[0]) is Shutdown));
        lemma_client_end_shuts_down(before.drop_first(), after);
    }
}

/// What the upstream side delivered next.
#[derive(Clone, Copy, Debug, PartialEq, Eq, Structural)]
pub enum DownEvent {
    /// A read returned this many bytes (zero: end of stream).
    Read(usize),
    /// A read failed.
    ReadFailed,
    /// Sending to the client failed.
    SendFailed,
}

/// Whether the upstream-to-client direction still runs.
#[derive(Clone, Copy, Debug, PartialEq, Eq, Structural)]
pub enum DownState {
    Forwarding,
    Closed,
}

/// What to send to the client after an upstream event.
#[derive(Clone, Debug)]
pub enum DownAction {
    /// Send one binary message with these bytes.
    SendBinary(Vec<u8>),
    /// Send a close frame; the direction is then done.
    SendClose,
    /// Send nothing.
    Nothing,
}

/// A message as the client sees it.
pub enum Frame {
    Binary(Seq<u8>),
    Close,
}

/// The state and message that follow one upstream event, given what the
/// read buffer holds.
pub open spec fn down_decision(state: DownState, buf: Seq<u8>, ev: DownEvent) -> (
    DownState,
    Option<Frame>,
) {
    match state {
        DownState::Closed => (DownState::Closed, None),
        DownState::Forwarding => match ev {
            DownEvent::Read(n) => if n > 0 {
                (DownState::Forwarding, Some(Frame::Binary(buf.take(n as int))))
            } else {
                (DownState::Closed, Some(Frame::Close))
            },
            DownEvent::ReadFailed => (DownState::Closed, Some(Frame::Close)),
            DownEvent::SendFailed => (DownState::Closed, None),
        },
    }
}

/// The message that an action sends.
pub open spec fn frame_of(a: DownAction) -> Option<Frame> {
    match a {
        DownAction::SendBinary(v) => Some(Frame::Binary(v@)),
        DownAction::SendClose => Some(Frame::Close),
        DownAction::Nothing => None,
    }
}

/// Whether an event may follow a read into `buf`.
pub open spec fn event_fits(buf: Seq<u8>, ev: DownEvent) -> bool {
    match ev {
        DownEvent::Read(n) => n <= buf.len(),
        _ => true,
    }
}

/// Each non-empty read becomes one binary message of exactly the bytes read;
/// the end of the upstream stream or a read error sends a close frame, and a
/// failed send ends the direction; once closed, nothing more is sent.
pub fn downstream_step(state: DownState, buf: &Vec<u8>, ev: DownEvent) -> (r: (DownState, DownAction))
    requires
        event_fits(buf@, ev),
    ensures
        (r.0, frame_of(r.1)) == down_decision(state, buf@, ev),
{
    match state {
        DownState::Closed => (DownState::Closed, DownAction::Nothing),
        DownState::Forwarding => match ev {
            DownEvent::Read(n) => {
                if n > 0 {
                    let mut out: Vec<u8> = Vec::new();
                    let mut i: usize = 0;
                    while i < n
                        invariant
                            i <= n <= buf@.len(),
                            out@ == buf@.take(i as int),
                        decreases n - i,
                    {
                        out.push(buf[i]);
                        assert(out@ =~= buf@.take(i + 1));
                        i = i + 1;
                    }
                    (DownState::Forwarding, DownAction::SendBinary(out))
                } else {
                    (DownState::Closed, DownAction::SendClose)
                }
            },
            DownEvent::ReadFailed => (DownState::Closed, DownAction::SendClose),
            DownEvent::SendFailed => (DownState::Closed, DownAction::Nothing),
        },
    }
}

/// The messages the client sees for a run of upstream events, each paired
/// with the buffer it was read into.
pub open spec fn frames(state: DownState, run: Seq<(Seq<u8>, DownEvent)>) -> Seq<Frame>
    decreases run.len(),
{
    if run.len() == 0 {
        Seq::empty()
    } else {
        let (next, f) = down_decision(state, run[0].0, run[0].1);
        let rest = frames(next, run.drop_first());
        match f {
            Some(fr) => seq![fr] + rest,
            None => rest,
        }
    }
}

/// Whether every event of a run is a non-empty read that fits its buffer.
pub open spec fn all_reads(run: Seq<(Seq<u8>, DownEvent)>) -> bool {
    forall|i: int|
        0 <= i < run.len() ==> match #[trigger] run[i].1 {
            DownEvent::Read(n) => 0 < n <= run[i].0.len(),
            _ => false,
        }
}

/// The chunks that a run of non-empty reads took from the upstream.
pub open spec fn chunks(run: Seq<(Seq<u8>, DownEvent)>) -> Seq<Frame> {
    run.map_values(
        |e: (Seq<u8>, DownEvent)|
            match e.1 {
                DownEvent::Read(n) => Frame::Binary(e.0.take(n as int)),
                _ => Frame::Close,
            },
    )
}

/// Upstream bytes reach the client as one binary message per read, each
/// holding exactly the bytes of that read.
pub proof fn lemma_reads_round_trip(run: Seq<(Seq<u8>, DownEvent)>)
    requires
        all_reads(run),
    ensures
        frames(DownState::Forwarding, run) == chunks(run),
    decreases run.len(),
{
    if run.len() > 0 {
        let rest = run.drop_first();
        assert(all_reads(rest)) by {
            assert forall|i: int| 0 <= i < rest.len() implies match #[trigger] rest[i].1 {
                DownEvent::Read(n) => 0 < n <= rest[i].0.len(),
                _ => false,
            } by {
                assert(rest[i] == run[i + 1]);
            }
        }
        lemma_reads_round_trip(rest);
        assert(run[0].1 is Read);
        assert(chunks(run) =~= seq![chunks(run)[0]] + chunks(rest));
    }
}

/// Once the direction is closed, the client is sent nothing more.
pub proof fn lemma_closed_is_silent(run: Seq<(Seq<u8>, DownEvent)>)
    ensures
        frames(DownState::Closed, run) == Seq::<Frame>::empty(),
    decreases run.len(),
{
    if run.len() > 0 {
        lemma_closed_is_silent(run.drop_first());
    }
}

/// After a run of reads, the end of the upstream stream sends one close frame
/// and then nothing, whatever follows.
pub proof fn lemma_end_sends_close(
    run: Seq<(Seq<u8>, DownEvent)>,
    buf: Seq<u8>,
    after: Seq<(Seq<u8>, DownEvent)>,
)
    requires
        all_reads(run),
    ensures
        frames(DownState::Forwarding, run.push((buf, DownEvent::Read(0))) + after) == chunks(run)
            + seq![Frame::Close],
    decreases run.len(),
{
    let all = run.push((buf, DownEvent::Read(0))) + after;
    if run.len() == 0 {
        assert(all[0] == (buf, DownEvent::Read(0)));
        lemma_closed_is_silent(all.drop_first());
        assert(chunks(run) =~= Seq::<Frame>::empty());
        assert(seq![Frame::Close] + Seq::<Frame>::empty() =~= Seq::<Frame>::empty() + seq![
            Frame::Close,
        ]);
    } else {
        let rest = run.drop_first();
        assert(all_reads(rest)) by {
            assert forall|i: int| 0 <= i < rest.len() implies match #[trigger] rest[i].1 {
                DownEvent::Read(n) => 0 < n <= rest[i].0.len(),
                _ => false,
            } by {
                assert(rest[i] == run[i + 1]);
            }
        }
        assert(all.drop_first() =~= rest.push((buf, DownEvent::Read(0))) + after);
        assert(all[0] == run[0]);
        assert(run[0].1 is Read);
        lemma_end_sends_close(rest, buf, after);
        assert(chunks(run) =~= seq![chunks(run)[0]] + chunks(rest));
        assert(seq![chunks(run)[0]] + (chunks(rest) + seq![Frame::Close]) =~= chunks(run)
            + seq![Frame::Close]);
    }
}

} // verus!
