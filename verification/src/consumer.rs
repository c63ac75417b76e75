//! The event-stream consumer's state machine.
//!
//! The consumer runs an unbounded outer loop for the runner's lifetime:
//! gate on connectivity, open the stream, resync the mirror in full, then
//! consume frames while racing them against status notifications. The
//! decisions live here as a pure transition relation; `Runner::stream_step`
//! is proved to follow it, and the driving loop outside the crate merely
//! performs the returned actions and feeds back what happened.

use vstd::prelude::*;

use crate::event::spec_decode_frame;
use crate::instance::Instance;
use crate::json::json_of;
use crate::protocol::spec_decode_instance_map;

verus! {

/// Where the consumer stands in its session.
#[derive(Debug, Clone, Copy, PartialEq, Eq, Structural)]
pub enum StreamPhase {
    /// Waiting for connectivity before opening a stream.
    Gate,
    /// Gate passed; the stream is being opened.
    Opening,
    /// Stream open; the full instance list is being fetched.
    Resync,
    /// Resynced; frames are applied as they arrive.
    Consume,
}

/// What the outside loop reports back to the consumer.
#[derive(Debug, PartialEq, Eq)]
pub enum StreamEvent {
    /// The consumer is waiting to start a session and should examine
    /// connectivity.
    GateCheck,
    /// Whether opening the event stream succeeded.
    OpenResult(bool),
    /// The instance-list body of the resync fetch; `None` on a transport
    /// failure.
    ResyncBody(Option<String>),
    /// One raw frame from the stream.
    Frame(Vec<u8>),
    /// A status notification arrived while racing the stream.
    StatusChanged(bool),
    /// The remote closed the stream cleanly.
    StreamEnd,
}

/// What the outside loop must do next.
#[derive(Debug, Clone, Copy, PartialEq, Eq, Structural)]
pub enum StreamAction {
    /// Not connected: wait for a status notification, then report
    /// `GateCheck` again.
    AwaitStatus,
    /// Open the event stream and report `OpenResult`.
    OpenStream,
    /// Fetch the full instance list and report `ResyncBody`.
    FetchInstances,
    /// Race the next frame against a status notification.
    AwaitFrame,
    /// Transient failure: sleep the retry interval, then report `GateCheck`.
    SleepRetry,
    /// Abort the stream session and report `GateCheck` at once.
    Regate,
}

/// What a resync fetch yields: the decoded instance map, or nothing on a
/// transport failure or an undecodable body.
pub open spec fn resync_outcome(body: Option<String>) -> Option<Map<Seq<char>, Instance>> {
    match body {
        Some(b) => spec_decode_instance_map(json_of(b@)),
        None => None,
    }
}

/// Whether an event is a resync that succeeded. Only such an event can carry
/// the consumer into the consuming phase.
pub open spec fn successful_resync(ev: StreamEvent) -> bool {
    match ev {
        StreamEvent::ResyncBody(body) => resync_outcome(body) is Some,
        _ => false,
    }
}

/// The phase after one step. An event the phase does not expect aborts the
/// stream session.
pub open spec fn next_phase(phase: StreamPhase, conn: bool, ev: StreamEvent) -> StreamPhase {
    match phase {
        StreamPhase::Gate => match ev {
            StreamEvent::GateCheck => if conn {
                StreamPhase::Opening
            } else {
                StreamPhase::Gate
            },
            _ => StreamPhase::Gate,
        },
        StreamPhase::Opening => match ev {
            StreamEvent::OpenResult(ok) => if ok {
                StreamPhase::Resync
            } else {
                StreamPhase::Gate
            },
            _ => StreamPhase::Gate,
        },
        StreamPhase::Resync => match ev {
            StreamEvent::ResyncBody(body) => if resync_outcome(body) is Some {
                StreamPhase::Consume
            } else {
                StreamPhase::Gate
            },
            _ => StreamPhase::Gate,
        },
        StreamPhase::Consume => match ev {
            StreamEvent::Frame(frame) => if spec_decode_frame(frame@) is Ok {
                StreamPhase::Consume
            } else {
                StreamPhase::Gate
            },
            _ => StreamPhase::Gate,
        },
    }
}

/// The mirror after one step. Only a successful resync or a well-formed
/// frame in the consuming phase touches it.
pub open spec fn next_mirror(
    phase: StreamPhase,
    mirror: Map<Seq<char>, Instance>,
    ev: StreamEvent,
) -> Map<Seq<char>, Instance> {
    match phase {
        StreamPhase::Resync => match ev {
            StreamEvent::ResyncBody(body) => match resync_outcome(body) {
                Some(snapshot) => snapshot,
                None => mirror,
            },
            _ => mirror,
        },
        StreamPhase::Consume => match ev {
            StreamEvent::Frame(frame) => match spec_decode_frame(frame@) {
                Ok(crate::event::RemoteEvent::ModifyInstance { id, instance }) => mirror.insert(
                    id@,
                    instance,
                ),
                Ok(crate::event::RemoteEvent::DeleteInstance { id }) => mirror.remove(id@),
                Err(_) => mirror,
            },
            _ => mirror,
        },
        _ => mirror,
    }
}

/// The action after one step.
pub open spec fn step_action(phase: StreamPhase, conn: bool, ev: StreamEvent) -> StreamAction {
    match phase {
        StreamPhase::Gate => match ev {
            StreamEvent::GateCheck => if conn {
                StreamAction::OpenStream
            } else {
                StreamAction::AwaitStatus
            },
            _ => StreamAction::Regate,
        },
        StreamPhase::Opening => match ev {
            StreamEvent::OpenResult(ok) => if ok {
                StreamAction::FetchInstances
            } else {
                StreamAction::SleepRetry
            },
            _ => StreamAction::Regate,
        },
        StreamPhase::Resync => match ev {
            StreamEvent::ResyncBody(body) => if resync_outcome(body) is Some {
                StreamAction::AwaitFrame
            } else {
                StreamAction::SleepRetry
            },
            _ => StreamAction::Regate,
        },
        StreamPhase::Consume => match ev {
            StreamEvent::Frame(frame) => if spec_decode_frame(frame@) is Ok {
                StreamAction::AwaitFrame
            } else {
                StreamAction::Regate
            },
            _ => StreamAction::Regate,
        },
    }
}

/// Whether one step posts on the `update` bus: exactly when it applied a
/// resync or a decoded event to the mirror (also when the write left the map
/// equal, as a delete of an absent id does).
pub open spec fn step_publishes(phase: StreamPhase, ev: StreamEvent) -> bool {
    match phase {
        StreamPhase::Resync => successful_resync(ev),
        StreamPhase::Consume => match ev {
            StreamEvent::Frame(frame) => spec_decode_frame(frame@) is Ok,
            _ => false,
        },
        _ => false,
    }
}

/// A whole run of the machine: each step brings the connectivity seen at
/// that moment and the event.
pub open spec fn run_steps(
    phase: StreamPhase,
    mirror: Map<Seq<char>, Instance>,
    steps: Seq<(bool, StreamEvent)>,
) -> (StreamPhase, Map<Seq<char>, Instance>)
    decreases steps.len(),
{
    if steps.len() == 0 {
        (phase, mirror)
    } else {
        run_steps(
            next_phase(phase, steps[0].0, steps[0].1),
            next_mirror(phase, mirror, steps[0].1),
            steps.skip(1),
        )
    }
}

/// Law: resync before consume. Starting anywhere short of the consuming
/// phase — as every stream session does — a run containing no successful
/// resync never reaches the consuming phase and leaves the mirror exactly as
/// it was: no modify or delete application is observable until a full
/// instance-list replacement has completed for the current session.
pub proof fn lemma_resync_before_consume(
    phase: StreamPhase,
    mirror: Map<Seq<char>, Instance>,
    steps: Seq<(bool, StreamEvent)>,
)
    requires
        phase != StreamPhase::Consume,
        forall|i: int| 0 <= i < steps.len() ==> !successful_resync(#[trigger] steps[i].1),
    ensures
        run_steps(phase, mirror, steps).0 != StreamPhase::Consume,
        run_steps(phase, mirror, steps).1 == mirror,
    decreases steps.len(),
{
    if steps.len() > 0 {
        let p1 = next_phase(phase, steps[0].0, steps[0].1);
        let m1 = next_mirror(phase, mirror, steps[0].1);
        assert(!successful_resync(steps[0].1));
        assert(p1 != StreamPhase::Consume);
        assert(m1 == mirror);
        assert(forall|i: int|
            0 <= i < steps.skip(1).len() ==> !successful_resync(#[trigger] steps.skip(1)[i].1));
        lemma_resync_before_consume(p1, m1, steps.skip(1));
    }
}

/// Law: the consuming phase is entered only by a successful resync, and the
/// mirror then holds exactly the decoded instance list — the mirror is never
/// older than "as of stream open".
pub proof fn lemma_consume_entered_only_by_resync(
    phase: StreamPhase,
    conn: bool,
    mirror: Map<Seq<char>, Instance>,
    ev: StreamEvent,
)
    requires
        phase != StreamPhase::Consume,
        next_phase(phase, conn, ev) == StreamPhase::Consume,
    ensures
        phase == StreamPhase::Resync,
        successful_resync(ev),
        ev matches StreamEvent::ResyncBody(body) ==> Some(next_mirror(phase, mirror, ev))
            == resync_outcome(body),
{
}

/// Law: reconnect on flip. A status notification observed while consuming
/// closes the stream at once — the step orders an immediate re-gate and
/// leaves the mirror untouched — and whatever the old stream still delivers
/// is not applied before the next successful resync.
pub proof fn lemma_reconnect_on_flip(
    mirror: Map<Seq<char>, Instance>,
    conn: bool,
    new_status: bool,
    later: Seq<(bool, StreamEvent)>,
)
    requires
        forall|i: int| 0 <= i < later.len() ==> !successful_resync(#[trigger] later[i].1),
    ensures
        next_phase(StreamPhase::Consume, conn, StreamEvent::StatusChanged(new_status))
            == StreamPhase::Gate,
        next_mirror(StreamPhase::Consume, mirror, StreamEvent::StatusChanged(new_status))
            == mirror,
        step_action(StreamPhase::Consume, conn, StreamEvent::StatusChanged(new_status))
            == StreamAction::Regate,
        run_steps(StreamPhase::Gate, mirror, later).1 == mirror,
{
    lemma_resync_before_consume(StreamPhase::Gate, mirror, later);
}

/// Law: a malformed frame forces a reconnect. A frame lacking the `data: `
/// prefix, or carrying anything but a well-formed event, terminates the
/// stream session — mirror untouched, an immediate reconnect ordered —
/// rather than being skipped in place.
pub proof fn lemma_malformed_frame_reconnects(
    mirror: Map<Seq<char>, Instance>,
    conn: bool,
    frame: Vec<u8>,
)
    requires
        spec_decode_frame(frame@) is Err,
    ensures
        next_phase(StreamPhase::Consume, conn, StreamEvent::Frame(frame)) == StreamPhase::Gate,
        next_mirror(StreamPhase::Consume, mirror, StreamEvent::Frame(frame)) == mirror,
        step_action(StreamPhase::Consume, conn, StreamEvent::Frame(frame)) == StreamAction::Regate,
{
}

} // verus!
