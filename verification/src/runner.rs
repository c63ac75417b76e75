//! One remote runner: its connection details, connectivity, instance mirror,
//! notification buses, and the two state machines that keep them current.
//!
//! A `Runner` is the unit of identity the rest of the application holds. It
//! is created only after a successful handshake, and from then on two
//! long-lived loops outside the crate drive it: the connection supervisor
//! calls `record_probe` with each probe result, and the event-stream
//! consumer calls `stream_step` with each thing that happened, performing
//! the action each step returns.

use vstd::prelude::*;

use crate::bus::{NotificationBus, RecvOutcome, published};
use crate::consumer::{
    StreamAction, StreamEvent, StreamPhase, next_mirror, next_phase, step_action, step_publishes,
};
use crate::event::{RemoteEvent, decode_frame};
use crate::instance::Instance;
use crate::json::json_of;
use crate::mirror::{InstanceMirror, map_of};
use crate::protocol::{Error, decode_instance_list, evaluate_handshake, spec_handshake};

verus! {

/// How often to probe a runner that answered its last probe, in
/// milliseconds.
pub const HEARTBEAT_INTERVAL_MS: u32 = 4000;

/// How often to probe a runner that is down or not yet probed: three times
/// the connected interval, to reduce load on a confirmed-dead endpoint.
pub const HEARTBEAT_INTERVAL_OFFLINE_MS: u32 = 12000;

/// How long to sleep after a transient stream failure before re-gating, in
/// milliseconds.
pub const RETRY_INTERVAL_MS: u32 = 1000;

/// How many unread notifications one subscriber can hold.
pub const CHANNEL_CAPACITY: usize = 255;

/// The user-facing label and base URL of one runner. The URL carries no
/// trailing slash.
#[derive(Debug, PartialEq, Eq)]
pub struct RunnerConDetails {
    pub name: String,
    pub url: String,
}

impl RunnerConDetails {
    /// An equal copy.
    pub fn duplicate(&self) -> (r: Self)
        ensures
            r == self,
    {
        RunnerConDetails { name: self.name.clone(), url: self.url.clone() }
    }

    /// The handshake endpoint.
    pub fn info_url(&self) -> (r: String)
        ensures
            r@ == self.url@ + "/info"@,
    {
        self.url.clone().concat("/info")
    }

    /// The liveness-probe endpoint.
    pub fn check_url(&self) -> (r: String)
        ensures
            r@ == self.url@ + "/check"@,
    {
        self.url.clone().concat("/check")
    }

    /// The instance-list endpoint.
    pub fn list_url(&self) -> (r: String)
        ensures
            r@ == self.url@ + "/instance/list"@,
    {
        self.url.clone().concat("/instance/list")
    }

    /// The event-stream endpoint.
    pub fn events_url(&self) -> (r: String)
        ensures
            r@ == self.url@ + "/events"@,
    {
        self.url.clone().concat("/events")
    }

    /// The instance-creation endpoint.
    pub fn new_instance_url(&self) -> (r: String)
        ensures
            r@ == self.url@ + "/instance/new"@,
    {
        self.url.clone().concat("/instance/new")
    }

    /// The deletion endpoint for one instance.
    pub fn del_instance_url(&self, id: &str) -> (r: String)
        ensures
            r@ == self.url@ + "/instance/"@ + id@ + "/delete"@,
    {
        self.url.clone().concat("/instance/").concat(id).concat("/delete")
    }

    /// The start endpoint for one instance.
    pub fn start_instance_url(&self, id: &str) -> (r: String)
        ensures
            r@ == self.url@ + "/instance/"@ + id@ + "/start"@,
    {
        self.url.clone().concat("/instance/").concat(id).concat("/start")
    }

    /// The stop endpoint for one instance.
    pub fn stop_instance_url(&self, id: &str) -> (r: String)
        ensures
            r@ == self.url@ + "/instance/"@ + id@ + "/stop"@,
    {
        self.url.clone().concat("/instance/").concat(id).concat("/stop")
    }
}

/// One remote runner's local state.
pub struct Runner {
    details: RunnerConDetails,
    probe_state: Option<bool>,
    mirror: InstanceMirror,
    update_bus: NotificationBus<()>,
    status_bus: NotificationBus<bool>,
    phase: StreamPhase,
}

impl Runner {
    /// The connection details.
    pub closed spec fn spec_details(self) -> RunnerConDetails {
        self.details
    }

    /// The supervisor's state: `None` before the first probe, then the last
    /// probe's result.
    pub closed spec fn spec_probe_state(self) -> Option<bool> {
        self.probe_state
    }

    /// The mirror as a map from instance id to instance.
    pub closed spec fn mirror_map(self) -> Map<Seq<char>, Instance> {
        self.mirror@
    }

    /// The mirror's pair list, in storage order.
    pub closed spec fn mirror_entries(self) -> Seq<(String, Instance)> {
        self.mirror.entry_seq()
    }

    /// The consumer's phase.
    pub closed spec fn spec_phase(self) -> StreamPhase {
        self.phase
    }

    /// The bus that signals any state change.
    pub closed spec fn spec_update_bus(self) -> NotificationBus<()> {
        self.update_bus
    }

    /// The bus that signals connectivity flips, carrying the new value.
    pub closed spec fn spec_status_bus(self) -> NotificationBus<bool> {
        self.status_bus
    }

    /// The runner counts as connected exactly when the last probe answered.
    pub open spec fn spec_connected(self) -> bool {
        self.spec_probe_state() == Some(true)
    }

    /// The mirror and both buses are well formed.
    pub closed spec fn wf(self) -> bool {
        &&& self.mirror.wf()
        &&& self.update_bus.wf()
        &&& self.status_bus.wf()
        &&& self.update_bus.cap() == CHANNEL_CAPACITY
        &&& self.status_bus.cap() == CHANNEL_CAPACITY
    }

    /// Evaluate a handshake body and construct the runner exactly when it
    /// passes: the body must be JSON whose `protocol` field equals the
    /// supported version and whose payload fully decodes. On rejection the
    /// error says why, and no runner exists.
    pub fn try_new(details: RunnerConDetails, handshake_body: &str) -> (r: Result<Runner, Error>)
        ensures
            match r {
                Ok(runner) => {
                    &&& spec_handshake(json_of(handshake_body@)) is Ok
                    &&& runner.wf()
                    &&& runner.spec_details() == details
                    &&& runner.spec_probe_state() is None
                    &&& runner.spec_phase() == StreamPhase::Gate
                    &&& runner.mirror_map() == Map::<Seq<char>, Instance>::empty()
                    &&& runner.spec_update_bus().subscriber_count() == 0
                    &&& runner.spec_status_bus().subscriber_count() == 0
                },
                Err(e) => spec_handshake(json_of(handshake_body@)) == Err::<
                    crate::protocol::RunnerInfo,
                    Error,
                >(e),
            },
    {
        match evaluate_handshake(handshake_body) {
            Ok(_) => Ok(
                Runner {
                    details,
                    probe_state: None,
                    mirror: InstanceMirror::new(),
                    update_bus: NotificationBus::new(CHANNEL_CAPACITY),
                    status_bus: NotificationBus::new(CHANNEL_CAPACITY),
                    phase: StreamPhase::Gate,
                },
            ),
            Err(e) => Err(e),
        }
    }

    /// The runner's label.
    pub fn get_name(&self) -> (r: String)
        ensures
            r@ == self.spec_details().name@,
    {
        self.details.name.clone()
    }

    /// The runner's base URL.
    pub fn get_url(&self) -> (r: String)
        ensures
            r@ == self.spec_details().url@,
    {
        self.details.url.clone()
    }

    /// The connection details, copied.
    pub fn get_details(&self) -> (r: RunnerConDetails)
        ensures
            r == self.spec_details(),
    {
        self.details.duplicate()
    }

    /// Whether the last probe answered. `false` until the first probe.
    pub fn is_connected(&self) -> (r: bool)
        ensures
            r == self.spec_connected(),
    {
        match self.probe_state {
            Some(true) => true,
            _ => false,
        }
    }

    /// The local instances, copied. Does not pull the latest data from the
    /// runner: the consumer keeps it current.
    pub fn get_instances(&self) -> (r: Vec<(String, Instance)>)
        requires
            self.wf(),
        ensures
            r@ == self.mirror_entries(),
            map_of(r@) == self.mirror_map(),
    {
        self.mirror.snapshot()
    }

    /// How long the supervisor waits before the next probe: the fast
    /// interval while connected, the slow one while down or not yet probed.
    pub fn probe_interval_ms(&self) -> (r: u32)
        ensures
            r == if self.spec_connected() {
                HEARTBEAT_INTERVAL_MS
            } else {
                HEARTBEAT_INTERVAL_OFFLINE_MS
            },
    {
        if self.is_connected() {
            HEARTBEAT_INTERVAL_MS
        } else {
            HEARTBEAT_INTERVAL_OFFLINE_MS
        }
    }

    /// Record one probe result. Edge-triggered: only a result that differs
    /// from the previous known value is persisted as a flip and published,
    /// on `update` and — with the new value — on `status`; a repeat of the
    /// known value publishes nothing.
    pub fn record_probe(&mut self, alive: bool) -> (flipped: bool)
        requires
            old(self).wf(),
        ensures
            final(self).wf(),
            final(self).spec_details() == old(self).spec_details(),
            final(self).spec_phase() == old(self).spec_phase(),
            final(self).mirror_map() == old(self).mirror_map(),
            final(self).mirror_entries() == old(self).mirror_entries(),
            final(self).spec_probe_state() == Some(alive),
            flipped == (old(self).spec_probe_state() != Some(alive)),
            flipped ==> published(old(self).spec_update_bus(), final(self).spec_update_bus(), ())
                && published(old(self).spec_status_bus(), final(self).spec_status_bus(), alive),
            !flipped ==> final(self).spec_update_bus() == old(self).spec_update_bus()
                && final(self).spec_status_bus() == old(self).spec_status_bus(),
    {
        let flipped = match self.probe_state {
            Some(prev) => prev != alive,
            None => true,
        };
        self.probe_state = Some(alive);
        if flipped {
            self.update_bus.publish(());
            self.status_bus.publish(alive);
        }
        flipped
    }

    /// Run one step of the event-stream consumer: take what happened, update
    /// the phase and the mirror by the transition relation, post on `update`
    /// exactly when the mirror took a write, and say what to do next.
    pub fn stream_step(&mut self, event: StreamEvent) -> (act: StreamAction)
        requires
            old(self).wf(),
        ensures
            final(self).wf(),
            final(self).spec_details() == old(self).spec_details(),
            final(self).spec_probe_state() == old(self).spec_probe_state(),
            final(self).spec_status_bus() == old(self).spec_status_bus(),
            final(self).spec_phase() == next_phase(
                old(self).spec_phase(),
                old(self).spec_connected(),
                event,
            ),
            final(self).mirror_map() == next_mirror(
                old(self).spec_phase(),
                old(self).mirror_map(),
                event,
            ),
            act == step_action(old(self).spec_phase(), old(self).spec_connected(), event),
            step_publishes(old(self).spec_phase(), event) ==> published(
                old(self).spec_update_bus(),
                final(self).spec_update_bus(),
                (),
            ),
            !step_publishes(old(self).spec_phase(), event) ==> final(self).spec_update_bus()
                == old(self).spec_update_bus(),
    {
        let phase = self.phase;
        match phase {
            StreamPhase::Gate => match event {
                StreamEvent::GateCheck => {
                    if self.is_connected() {
                        self.phase = StreamPhase::Opening;
                        StreamAction::OpenStream
                    } else {
                        StreamAction::AwaitStatus
                    }
                },
                _ => StreamAction::Regate,
            },
            StreamPhase::Opening => match event {
                StreamEvent::OpenResult(ok) => {
                    if ok {
                        self.phase = StreamPhase::Resync;
                        StreamAction::FetchInstances
                    } else {
                        self.phase = StreamPhase::Gate;
                        StreamAction::SleepRetry
                    }
                },
                _ => {
                    self.phase = StreamPhase::Gate;
                    StreamAction::Regate
                },
            },
            StreamPhase::Resync => match event {
                StreamEvent::ResyncBody(body) => match body {
                    Some(body) => match decode_instance_list(body.as_str()) {
                        Some(snapshot) => {
                            self.mirror.replace_all(snapshot);
                            self.update_bus.publish(());
                            self.phase = StreamPhase::Consume;
                            StreamAction::AwaitFrame
                        },
                        None => {
                            self.phase = StreamPhase::Gate;
                            StreamAction::SleepRetry
                        },
                    },
                    None => {
                        self.phase = StreamPhase::Gate;
                        StreamAction::SleepRetry
                    },
                },
                _ => {
                    self.phase = StreamPhase::Gate;
                    StreamAction::Regate
                },
            },
            StreamPhase::Consume => match event {
                StreamEvent::Frame(frame) => match decode_frame(frame.as_slice()) {
                    Ok(RemoteEvent::ModifyInstance { id, instance }) => {
                        self.mirror.apply_modify(id, instance);
                        self.update_bus.publish(());
                        StreamAction::AwaitFrame
                    },
                    Ok(RemoteEvent::DeleteInstance { id }) => {
                        self.mirror.apply_delete(&id);
                        self.update_bus.publish(());
                        StreamAction::AwaitFrame
                    },
                    Err(_) => {
                        self.phase = StreamPhase::Gate;
                        StreamAction::Regate
                    },
                },
                StreamEvent::StatusChanged(_) => {
                    self.phase = StreamPhase::Gate;
                    StreamAction::Regate
                },
                StreamEvent::StreamEnd => {
                    self.phase = StreamPhase::Gate;
                    StreamAction::Regate
                },
                _ => {
                    self.phase = StreamPhase::Gate;
                    StreamAction::Regate
                },
            },
        }
    }

    /// Open a subscription on the `update` bus: the new queue starts empty
    /// and unmissed, and every existing subscription is untouched.
    pub fn subscribe_update(&mut self) -> (id: usize)
        requires
            old(self).wf(),
        ensures
            final(self).wf(),
            id == old(self).spec_update_bus().subscriber_count(),
            final(self).spec_update_bus().subscriber_count() == id + 1,
            final(self).spec_update_bus().queue(id as int) == Seq::<()>::empty(),
            !final(self).spec_update_bus().missed(id as int),
            forall|k: int|
                0 <= k < old(self).spec_update_bus().subscriber_count() ==> #[trigger] final(self).spec_update_bus().queue(k) == old(self).spec_update_bus().queue(k) && final(self).spec_update_bus().missed(k) == old(self).spec_update_bus().missed(k),
            final(self).spec_status_bus() == old(self).spec_status_bus(),
            final(self).spec_details() == old(self).spec_details(),
            final(self).spec_probe_state() == old(self).spec_probe_state(),
            final(self).spec_phase() == old(self).spec_phase(),
            final(self).mirror_map() == old(self).mirror_map(),
    {
        self.update_bus.subscribe()
    }

    /// Read the next `update` notification for subscription `id`: a missed
    /// condition is reported once and cleared, an empty queue reads `Empty`,
    /// and otherwise the oldest pending notification is delivered and the
    /// queue advances past it. Other subscriptions are untouched.
    pub fn poll_update(&mut self, id: usize) -> (r: RecvOutcome<()>)
        requires
            old(self).wf(),
            id < old(self).spec_update_bus().subscriber_count(),
        ensures
            final(self).wf(),
            final(self).spec_status_bus() == old(self).spec_status_bus(),
            final(self).spec_details() == old(self).spec_details(),
            final(self).spec_probe_state() == old(self).spec_probe_state(),
            final(self).spec_phase() == old(self).spec_phase(),
            final(self).mirror_map() == old(self).mirror_map(),
            final(self).spec_update_bus().subscriber_count() == old(
                self,
            ).spec_update_bus().subscriber_count(),
            forall|k: int|
                0 <= k < old(self).spec_update_bus().subscriber_count() && k != id
                    ==> #[trigger] final(self).spec_update_bus().queue(k) == old(
                    self,
                ).spec_update_bus().queue(k) && final(self).spec_update_bus().missed(k) == old(
                    self,
                ).spec_update_bus().missed(k),
            !final(self).spec_update_bus().missed(id as int),
            match r {
                RecvOutcome::Missed => old(self).spec_update_bus().missed(id as int) && final(self).spec_update_bus().queue(id as int) == old(self).spec_update_bus().queue(
                    id as int,
                ),
                RecvOutcome::Empty => !old(self).spec_update_bus().missed(id as int) && old(
                    self,
                ).spec_update_bus().queue(id as int).len() == 0 && final(self).spec_update_bus().queue(id as int) == old(self).spec_update_bus().queue(
                    id as int,
                ),
                RecvOutcome::Message(msg) => !old(self).spec_update_bus().missed(id as int) && old(
                    self,
                ).spec_update_bus().queue(id as int).len() > 0 && msg == old(
                    self,
                ).spec_update_bus().queue(id as int)[0] && final(self).spec_update_bus().queue(
                    id as int,
                ) == old(self).spec_update_bus().queue(id as int).skip(1),
            },
    {
        self.update_bus.recv(id)
    }

    /// Open a subscription on the `status` bus: the new queue starts empty
    /// and unmissed, and every existing subscription is untouched.
    pub fn subscribe_status(&mut self) -> (id: usize)
        requires
            old(self).wf(),
        ensures
            final(self).wf(),
            id == old(self).spec_status_bus().subscriber_count(),
            final(self).spec_status_bus().subscriber_count() == id + 1,
            final(self).spec_status_bus().queue(id as int) == Seq::<bool>::empty(),
            !final(self).spec_status_bus().missed(id as int),
            forall|k: int|
                0 <= k < old(self).spec_status_bus().subscriber_count() ==> #[trigger] final(self).spec_status_bus().queue(k) == old(self).spec_status_bus().queue(k) && final(self).spec_status_bus().missed(k) == old(self).spec_status_bus().missed(k),
            final(self).spec_update_bus() == old(self).spec_update_bus(),
            final(self).spec_details() == old(self).spec_details(),
            final(self).spec_probe_state() == old(self).spec_probe_state(),
            final(self).spec_phase() == old(self).spec_phase(),
            final(self).mirror_map() == old(self).mirror_map(),
    {
        self.status_bus.subscribe()
    }

    /// Read the next `status` notification for subscription `id`: a missed
    /// condition is reported once and cleared, an empty queue reads `Empty`,
    /// and otherwise the oldest pending connectivity value is delivered and
    /// the queue advances past it. Other subscriptions are untouched.
    pub fn poll_status(&mut self, id: usize) -> (r: RecvOutcome<bool>)
        requires
            old(self).wf(),
            id < old(self).spec_status_bus().subscriber_count(),
        ensures
            final(self).wf(),
            final(self).spec_update_bus() == old(self).spec_update_bus(),
            final(self).spec_details() == old(self).spec_details(),
            final(self).spec_probe_state() == old(self).spec_probe_state(),
            final(self).spec_phase() == old(self).spec_phase(),
            final(self).mirror_map() == old(self).mirror_map(),
            final(self).spec_status_bus().subscriber_count() == old(
                self,
            ).spec_status_bus().subscriber_count(),
            forall|k: int|
                0 <= k < old(self).spec_status_bus().subscriber_count() && k != id
                    ==> #[trigger] final(self).spec_status_bus().queue(k) == old(
                    self,
                ).spec_status_bus().queue(k) && final(self).spec_status_bus().missed(k) == old(
                    self,
                ).spec_status_bus().missed(k),
            !final(self).spec_status_bus().missed(id as int),
            match r {
                RecvOutcome::Missed => old(self).spec_status_bus().missed(id as int) && final(self).spec_status_bus().queue(id as int) == old(self).spec_status_bus().queue(
                    id as int,
                ),
                RecvOutcome::Empty => !old(self).spec_status_bus().missed(id as int) && old(
                    self,
                ).spec_status_bus().queue(id as int).len() == 0 && final(self).spec_status_bus().queue(id as int) == old(self).spec_status_bus().queue(
                    id as int,
                ),
                RecvOutcome::Message(value) => !old(self).spec_status_bus().missed(id as int)
                    && old(self).spec_status_bus().queue(id as int).len() > 0 && value == old(
                    self,
                ).spec_status_bus().queue(id as int)[0] && final(self).spec_status_bus().queue(
                    id as int,
                ) == old(self).spec_status_bus().queue(id as int).skip(1),
            },
    {
        self.status_bus.recv(id)
    }

    /// The probe endpoint for this runner.
    pub fn check_url(&self) -> (r: String)
        ensures
            r@ == self.spec_details().url@ + "/check"@,
    {
        self.details.check_url()
    }

    /// The event-stream endpoint for this runner.
    pub fn events_url(&self) -> (r: String)
        ensures
            r@ == self.spec_details().url@ + "/events"@,
    {
        self.details.events_url()
    }

    /// The instance-list endpoint for this runner.
    pub fn list_url(&self) -> (r: String)
        ensures
            r@ == self.spec_details().url@ + "/instance/list"@,
    {
        self.details.list_url()
    }

    /// The instance-creation endpoint for this runner.
    pub fn new_instance_url(&self) -> (r: String)
        ensures
            r@ == self.spec_details().url@ + "/instance/new"@,
    {
        self.details.new_instance_url()
    }

    /// The deletion endpoint for one of this runner's instances.
    pub fn del_instance_url(&self, id: &str) -> (r: String)
        ensures
            r@ == self.spec_details().url@ + "/instance/"@ + id@ + "/delete"@,
    {
        self.details.del_instance_url(id)
    }

    /// The start endpoint for one of this runner's instances.
    pub fn start_instance_url(&self, id: &str) -> (r: String)
        ensures
            r@ == self.spec_details().url@ + "/instance/"@ + id@ + "/start"@,
    {
        self.details.start_instance_url(id)
    }

    /// The stop endpoint for one of this runner's instances.
    pub fn stop_instance_url(&self, id: &str) -> (r: String)
        ensures
            r@ == self.spec_details().url@ + "/instance/"@ + id@ + "/stop"@,
    {
        self.details.stop_instance_url(id)
    }
}

/// Law: the offline probe interval is three times the connected one, by
/// design — a fixed two-speed schedule, not a backoff.
pub proof fn lemma_offline_interval_is_triple()
    ensures
        HEARTBEAT_INTERVAL_OFFLINE_MS == 3 * HEARTBEAT_INTERVAL_MS,
{
}

} // verus!
