//! The read model handed to the UI layer: plain copies of runner and
//! instance state, shaped for display, plus the conversions into them.

use vstd::prelude::*;

use crate::instance::{Instance, InstanceStatus, InstanceType, VolkanicSource};
use crate::protocol::{RunnerInfo, RunnerMode};
use crate::runner::Runner;

verus! {

/// One instance, as shown to the user.
#[derive(Debug, PartialEq, Eq)]
pub struct UiInstance {
    pub name: String,
    pub inst_type: UiInstanceType,
    pub status: UiInstanceStatus,
}

/// The kind of workload, as shown to the user.
#[derive(Debug, PartialEq, Eq)]
pub enum UiInstanceType {
    Volkanic { source: UiVolkanicSource },
}

/// An instance's state, as shown to the user.
#[derive(Debug, Clone, Copy, PartialEq, Eq, Structural)]
pub enum UiInstanceStatus {
    Inactive,
    Running,
    Creating(u8),
    Deleting,
    Starting,
    Stopping,
}

/// A workload source, as shown to the user.
#[derive(Debug, PartialEq, Eq)]
pub enum UiVolkanicSource {
    Url(String),
    Base64(String),
}

/// One runner and its instances, as shown to the user.
#[derive(Debug, PartialEq, Eq)]
pub struct UiRunner {
    pub name: String,
    pub url: String,
    pub connected: bool,
    pub instances: Vec<(String, UiInstance)>,
}

/// Handshake information, as shown to the user.
#[derive(Debug, PartialEq, Eq)]
pub struct RunnerInfoInterface {
    pub version: String,
    pub protocol: u64,
    pub mode: RunnerModeInterface,
}

/// The runner's mode, as shown to the user.
#[derive(Debug, Clone, Copy, PartialEq, Eq, Structural)]
pub enum RunnerModeInterface {
    NoAuth,
}

/// What a workload source displays as.
pub open spec fn spec_ui_source(v: VolkanicSource) -> UiVolkanicSource {
    match v {
        VolkanicSource::Url(url) => UiVolkanicSource::Url(url),
        VolkanicSource::Base64(encoded) => UiVolkanicSource::Base64(encoded),
    }
}

/// What a workload kind displays as.
pub open spec fn spec_ui_inst_type(v: InstanceType) -> UiInstanceType {
    match v {
        InstanceType::Volkanic { source } => UiInstanceType::Volkanic {
            source: spec_ui_source(source),
        },
    }
}

/// What an instance status displays as.
pub open spec fn spec_ui_status(v: InstanceStatus) -> UiInstanceStatus {
    match v {
        InstanceStatus::Inactive => UiInstanceStatus::Inactive,
        InstanceStatus::Running => UiInstanceStatus::Running,
        InstanceStatus::Creating(progress) => UiInstanceStatus::Creating(progress),
        InstanceStatus::Deleting => UiInstanceStatus::Deleting,
        InstanceStatus::Starting => UiInstanceStatus::Starting,
        InstanceStatus::Stopping => UiInstanceStatus::Stopping,
    }
}

/// What an instance displays as.
pub open spec fn spec_ui_instance(v: Instance) -> UiInstance {
    UiInstance {
        name: v.name,
        inst_type: spec_ui_inst_type(v.inst_type),
        status: spec_ui_status(v.status),
    }
}

impl From<VolkanicSource> for UiVolkanicSource {
    fn from(v: VolkanicSource) -> (r: Self) {
        match v {
            VolkanicSource::Url(url) => UiVolkanicSource::Url(url),
            VolkanicSource::Base64(encoded) => UiVolkanicSource::Base64(encoded),
        }
    }
}

impl vstd::std_specs::convert::FromSpecImpl<VolkanicSource> for UiVolkanicSource {
    open spec fn obeys_from_spec() -> bool {
        true
    }

    open spec fn from_spec(v: VolkanicSource) -> Self {
        spec_ui_source(v)
    }
}

impl From<InstanceType> for UiInstanceType {
    fn from(v: InstanceType) -> (r: Self) {
        match v {
            InstanceType::Volkanic { source } => UiInstanceType::Volkanic {
                source: UiVolkanicSource::from(source),
            },
        }
    }
}

impl vstd::std_specs::convert::FromSpecImpl<InstanceType> for UiInstanceType {
    open spec fn obeys_from_spec() -> bool {
        true
    }

    open spec fn from_spec(v: InstanceType) -> Self {
        spec_ui_inst_type(v)
    }
}

impl From<InstanceStatus> for UiInstanceStatus {
    fn from(v: InstanceStatus) -> (r: Self) {
        match v {
            InstanceStatus::Inactive => UiInstanceStatus::Inactive,
            InstanceStatus::Running => UiInstanceStatus::Running,
            InstanceStatus::Creating(progress) => UiInstanceStatus::Creating(progress),
            InstanceStatus::Deleting => UiInstanceStatus::Deleting,
            InstanceStatus::Starting => UiInstanceStatus::Starting,
            InstanceStatus::Stopping => UiInstanceStatus::Stopping,
        }
    }
}

impl vstd::std_specs::convert::FromSpecImpl<InstanceStatus> for UiInstanceStatus {
    open spec fn obeys_from_spec() -> bool {
        true
    }

    open spec fn from_spec(v: InstanceStatus) -> Self {
        spec_ui_status(v)
    }
}

impl From<Instance> for UiInstance {
    fn from(v: Instance) -> (r: Self) {
        UiInstance {
            name: v.name,
            inst_type: UiInstanceType::from(v.inst_type),
            status: UiInstanceStatus::from(v.status),
        }
    }
}

impl vstd::std_specs::convert::FromSpecImpl<Instance> for UiInstance {
    open spec fn obeys_from_spec() -> bool {
        true
    }

    open spec fn from_spec(v: Instance) -> Self {
        spec_ui_instance(v)
    }
}

/// What a handshake result displays as.
pub open spec fn spec_ui_runner_info(v: RunnerInfo) -> RunnerInfoInterface {
    RunnerInfoInterface {
        version: v.version,
        protocol: v.protocol,
        mode: match v.mode {
            RunnerMode::NoAuth => RunnerModeInterface::NoAuth,
        },
    }
}

impl From<RunnerInfo> for RunnerInfoInterface {
    fn from(v: RunnerInfo) -> (r: Self) {
        RunnerInfoInterface {
            version: v.version,
            protocol: v.protocol,
            mode: match v.mode {
                RunnerMode::NoAuth => RunnerModeInterface::NoAuth,
            },
        }
    }
}

impl vstd::std_specs::convert::FromSpecImpl<RunnerInfo> for RunnerInfoInterface {
    open spec fn obeys_from_spec() -> bool {
        true
    }

    open spec fn from_spec(v: RunnerInfo) -> Self {
        spec_ui_runner_info(v)
    }
}

/// Build the display copy of one runner: its label, URL, connectivity, and
/// every mirrored instance converted to its display shape, in mirror order.
pub fn to_ui_runner(runner: &Runner) -> (r: UiRunner)
    requires
        runner.wf(),
    ensures
        r.name@ == runner.spec_details().name@,
        r.url@ == runner.spec_details().url@,
        r.connected == runner.spec_connected(),
        r.instances@.len() == runner.mirror_entries().len(),
        forall|k: int|
            0 <= k < r.instances@.len() ==> #[trigger] r.instances@[k].0 == runner.mirror_entries(
            )[k].0 && r.instances@[k].1 == spec_ui_instance(runner.mirror_entries()[k].1),
{
    let entries = runner.get_instances();
    let n = entries.len();
    let mut instances: Vec<(String, UiInstance)> = Vec::new();
    let mut i: usize = 0;
    while i < n
        invariant
            n == entries@.len(),
            entries@ == runner.mirror_entries(),
            i <= n,
            instances@.len() == i,
            forall|k: int|
                0 <= k < i ==> #[trigger] instances@[k].0 == entries@[k].0 && instances@[k].1
                    == spec_ui_instance(entries@[k].1),
        decreases n - i,
    {
        let entry = &entries[i];
        instances.push((entry.0.clone(), UiInstance::from(entry.1.duplicate())));
        i = i + 1;
    }
    UiRunner {
        name: runner.get_name(),
        url: runner.get_url(),
        connected: runner.is_connected(),
        instances,
    }
}

} // verus!
