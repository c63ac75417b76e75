//! The instance data model: a named workload managed by a runner, as carried
//! over the wire and held in the local mirror.

use vstd::prelude::*;

verus! {

/// One workload on a runner.
#[derive(Debug, PartialEq, Eq)]
pub struct Instance {
    pub name: String,
    pub inst_type: InstanceType,
    pub status: InstanceStatus,
}

/// The kind of workload. A closed variant set; unknown discriminants on the
/// wire are rejected rather than defaulted.
#[derive(Debug, PartialEq, Eq)]
pub enum InstanceType {
    Volkanic { source: VolkanicSource },
}

/// Where a volkanic workload's payload comes from.
#[derive(Debug, PartialEq, Eq)]
pub enum VolkanicSource {
    Url(String),
    Base64(String),
}

/// The remote-reported state of an instance. `Creating` carries a progress
/// value that is informational only.
#[derive(Debug, Clone, Copy, PartialEq, Eq, Structural)]
pub enum InstanceStatus {
    Inactive,
    Running,
    Starting,
    Stopping,
    Deleting,
    Creating(u8),
}

/// An outbound creation payload; carries no status.
#[derive(Debug, PartialEq, Eq)]
pub struct InstanceRequest {
    pub name: String,
    pub inst_type: InstanceType,
}

impl VolkanicSource {
    /// An equal copy.
    pub fn duplicate(&self) -> (r: Self)
        ensures
            r == self,
    {
        match self {
            VolkanicSource::Url(u) => VolkanicSource::Url(u.clone()),
            VolkanicSource::Base64(b) => VolkanicSource::Base64(b.clone()),
        }
    }
}

impl InstanceType {
    /// An equal copy.
    pub fn duplicate(&self) -> (r: Self)
        ensures
            r == self,
    {
        match self {
            InstanceType::Volkanic { source } => InstanceType::Volkanic {
                source: source.duplicate(),
            },
        }
    }
}

impl Instance {
    /// An equal copy.
    pub fn duplicate(&self) -> (r: Self)
        ensures
            r == self,
    {
        Instance {
            name: self.name.clone(),
            inst_type: self.inst_type.duplicate(),
            status: self.status,
        }
    }
}

impl InstanceRequest {
    /// An equal copy.
    pub fn duplicate(&self) -> (r: Self)
        ensures
            r == self,
    {
        InstanceRequest { name: self.name.clone(), inst_type: self.inst_type.duplicate() }
    }
}

} // verus!
