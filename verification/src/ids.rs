//! Identifiers of the desktop's targets and the key trait the hierarchy is generic over.
use vstd::prelude::*;

verus! {

/// A key of a hierarchy node: a copyable value whose equality can be decided at run time.
pub trait NodeKey: Copy + Sized {
    fn same(&self, other: &Self) -> (r: bool)
        ensures
            r == (*self == *other),
    ;
}

impl NodeKey for i32 {
    fn same(&self, other: &Self) -> (r: bool) {
        *self == *other
    }
}

impl NodeKey for u32 {
    fn same(&self, other: &Self) -> (r: bool) {
        *self == *other
    }
}

impl NodeKey for u64 {
    fn same(&self, other: &Self) -> (r: bool) {
        *self == *other
    }
}

impl NodeKey for usize {
    fn same(&self, other: &Self) -> (r: bool) {
        *self == *other
    }
}

impl NodeKey for char {
    fn same(&self, other: &Self) -> (r: bool) {
        *self == *other
    }
}

/// The bits of a freshly drawn random (version 4) UUID.
///
/// Calls `uuid::Uuid::new_v4` and reads the value back with `Uuid::as_u128`. The contract claims
/// only what the crate's source shows of every outcome: the version nibble is 4 and the variant
/// bits are `10`. Nothing is claimed about which value is drawn.
#[verifier::external_body]
fn random_uuid_bits() -> (bits: u128)
    ensures
        (bits >> 76u128) & 0xfu128 == 4u128,
        (bits >> 62u128) & 0x3u128 == 2u128,
{
    uuid::Uuid::new_v4().as_u128()
}

/// Identifies a project.
#[derive(Debug, Clone, Copy, PartialEq, Eq, Hash, Structural)]
pub struct ProjectId(pub u128);

/// Identifies a launch profile (a launcher inside a project's matrix).
#[derive(Debug, Clone, Copy, PartialEq, Eq, Hash, Structural)]
pub struct LaunchProfileId(pub u128);

/// Identifies a running application instance.
#[derive(Debug, Clone, Copy, PartialEq, Eq, Hash, Structural)]
pub struct InstanceId(pub u128);

/// Identifies a view of an instance.
#[derive(Debug, Clone, Copy, PartialEq, Eq, Hash, Structural)]
pub struct ViewId(pub u128);

impl ProjectId {
    /// A fresh random project id.
    pub fn new() -> (id: ProjectId)
        ensures
            (id.0 >> 76u128) & 0xfu128 == 4u128,
    {
        ProjectId(random_uuid_bits())
    }
}

impl LaunchProfileId {
    /// A fresh random launch profile id.
    pub fn new() -> (id: LaunchProfileId)
        ensures
            (id.0 >> 76u128) & 0xfu128 == 4u128,
    {
        LaunchProfileId(random_uuid_bits())
    }
}

impl InstanceId {
    /// A fresh random instance id.
    pub fn new() -> (id: InstanceId)
        ensures
            (id.0 >> 76u128) & 0xfu128 == 4u128,
    {
        InstanceId(random_uuid_bits())
    }
}

impl ViewId {
    /// A fresh random view id.
    pub fn new() -> (id: ViewId)
        ensures
            (id.0 >> 76u128) & 0xfu128 == 4u128,
    {
        ViewId(random_uuid_bits())
    }
}

impl NodeKey for LaunchProfileId {
    fn same(&self, other: &Self) -> (r: bool) {
        self.0 == other.0
    }
}

impl NodeKey for ProjectId {
    fn same(&self, other: &Self) -> (r: bool) {
        self.0 == other.0
    }
}

impl NodeKey for InstanceId {
    fn same(&self, other: &Self) -> (r: bool) {
        self.0 == other.0
    }
}

/// A unique target inside the navigation and layout hierarchy of the desktop.
#[derive(Debug, Clone, Copy, PartialEq, Eq, Hash, Structural)]
pub enum DesktopTarget {
    Desktop,
    Project(ProjectId),
    ProjectHeader(ProjectId),
    ProjectMatrix(ProjectId),
    Launcher(LaunchProfileId),
    Instance(InstanceId),
    View(ViewId),
}

impl NodeKey for DesktopTarget {
    fn same(&self, other: &Self) -> (r: bool) {
        *self == *other
    }
}

impl From<ProjectId> for DesktopTarget {
    fn from(value: ProjectId) -> (t: DesktopTarget)
        ensures
            t == DesktopTarget::Project(value),
    {
        DesktopTarget::Project(value)
    }
}

impl vstd::std_specs::convert::FromSpecImpl<ProjectId> for DesktopTarget {
    open spec fn obeys_from_spec() -> bool {
        true
    }

    open spec fn from_spec(v: ProjectId) -> DesktopTarget {
        DesktopTarget::Project(v)
    }
}

impl From<LaunchProfileId> for DesktopTarget {
    fn from(value: LaunchProfileId) -> (t: DesktopTarget)
        ensures
            t == DesktopTarget::Launcher(value),
    {
        DesktopTarget::Launcher(value)
    }
}

impl vstd::std_specs::convert::FromSpecImpl<LaunchProfileId> for DesktopTarget {
    open spec fn obeys_from_spec() -> bool {
        true
    }

    open spec fn from_spec(v: LaunchProfileId) -> DesktopTarget {
        DesktopTarget::Launcher(v)
    }
}

impl From<InstanceId> for DesktopTarget {
    fn from(value: InstanceId) -> (t: DesktopTarget)
        ensures
            t == DesktopTarget::Instance(value),
    {
        DesktopTarget::Instance(value)
    }
}

impl vstd::std_specs::convert::FromSpecImpl<InstanceId> for DesktopTarget {
    open spec fn obeys_from_spec() -> bool {
        true
    }

    open spec fn from_spec(v: InstanceId) -> DesktopTarget {
        DesktopTarget::Instance(v)
    }
}

impl From<ViewId> for DesktopTarget {
    fn from(value: ViewId) -> (t: DesktopTarget)
        ensures
            t == DesktopTarget::View(value),
    {
        DesktopTarget::View(value)
    }
}

impl vstd::std_specs::convert::FromSpecImpl<ViewId> for DesktopTarget {
    open spec fn obeys_from_spec() -> bool {
        true
    }

    open spec fn from_spec(v: ViewId) -> DesktopTarget {
        DesktopTarget::View(v)
    }
}

} // verus!
