//! The configuration of a project: its application groups and the applications in them.
use vstd::prelude::*;

verus! {

#[derive(Debug)]
pub struct ProjectConfiguration {
    pub name: String,
    pub groups: Vec<ApplicationGroup>,
}

#[derive(Debug)]
pub struct ApplicationGroup {
    pub name: String,
    pub tag: ScopedTag,
    pub direction: LayoutDirection,
    pub nested: Vec<ApplicationGroup>,
}

#[derive(Debug, Clone, Copy, PartialEq, Eq, Structural)]
pub enum LayoutDirection {
    Horizontal,
    Vertical,
}

/// A group can only contain either groups or applications.
#[derive(Debug)]
pub enum GroupContents {
    Groups(Vec<ApplicationGroup>),
    Applications(Vec<ApplicationRef>),
}

/// A tag together with the scope it belongs to.
#[derive(Debug, Clone)]
pub struct ScopedTag {
    pub scope: String,
    pub tag: String,
}

impl ScopedTag {
    pub fn new(scope: String, tag: String) -> (r: Self)
        ensures
            r.scope == scope,
            r.tag == tag,
    {
        ScopedTag { scope, tag }
    }
}

#[derive(Debug)]
pub struct ApplicationRef {
    pub name: String,
    pub params: Parameters,
    pub tags: Vec<ScopedTag>,
}

/// The parameters an application is started with.
#[derive(Debug, Default)]
pub struct Parameters(pub Vec<Parameter>);

/// A named parameter value.
#[derive(Debug, Clone)]
pub struct Parameter {
    pub name: String,
    pub value: String,
}

impl Parameter {
    pub fn new(name: String, value: String) -> (r: Self)
        ensures
            r.name == name,
            r.value == value,
    {
        Parameter { name, value }
    }
}

} // verus!
