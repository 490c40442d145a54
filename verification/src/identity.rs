use vstd::prelude::*;

verus! {

/// An opaque numeric group identifier. It is only ever produced by a
/// successful resolution or by reading the process's own ambient identity,
/// and is compared for equality only.
#[derive(Clone, Copy, Debug, PartialEq, Eq, Structural)]
pub struct Gid(pub u32);

/// The process's ambient identity, modelled explicitly: the membership
/// check and the privilege drop are verified over this model, and a
/// substitute identity can stand in for the real one.
#[derive(Debug)]
pub struct ProcessIdentity {
    /// Real user identifier: the value the effective user is lowered to.
    pub uid: u32,
    /// Effective user identifier: carries any elevated privilege.
    pub euid: u32,
    /// Primary group identifier.
    pub gid: u32,
    /// Supplementary group identifiers, read once and held immutable.
    pub groups: Vec<u32>,
}

} // verus!
