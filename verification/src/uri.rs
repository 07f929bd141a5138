use vstd::prelude::*;

verus! {

/// The address of a resource of a uEntity: the authority that hosts it, the
/// entity's identifier and major version, and the resource's identifier.
#[derive(Clone, Debug, Default, PartialEq, Eq, Hash)]
pub struct UUri {
    pub authority_name: String,
    pub ue_id: u32,
    pub ue_version_major: u32,
    pub resource_id: u32,
}

} // verus!
