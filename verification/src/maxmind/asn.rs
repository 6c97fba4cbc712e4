//! The network an address belongs to.
use vstd::prelude::*;

verus! {

#[derive(Clone, Debug)]
pub struct AsnMin {
    pub autonomous_system_number: Option<u32>,
    pub autonomous_system_organization: Option<String>,
}

} // verus!
