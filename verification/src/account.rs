use vstd::prelude::*;

verus! {

/// Identity of an account on the hosting platform (a voter, or the
/// recipient of a bounty). The core never looks inside an identity; it only
/// stores and hands it back, so the identity is modeled as an opaque
/// numeric handle chosen by the host.
#[derive(Clone, Copy, Debug, PartialEq, Eq, Structural)]
pub struct AccountId {
    pub id: u64,
}

} // verus!
