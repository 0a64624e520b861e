//! Enumerations of the name-change API.
use vstd::prelude::*;

verus! {

/// Where a requested name change stands in review.
#[derive(Debug, Clone, Copy, PartialEq, Eq, Structural)]
pub enum NameChangeStatus {
    Pending,
    Approved,
    Denied,
}

} // verus!
