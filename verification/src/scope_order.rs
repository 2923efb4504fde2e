//! The order of validation scopes: up the hierarchy, from characters to
//! the repository.

use vstd::prelude::*;
use std::cmp::Ordering;
use vstd::std_specs::cmp::PartialOrdSpec;
use crate::hierarchical_validation::{ValidationScope, scope_order};

verus! {

/// How two places in the hierarchy compare.
pub open spec fn rank_ordering(a: nat, b: nat) -> Ordering {
    if a < b {
        Ordering::Less
    } else if a == b {
        Ordering::Equal
    } else {
        Ordering::Greater
    }
}

/// The place of a scope in the hierarchy.
fn scope_place(s: ValidationScope) -> (r: u8)
    ensures
        r == s.rank(),
{
    match s {
        ValidationScope::Char => 0,
        ValidationScope::Line => 1,
        ValidationScope::Chunk => 2,
        ValidationScope::File => 3,
        ValidationScope::Directory => 4,
        ValidationScope::Repository => 5,
    }
}

impl PartialOrd for ValidationScope {
    fn partial_cmp(&self, other: &Self) -> (r: Option<Ordering>) {
        let a = scope_place(*self);
        let b = scope_place(*other);
        if a < b {
            Some(Ordering::Less)
        } else if a == b {
            Some(Ordering::Equal)
        } else {
            Some(Ordering::Greater)
        }
    }
}

impl vstd::std_specs::cmp::PartialOrdSpecImpl for ValidationScope {
    open spec fn obeys_partial_cmp_spec() -> bool {
        true
    }

    open spec fn partial_cmp_spec(&self, other: &Self) -> Option<Ordering> {
        Some(rank_ordering(self.rank(), other.rank()))
    }
}

/// The hierarchy rises strictly: each scope is below every scope after it
/// and above every scope before it.
pub proof fn law_hierarchy_strictly_increasing()
    ensures
        forall|i: int, j: int|
            #![trigger scope_order()[i], scope_order()[j]]
            0 <= i < j < scope_order().len() ==> scope_order()[i].partial_cmp_spec(&scope_order()[j]) == Some(
                Ordering::Less,
            ),
        forall|i: int, j: int|
            #![trigger scope_order()[i], scope_order()[j]]
            0 <= i < j < scope_order().len() ==> scope_order()[j].partial_cmp_spec(&scope_order()[i]) == Some(
                Ordering::Greater,
            ),
{
    assert forall|i: int| 0 <= i < scope_order().len() implies (#[trigger] scope_order()[i]).rank() == i by {
    }
}

} // verus!
