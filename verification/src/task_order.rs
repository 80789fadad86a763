//! The order of tasks: by the instant they are next due, and by nothing
//! else. Two tasks due at the same instant are equal in this order,
//! whatever their names.

use std::cmp::Ordering;
use vstd::prelude::*;
use vstd::std_specs::cmp::{PartialEqSpecImpl, PartialOrdSpecImpl};
use crate::task::Task;

verus! {

impl PartialEq for Task {
    fn eq(&self, other: &Self) -> (same: bool) {
        !self.next_execution_at().is_before(*other.next_execution_at())
            && !other.next_execution_at().is_before(*self.next_execution_at())
    }
}

impl PartialEqSpecImpl for Task {
    open spec fn obeys_eq_spec() -> bool {
        true
    }

    open spec fn eq_spec(&self, other: &Self) -> bool {
        self.due() == other.due()
    }
}

impl Eq for Task {

}

impl PartialOrd for Task {
    fn partial_cmp(&self, other: &Self) -> (order: Option<Ordering>) {
        if self.next_execution_at().is_before(*other.next_execution_at()) {
            Some(Ordering::Less)
        } else if other.next_execution_at().is_before(*self.next_execution_at()) {
            Some(Ordering::Greater)
        } else {
            Some(Ordering::Equal)
        }
    }
}

impl PartialOrdSpecImpl for Task {
    open spec fn obeys_partial_cmp_spec() -> bool {
        true
    }

    open spec fn partial_cmp_spec(&self, other: &Self) -> Option<Ordering> {
        if self.due() < other.due() {
            Some(Ordering::Less)
        } else if self.due() > other.due() {
            Some(Ordering::Greater)
        } else {
            Some(Ordering::Equal)
        }
    }
}

} // verus!
