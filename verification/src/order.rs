//! Equality and order of values, as the interpreter's comparisons use them.
use vstd::prelude::*;
use vstd::std_specs::cmp::{PartialEqSpecImpl, PartialOrdSpecImpl};
use core::cmp::Ordering;
use crate::value::{Values, relation, relation_v};

verus! {

impl PartialEq for Values {
    fn eq(&self, other: &Values) -> (r: bool) {
        relation(0, self, other)
    }
}

impl PartialEqSpecImpl for Values {
    open spec fn obeys_eq_spec() -> bool {
        true
    }

    open spec fn eq_spec(&self, other: &Values) -> bool {
        relation_v(0, self@, other@)
    }
}

impl PartialOrd for Values {
    fn partial_cmp(&self, other: &Values) -> (r: Option<Ordering>) {
        if relation(1, self, other) {
            Some(Ordering::Less)
        } else if relation(2, self, other) {
            Some(Ordering::Greater)
        } else {
            Some(Ordering::Equal)
        }
    }
}

impl PartialOrdSpecImpl for Values {
    open spec fn obeys_partial_cmp_spec() -> bool {
        true
    }

    open spec fn partial_cmp_spec(&self, other: &Values) -> Option<Ordering> {
        if relation_v(1, self@, other@) {
            Some(Ordering::Less)
        } else if relation_v(2, self@, other@) {
            Some(Ordering::Greater)
        } else {
            Some(Ordering::Equal)
        }
    }
}

} // verus!
