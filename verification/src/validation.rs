//! Field-level validation failures raised by the entities' smart
//! constructors.

use vstd::prelude::*;

verus! {

/// A field-level validation failure: the listed fields were required to be
/// present and non-empty but were not.
#[derive(PartialEq, Eq, Debug)]
pub enum ValidationError {
    EmptyField(Vec<String>),
}

} // verus!
