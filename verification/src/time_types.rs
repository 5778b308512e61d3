//! Points in time.
use vstd::prelude::*;

verus! {

/// A date and a time of day, of the crate `time`. It is carried and never looked into.
#[verifier::external_type_specification]
#[verifier::external_body]
pub struct ExPrimitiveDateTime(time::PrimitiveDateTime);

} // verus!
