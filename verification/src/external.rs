//! Declarations of what the library relies on from std and outside crates
//! without proof.
use std::time::Duration;
use std::time::Instant;

use vstd::prelude::*;

verus! {

/// `Duration` is `Copy`; std documents `clone` on a `Copy` type as a bitwise
/// copy, so the clone equals the value cloned.
pub assume_specification[ <Duration as Clone>::clone ](d: &Duration) -> (r: Duration)
    ensures
        r == *d,
;

/// `toml::Value`, a parsed TOML value, carried through opaquely.
#[verifier::external_type_specification]
#[verifier::external_body]
pub struct ExTomlValue(toml::Value);

/// `std::time::Instant`, a point on the monotonic clock, carried through
/// opaquely.
#[verifier::external_type_specification]
#[verifier::external_body]
pub struct ExInstant(Instant);

} // verus!
