//! Declarations of the outside types that the driver's signatures hold.
//!
//! Each declaration lets the verifier read the type's own definition, variants
//! and fields included. Nothing is claimed of any of them beyond that definition.

use vstd::prelude::*;
use nb::Error as Blocking;

verus! {

/// `embedded_hal::spi::Polarity`: the level of the clock when idle.
#[verifier::external_type_specification]
pub struct ExPolarity(embedded_hal::spi::Polarity);

/// `embedded_hal::spi::Phase`: the clock transition on which data is sampled.
#[verifier::external_type_specification]
pub struct ExPhase(embedded_hal::spi::Phase);

/// `embedded_hal::spi::Mode`: a polarity and a phase.
#[verifier::external_type_specification]
pub struct ExMode(embedded_hal::spi::Mode);

/// The error of `nb`: either an error of the operation, or a request to try again.
#[verifier::external_type_specification]
#[verifier::reject_recursive_types(E)]
pub struct ExBlocking<E>(Blocking<E>);

} // verus!
