//! The validated identifier a caller must hold before it may ask the
//! storage layer anything.

use vstd::prelude::*;

verus! {

/// The smallest identifier a known species can carry.
pub const MIN_NUMBER: u16 = 1;

/// The largest identifier a known species carries.
pub const MAX_NUMBER: u16 = 898;

/// Whether a raw identifier lies in the known species range.
pub open spec fn valid_raw(value: u16) -> bool {
    MIN_NUMBER <= value <= MAX_NUMBER
}

/// Why a raw identifier was rejected.
#[derive(Clone, Copy, PartialEq, Eq, Structural, Debug)]
pub enum ValidationError {
    /// The value is zero or exceeds the largest known identifier.
    OutOfRange,
}

/// A validated species identifier.
///
/// A value of this type can only be obtained through [`PokemonNumber::from_raw`],
/// which rejects anything outside the known range: existence implies validity.
#[derive(Clone, Copy, PartialEq, Eq, Structural, Debug)]
pub struct PokemonNumber {
    value: u16,
}

impl PokemonNumber {
    /// The raw identifier this number wraps.
    pub closed spec fn spec_raw(&self) -> u16 {
        self.value
    }

    #[verifier::type_invariant]
    spec fn in_range(self) -> bool {
        valid_raw(self.value)
    }

    /// Validate a raw identifier.
    ///
    /// Succeeds exactly on the known species range; everything else is
    /// rejected as out of range, and no instance comes into being.
    pub fn from_raw(value: u16) -> (r: Result<PokemonNumber, ValidationError>)
        ensures
            valid_raw(value) ==> (r matches Ok(n) && n.spec_raw() == value),
            !valid_raw(value) ==> r == Err::<PokemonNumber, ValidationError>(
                ValidationError::OutOfRange,
            ),
    {
        if MIN_NUMBER <= value && value <= MAX_NUMBER {
            Ok(PokemonNumber { value })
        } else {
            Err(ValidationError::OutOfRange)
        }
    }

    /// The raw representation, handed back to callers that need it.
    pub fn raw(&self) -> (r: u16)
        ensures
            r == self.spec_raw(),
            valid_raw(r),
    {
        proof {
            use_type_invariant(self);
        }
        self.value
    }
}

} // verus!
