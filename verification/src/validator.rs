//! The semantic validator: value ranges that the schema cannot express.

use crate::schema::{PlayerState, PlayerStateView, MAX_SWORD_LEVEL, SWORD_SLOT};
use vstd::prelude::*;

verus! {

/// A declared value outside its allowed range.
#[derive(Debug, Clone, Copy, PartialEq, Eq, Structural)]
pub enum ValidationError {
    /// The item in `slot` has `value`, which is above `bound`.
    OutOfRange { slot: usize, value: u32, bound: u32 },
}

/// What validating a state yields: the one rule is that the sword level
/// does not exceed its maximum.
pub open spec fn validated(state: PlayerStateView) -> Result<(), ValidationError> {
    if state.sword_level() > MAX_SWORD_LEVEL {
        Err(
            ValidationError::OutOfRange {
                slot: SWORD_SLOT,
                value: state.sword_level(),
                bound: MAX_SWORD_LEVEL,
            },
        )
    } else {
        Ok(())
    }
}

/// Checks the value ranges of a bound state.
///
/// Fails if and only if the sword level exceeds `MAX_SWORD_LEVEL`, and
/// then reports the slot, the value found and the bound.
pub fn validate(state: &PlayerState) -> (r: Result<(), ValidationError>)
    ensures
        r == validated(state@),
{
    let level: u32 = state.sword_level();
    if level > MAX_SWORD_LEVEL {
        Err(ValidationError::OutOfRange { slot: SWORD_SLOT, value: level, bound: MAX_SWORD_LEVEL })
    } else {
        Ok(())
    }
}

} // verus!
