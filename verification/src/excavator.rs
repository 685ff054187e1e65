//! Admission of excavated objects: the governance gate before an object is
//! read, and the bounds check after.

use crate::score::{is_score, SCALE};
use vstd::prelude::*;

verus! {

/// Governance flags under which an excavation runs.
#[derive(Clone, Copy, Debug, PartialEq, Eq, Structural)]
pub struct GovernanceFlags {
    pub spectral_roaming_active: bool,
    pub non_interference_required: bool,
    pub soul_modeling_forbidden: bool,
}

/// Why an excavation was refused.
#[derive(Clone, Copy, Debug, PartialEq, Eq, Structural)]
pub enum ExcavationError {
    /// The latch that forbids soul modeling is not set: abort and flush.
    PermissionDenied,
    /// The stability score lies outside the unit interval.
    InvalidData,
}

impl ExcavationError {
    /// The message that goes with the refusal.
    pub open spec fn message_text(&self) -> Seq<char> {
        match self {
            ExcavationError::PermissionDenied =>
                "Governance-Abort-Flush: Soul-modeling forbidden violated."@,
            ExcavationError::InvalidData => "Stability-score out of [0,1] bounds."@,
        }
    }

    /// Gives the message that goes with the refusal.
    pub fn message(&self) -> (text: String)
        ensures
            text@ == self.message_text(),
    {
        match self {
            ExcavationError::PermissionDenied =>
                "Governance-Abort-Flush: Soul-modeling forbidden violated.".to_owned(),
            ExcavationError::InvalidData => "Stability-score out of [0,1] bounds.".to_owned(),
        }
    }
}

/// Admits an excavation exactly where soul modeling is forbidden; the other
/// two flags have no say.
pub fn admit_excavation(flags: &GovernanceFlags) -> (r: Result<(), ExcavationError>)
    ensures
        r.is_ok() <==> flags.soul_modeling_forbidden,
        !flags.soul_modeling_forbidden ==> r == Err::<(), ExcavationError>(
            ExcavationError::PermissionDenied,
        ),
{
    if !flags.soul_modeling_forbidden {
        return Err(ExcavationError::PermissionDenied);
    }
    Ok(())
}

/// Accepts a stability score exactly where it lies in the unit interval.
pub fn validate_stability(stability_score: i64) -> (r: Result<(), ExcavationError>)
    ensures
        r.is_ok() <==> is_score(stability_score as int),
        !is_score(stability_score as int) ==> r == Err::<(), ExcavationError>(
            ExcavationError::InvalidData,
        ),
{
    if stability_score < 0 || stability_score > SCALE {
        return Err(ExcavationError::InvalidData);
    }
    Ok(())
}

} // verus!
