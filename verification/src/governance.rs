//! Read-only policy state supplied with every evaluation.

use vstd::prelude::*;

verus! {

/// Operating mode of the governance subsystem.
#[derive(Clone, Copy, Debug, PartialEq, Eq, Structural)]
pub enum GovernanceMode {
    Dormant,
    ActiveGoverned,
    /// Roaming with mandatory non-interference.
    ActiveFree,
    TechnicalOnly,
}

/// Snapshot of the governance state for one evaluation call.
#[derive(Clone, Copy, Debug, PartialEq, Eq, Structural)]
pub struct GovernanceStateV1 {
    pub mode: GovernanceMode,
    pub spectral_quantification_active: bool,
    pub soul_modeling_forbidden: bool,
    pub non_interference_required: bool,
}

/// The two policy latches that the routing pipeline reads.
#[derive(Clone, Copy, Debug, PartialEq, Eq, Structural)]
pub struct SpectralGovernanceAudit {
    pub soulmodelingforbidden: bool,
    pub noninterferencerequired: bool,
}

impl GovernanceStateV1 {
    /// Whether both latches that permit any excavation are set.
    pub open spec fn permits_excavation(&self) -> bool {
        self.spectral_quantification_active && self.soul_modeling_forbidden
    }
}

impl SpectralGovernanceAudit {
    /// Whether the hard observe-only override applies.
    pub open spec fn observe_only_override(&self) -> bool {
        self.soulmodelingforbidden && self.noninterferencerequired
    }
}

} // verus!
