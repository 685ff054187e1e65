//! Routing of an interactive session: zone, composite risk and action.

use crate::governance::SpectralGovernanceAudit;
use crate::score::{clamp01, is_score, Reading};
use vstd::prelude::*;

verus! {

/// Density from which a session is monitored (0.2).
pub const ZONE_MONITORED_MIN: i64 = 200_000;

/// Density from which a session is restricted (0.5).
pub const ZONE_RESTRICTED_MIN: i64 = 500_000;

/// Density from which a session is contained (0.8).
pub const ZONE_CONTAINMENT_MIN: i64 = 800_000;

/// Risk from which the band is moderate (0.4).
pub const RISK_MODERATE_MIN: i64 = 400_000;

/// Risk from which the band is high (0.7).
pub const RISK_HIGH_MIN: i64 = 700_000;

/// Routing zone of a session, by density.
#[derive(Clone, Copy, Debug, PartialEq, Eq, Structural)]
pub enum XRZone {
    XRCONTROL,
    XRMONITORED,
    XRRESTRICTED,
    XRCONTAINMENT,
}

/// Terminal routing decision for one evaluation window.
#[derive(Clone, Copy, Debug, PartialEq, Eq, Structural)]
pub enum XRRouteAction {
    /// Full, rich interaction.
    FullInteraction,
    /// Normal content with extra safeguards.
    GuardedInteraction,
    /// De-escalation only.
    MitigationOnly,
    /// Render only: no steering, no optimisation.
    ObserveOnly,
    /// Hard stop and safe exit.
    TerminateSafe,
}

/// Normalised density of a region, as read.
#[derive(Clone, Copy, Debug, PartialEq, Eq, Structural)]
pub struct HauntDensityScore {
    pub hnorm: Reading,
}

/// Opaque audit token that may accompany a decision. It never takes part
/// in one.
#[derive(Clone, Debug, PartialEq, Eq)]
pub struct HexStampQuantumRoamingV1 {
    pub hex: String,
}

/// Snapshot of one region and session window.
#[derive(Clone, Debug, PartialEq, Eq)]
pub struct XRGridState {
    /// Key of the region, time and session.
    pub region_session: String,
    /// Density of the region, where known.
    pub haunt: Option<HauntDensityScore>,
    pub fear_level: Reading,
    pub fear_rate_norm: Reading,
    pub psych_load: Reading,
    /// Governance latches for this window.
    pub gov: SpectralGovernanceAudit,
}

/// Composite risk in millionths with the label of its band: `"NORMAL"`,
/// `"MODERATE"` or `"HIGH"`.
#[derive(Clone, Debug, PartialEq, Eq)]
pub struct XRGridRiskIndex {
    pub x: i64,
    pub band: String,
}

/// Zone, risk and action decided for one window, with the audit token that
/// the caller handed in.
#[derive(Clone, Debug, PartialEq, Eq)]
pub struct XRGridDecision {
    pub xr_zone: XRZone,
    pub risk: XRGridRiskIndex,
    pub action: XRRouteAction,
    pub hex_stamp: Option<HexStampQuantumRoamingV1>,
}

/// Zone of a raw density: four contiguous bands of the coerced density, each
/// with its lower bound included.
pub open spec fn zone_of(hnorm_raw: Reading) -> XRZone {
    let h = hnorm_raw.score();
    if h < ZONE_MONITORED_MIN {
        XRZone::XRCONTROL
    } else if h < ZONE_RESTRICTED_MIN {
        XRZone::XRMONITORED
    } else if h < ZONE_CONTAINMENT_MIN {
        XRZone::XRRESTRICTED
    } else {
        XRZone::XRCONTAINMENT
    }
}

/// Raw density of an optional reading: zero where there is none.
pub open spec fn density_of(haunt: Option<&HauntDensityScore>) -> Reading {
    match haunt {
        Some(s) => s.hnorm,
        None => Reading::Millionths(0),
    }
}

/// Composite risk: the mean of the coerced density, fear and load, rounded
/// down.
pub open spec fn risk_value_of(hnorm_raw: Reading, fear_raw: Reading, psych_raw: Reading) -> int {
    (hnorm_raw.score() + fear_raw.score() + psych_raw.score()) / 3
}

/// Label of the band that a risk falls in.
pub open spec fn risk_band_of(x: int) -> Seq<char> {
    if x < RISK_MODERATE_MIN {
        "NORMAL"@
    } else if x < RISK_HIGH_MIN {
        "MODERATE"@
    } else {
        "HIGH"@
    }
}

/// Action that a zone alone calls for.
pub open spec fn zone_action(zone: XRZone) -> XRRouteAction {
    match zone {
        XRZone::XRCONTROL => XRRouteAction::FullInteraction,
        XRZone::XRMONITORED => XRRouteAction::GuardedInteraction,
        XRZone::XRRESTRICTED => XRRouteAction::MitigationOnly,
        XRZone::XRCONTAINMENT => XRRouteAction::ObserveOnly,
    }
}

/// Route resolution, first match first: both latches set force observation;
/// else a high risk band terminates; else the zone decides.
pub open spec fn route_action_of(
    zone: XRZone,
    gov: SpectralGovernanceAudit,
    band: Seq<char>,
) -> XRRouteAction {
    if gov.soulmodelingforbidden && gov.noninterferencerequired {
        XRRouteAction::ObserveOnly
    } else if band == "HIGH"@ {
        XRRouteAction::TerminateSafe
    } else {
        zone_action(zone)
    }
}

impl XRGridRiskIndex {
    /// The risk is a score and the label is that of its band.
    pub open spec fn wf(&self) -> bool {
        &&& is_score(self.x as int)
        &&& self.band@ == risk_band_of(self.x as int)
    }
}

/// The three band labels differ from one another.
pub proof fn lemma_band_labels_differ()
    ensures
        "NORMAL"@ != "MODERATE"@,
        "NORMAL"@ != "HIGH"@,
        "MODERATE"@ != "HIGH"@,
{
    reveal_strlit("NORMAL");
    reveal_strlit("MODERATE");
    reveal_strlit("HIGH");
    assert("NORMAL"@.len() == 6);
    assert("MODERATE"@.len() == 8);
    assert("HIGH"@.len() == 4);
}

/// A risk carries the label `"HIGH"` exactly from the upper bound on.
pub proof fn lemma_high_band(x: int)
    ensures
        risk_band_of(x) == "HIGH"@ <==> x >= RISK_HIGH_MIN,
        risk_band_of(x) == "NORMAL"@ <==> x < RISK_MODERATE_MIN,
        risk_band_of(x) == "MODERATE"@ <==> RISK_MODERATE_MIN <= x < RISK_HIGH_MIN,
{
    lemma_band_labels_differ();
}

/// Maps a raw density to its routing zone.
pub fn compute_xrzone_from_haunt(hnorm: Reading) -> (zone: XRZone)
    ensures
        zone == zone_of(hnorm),
{
    let h: i64 = hnorm.coerce();
    if h < ZONE_MONITORED_MIN {
        XRZone::XRCONTROL
    } else if h < ZONE_RESTRICTED_MIN {
        XRZone::XRMONITORED
    } else if h < ZONE_CONTAINMENT_MIN {
        XRZone::XRRESTRICTED
    } else {
        XRZone::XRCONTAINMENT
    }
}

/// Computes the composite risk of a window from the optional density, the
/// fear level and the psychological load, and labels its band.
pub fn compute_risk_index(
    haunt: Option<&HauntDensityScore>,
    fear_level: Reading,
    psych_load: Reading,
) -> (risk: XRGridRiskIndex)
    ensures
        risk.x == risk_value_of(density_of(haunt), fear_level, psych_load),
        risk.band@ == risk_band_of(risk.x as int),
        risk.wf(),
{
    let h: i64 = match haunt {
        Some(s) => s.hnorm.coerce(),
        None => 0,
    };
    let f: i64 = fear_level.coerce();
    let p: i64 = psych_load.coerce();

    let x: i64 = clamp01((h + f + p) / 3);

    let band = if x < RISK_MODERATE_MIN {
        "NORMAL".to_owned()
    } else if x < RISK_HIGH_MIN {
        "MODERATE".to_owned()
    } else {
        "HIGH".to_owned()
    };
    XRGridRiskIndex { x, band }
}

/// Resolves the action for a zone under the governance latches and a risk.
pub fn resolve_xr_route_action(
    xr_zone: XRZone,
    gov: &SpectralGovernanceAudit,
    risk: &XRGridRiskIndex,
) -> (action: XRRouteAction)
    ensures
        action == route_action_of(xr_zone, *gov, risk.band@),
        gov.soulmodelingforbidden && gov.noninterferencerequired ==> action
            == XRRouteAction::ObserveOnly,
        !(gov.soulmodelingforbidden && gov.noninterferencerequired) && risk.band@ == "HIGH"@
            ==> action == XRRouteAction::TerminateSafe,
{
    if gov.soulmodelingforbidden && gov.noninterferencerequired {
        return XRRouteAction::ObserveOnly;
    }
    let high: String = "HIGH".to_owned();
    if risk.band == high {
        return XRRouteAction::TerminateSafe;
    }
    match xr_zone {
        XRZone::XRCONTROL => XRRouteAction::FullInteraction,
        XRZone::XRMONITORED => XRRouteAction::GuardedInteraction,
        XRZone::XRRESTRICTED => XRRouteAction::MitigationOnly,
        XRZone::XRCONTAINMENT => XRRouteAction::ObserveOnly,
    }
}

impl XRGridDecision {
    /// This is the decision for a window with the given density, fear, load
    /// and latches: the zone of the density, the risk of the three signals,
    /// and the action resolved from zone, latches and risk band.
    pub open spec fn is_decision_for(
        &self,
        haunt: Option<&HauntDensityScore>,
        fear_raw: Reading,
        psych_raw: Reading,
        gov: SpectralGovernanceAudit,
    ) -> bool {
        &&& self.xr_zone == zone_of(density_of(haunt))
        &&& self.risk.x == risk_value_of(density_of(haunt), fear_raw, psych_raw)
        &&& self.risk.band@ == risk_band_of(self.risk.x as int)
        &&& self.action == route_action_of(self.xr_zone, gov, self.risk.band@)
    }
}

/// Decides zone, risk and action for one window. The audit token is handed
/// through untouched and has no part in the decision.
pub fn decide_xr_route_for_state(
    state: &XRGridState,
    haunt: Option<&HauntDensityScore>,
    maybe_stamp: Option<HexStampQuantumRoamingV1>,
) -> (decision: XRGridDecision)
    ensures
        decision.is_decision_for(haunt, state.fear_level, state.psych_load, state.gov),
        decision.risk.wf(),
        decision.hex_stamp == maybe_stamp,
        state.gov.soulmodelingforbidden && state.gov.noninterferencerequired ==> decision.action
            == XRRouteAction::ObserveOnly,
{
    let hnorm: Reading = match haunt {
        Some(s) => s.hnorm,
        None => Reading::Millionths(0),
    };
    let xr_zone = compute_xrzone_from_haunt(hnorm);
    let risk = compute_risk_index(haunt, state.fear_level, state.psych_load);
    let action = resolve_xr_route_action(xr_zone, &state.gov, &risk);
    XRGridDecision { xr_zone, risk, action, hex_stamp: maybe_stamp }
}

/// With both governance latches set the action is `ObserveOnly`, whatever
/// the zone and the risk band.
pub proof fn lemma_latches_force_observation(
    zone: XRZone,
    gov: SpectralGovernanceAudit,
    band: Seq<char>,
)
    requires
        gov.soulmodelingforbidden,
        gov.noninterferencerequired,
    ensures
        route_action_of(zone, gov, band) == XRRouteAction::ObserveOnly,
{
}

/// Unless both governance latches are set, a risk of the high band
/// terminates the session in every zone.
pub proof fn lemma_high_risk_terminates(zone: XRZone, gov: SpectralGovernanceAudit, x: int)
    requires
        !(gov.soulmodelingforbidden && gov.noninterferencerequired),
        x >= RISK_HIGH_MIN,
    ensures
        route_action_of(zone, gov, risk_band_of(x)) == XRRouteAction::TerminateSafe,
        route_action_of(zone, gov, "HIGH"@) == XRRouteAction::TerminateSafe,
{
}

/// Unless both latches are set or the risk is of the high band, the zone
/// alone decides the action.
pub proof fn lemma_zone_decides(zone: XRZone, gov: SpectralGovernanceAudit, x: int)
    requires
        !(gov.soulmodelingforbidden && gov.noninterferencerequired),
        x < RISK_HIGH_MIN,
    ensures
        route_action_of(zone, gov, risk_band_of(x)) == zone_action(zone),
{
    lemma_high_band(x);
}

/// The composite risk is a score for all inputs.
pub proof fn lemma_risk_value_in_unit(hnorm_raw: Reading, fear_raw: Reading, psych_raw: Reading)
    ensures
        is_score(risk_value_of(hnorm_raw, fear_raw, psych_raw)),
{
}

} // verus!
