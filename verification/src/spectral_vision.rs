//! Band safety, hygiene, promotion and excavation depth of one spectral object.

use crate::excavation_depth::ExcavationDepth;
use crate::governance::{GovernanceMode, GovernanceStateV1};
use crate::score::{clamp01, clamp01_wide, clamp_unit, is_score, Reading, SCALE};
use vstd::prelude::*;

verus! {

/// Coarse hazard bucket of one band.
#[derive(Clone, Copy, Debug, PartialEq, Eq, Structural)]
pub enum BandHazardClass {
    Safe,
    Elevated,
    High,
}

/// Safety metrics of one band. All powers and scores are in millionths.
#[derive(Clone, Copy, Debug, PartialEq, Eq, Structural)]
pub struct BandSafetyEntry {
    /// Index or label of the band.
    pub band_index: i32,
    /// Mean power, coerced into the unit interval.
    pub mean_power: i64,
    /// Standard deviation of the power, coerced into the unit interval.
    pub stddev_power: i64,
    /// Safety score: higher is safer.
    pub safety_score: i64,
    /// Hazard bucket derived from the safety score.
    pub hazard_class: BandHazardClass,
}

/// Band-level safety of one spectral object.
#[derive(Clone, Debug, PartialEq, Eq)]
pub struct BandSafetyProfile {
    /// One entry per band, in the order of the samples.
    pub bands: Vec<BandSafetyEntry>,
    /// Safety of the worst band; one when there is no band.
    pub safety_min: i64,
    /// Mean safety over the bands, rounded down; zero when there is no band.
    pub safety_mean: i64,
}

/// Hygiene of one spectral object.
#[derive(Clone, Copy, Debug, PartialEq, Eq, Structural)]
pub struct SpectralHygiene {
    /// Overall cleanliness: higher is cleaner.
    pub band_quality: i64,
    /// Overall contamination: what `band_quality` leaves of one.
    pub artifact_level: i64,
    /// Share of the bands whose safety reaches the threshold, rounded down.
    pub safe_band_fraction: i64,
}

/// Thresholds and weights of the engine, in millionths.
#[derive(Clone, Copy, Debug, PartialEq, Eq, Structural)]
pub struct SpectralVisionParams {
    /// Below this worst-band safety only sniffing is allowed.
    pub safety_slow: i64,
    /// From this worst-band safety on, full digging is allowed.
    pub safety_shigh: i64,
    /// A band whose safety is below this is of high hazard.
    pub hazard_elevated_max: i64,
    /// A band whose safety reaches this is safe.
    pub hazard_safe_min: i64,
    /// Weight of the stability score in the promotion score.
    pub w_stability: i64,
    /// Weight of the confidence score in the promotion score.
    pub w_confidence: i64,
    /// Weight of the worst-band safety in the promotion score.
    pub w_safety_min: i64,
    /// Promotion score from which an object is promoted.
    pub promotion_threshold: i64,
}

/// Everything decided about one spectral object in one evaluation.
#[derive(Clone, Debug, PartialEq, Eq)]
pub struct SpectralVisionDecision {
    pub band_profile: BandSafetyProfile,
    pub hygiene: SpectralHygiene,
    pub excavation_depth: ExcavationDepth,
    pub promotion_score: i64,
    pub promotion_passed: bool,
}

impl SpectralVisionParams {
    /// The customary configuration: safety and hazard thresholds at 0.4 and
    /// 0.7, weights 0.4, 0.4 and 0.2, promotion from 0.8 on.
    pub open spec fn standard() -> SpectralVisionParams {
        SpectralVisionParams {
            safety_slow: 400_000,
            safety_shigh: 700_000,
            hazard_elevated_max: 400_000,
            hazard_safe_min: 700_000,
            w_stability: 400_000,
            w_confidence: 400_000,
            w_safety_min: 200_000,
            promotion_threshold: 800_000,
        }
    }

    /// Sum of the three promotion weights.
    pub open spec fn weight_total(&self) -> int {
        self.w_stability + self.w_confidence + self.w_safety_min
    }

    /// The thresholds stand in their order and no weight is negative. The
    /// engine works on any parameters; on coherent ones the hazard classes
    /// and the depths rise with the safety.
    pub open spec fn coherent(&self) -> bool {
        &&& self.safety_slow <= self.safety_shigh
        &&& self.hazard_elevated_max <= self.hazard_safe_min
        &&& self.w_stability >= 0
        &&& self.w_confidence >= 0
        &&& self.w_safety_min >= 0
    }

    /// Tells whether the parameters are coherent.
    pub fn is_coherent(&self) -> (r: bool)
        ensures
            r == self.coherent(),
    {
        self.safety_slow <= self.safety_shigh && self.hazard_elevated_max <= self.hazard_safe_min
            && self.w_stability >= 0 && self.w_confidence >= 0 && self.w_safety_min >= 0
    }
}

impl BandHazardClass {
    /// Position of the class from the most hazardous: 0 for `High`, 1 for
    /// `Elevated`, 2 for `Safe`.
    pub open spec fn calm(&self) -> int {
        match self {
            BandHazardClass::High => 0,
            BandHazardClass::Elevated => 1,
            BandHazardClass::Safe => 2,
        }
    }
}

impl Default for SpectralVisionParams {
    fn default() -> (r: SpectralVisionParams)
        ensures
            r == SpectralVisionParams::standard(),
    {
        SpectralVisionParams {
            safety_slow: 400_000,
            safety_shigh: 700_000,
            hazard_elevated_max: 400_000,
            hazard_safe_min: 700_000,
            w_stability: 400_000,
            w_confidence: 400_000,
            w_safety_min: 200_000,
            promotion_threshold: 800_000,
        }
    }
}

/// Safety of a band: what its coerced mean power and deviation leave of one,
/// never below zero.
pub open spec fn band_safety_score(mean_raw: Reading, stddev_raw: Reading) -> int {
    clamp_unit(SCALE - mean_raw.score() - stddev_raw.score())
}

/// Hazard bucket of a safety score under the two hazard thresholds.
pub open spec fn hazard_class_of(score: int, params: SpectralVisionParams) -> BandHazardClass {
    if score < params.hazard_elevated_max {
        BandHazardClass::High
    } else if score < params.hazard_safe_min {
        BandHazardClass::Elevated
    } else {
        BandHazardClass::Safe
    }
}

/// The entry that one raw sample `(band, mean power, deviation)` gives.
pub open spec fn band_entry_of(
    raw: (i32, Reading, Reading),
    params: SpectralVisionParams,
) -> BandSafetyEntry {
    BandSafetyEntry {
        band_index: raw.0,
        mean_power: raw.1.score() as i64,
        stddev_power: raw.2.score() as i64,
        safety_score: band_safety_score(raw.1, raw.2) as i64,
        hazard_class: hazard_class_of(band_safety_score(raw.1, raw.2), params),
    }
}

/// Sum of the safety scores of `bands`.
pub open spec fn safety_sum(bands: Seq<BandSafetyEntry>) -> int
    decreases bands.len(),
{
    if bands.len() == 0 {
        0
    } else {
        safety_sum(bands.drop_last()) + bands.last().safety_score
    }
}

/// `m` is the safety of the worst band: the least score that occurs, or one
/// where there is no band.
pub open spec fn is_worst_safety(m: int, bands: Seq<BandSafetyEntry>) -> bool {
    if bands.len() == 0 {
        m == SCALE
    } else {
        &&& forall|i: int| 0 <= i < bands.len() ==> m <= (#[trigger] bands[i]).safety_score
        &&& exists|i: int| 0 <= i < bands.len() && (#[trigger] bands[i]).safety_score == m
    }
}

/// Arithmetic mean of the safety scores, rounded down; zero for no band.
pub open spec fn mean_safety(bands: Seq<BandSafetyEntry>) -> int {
    if bands.len() == 0 {
        0
    } else {
        safety_sum(bands) / (bands.len() as int)
    }
}

/// Number of bands whose safety reaches `threshold`.
pub open spec fn safe_band_count(bands: Seq<BandSafetyEntry>, threshold: int) -> nat
    decreases bands.len(),
{
    if bands.len() == 0 {
        0
    } else {
        let rest = safe_band_count(bands.drop_last(), threshold);
        if bands.last().safety_score >= threshold {
            rest + 1
        } else {
            rest
        }
    }
}

/// Share of the bands whose safety reaches `threshold`, rounded down; zero
/// for no band.
pub open spec fn safe_band_fraction_of(bands: Seq<BandSafetyEntry>, threshold: int) -> int {
    if bands.len() == 0 {
        0
    } else {
        safe_band_count(bands, threshold) * SCALE / (bands.len() as int)
    }
}

/// Cleanliness: the mean safety scaled by the share of epochs free of
/// artifacts, rounded down and coerced into the unit interval.
pub open spec fn band_quality_of(safety_mean: int, artifact_raw: Reading) -> int {
    clamp_unit(safety_mean * (SCALE - artifact_raw.score()) / (SCALE as int))
}

/// Weighted sum of the three coerced scores, before the weights are
/// renormalised.
pub open spec fn weighted_score_sum(
    stability_raw: Reading,
    confidence_raw: Reading,
    safety_min_raw: Reading,
    params: SpectralVisionParams,
) -> int {
    params.w_stability * stability_raw.score() + params.w_confidence * confidence_raw.score()
        + params.w_safety_min * safety_min_raw.score()
}

/// Promotion score: zero where the weights do not sum to a positive total,
/// else the weighted sum over the total, rounded down and coerced into the
/// unit interval.
pub open spec fn promotion_score_of(
    stability_raw: Reading,
    confidence_raw: Reading,
    safety_min_raw: Reading,
    params: SpectralVisionParams,
) -> int {
    if params.weight_total() <= 0 {
        0
    } else {
        clamp_unit(
            weighted_score_sum(stability_raw, confidence_raw, safety_min_raw, params)
                / params.weight_total(),
        )
    }
}

/// Depth that the safety thresholds alone allow for a worst-band safety.
pub open spec fn depth_by_safety(safety_min: int, params: SpectralVisionParams) -> ExcavationDepth {
    if safety_min < params.safety_slow {
        ExcavationDepth::Sniff
    } else if safety_min < params.safety_shigh {
        ExcavationDepth::DigLight
    } else {
        ExcavationDepth::DigFull
    }
}

/// Depth allowed under governance: sniffing only unless both latches are
/// set and the mode is not free roaming; else what the safety allows.
pub open spec fn excavation_depth_of(
    safety_min: int,
    gov: GovernanceStateV1,
    params: SpectralVisionParams,
) -> ExcavationDepth {
    if !gov.spectral_quantification_active || !gov.soul_modeling_forbidden {
        ExcavationDepth::Sniff
    } else if gov.mode == GovernanceMode::ActiveFree {
        ExcavationDepth::Sniff
    } else {
        depth_by_safety(safety_min, params)
    }
}

impl BandSafetyEntry {
    /// The powers are scores and the safety score is derived from them.
    pub open spec fn wf(&self) -> bool {
        &&& is_score(self.mean_power as int)
        &&& is_score(self.stddev_power as int)
        &&& self.safety_score == clamp_unit(SCALE - self.mean_power - self.stddev_power)
    }
}

impl BandSafetyProfile {
    /// Every entry is well formed, `safety_min` is the worst band's safety
    /// and `safety_mean` the mean over the bands.
    pub open spec fn wf(&self) -> bool {
        &&& forall|i: int| 0 <= i < self.bands@.len() ==> (#[trigger] self.bands@[i]).wf()
        &&& is_worst_safety(self.safety_min as int, self.bands@)
        &&& self.safety_mean == mean_safety(self.bands@)
    }

    /// This is the profile of the raw samples `raw` under `params`.
    pub open spec fn is_profile_of(
        &self,
        raw: Seq<(i32, Reading, Reading)>,
        params: SpectralVisionParams,
    ) -> bool {
        &&& self.bands@.len() == raw.len()
        &&& forall|i: int|
            0 <= i < raw.len() ==> #[trigger] self.bands@[i] == band_entry_of(raw[i], params)
        &&& is_worst_safety(self.safety_min as int, self.bands@)
        &&& self.safety_mean == mean_safety(self.bands@)
    }
}

impl SpectralHygiene {
    /// All three values are scores, and contamination is exactly what
    /// cleanliness leaves of one.
    pub open spec fn wf(&self) -> bool {
        &&& is_score(self.band_quality as int)
        &&& is_score(self.artifact_level as int)
        &&& is_score(self.safe_band_fraction as int)
        &&& self.artifact_level + self.band_quality == SCALE
    }

    /// This is the hygiene of `profile` for a raw artifact fraction and a
    /// safety threshold.
    pub open spec fn is_hygiene_of(
        &self,
        profile: &BandSafetyProfile,
        artifact_raw: Reading,
        threshold: int,
    ) -> bool {
        &&& self.band_quality == band_quality_of(profile.safety_mean as int, artifact_raw)
        &&& self.artifact_level == SCALE - self.band_quality
        &&& self.safe_band_fraction == safe_band_fraction_of(profile.bands@, threshold)
    }
}

/// The scores of well-formed entries sum to between zero and one per band.
pub proof fn lemma_safety_sum_bounds(bands: Seq<BandSafetyEntry>)
    requires
        forall|i: int| 0 <= i < bands.len() ==> is_score((#[trigger] bands[i]).safety_score as int),
    ensures
        0 <= safety_sum(bands) <= bands.len() * SCALE,
    decreases bands.len(),
{
    if bands.len() > 0 {
        let front = bands.drop_last();
        assert forall|i: int| 0 <= i < front.len() implies is_score(
            (#[trigger] front[i]).safety_score as int,
        ) by {
            assert(front[i] == bands[i]);
        }
        lemma_safety_sum_bounds(front);
        assert(is_score(bands[bands.len() - 1].safety_score as int));
    }
}

/// At most every band reaches the threshold.
pub proof fn lemma_safe_band_count_bounds(bands: Seq<BandSafetyEntry>, threshold: int)
    ensures
        safe_band_count(bands, threshold) <= bands.len(),
    decreases bands.len(),
{
    if bands.len() > 0 {
        lemma_safe_band_count_bounds(bands.drop_last(), threshold);
    }
}

/// A quotient of a total that is at most `n` ones, over `n`, is a score.
pub proof fn lemma_share_is_score(total: int, n: int)
    requires
        n > 0,
        0 <= total <= n * SCALE,
    ensures
        is_score(total / n),
{
    assert(0 <= total / n <= 1_000_000) by (nonlinear_arith)
        requires
            n > 0,
            0 <= total <= n * 1_000_000,
    ;
}

/// A 64-bit factor times a score stays within a millionfold of the 64-bit
/// range.
pub proof fn lemma_weighted_term_bounds(w: int, x: int)
    requires
        -0x8000_0000_0000_0000 <= w <= 0x8000_0000_0000_0000,
        is_score(x),
    ensures
        -0x8000_0000_0000_0000 * 1_000_000 <= w * x <= 0x8000_0000_0000_0000 * 1_000_000,
{
    assert(-0x8000_0000_0000_0000 * 1_000_000 <= w * x <= 0x8000_0000_0000_0000 * 1_000_000)
        by (nonlinear_arith)
        requires
            -0x8000_0000_0000_0000 <= w <= 0x8000_0000_0000_0000,
            0 <= x <= 1_000_000,
    ;
}

/// Over a positive divisor, a total that is not positive has a quotient that
/// is not positive.
pub proof fn lemma_quotient_sign(total: int, d: int)
    requires
        d > 0,
        total <= 0,
    ensures
        total / d <= 0,
{
    assert(total / d <= 0) by (nonlinear_arith)
        requires
            d > 0,
            total <= 0,
    ;
}

/// Computes the band-level safety of the raw samples
/// `(band, mean power, deviation)`, and from it the worst and the mean safety.
pub fn compute_band_safety(
    raw_bands: &[(i32, Reading, Reading)],
    params: &SpectralVisionParams,
) -> (profile: BandSafetyProfile)
    ensures
        profile.is_profile_of(raw_bands@, *params),
        profile.wf(),
        is_score(profile.safety_min as int),
        is_score(profile.safety_mean as int),
        raw_bands@.len() == 0 ==> profile.safety_min == SCALE && profile.safety_mean == 0,
{
    let n: usize = raw_bands.len();
    let mut entries: Vec<BandSafetyEntry> = Vec::with_capacity(n);
    let mut sum: i128 = 0;
    let mut safety_min: i64 = SCALE;
    let mut i: usize = 0;
    while i < n
        invariant
            n == raw_bands@.len(),
            i <= n,
            entries@.len() == i,
            forall|k: int|
                0 <= k < i ==> #[trigger] entries@[k] == band_entry_of(raw_bands@[k], *params),
            forall|k: int| 0 <= k < i ==> (#[trigger] entries@[k]).wf(),
            sum == safety_sum(entries@),
            0 <= sum <= i * 1_000_000,
            is_score(safety_min as int),
            is_worst_safety(safety_min as int, entries@),
        decreases n - i,
    {
        let raw: (i32, Reading, Reading) = raw_bands[i];
        let mu: i64 = raw.1.coerce();
        let sigma: i64 = raw.2.coerce();
        let s_b: i64 = clamp01(SCALE - mu - sigma);
        let hazard = if s_b < params.hazard_elevated_max {
            BandHazardClass::High
        } else if s_b < params.hazard_safe_min {
            BandHazardClass::Elevated
        } else {
            BandHazardClass::Safe
        };
        let entry = BandSafetyEntry {
            band_index: raw.0,
            mean_power: mu,
            stddev_power: sigma,
            safety_score: s_b,
            hazard_class: hazard,
        };
        let ghost before = entries@;
        let ghost old_min = safety_min;
        sum = sum + s_b as i128;
        if s_b < safety_min {
            safety_min = s_b;
        }
        entries.push(entry);
        proof {
            let after = entries@;
            assert(after.drop_last() =~= before);
            assert(after[i as int] == entry);
            assert(entry == band_entry_of(raw_bands@[i as int], *params));
            assert forall|k: int| 0 <= k < after.len() implies safety_min
                <= (#[trigger] after[k]).safety_score by {
                if k < i {
                    assert(after[k] == before[k]);
                }
            }
            if s_b < old_min {
                assert(after[i as int].safety_score == safety_min);
            } else if before.len() == 0 {
                assert(after[i as int].safety_score == safety_min);
            } else {
                let w = choose|w: int|
                    0 <= w < before.len() && (#[trigger] before[w]).safety_score == old_min;
                assert(after[w] == before[w]);
                assert(after[w].safety_score == safety_min);
            }
        }
        i = i + 1;
    }
    let safety_mean: i64 = if n == 0 {
        0
    } else {
        proof {
            lemma_share_is_score(sum as int, n as int);
        }
        (sum / (n as i128)) as i64
    };
    BandSafetyProfile { bands: entries, safety_min, safety_mean }
}

/// Computes the hygiene of a band profile from the raw share of epochs with
/// artifacts and the safety that a band must reach to count as safe.
pub fn compute_spectral_hygiene(
    band_profile: &BandSafetyProfile,
    artifact_epoch_fraction_raw: Reading,
    safety_threshold: i64,
) -> (hygiene: SpectralHygiene)
    ensures
        hygiene.is_hygiene_of(band_profile, artifact_epoch_fraction_raw, safety_threshold as int),
        hygiene.wf(),
        band_profile.bands@.len() == 0 ==> hygiene.safe_band_fraction == 0,
{
    let artifact: i64 = artifact_epoch_fraction_raw.coerce();
    let clean: i64 = SCALE - artifact;
    proof {
        lemma_weighted_term_bounds(band_profile.safety_mean as int, clean as int);
    }
    let scaled: i128 = (band_profile.safety_mean as i128) * (clean as i128);
    let band_quality: i64 = if scaled <= 0 {
        assert(scaled as int / 1_000_000 <= 0);
        0
    } else {
        clamp01_wide(scaled / 1_000_000)
    };
    let artifact_level: i64 = SCALE - band_quality;

    let n: usize = band_profile.bands.len();
    let mut safe_count: usize = 0;
    let mut i: usize = 0;
    while i < n
        invariant
            n == band_profile.bands@.len(),
            i <= n,
            safe_count <= i,
            safe_count == safe_band_count(band_profile.bands@.take(i as int), safety_threshold as int),
        decreases n - i,
    {
        proof {
            let next = band_profile.bands@.take(i + 1);
            assert(next.drop_last() =~= band_profile.bands@.take(i as int));
            assert(next.last() == band_profile.bands@[i as int]);
        }
        if band_profile.bands[i].safety_score >= safety_threshold {
            safe_count = safe_count + 1;
        }
        i = i + 1;
    }
    assert(band_profile.bands@.take(n as int) =~= band_profile.bands@);
    let safe_band_fraction: i64 = if n == 0 {
        0
    } else {
        assert(safe_count * 1_000_000 <= n * 1_000_000);
        proof {
            lemma_share_is_score(safe_count * 1_000_000, n as int);
        }
        ((safe_count as u128) * 1_000_000 / (n as u128)) as i64
    };
    SpectralHygiene { band_quality, artifact_level, safe_band_fraction }
}

/// Computes the promotion score from the raw stability, confidence and
/// worst-band safety under the weights of `params`.
pub fn compute_promotion_score(
    stability_score_raw: Reading,
    confidence_score_raw: Reading,
    safety_min_raw: Reading,
    params: &SpectralVisionParams,
) -> (score: i64)
    ensures
        score == promotion_score_of(
            stability_score_raw,
            confidence_score_raw,
            safety_min_raw,
            *params,
        ),
        is_score(score as int),
        params.weight_total() <= 0 ==> score == 0,
{
    let s: i128 = stability_score_raw.coerce() as i128;
    let c: i128 = confidence_score_raw.coerce() as i128;
    let m: i128 = safety_min_raw.coerce() as i128;
    let w1: i128 = params.w_stability as i128;
    let w2: i128 = params.w_confidence as i128;
    let w3: i128 = params.w_safety_min as i128;

    let w_sum: i128 = w1 + w2 + w3;
    if w_sum <= 0 {
        return 0;
    }
    proof {
        lemma_weighted_term_bounds(w1 as int, s as int);
        lemma_weighted_term_bounds(w2 as int, c as int);
        lemma_weighted_term_bounds(w3 as int, m as int);
    }
    let total: i128 = w1 * s + w2 * c + w3 * m;
    if total <= 0 {
        proof {
            lemma_quotient_sign(total as int, w_sum as int);
        }
        return 0;
    }
    clamp01_wide(total / w_sum)
}

/// Decides whether a promotion score reaches the promotion threshold.
pub fn passes_promotion_gate(promotion_score: i64, params: &SpectralVisionParams) -> (passed: bool)
    ensures
        passed == (promotion_score >= params.promotion_threshold),
{
    promotion_score >= params.promotion_threshold
}

/// Decides how deep an object may be excavated, from the worst-band safety
/// and the governance snapshot.
pub fn compute_excavation_depth(
    band_profile: &BandSafetyProfile,
    gov: &GovernanceStateV1,
    params: &SpectralVisionParams,
) -> (depth: ExcavationDepth)
    ensures
        depth == excavation_depth_of(band_profile.safety_min as int, *gov, *params),
        !gov.spectral_quantification_active || !gov.soul_modeling_forbidden ==> depth
            == ExcavationDepth::Sniff,
        gov.mode == GovernanceMode::ActiveFree ==> depth == ExcavationDepth::Sniff,
{
    if !gov.spectral_quantification_active || !gov.soul_modeling_forbidden {
        return ExcavationDepth::Sniff;
    }
    match gov.mode {
        GovernanceMode::ActiveFree => ExcavationDepth::Sniff,
        GovernanceMode::Dormant | GovernanceMode::ActiveGoverned | GovernanceMode::TechnicalOnly => {
            let s_min: i64 = band_profile.safety_min;
            if s_min < params.safety_slow {
                ExcavationDepth::Sniff
            } else if s_min < params.safety_shigh {
                ExcavationDepth::DigLight
            } else {
                ExcavationDepth::DigFull
            }
        },
    }
}

impl SpectralVisionDecision {
    /// This is the decision for the given samples, scores, parameters and
    /// governance snapshot: the profile of the samples, its hygiene at the
    /// upper safety threshold, the promotion score and verdict from the
    /// profile's worst band, and the depth that governance allows.
    pub open spec fn is_decision_for(
        &self,
        raw: Seq<(i32, Reading, Reading)>,
        stability_raw: Reading,
        confidence_raw: Reading,
        artifact_raw: Reading,
        params: SpectralVisionParams,
        gov: GovernanceStateV1,
    ) -> bool {
        &&& self.band_profile.is_profile_of(raw, params)
        &&& self.hygiene.is_hygiene_of(&self.band_profile, artifact_raw, params.safety_shigh as int)
        &&& self.promotion_score == promotion_score_of(
            stability_raw,
            confidence_raw,
            Reading::Millionths(self.band_profile.safety_min),
            params,
        )
        &&& self.promotion_passed == (self.promotion_score >= params.promotion_threshold)
        &&& self.excavation_depth == excavation_depth_of(
            self.band_profile.safety_min as int,
            gov,
            params,
        )
    }

    /// The profile and the hygiene are well formed and the promotion score
    /// is a score.
    pub open spec fn wf(&self) -> bool {
        &&& self.band_profile.wf()
        &&& is_score(self.band_profile.safety_min as int)
        &&& is_score(self.band_profile.safety_mean as int)
        &&& self.hygiene.wf()
        &&& is_score(self.promotion_score as int)
    }
}

/// Evaluates one spectral object: band safety, hygiene, promotion and
/// excavation depth.
pub fn evaluate_spectral_vision(
    raw_bands: &[(i32, Reading, Reading)],
    stability_score: Reading,
    confidence_score: Reading,
    artifact_epoch_fraction: Reading,
    params: &SpectralVisionParams,
    gov: &GovernanceStateV1,
) -> (decision: SpectralVisionDecision)
    ensures
        decision.is_decision_for(
            raw_bands@,
            stability_score,
            confidence_score,
            artifact_epoch_fraction,
            *params,
            *gov,
        ),
        decision.wf(),
        !gov.spectral_quantification_active || !gov.soul_modeling_forbidden
            ==> decision.excavation_depth == ExcavationDepth::Sniff,
{
    let band_profile = compute_band_safety(raw_bands, params);
    let hygiene = compute_spectral_hygiene(&band_profile, artifact_epoch_fraction, params.safety_shigh);
    let promotion_score = compute_promotion_score(
        stability_score,
        confidence_score,
        Reading::Millionths(band_profile.safety_min),
        params,
    );
    let promotion_passed = passes_promotion_gate(promotion_score, params);
    let excavation_depth = compute_excavation_depth(&band_profile, gov, params);
    SpectralVisionDecision {
        band_profile,
        hygiene,
        excavation_depth,
        promotion_score,
        promotion_passed,
    }
}

/// Every score of a well-formed profile lies in the unit interval, and no
/// band is less safe than `safety_min`.
pub proof fn lemma_profile_scores_in_unit(profile: BandSafetyProfile)
    requires
        profile.wf(),
    ensures
        is_score(profile.safety_min as int),
        is_score(profile.safety_mean as int),
        forall|i: int|
            0 <= i < profile.bands@.len() ==> {
                &&& is_score((#[trigger] profile.bands@[i]).mean_power as int)
                &&& is_score(profile.bands@[i].stddev_power as int)
                &&& is_score(profile.bands@[i].safety_score as int)
                &&& profile.safety_min <= profile.bands@[i].safety_score
            },
{
    let bands = profile.bands@;
    assert forall|i: int| 0 <= i < bands.len() implies is_score(
        (#[trigger] bands[i]).safety_score as int,
    ) by {
        assert(bands[i].wf());
    }
    lemma_safety_sum_bounds(bands);
    if bands.len() > 0 {
        lemma_share_is_score(safety_sum(bands), bands.len() as int);
        let w = choose|w: int|
            0 <= w < bands.len() && (#[trigger] bands[w]).safety_score == profile.safety_min;
        assert(is_score(bands[w].safety_score as int));
    }
}

/// The scores of bands that are all at least `m` sum to at least `m` per
/// band.
pub proof fn lemma_safety_sum_at_least(bands: Seq<BandSafetyEntry>, m: int)
    requires
        forall|i: int| 0 <= i < bands.len() ==> m <= (#[trigger] bands[i]).safety_score,
    ensures
        bands.len() * m <= safety_sum(bands),
    decreases bands.len(),
{
    if bands.len() > 0 {
        let front = bands.drop_last();
        assert forall|i: int| 0 <= i < front.len() implies m <= (#[trigger] front[i]).safety_score by {
            assert(front[i] == bands[i]);
        }
        lemma_safety_sum_at_least(front, m);
        assert(m <= bands[bands.len() - 1].safety_score);
        assert(bands.len() * m == front.len() * m + m) by (nonlinear_arith)
            requires
                bands.len() == front.len() + 1,
        ;
    }
}

/// In a well-formed profile with at least one band, the mean safety is at
/// least the worst safety.
pub proof fn lemma_mean_at_least_worst(profile: BandSafetyProfile)
    requires
        profile.wf(),
        profile.bands@.len() > 0,
    ensures
        profile.safety_min <= profile.safety_mean,
{
    let bands = profile.bands@;
    let m = profile.safety_min as int;
    let n = bands.len() as int;
    lemma_safety_sum_at_least(bands, m);
    let total = safety_sum(bands);
    assert(m <= total / n) by (nonlinear_arith)
        requires
            n > 0,
            n * m <= total,
    ;
}

/// Under coherent parameters a safer band is never of a more hazardous
/// class.
pub proof fn lemma_hazard_class_monotone(lower: int, higher: int, params: SpectralVisionParams)
    requires
        lower <= higher,
        params.hazard_elevated_max <= params.hazard_safe_min,
    ensures
        hazard_class_of(lower, params).calm() <= hazard_class_of(higher, params).calm(),
{
}

/// The profile of no samples has a worst safety of one and a mean of zero.
pub proof fn lemma_empty_profile(profile: BandSafetyProfile, params: SpectralVisionParams)
    requires
        profile.is_profile_of(Seq::empty(), params),
    ensures
        profile.bands@.len() == 0,
        profile.safety_min == SCALE,
        profile.safety_mean == 0,
{
}

/// The hygiene of any profile, for any artifact fraction and threshold, is
/// well formed: three scores, with contamination and cleanliness summing to
/// exactly one.
pub proof fn lemma_hygiene_well_formed(
    hygiene: SpectralHygiene,
    profile: BandSafetyProfile,
    artifact_raw: Reading,
    threshold: int,
)
    requires
        hygiene.is_hygiene_of(&profile, artifact_raw, threshold),
    ensures
        hygiene.wf(),
        hygiene.artifact_level + hygiene.band_quality == SCALE,
{
    let bands = profile.bands@;
    if bands.len() > 0 {
        lemma_safe_band_count_bounds(bands, threshold);
        let count = safe_band_count(bands, threshold) as int;
        assert(count * 1_000_000 <= bands.len() * 1_000_000);
        lemma_share_is_score(count * 1_000_000, bands.len() as int);
    }
}

/// The promotion score is a score for all inputs and weights.
pub proof fn lemma_promotion_score_in_unit(
    stability_raw: Reading,
    confidence_raw: Reading,
    safety_min_raw: Reading,
    params: SpectralVisionParams,
)
    ensures
        is_score(promotion_score_of(stability_raw, confidence_raw, safety_min_raw, params)),
{
}

/// With no positive weight the promotion score is zero, whatever the
/// stability, the confidence and the worst-band safety.
pub proof fn lemma_promotion_zero_without_weight(
    stability_raw: Reading,
    confidence_raw: Reading,
    safety_min_raw: Reading,
    params: SpectralVisionParams,
)
    requires
        params.w_stability <= 0,
        params.w_confidence <= 0,
        params.w_safety_min <= 0,
    ensures
        promotion_score_of(stability_raw, confidence_raw, safety_min_raw, params) == 0,
{
}

/// With weights that are not negative and a positive total, the promotion
/// score lies between the least and the greatest of the three coerced
/// scores.
pub proof fn lemma_promotion_score_between(
    stability_raw: Reading,
    confidence_raw: Reading,
    safety_min_raw: Reading,
    params: SpectralVisionParams,
    lo: int,
    hi: int,
)
    requires
        params.w_stability >= 0,
        params.w_confidence >= 0,
        params.w_safety_min >= 0,
        params.weight_total() > 0,
        0 <= lo <= hi <= SCALE,
        lo <= stability_raw.score() <= hi,
        lo <= confidence_raw.score() <= hi,
        lo <= safety_min_raw.score() <= hi,
    ensures
        lo <= promotion_score_of(stability_raw, confidence_raw, safety_min_raw, params) <= hi,
{
    let w1 = params.w_stability as int;
    let w2 = params.w_confidence as int;
    let w3 = params.w_safety_min as int;
    let s = stability_raw.score();
    let c = confidence_raw.score();
    let m = safety_min_raw.score();
    let t = w1 + w2 + w3;
    let total = w1 * s + w2 * c + w3 * m;
    assert(lo * t <= total <= hi * t) by (nonlinear_arith)
        requires
            w1 >= 0,
            w2 >= 0,
            w3 >= 0,
            t == w1 + w2 + w3,
            total == w1 * s + w2 * c + w3 * m,
            lo <= s <= hi,
            lo <= c <= hi,
            lo <= m <= hi,
    ;
    assert(lo <= total / t <= hi) by (nonlinear_arith)
        requires
            t > 0,
            lo * t <= total <= hi * t,
    ;
}

/// Unless both governance latches are set, the depth is `Sniff` for every
/// worst-band safety and all parameters.
pub proof fn lemma_governance_forces_sniff(
    safety_min: int,
    gov: GovernanceStateV1,
    params: SpectralVisionParams,
)
    requires
        !gov.spectral_quantification_active || !gov.soul_modeling_forbidden,
    ensures
        excavation_depth_of(safety_min, gov, params) == ExcavationDepth::Sniff,
{
}

/// A safer worst band never lowers the depth that the safety thresholds
/// allow, where the lower threshold does not exceed the upper.
pub proof fn lemma_depth_monotone(
    lower: int,
    higher: int,
    gov: GovernanceStateV1,
    params: SpectralVisionParams,
)
    requires
        lower <= higher,
        params.safety_slow <= params.safety_shigh,
    ensures
        excavation_depth_of(lower, gov, params).at_most(
            &excavation_depth_of(higher, gov, params),
        ),
{
}

} // verus!
