use spectral_vision::excavation_depth::ExcavationDepth;
use spectral_vision::governance::{GovernanceMode, GovernanceStateV1};
use spectral_vision::spectral_vision::{
    compute_band_safety, compute_excavation_depth, compute_promotion_score,
    evaluate_spectral_vision, passes_promotion_gate, BandSafetyProfile, SpectralVisionParams,
};
use spectral_vision::score::Reading;
use std::cmp::Ordering;

fn m(millionths: i64) -> Reading {
    Reading::Millionths(millionths)
}

fn weights(a: i64, b: i64, c: i64) -> SpectralVisionParams {
    let mut p = SpectralVisionParams::default();
    p.w_stability = a;
    p.w_confidence = b;
    p.w_safety_min = c;
    p
}

fn gov(mode: GovernanceMode, quantification: bool, forbidden: bool) -> GovernanceStateV1 {
    GovernanceStateV1 {
        mode,
        spectral_quantification_active: quantification,
        soul_modeling_forbidden: forbidden,
        non_interference_required: false,
    }
}

fn profile_with_min(safety_min: i64) -> BandSafetyProfile {
    BandSafetyProfile { bands: vec![], safety_min, safety_mean: 0 }
}

#[test]
fn promotion_score_of_a_stable_object_with_an_unsafe_band() {
    let p = SpectralVisionParams::default();
    let score = compute_promotion_score(m(900_000), m(900_000), m(0), &p);
    assert_eq!(score, 720_000);
    assert!(!passes_promotion_gate(score, &p));
}

#[test]
fn promotion_score_is_zero_without_positive_weight() {
    assert_eq!(compute_promotion_score(m(1_000_000), m(1_000_000), m(1_000_000), &weights(0, 0, 0)), 0);
    assert_eq!(compute_promotion_score(m(900_000), m(100_000), m(500_000), &weights(-1, -2, -3)), 0);
    assert_eq!(compute_promotion_score(m(900_000), m(100_000), m(500_000), &weights(0, -5, 0)), 0);
    assert_eq!(compute_promotion_score(m(900_000), m(100_000), m(500_000), &weights(5, -5, 0)), 0);
    assert_eq!(
        compute_promotion_score(m(i64::MAX), m(i64::MAX), m(i64::MAX), &weights(i64::MIN, i64::MIN, i64::MIN)),
        0
    );
}

#[test]
fn promotion_weights_are_renormalised() {
    let a = compute_promotion_score(m(900_000), m(500_000), m(250_000), &weights(400_000, 400_000, 200_000));
    let b = compute_promotion_score(m(900_000), m(500_000), m(250_000), &weights(2, 2, 1));
    let c = compute_promotion_score(m(900_000), m(500_000), m(250_000), &weights(4_000, 4_000, 2_000));
    assert_eq!(a, 610_000);
    assert_eq!(b, 610_000);
    assert_eq!(c, 610_000);
}

#[test]
fn promotion_score_rounds_down() {
    assert_eq!(compute_promotion_score(m(1_000_000), m(0), m(0), &weights(1, 1, 1)), 333_333);
    assert_eq!(compute_promotion_score(m(1_000_000), m(1_000_000), m(0), &weights(1, 1, 1)), 666_666);
}

#[test]
fn promotion_coerces_its_scores() {
    let p = weights(1, 1, 1);
    assert_eq!(compute_promotion_score(m(5_000_000), m(9_000_000), m(i64::MAX), &p), 1_000_000);
    assert_eq!(compute_promotion_score(m(-5), m(i64::MIN), m(-1), &p), 0);
    assert_eq!(compute_promotion_score(m(-5), m(600_000), m(2_000_000), &weights(1, 1, 0)), 300_000);
}

#[test]
fn promotion_takes_the_largest_weights() {
    let p = weights(i64::MAX, i64::MAX, i64::MAX);
    assert_eq!(compute_promotion_score(m(1_000_000), m(1_000_000), m(1_000_000), &p), 1_000_000);
    assert_eq!(compute_promotion_score(m(300_000), m(300_000), m(300_000), &p), 300_000);
}

#[test]
fn promotion_with_a_negative_weight_stays_a_score() {
    assert_eq!(compute_promotion_score(m(0), m(1_000_000), m(0), &weights(3, -1, 0)), 0);
    assert_eq!(compute_promotion_score(m(1_000_000), m(0), m(0), &weights(3, -1, 0)), 1_000_000);
    assert_eq!(compute_promotion_score(m(500_000), m(500_000), m(0), &weights(3, -1, 0)), 500_000);
}

#[test]
fn promotion_gate_includes_its_threshold() {
    let p = SpectralVisionParams::default();
    assert!(passes_promotion_gate(800_000, &p));
    assert!(passes_promotion_gate(800_001, &p));
    assert!(!passes_promotion_gate(799_999, &p));
    assert!(passes_promotion_gate(1_000_000, &p));
    assert!(!passes_promotion_gate(0, &p));
}

#[test]
fn depth_is_sniff_unless_both_latches_are_set() {
    let p = SpectralVisionParams::default();
    let safe = profile_with_min(1_000_000);
    let modes = [
        GovernanceMode::Dormant,
        GovernanceMode::ActiveGoverned,
        GovernanceMode::ActiveFree,
        GovernanceMode::TechnicalOnly,
    ];
    for mode in modes {
        assert_eq!(compute_excavation_depth(&safe, &gov(mode, false, true), &p), ExcavationDepth::Sniff);
        assert_eq!(compute_excavation_depth(&safe, &gov(mode, true, false), &p), ExcavationDepth::Sniff);
        assert_eq!(compute_excavation_depth(&safe, &gov(mode, false, false), &p), ExcavationDepth::Sniff);
    }
}

#[test]
fn depth_is_sniff_when_roaming_free() {
    let p = SpectralVisionParams::default();
    let g = gov(GovernanceMode::ActiveFree, true, true);
    assert_eq!(compute_excavation_depth(&profile_with_min(1_000_000), &g, &p), ExcavationDepth::Sniff);
    assert_eq!(compute_excavation_depth(&profile_with_min(500_000), &g, &p), ExcavationDepth::Sniff);
    assert_eq!(compute_excavation_depth(&profile_with_min(0), &g, &p), ExcavationDepth::Sniff);
}

#[test]
fn depth_follows_the_worst_band_in_the_other_modes() {
    let p = SpectralVisionParams::default();
    let modes = [
        GovernanceMode::Dormant,
        GovernanceMode::ActiveGoverned,
        GovernanceMode::TechnicalOnly,
    ];
    for mode in modes {
        let g = gov(mode, true, true);
        assert_eq!(compute_excavation_depth(&profile_with_min(0), &g, &p), ExcavationDepth::Sniff);
        assert_eq!(compute_excavation_depth(&profile_with_min(399_999), &g, &p), ExcavationDepth::Sniff);
        assert_eq!(compute_excavation_depth(&profile_with_min(400_000), &g, &p), ExcavationDepth::DigLight);
        assert_eq!(compute_excavation_depth(&profile_with_min(699_999), &g, &p), ExcavationDepth::DigLight);
        assert_eq!(compute_excavation_depth(&profile_with_min(700_000), &g, &p), ExcavationDepth::DigFull);
        assert_eq!(compute_excavation_depth(&profile_with_min(1_000_000), &g, &p), ExcavationDepth::DigFull);
    }
}

#[test]
fn depth_with_crossed_thresholds_follows_the_first_match() {
    let mut p = SpectralVisionParams::default();
    p.safety_slow = 700_000;
    p.safety_shigh = 400_000;
    let g = gov(GovernanceMode::Dormant, true, true);
    assert_eq!(compute_excavation_depth(&profile_with_min(500_000), &g, &p), ExcavationDepth::Sniff);
    assert_eq!(compute_excavation_depth(&profile_with_min(700_000), &g, &p), ExcavationDepth::DigFull);
}

#[test]
fn depths_are_ordered_from_sniff_to_full() {
    assert!(ExcavationDepth::Sniff < ExcavationDepth::DigLight);
    assert!(ExcavationDepth::DigLight < ExcavationDepth::DigFull);
    assert!(ExcavationDepth::Sniff < ExcavationDepth::DigFull);
    assert!(ExcavationDepth::DigFull > ExcavationDepth::Sniff);
    assert!(ExcavationDepth::DigLight <= ExcavationDepth::DigLight);
    assert!(ExcavationDepth::DigLight >= ExcavationDepth::DigLight);
}

#[test]
fn depth_comparisons_agree_with_one_another() {
    let all = [ExcavationDepth::Sniff, ExcavationDepth::DigLight, ExcavationDepth::DigFull];
    for (i, a) in all.iter().enumerate() {
        assert_eq!(a.rank_value() as usize, i);
        for (j, b) in all.iter().enumerate() {
            let expected = i.cmp(&j);
            assert_eq!(a.compare(b), expected);
            assert_eq!(a.cmp(b), expected);
            assert_eq!(a.partial_cmp(b), Some(expected));
            assert_eq!(a == b, expected == Ordering::Equal);
            assert_eq!(b.compare(a), expected.reverse());
        }
    }
}

#[test]
fn depths_sort_shallowest_first() {
    let mut v = vec![
        ExcavationDepth::DigFull,
        ExcavationDepth::Sniff,
        ExcavationDepth::DigLight,
        ExcavationDepth::Sniff,
    ];
    v.sort();
    assert_eq!(
        v,
        vec![
            ExcavationDepth::Sniff,
            ExcavationDepth::Sniff,
            ExcavationDepth::DigLight,
            ExcavationDepth::DigFull,
        ]
    );
    assert_eq!(v.iter().max(), Some(&ExcavationDepth::DigFull));
}

#[test]
fn evaluation_bundles_the_single_decisions() {
    let p = SpectralVisionParams::default();
    let g = gov(GovernanceMode::ActiveGoverned, true, true);
    let raw = [(0, m(100_000), m(50_000)), (1, m(900_000), m(200_000))];
    let d = evaluate_spectral_vision(&raw, m(900_000), m(900_000), m(200_000), &p, &g);
    assert_eq!(d.band_profile, compute_band_safety(&raw, &p));
    assert_eq!(d.band_profile.safety_min, 0);
    assert_eq!(d.band_profile.safety_mean, 425_000);
    assert_eq!(d.hygiene.band_quality, 340_000);
    assert_eq!(d.hygiene.artifact_level, 660_000);
    assert_eq!(d.hygiene.safe_band_fraction, 500_000);
    assert_eq!(d.promotion_score, 720_000);
    assert!(!d.promotion_passed);
    assert_eq!(d.excavation_depth, ExcavationDepth::Sniff);
}

#[test]
fn evaluation_of_a_clean_object_promotes_and_digs_fully() {
    let p = SpectralVisionParams::default();
    let g = gov(GovernanceMode::TechnicalOnly, true, true);
    let raw = [(0, m(100_000), m(50_000)), (1, m(50_000), m(50_000))];
    let d = evaluate_spectral_vision(&raw, m(900_000), m(800_000), m(0), &p, &g);
    assert_eq!(d.band_profile.safety_min, 850_000);
    assert_eq!(d.band_profile.safety_mean, 875_000);
    assert_eq!(d.hygiene.band_quality, 875_000);
    assert_eq!(d.hygiene.artifact_level, 125_000);
    assert_eq!(d.hygiene.safe_band_fraction, 1_000_000);
    assert_eq!(d.promotion_score, 850_000);
    assert!(d.promotion_passed);
    assert_eq!(d.excavation_depth, ExcavationDepth::DigFull);
}

#[test]
fn evaluation_under_a_lifted_latch_only_sniffs() {
    let p = SpectralVisionParams::default();
    let g = gov(GovernanceMode::TechnicalOnly, true, false);
    let raw = [(0, m(0), m(0))];
    let d = evaluate_spectral_vision(&raw, m(1_000_000), m(1_000_000), m(0), &p, &g);
    assert_eq!(d.excavation_depth, ExcavationDepth::Sniff);
    assert_eq!(d.promotion_score, 1_000_000);
    assert!(d.promotion_passed);
}

#[test]
fn evaluation_of_no_bands() {
    let p = SpectralVisionParams::default();
    let g = gov(GovernanceMode::Dormant, true, true);
    let d = evaluate_spectral_vision(&[], m(500_000), m(500_000), m(100_000), &p, &g);
    assert_eq!(d.band_profile.safety_min, 1_000_000);
    assert_eq!(d.band_profile.safety_mean, 0);
    assert_eq!(d.hygiene.band_quality, 0);
    assert_eq!(d.hygiene.artifact_level, 1_000_000);
    assert_eq!(d.hygiene.safe_band_fraction, 0);
    assert_eq!(d.promotion_score, 600_000);
    assert!(!d.promotion_passed);
    assert_eq!(d.excavation_depth, ExcavationDepth::DigFull);
}

#[test]
fn promotion_counts_scores_that_are_not_finite_as_zero() {
    let p = SpectralVisionParams::default();
    assert_eq!(compute_promotion_score(Reading::NotFinite, m(900_000), m(500_000), &p), 460_000);
    assert_eq!(compute_promotion_score(m(900_000), Reading::NotFinite, m(500_000), &p), 460_000);
    assert_eq!(compute_promotion_score(m(900_000), m(900_000), Reading::NotFinite, &p), 720_000);
    assert_eq!(
        compute_promotion_score(Reading::NotFinite, Reading::NotFinite, Reading::NotFinite, &p),
        0
    );
}

#[test]
fn evaluation_counts_readings_that_are_not_finite_as_zero() {
    let p = SpectralVisionParams::default();
    let g = gov(GovernanceMode::Dormant, true, true);
    let raw = [(0, Reading::NotFinite, Reading::NotFinite)];
    let d = evaluate_spectral_vision(&raw, Reading::NotFinite, m(1_000_000), Reading::NotFinite, &p, &g);
    assert_eq!(d.band_profile.safety_min, 1_000_000);
    assert_eq!(d.band_profile.safety_mean, 1_000_000);
    assert_eq!(d.hygiene.band_quality, 1_000_000);
    assert_eq!(d.hygiene.artifact_level, 0);
    assert_eq!(d.promotion_score, 600_000);
    assert!(!d.promotion_passed);
    assert_eq!(d.excavation_depth, ExcavationDepth::DigFull);
}

#[test]
fn parameters_are_coherent_when_ordered_and_not_negative() {
    assert!(SpectralVisionParams::default().is_coherent());
    assert!(weights(0, 0, 0).is_coherent());
    assert!(!weights(-1, 2, 3).is_coherent());
    assert!(!weights(1, -2, 3).is_coherent());
    assert!(!weights(1, 2, -3).is_coherent());
    let mut p = SpectralVisionParams::default();
    p.safety_slow = 700_001;
    assert!(!p.is_coherent());
    let mut p = SpectralVisionParams::default();
    p.hazard_safe_min = 399_999;
    assert!(!p.is_coherent());
    let mut p = SpectralVisionParams::default();
    p.safety_slow = 700_000;
    p.hazard_elevated_max = 700_000;
    assert!(p.is_coherent());
}
