use chrono::{DateTime, Duration, Utc};
use oracle::model::CONTRADICTION_MAX_CONFIDENCE;
use oracle::scorer::{ScoreHistory, ScoringEngine, ScoringInput};
use oracle::time::UtcInstant;
use oracle::types::{ArtifactClass, ConfidenceClassification};

fn instant(t: DateTime<Utc>) -> UtcInstant {
    UtcInstant { secs: t.timestamp(), nanos: t.timestamp_subsec_nanos() }
}

fn make_input(class: ArtifactClass, sources: usize, contradictions: bool) -> ScoringInput {
    let now = Utc::now();
    let timestamps: Vec<_> = (0..sources)
        .map(|i| instant(now + Duration::seconds(i as i64 * 5)))
        .collect();

    ScoringInput {
        primary_artifact_class: class,
        corroboration_count: sources,
        source_timestamps: timestamps,
        acquisition_time: instant(now),
        interest_window_start: instant(now - Duration::hours(1)),
        interest_window_end: instant(now + Duration::hours(1)),
        has_contradictions: contradictions,
        contradiction_count: if contradictions { 1 } else { 0 },
    }
}

#[test]
fn test_high_confidence_scenario() {
    // Best case: reliable source, many corroborations, fresh, no contradictions
    let input = make_input(ArtifactClass::KernelLogs, 5, false);
    let score = ScoringEngine::compute(&input);

    assert!(score.score >= 9000, "high-quality evidence should score >= 0.90, got {}", score.score);
    assert_eq!(score.classification, ConfidenceClassification::Definitive);
    assert!(!score.contradiction_applied);
}

#[test]
fn test_low_confidence_scenario() {
    // Worst case: unknown source, single source, no contradictions
    let input = make_input(ArtifactClass::Unknown, 1, false);
    let score = ScoringEngine::compute(&input);

    assert!(score.score < 5000, "low-quality evidence should score < 0.50, got {}", score.score);
}

#[test]
fn test_contradiction_penalty() {
    let input_clean = make_input(ArtifactClass::WifiConfigStore, 3, false);
    let input_contradicted = make_input(ArtifactClass::WifiConfigStore, 3, true);

    let score_clean = ScoringEngine::compute(&input_clean);
    let score_contradicted = ScoringEngine::compute(&input_contradicted);

    assert!(score_contradicted.score < score_clean.score);
    assert!(score_contradicted.contradiction_applied);
    assert!(score_contradicted.score <= CONTRADICTION_MAX_CONFIDENCE);
}

#[test]
fn test_contradicted_classification() {
    let input = make_input(ArtifactClass::Unknown, 1, true);
    let score = ScoringEngine::compute(&input);

    assert_eq!(score.classification, ConfidenceClassification::Contradicted);
}

#[test]
fn test_more_sources_higher_score() {
    let score_1 = ScoringEngine::compute(&make_input(ArtifactClass::WifiConfigStore, 1, false));
    let score_3 = ScoringEngine::compute(&make_input(ArtifactClass::WifiConfigStore, 3, false));
    let score_5 = ScoringEngine::compute(&make_input(ArtifactClass::WifiConfigStore, 5, false));

    assert!(score_3.score > score_1.score);
    assert!(score_5.score > score_3.score);
}

#[test]
fn test_determinism() {
    let input = make_input(ArtifactClass::DhcpLeases, 3, false);
    let s1 = ScoringEngine::compute(&input);
    let s2 = ScoringEngine::compute(&input);

    // Scores should be identical for identical inputs
    // (computed_at and id will differ, but score value must match)
    assert_eq!(s1.score, s2.score);
    assert_eq!(s1.raw_weighted_sum, s2.raw_weighted_sum);
    assert_eq!(s1.model_version, s2.model_version);
}

#[test]
fn test_model_version_embedded() {
    let input = make_input(ArtifactClass::WpaSupplicant, 2, false);
    let score = ScoringEngine::compute(&input);
    assert_eq!(score.model_version, "1.0.0");
}

#[test]
fn test_freshness_inside_window() {
    let now = Utc::now();
    let freshness = ScoringEngine::compute_freshness(
        instant(now),
        instant(now - Duration::hours(1)),
        instant(now + Duration::hours(1)),
    );
    assert_eq!(freshness, 10000);
}

#[test]
fn test_freshness_decays_with_age() {
    let now = Utc::now();
    let window_start = now - Duration::hours(48);
    let window_end = now - Duration::hours(47);

    // Acquisition much later than window
    let freshness =
        ScoringEngine::compute_freshness(instant(now), instant(window_start), instant(window_end));
    assert!(freshness < 5000, "old evidence should have low freshness, got {}", freshness);
}

#[test]
fn test_examiner_override() {
    let input = make_input(ArtifactClass::DhcpLeases, 2, false);
    let original = ScoringEngine::compute(&input);

    let (overridden, record) = ScoringEngine::apply_override(
        &original,
        9500,
        "Manual verification confirms this finding.",
        "Examiner Smith",
    );

    assert_eq!(overridden.score, 9500);
    assert_eq!(record.examiner_name, "Examiner Smith");
    assert!(!record.justification.is_empty());
}

#[test]
fn test_temporal_consistency_single_source() {
    let timestamps = vec![instant(Utc::now())];
    let consistency = ScoringEngine::compute_temporal_consistency(&timestamps);
    assert_eq!(consistency, 5000, "single source should return 0.5");
}

#[test]
fn test_temporal_consistency_tight_agreement() {
    let now = Utc::now();
    let timestamps = vec![
        instant(now),
        instant(now + Duration::seconds(1)),
        instant(now + Duration::seconds(2)),
    ];
    let consistency = ScoringEngine::compute_temporal_consistency(&timestamps);
    assert!(consistency > 9500, "tight timestamps should give high consistency");
}

#[test]
fn test_score_history() {
    let input = make_input(ArtifactClass::WifiConfigStore, 2, false);
    let s1 = ScoringEngine::compute(&input);
    let mut history = ScoreHistory::new(s1);

    assert_eq!(history.revision_count(), 1);

    let s2 = ScoringEngine::compute(&make_input(ArtifactClass::WifiConfigStore, 3, false));
    history.add_version(s2);

    assert_eq!(history.revision_count(), 2);
    assert!(history.current().unwrap().score > 0);
}
