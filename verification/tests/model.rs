use oracle::model::{
    ModelDocumentation, CONTRADICTION_MAX_CONFIDENCE, CONTRADICTION_PENALTY, MODEL_VERSION,
    SCORE_SCALE, WEIGHT_CORROBORATION, WEIGHT_FRESHNESS, WEIGHT_SOURCE_RELIABILITY,
    WEIGHT_TEMPORAL_CONSISTENCY,
};

fn fraction(v: u32) -> f64 {
    v as f64 / SCORE_SCALE as f64
}

#[test]
fn test_weights_sum_to_one() {
    let sum = fraction(WEIGHT_SOURCE_RELIABILITY)
        + fraction(WEIGHT_TEMPORAL_CONSISTENCY)
        + fraction(WEIGHT_CORROBORATION)
        + fraction(WEIGHT_FRESHNESS);
    assert!(
        (sum - 1.0).abs() < 1e-10,
        "Factor weights must sum to 1.0, got {}",
        sum
    );
}

#[test]
fn test_model_version() {
    assert_eq!(MODEL_VERSION, "1.0.0");
}

#[test]
fn test_documentation_generation() {
    let doc = ModelDocumentation::v1();
    assert_eq!(doc.version, "1.0.0");
    assert_eq!(doc.factor_weights.len(), 4);
    assert!(!doc.methodology_summary.is_empty());
}

#[test]
fn test_contradiction_penalty_range() {
    assert!(fraction(CONTRADICTION_PENALTY) > 0.0 && fraction(CONTRADICTION_PENALTY) < 1.0);
    assert!(
        fraction(CONTRADICTION_MAX_CONFIDENCE) > 0.0
            && fraction(CONTRADICTION_MAX_CONFIDENCE) < 1.0
    );
}

#[test]
fn documentation_lists_factor_weights_in_model_order() {
    let doc = ModelDocumentation::v1();
    let names: Vec<&str> = doc.factor_weights.iter().map(|f| f.factor_name.as_str()).collect();
    assert_eq!(
        names,
        vec!["Source Reliability", "Temporal Consistency", "Corroboration", "Artifact Freshness"]
    );
    let weights: Vec<u32> = doc.factor_weights.iter().map(|f| f.weight).collect();
    assert_eq!(weights, vec![3000, 2500, 3000, 1500]);
    assert_eq!(doc.contradiction_penalty, 4000);
    assert_eq!(doc.contradiction_max_confidence, 5000);
    assert!(doc.methodology_summary.contains("capped at 0.50"));
}
