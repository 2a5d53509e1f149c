//! # Confidence Model v1.0
//!
//! Formal definition of the ORACLE Confidence Scoring Model: the
//! authoritative source of truth for all scoring parameters.
//!
//! The confidence score quantifies how much weight a forensic examiner or
//! court should assign to a particular finding. It is a deterministic value
//! in the range `[0, SCORE_SCALE]` (that is, 0.0 to 1.0 in ten-thousandths)
//! computed from four weighted factors.
//!
//! | Factor               | Weight | Description                               |
//! |----------------------|--------|-------------------------------------------|
//! | Source Reliability   | 0.30   | Baseline reliability of the artifact type |
//! | Temporal Consistency | 0.25   | Cross-source timestamp agreement          |
//! | Corroboration        | 0.30   | Number of independent confirming sources  |
//! | Artifact Freshness   | 0.15   | Proximity to the relevant time window     |
use vstd::prelude::*;
use vstd::string::*;

verus! {

/// The current model version string. Embedded in every score output.
pub const MODEL_VERSION: &'static str = "1.0.0";

/// The fixed-point unit of scores, weights and factors: 10000 stands for 1.0.
pub const SCORE_SCALE: u32 = 10000;

/// Weight of the source reliability factor (0.30).
pub const WEIGHT_SOURCE_RELIABILITY: u32 = 3000;

/// Weight of the temporal consistency factor (0.25).
pub const WEIGHT_TEMPORAL_CONSISTENCY: u32 = 2500;

/// Weight of the corroboration factor (0.30).
pub const WEIGHT_CORROBORATION: u32 = 3000;

/// Weight of the artifact freshness factor (0.15).
pub const WEIGHT_FRESHNESS: u32 = 1500;

/// Penalty applied when active contradictions exist for a finding (0.40).
pub const CONTRADICTION_PENALTY: u32 = 4000;

/// Maximum confidence when a contradiction is present (hard cap, 0.50).
pub const CONTRADICTION_MAX_CONFIDENCE: u32 = 5000;

/// The factor weights sum to exactly 1.0.
pub proof fn lemma_weights_sum_to_one()
    ensures
        WEIGHT_SOURCE_RELIABILITY + WEIGHT_TEMPORAL_CONSISTENCY + WEIGHT_CORROBORATION
            + WEIGHT_FRESHNESS == SCORE_SCALE,
{
}

/// The contradiction penalty and cap both lie strictly between 0.0 and 1.0.
pub proof fn lemma_contradiction_parameters_in_range()
    ensures
        0 < CONTRADICTION_PENALTY < SCORE_SCALE,
        0 < CONTRADICTION_MAX_CONFIDENCE < SCORE_SCALE,
{
}

/// Name of the first factor.
pub const SOURCE_RELIABILITY_NAME: &'static str = "Source Reliability";

/// Description of the first factor.
pub const SOURCE_RELIABILITY_DESCRIPTION: &'static str = "Baseline reliability of the artifact type, derived from the artifact class taxonomy (e.g., kernel logs = 0.99, DNS cache = 0.70).";

/// Name of the second factor.
pub const TEMPORAL_CONSISTENCY_NAME: &'static str = "Temporal Consistency";

/// Description of the second factor.
pub const TEMPORAL_CONSISTENCY_DESCRIPTION: &'static str = "Degree to which timestamps from different sources agree. Computed as 1.0 minus the normalized standard deviation of timestamps.";

/// Name of the third factor.
pub const CORROBORATION_NAME: &'static str = "Corroboration";

/// Description of the third factor.
pub const CORROBORATION_DESCRIPTION: &'static str = "Number of independent artifact sources that confirm the finding. Scored on a logarithmic curve: 1 source = 0.40, 2 = 0.65, 3 = 0.80, 4 = 0.90, 5+ = 0.95.";

/// Name of the fourth factor.
pub const FRESHNESS_NAME: &'static str = "Artifact Freshness";

/// Description of the fourth factor.
pub const FRESHNESS_DESCRIPTION: &'static str = "How recently the artifact was created or modified relative to the investigation's time window of interest. Decays exponentially with age.";

/// The methodology summary included in forensic reports.
pub const METHODOLOGY_SUMMARY: &'static str = "The ORACLE Confidence Model v1.0 computes a weighted sum of four factors: Source Reliability (30%), Temporal Consistency (25%), Corroboration (30%), and Artifact Freshness (15%). When active contradictions exist, a 40% penalty is applied and the score is capped at 0.50. The model is fully deterministic \u{2014} identical inputs always produce identical scores. All factor baselines are documented in the ArtifactClass taxonomy.";

/// Formal model documentation for inclusion in forensic reports.
#[derive(Debug, Clone)]
pub struct ModelDocumentation {
    pub version: String,
    pub factor_weights: Vec<FactorWeight>,
    /// In ten-thousandths.
    pub contradiction_penalty: u32,
    /// In ten-thousandths.
    pub contradiction_max_confidence: u32,
    pub methodology_summary: String,
}

/// A single factor weight entry for documentation.
#[derive(Debug, Clone)]
pub struct FactorWeight {
    pub factor_name: String,
    /// In ten-thousandths.
    pub weight: u32,
    pub description: String,
}

impl FactorWeight {
    /// Whether this entry documents the given factor.
    pub open spec fn documents(self, name: Seq<char>, weight: u32, description: Seq<char>) -> bool {
        self.factor_name@ == name && self.weight == weight && self.description@ == description
    }
}

impl ModelDocumentation {
    /// Generate the v1.0 model documentation.
    pub fn v1() -> (doc: Self)
        ensures
            doc.version@ == MODEL_VERSION@,
            doc.factor_weights@.len() == 4,
            doc.factor_weights@[0].documents(
                SOURCE_RELIABILITY_NAME@,
                WEIGHT_SOURCE_RELIABILITY,
                SOURCE_RELIABILITY_DESCRIPTION@,
            ),
            doc.factor_weights@[1].documents(
                TEMPORAL_CONSISTENCY_NAME@,
                WEIGHT_TEMPORAL_CONSISTENCY,
                TEMPORAL_CONSISTENCY_DESCRIPTION@,
            ),
            doc.factor_weights@[2].documents(
                CORROBORATION_NAME@,
                WEIGHT_CORROBORATION,
                CORROBORATION_DESCRIPTION@,
            ),
            doc.factor_weights@[3].documents(
                FRESHNESS_NAME@,
                WEIGHT_FRESHNESS,
                FRESHNESS_DESCRIPTION@,
            ),
            doc.contradiction_penalty == CONTRADICTION_PENALTY,
            doc.contradiction_max_confidence == CONTRADICTION_MAX_CONFIDENCE,
            doc.methodology_summary@ == METHODOLOGY_SUMMARY@,
    {
        let mut factor_weights: Vec<FactorWeight> = Vec::new();
        factor_weights.push(
            FactorWeight {
                factor_name: SOURCE_RELIABILITY_NAME.to_owned(),
                weight: WEIGHT_SOURCE_RELIABILITY,
                description: SOURCE_RELIABILITY_DESCRIPTION.to_owned(),
            },
        );
        factor_weights.push(
            FactorWeight {
                factor_name: TEMPORAL_CONSISTENCY_NAME.to_owned(),
                weight: WEIGHT_TEMPORAL_CONSISTENCY,
                description: TEMPORAL_CONSISTENCY_DESCRIPTION.to_owned(),
            },
        );
        factor_weights.push(
            FactorWeight {
                factor_name: CORROBORATION_NAME.to_owned(),
                weight: WEIGHT_CORROBORATION,
                description: CORROBORATION_DESCRIPTION.to_owned(),
            },
        );
        factor_weights.push(
            FactorWeight {
                factor_name: FRESHNESS_NAME.to_owned(),
                weight: WEIGHT_FRESHNESS,
                description: FRESHNESS_DESCRIPTION.to_owned(),
            },
        );
        ModelDocumentation {
            version: MODEL_VERSION.to_owned(),
            factor_weights,
            contradiction_penalty: CONTRADICTION_PENALTY,
            contradiction_max_confidence: CONTRADICTION_MAX_CONFIDENCE,
            methodology_summary: METHODOLOGY_SUMMARY.to_owned(),
        }
    }
}

} // verus!
