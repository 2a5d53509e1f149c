//! # Confidence Score Computation Engine
//!
//! Deterministic computation of confidence scores based on the Confidence
//! Model v1.0. Given a set of scoring inputs, produces a versioned,
//! reproducible score with full factor breakdown.
//!
//! Every score, factor and weight is a whole number of ten-thousandths, so
//! the engine gives identical output for identical inputs by construction.
use vstd::prelude::*;
use vstd::string::*;
use vstd::arithmetic::power2::{lemma2_to64, pow2};
use crate::ids::{ScoreId, is_random_uuid};
use crate::model::{
    CONTRADICTION_MAX_CONFIDENCE, CONTRADICTION_PENALTY, MODEL_VERSION, SCORE_SCALE,
    WEIGHT_CORROBORATION, WEIGHT_FRESHNESS, WEIGHT_SOURCE_RELIABILITY, WEIGHT_TEMPORAL_CONSISTENCY,
};
use crate::stats::{consistency_of, secs_of, temporal_consistency};
use crate::time::{UtcInstant, utc_now};
use crate::types::{ArtifactClass, ConfidenceClassification, classify};

verus! {

/// Inputs to the confidence scoring engine.
#[derive(Debug, Clone)]
pub struct ScoringInput {
    /// The artifact class of the primary evidence source.
    pub primary_artifact_class: ArtifactClass,
    /// Number of independent sources corroborating the finding.
    pub corroboration_count: usize,
    /// Timestamps from all corroborating sources (for consistency computation).
    pub source_timestamps: Vec<UtcInstant>,
    /// When the artifact was acquired.
    pub acquisition_time: UtcInstant,
    /// The time window of forensic interest (e.g., the incident window).
    pub interest_window_start: UtcInstant,
    pub interest_window_end: UtcInstant,
    /// Whether any active contradictions exist for this finding.
    pub has_contradictions: bool,
    /// Number of active contradictions.
    pub contradiction_count: usize,
}

/// The breakdown of individual factor scores, each in ten-thousandths.
#[derive(Debug, Clone, Copy, PartialEq, Eq, Structural)]
pub struct FactorBreakdown {
    /// Source reliability factor value.
    pub source_reliability: u32,
    /// Temporal consistency factor value.
    pub temporal_consistency: u32,
    /// Corroboration factor value.
    pub corroboration: u32,
    /// Artifact freshness factor value.
    pub freshness: u32,
}

/// A fully computed, versioned confidence score.
#[derive(Debug, Clone)]
pub struct ConfidenceScore {
    /// Unique identifier.
    pub id: ScoreId,
    /// The model version that produced this score.
    pub model_version: String,
    /// The final composite score, in ten-thousandths.
    pub score: u32,
    /// The court-facing classification derived from the score.
    pub classification: ConfidenceClassification,
    /// Full factor breakdown.
    pub factors: FactorBreakdown,
    /// Whether contradictions were present and applied as a penalty.
    pub contradiction_applied: bool,
    /// The raw weighted sum before any penalties, in ten-thousandths.
    pub raw_weighted_sum: u32,
    /// When this score was computed.
    pub computed_at: UtcInstant,
}

/// An examiner override that adjusts a confidence score with justification.
#[derive(Debug, Clone)]
pub struct ExaminerOverride {
    /// The original computed score, in ten-thousandths.
    pub original_score: u32,
    /// The examiner-adjusted score, in ten-thousandths.
    pub adjusted_score: u32,
    /// The examiner's justification for the override.
    pub justification: String,
    /// Name of the examiner who applied the override.
    pub examiner_name: String,
    /// When the override was applied.
    pub applied_at: UtcInstant,
}

// ── The model as mathematics ─────────────────────────────────────────────

/// Corroboration: a logarithmic curve over the number of independent sources.
pub open spec fn corroboration_for(count: int) -> u32 {
    if count <= 0 {
        1000
    } else if count == 1 {
        4000
    } else if count == 2 {
        6500
    } else if count == 3 {
        8000
    } else if count == 4 {
        9000
    } else {
        9500
    }
}

/// `2^(-r/24)` in ten-thousandths, rounded to nearest, for `r` in `0..24`.
pub open spec fn hour_decay(r: int) -> u32 {
    if r == 0 {
        10000
    } else if r == 1 {
        9715
    } else if r == 2 {
        9439
    } else if r == 3 {
        9170
    } else if r == 4 {
        8909
    } else if r == 5 {
        8655
    } else if r == 6 {
        8409
    } else if r == 7 {
        8170
    } else if r == 8 {
        7937
    } else if r == 9 {
        7711
    } else if r == 10 {
        7492
    } else if r == 11 {
        7278
    } else if r == 12 {
        7071
    } else if r == 13 {
        6870
    } else if r == 14 {
        6674
    } else if r == 15 {
        6484
    } else if r == 16 {
        6300
    } else if r == 17 {
        6120
    } else if r == 18 {
        5946
    } else if r == 19 {
        5777
    } else if r == 20 {
        5612
    } else if r == 21 {
        5453
    } else if r == 22 {
        5297
    } else {
        5147
    }
}

/// `x` to the 24th power.
pub open spec fn pow24(x: int) -> int {
    let x2 = x * x;
    let x4 = x2 * x2;
    let x8 = x4 * x4;
    let x16 = x8 * x8;
    x16 * x8
}

/// Each entry `d` of the hour table is `10000 * 2^(-r/24)` rounded to the
/// nearest integer: `(d - 1/2)^24 * 2^r <= 10000^24 <= (d + 1/2)^24 * 2^r`,
/// stated over integers by doubling both sides.
pub proof fn lemma_hour_decay_is_rounded_power(r: int)
    requires
        0 <= r < 24,
    ensures
        pow24(2 * hour_decay(r) - 1) * pow2(r as nat) <= pow24(20000),
        pow24(20000) <= pow24(2 * hour_decay(r) + 1) * pow2(r as nat),
{
    lemma2_to64();
    if r == 0 {
        assert(pow24(19999) * 1 <= pow24(20000) <= pow24(20001) * 1) by (nonlinear_arith);
    } else if r == 1 {
        assert(pow24(19429) * 2 <= pow24(20000) <= pow24(19431) * 2) by (nonlinear_arith);
    } else if r == 2 {
        assert(pow24(18877) * 4 <= pow24(20000) <= pow24(18879) * 4) by (nonlinear_arith);
    } else if r == 3 {
        assert(pow24(18339) * 8 <= pow24(20000) <= pow24(18341) * 8) by (nonlinear_arith);
    } else if r == 4 {
        assert(pow24(17817) * 16 <= pow24(20000) <= pow24(17819) * 16) by (nonlinear_arith);
    } else if r == 5 {
        assert(pow24(17309) * 32 <= pow24(20000) <= pow24(17311) * 32) by (nonlinear_arith);
    } else if r == 6 {
        assert(pow24(16817) * 64 <= pow24(20000) <= pow24(16819) * 64) by (nonlinear_arith);
    } else if r == 7 {
        assert(pow24(16339) * 128 <= pow24(20000) <= pow24(16341) * 128) by (nonlinear_arith);
    } else if r == 8 {
        assert(pow24(15873) * 256 <= pow24(20000) <= pow24(15875) * 256) by (nonlinear_arith);
    } else if r == 9 {
        assert(pow24(15421) * 512 <= pow24(20000) <= pow24(15423) * 512) by (nonlinear_arith);
    } else if r == 10 {
        assert(pow24(14983) * 1024 <= pow24(20000) <= pow24(14985) * 1024) by (nonlinear_arith);
    } else if r == 11 {
        assert(pow24(14555) * 2048 <= pow24(20000) <= pow24(14557) * 2048) by (nonlinear_arith);
    } else if r == 12 {
        assert(pow24(14141) * 4096 <= pow24(20000) <= pow24(14143) * 4096) by (nonlinear_arith);
    } else if r == 13 {
        assert(pow24(13739) * 8192 <= pow24(20000) <= pow24(13741) * 8192) by (nonlinear_arith);
    } else if r == 14 {
        assert(pow24(13347) * 16384 <= pow24(20000) <= pow24(13349) * 16384) by (nonlinear_arith);
    } else if r == 15 {
        assert(pow24(12967) * 32768 <= pow24(20000) <= pow24(12969) * 32768) by (nonlinear_arith);
    } else if r == 16 {
        assert(pow24(12599) * 65536 <= pow24(20000) <= pow24(12601) * 65536) by (nonlinear_arith);
    } else if r == 17 {
        assert(pow24(12239) * 131072 <= pow24(20000) <= pow24(12241) * 131072) by (nonlinear_arith);
    } else if r == 18 {
        assert(pow24(11891) * 262144 <= pow24(20000) <= pow24(11893) * 262144) by (nonlinear_arith);
    } else if r == 19 {
        assert(pow24(11553) * 524288 <= pow24(20000) <= pow24(11555) * 524288) by (nonlinear_arith);
    } else if r == 20 {
        assert(pow24(11223) * 1048576 <= pow24(20000) <= pow24(11225) * 1048576) by (nonlinear_arith);
    } else if r == 21 {
        assert(pow24(10905) * 2097152 <= pow24(20000) <= pow24(10907) * 2097152) by (nonlinear_arith);
    } else if r == 22 {
        assert(pow24(10593) * 4194304 <= pow24(20000) <= pow24(10595) * 4194304) by (nonlinear_arith);
    } else {
        assert(pow24(10293) * 8388608 <= pow24(20000) <= pow24(10295) * 8388608) by (nonlinear_arith);
    }
}

/// `x` halved (rounding down) `k` times.
pub open spec fn halved(x: nat, k: nat) -> nat
    decreases k,
{
    if k == 0 {
        x
    } else {
        halved(x, (k - 1) as nat) / 2
    }
}

/// Exponential decay with a half-life of 24 hours, in ten-thousandths:
/// `2^(-hours/24)`, each full day halving the value.
pub open spec fn decay_after(hours: nat) -> nat {
    halved(hour_decay((hours % 24) as int) as nat, hours / 24)
}

/// The lowest freshness any artifact receives (0.05).
pub const FRESHNESS_FLOOR: u32 = 500;

/// Freshness for an artifact the given number of whole hours away from the
/// interest window: the decay, floored at 0.05.
pub open spec fn freshness_for_hours(hours: nat) -> u32 {
    if decay_after(hours) < FRESHNESS_FLOOR {
        FRESHNESS_FLOOR
    } else {
        decay_after(hours) as u32
    }
}

/// Whole hours from the acquisition to the nearest edge of the interest
/// window (meaningful when the acquisition lies outside it).
pub open spec fn hours_outside_window(
    acquisition: UtcInstant,
    start: UtcInstant,
    end: UtcInstant,
) -> nat {
    if acquisition.earlier_than(start) {
        acquisition.whole_hours_until(start) as nat
    } else {
        end.whole_hours_until(acquisition) as nat
    }
}

/// Artifact freshness: 1.0 inside the interest window (both ends included),
/// otherwise the decay over the distance to the nearest edge.
pub open spec fn freshness_of(acquisition: UtcInstant, start: UtcInstant, end: UtcInstant) -> u32 {
    if start.no_later_than(acquisition) && acquisition.no_later_than(end) {
        10000
    } else {
        freshness_for_hours(hours_outside_window(acquisition, start, end))
    }
}

/// The four factors of an input.
pub open spec fn factors_of(input: ScoringInput) -> FactorBreakdown {
    FactorBreakdown {
        source_reliability: input.primary_artifact_class.reliability(),
        temporal_consistency: consistency_of(secs_of(input.source_timestamps@)),
        corroboration: corroboration_for(input.corroboration_count as int),
        freshness: freshness_of(
            input.acquisition_time,
            input.interest_window_start,
            input.interest_window_end,
        ),
    }
}

/// The weighted sum of the factors, in ten-thousandths (rounded down).
pub open spec fn weighted_sum(f: FactorBreakdown) -> int {
    (f.source_reliability * WEIGHT_SOURCE_RELIABILITY + f.temporal_consistency
        * WEIGHT_TEMPORAL_CONSISTENCY + f.corroboration * WEIGHT_CORROBORATION + f.freshness
        * WEIGHT_FRESHNESS) / SCORE_SCALE as int
}

/// The final score: with contradictions, the raw sum less the penalty (not
/// below 0), capped at 0.50; without, the raw sum capped at 1.0.
pub open spec fn final_score(raw: int, contradicted: bool) -> int {
    if contradicted {
        let penalized = if raw - CONTRADICTION_PENALTY < 0 {
            0
        } else {
            raw - CONTRADICTION_PENALTY
        };
        if penalized > CONTRADICTION_MAX_CONFIDENCE {
            CONTRADICTION_MAX_CONFIDENCE as int
        } else {
            penalized
        }
    } else if raw > SCORE_SCALE {
        SCORE_SCALE as int
    } else {
        raw
    }
}

/// The classification of a final score: contradicted findings below 0.50
/// are `Contradicted`; everything else is classified by its score.
pub open spec fn classification_of(score: u32, contradicted: bool) -> ConfidenceClassification {
    if contradicted && score < 5000 {
        ConfidenceClassification::Contradicted
    } else {
        classify(score)
    }
}

/// The score of an input: what every call of `ScoringEngine::compute` gives.
pub open spec fn score_of(input: ScoringInput) -> u32 {
    final_score(weighted_sum(factors_of(input)), input.has_contradictions) as u32
}

/// Deterministic confidence scoring engine.
pub struct ScoringEngine;

impl ScoringEngine {
    /// Compute a confidence score from the given inputs.
    ///
    /// The result depends on the inputs alone (apart from the fresh
    /// identifier and the computation instant).
    pub fn compute(input: &ScoringInput) -> (score: ConfidenceScore)
        ensures
            score.factors == factors_of(*input),
            score.raw_weighted_sum == weighted_sum(score.factors),
            score.score == score_of(*input),
            score.score == final_score(score.raw_weighted_sum as int, input.has_contradictions),
            score.score <= SCORE_SCALE,
            input.has_contradictions ==> score.score <= CONTRADICTION_MAX_CONFIDENCE,
            score.contradiction_applied == input.has_contradictions,
            score.classification == classification_of(score.score, input.has_contradictions),
            score.raw_weighted_sum as int == (score.factors.source_reliability
                * WEIGHT_SOURCE_RELIABILITY + score.factors.temporal_consistency
                * WEIGHT_TEMPORAL_CONSISTENCY + score.factors.corroboration * WEIGHT_CORROBORATION
                + score.factors.freshness * WEIGHT_FRESHNESS) / SCORE_SCALE as int,
            !input.has_contradictions ==> score.classification == classify(score.score),
            score.classification == ConfidenceClassification::Contradicted <==> (
            input.has_contradictions && score.score < 5000),
            score.model_version@ == MODEL_VERSION@,
            is_random_uuid(score.id.0),
    {
        let source_reliability = Self::compute_source_reliability(input.primary_artifact_class);
        let temporal_consistency = Self::compute_temporal_consistency(&input.source_timestamps);
        let corroboration = Self::compute_corroboration(input.corroboration_count);
        let freshness = Self::compute_freshness(
            input.acquisition_time,
            input.interest_window_start,
            input.interest_window_end,
        );
        let factors = FactorBreakdown {
            source_reliability,
            temporal_consistency,
            corroboration,
            freshness,
        };
        let w_source: u64 = source_reliability as u64 * 3000;
        let w_temporal: u64 = temporal_consistency as u64 * 2500;
        let w_corroboration: u64 = corroboration as u64 * 3000;
        let w_freshness: u64 = freshness as u64 * 1500;
        let weighted: u64 = w_source + w_temporal + w_corroboration + w_freshness;
        assert(weighted <= 100_000_000);
        let raw_weighted_sum = (weighted / 10000) as u32;
        assert(raw_weighted_sum <= SCORE_SCALE);
        assert(raw_weighted_sum == weighted_sum(factors));
        // Apply contradiction penalty
        let (final_score, contradiction_applied) = if input.has_contradictions {
            let penalized = if raw_weighted_sum >= CONTRADICTION_PENALTY {
                raw_weighted_sum - CONTRADICTION_PENALTY
            } else {
                0
            };
            let capped = if penalized > CONTRADICTION_MAX_CONFIDENCE {
                CONTRADICTION_MAX_CONFIDENCE
            } else {
                penalized
            };
            (capped, true)
        } else {
            let capped = if raw_weighted_sum > SCORE_SCALE {
                SCORE_SCALE
            } else {
                raw_weighted_sum
            };
            (capped, false)
        };
        let classification = if input.has_contradictions && final_score < 5000 {
            ConfidenceClassification::Contradicted
        } else {
            ConfidenceClassification::from_score(final_score)
        };
        ConfidenceScore {
            id: ScoreId::new(),
            model_version: MODEL_VERSION.to_owned(),
            score: final_score,
            classification,
            factors,
            contradiction_applied,
            raw_weighted_sum,
            computed_at: utc_now(),
        }
    }

    /// Apply an examiner override to an existing score. The adjusted score
    /// (in ten-thousandths) is clamped to `[0, SCORE_SCALE]`; everything but
    /// the identifier, score, classification and instant is carried over.
    pub fn apply_override(
        original: &ConfidenceScore,
        adjusted_score: i64,
        justification: &str,
        examiner_name: &str,
    ) -> (res: (ConfidenceScore, ExaminerOverride))
        ensures
            res.1.original_score == original.score,
            res.1.adjusted_score == (if adjusted_score < 0 {
                0
            } else if adjusted_score > SCORE_SCALE {
                SCORE_SCALE as i64
            } else {
                adjusted_score
            }),
            res.1.justification@ == justification@,
            res.1.examiner_name@ == examiner_name@,
            res.0.score == res.1.adjusted_score,
            res.0.classification == classify(res.0.score),
            res.0.model_version@ == original.model_version@,
            res.0.factors == original.factors,
            res.0.contradiction_applied == original.contradiction_applied,
            res.0.raw_weighted_sum == original.raw_weighted_sum,
            is_random_uuid(res.0.id.0),
    {
        let clamped: u32 = if adjusted_score < 0 {
            0
        } else if adjusted_score > SCORE_SCALE as i64 {
            SCORE_SCALE
        } else {
            adjusted_score as u32
        };
        let override_record = ExaminerOverride {
            original_score: original.score,
            adjusted_score: clamped,
            justification: justification.to_owned(),
            examiner_name: examiner_name.to_owned(),
            applied_at: utc_now(),
        };
        let new_score = ConfidenceScore {
            id: ScoreId::new(),
            model_version: original.model_version.clone(),
            score: clamped,
            classification: ConfidenceClassification::from_score(clamped),
            factors: original.factors,
            contradiction_applied: original.contradiction_applied,
            raw_weighted_sum: original.raw_weighted_sum,
            computed_at: utc_now(),
        };
        (new_score, override_record)
    }

    // ── Factor Computations ─────────────────────────────────────────────

    /// Source reliability: baseline reliability from the artifact class taxonomy.
    pub fn compute_source_reliability(class: ArtifactClass) -> (r: u32)
        ensures
            r == class.reliability(),
            r <= SCORE_SCALE,
    {
        class.baseline_reliability()
    }

    /// Temporal consistency: how well timestamps agree across sources,
    /// `1 - min(sd / 300 s, 1)` (0.5 for fewer than two timestamps).
    pub fn compute_temporal_consistency(timestamps: &Vec<UtcInstant>) -> (c: u32)
        ensures
            c == consistency_of(secs_of(timestamps@)),
            c <= SCORE_SCALE,
    {
        temporal_consistency(timestamps)
    }

    /// Corroboration: logarithmic curve based on independent source count.
    pub fn compute_corroboration(source_count: usize) -> (c: u32)
        ensures
            c == corroboration_for(source_count as int),
            c <= SCORE_SCALE,
    {
        match source_count {
            0 => 1000,
            1 => 4000,
            2 => 6500,
            3 => 8000,
            4 => 9000,
            _ => 9500,
        }
    }

    /// Artifact freshness: exponential decay (half-life 24 hours, floor
    /// 0.05) with the whole hours between the acquisition and the interest
    /// window; 1.0 inside the window.
    pub fn compute_freshness(
        acquisition_time: UtcInstant,
        window_start: UtcInstant,
        window_end: UtcInstant,
    ) -> (f: u32)
        ensures
            f == freshness_of(acquisition_time, window_start, window_end),
            FRESHNESS_FLOOR <= f <= SCORE_SCALE,
            acquisition_time.earlier_than(window_start) ==> f == freshness_for_hours(
                acquisition_time.whole_hours_until(window_start) as nat,
            ),
            window_start.no_later_than(window_end) && window_end.earlier_than(acquisition_time)
                ==> f == freshness_for_hours(
                window_end.whole_hours_until(acquisition_time) as nat,
            ),
    {
        // If acquisition is within the interest window, freshness is 1.0
        if window_start.is_at_or_before(&acquisition_time) && acquisition_time.is_at_or_before(
            &window_end,
        ) {
            return 10000;
        }
        // Distance from nearest edge of the interest window
        let distance = if acquisition_time.is_before(&window_start) {
            acquisition_time.hours_until(&window_start)
        } else {
            window_end.hours_until(&acquisition_time)
        };
        freshness_after_hours(distance)
    }
}

fn hour_decay_value(r: u64) -> (d: u32)
    requires
        r < 24,
    ensures
        d == hour_decay(r as int),
{
    if r == 0 {
        10000
    } else if r == 1 {
        9715
    } else if r == 2 {
        9439
    } else if r == 3 {
        9170
    } else if r == 4 {
        8909
    } else if r == 5 {
        8655
    } else if r == 6 {
        8409
    } else if r == 7 {
        8170
    } else if r == 8 {
        7937
    } else if r == 9 {
        7711
    } else if r == 10 {
        7492
    } else if r == 11 {
        7278
    } else if r == 12 {
        7071
    } else if r == 13 {
        6870
    } else if r == 14 {
        6674
    } else if r == 15 {
        6484
    } else if r == 16 {
        6300
    } else if r == 17 {
        6120
    } else if r == 18 {
        5946
    } else if r == 19 {
        5777
    } else if r == 20 {
        5612
    } else if r == 21 {
        5453
    } else if r == 22 {
        5297
    } else {
        5147
    }
}

/// Halving more often never gives more.
pub proof fn lemma_halved_antitone(x: nat, j: nat, k: nat)
    requires
        j <= k,
    ensures
        halved(x, k) <= halved(x, j),
    decreases k - j,
{
    if j < k {
        lemma_halved_antitone(x, j, (k - 1) as nat);
    }
}

/// Halving keeps the order of the values halved.
pub proof fn lemma_halved_monotone(x: nat, y: nat, k: nat)
    requires
        x <= y,
    ensures
        halved(x, k) <= halved(y, k),
    decreases k,
{
    if k > 0 {
        lemma_halved_monotone(x, y, (k - 1) as nat);
    }
}

/// Freshness for an artifact `hours` whole hours from the interest window.
fn freshness_after_hours(hours: u64) -> (f: u32)
    ensures
        f == freshness_for_hours(hours as nat),
        FRESHNESS_FLOOR <= f <= SCORE_SCALE,
{
    let days = hours / 24;
    let r = hours % 24;
    let mut value: u32 = hour_decay_value(r);
    let mut k: u64 = 0;
    while k < days && value >= FRESHNESS_FLOOR
        invariant
            k <= days,
            days == hours / 24,
            r == hours % 24,
            value == halved(hour_decay(r as int) as nat, k as nat),
            value <= 10000,
        decreases days - k,
    {
        value = value / 2;
        k = k + 1;
    }
    proof {
        lemma_halved_antitone(hour_decay(r as int) as nat, k as nat, days as nat);
    }
    if value < FRESHNESS_FLOOR {
        FRESHNESS_FLOOR
    } else {
        value
    }
}

/// Tracks historical score versions when a finding is re-scored.
#[derive(Debug, Clone)]
pub struct ScoreHistory {
    /// All versions of the score, newest first.
    pub versions: Vec<ConfidenceScore>,
}

impl ScoreHistory {
    /// A history holding just the initial score.
    pub fn new(initial: ConfidenceScore) -> (h: Self)
        ensures
            h.versions@ == seq![initial],
    {
        let mut versions = Vec::new();
        versions.push(initial);
        ScoreHistory { versions }
    }

    /// Add a new score version (e.g., after examiner override or new evidence):
    /// it becomes the newest, in front of all earlier versions.
    pub fn add_version(&mut self, score: ConfidenceScore)
        ensures
            final(self).versions@ == seq![score] + old(self).versions@,
    {
        self.versions.insert(0, score);
        assert(self.versions@ =~= seq![score] + old(self).versions@);
    }

    /// Get the current (latest) score.
    pub fn current(&self) -> (c: Option<&ConfidenceScore>)
        ensures
            c == (if self.versions@.len() > 0 {
                Some(&self.versions@[0])
            } else {
                None
            }),
    {
        if self.versions.len() > 0 {
            Some(&self.versions[0])
        } else {
            None
        }
    }

    /// How many score versions the history holds.
    pub fn revision_count(&self) -> (n: usize)
        ensures
            n == self.versions@.len(),
    {
        self.versions.len()
    }
}

/// Adding a version to a history makes it the current score, counts one
/// more revision, and keeps every earlier version, in order, behind it.
pub proof fn lemma_added_version_is_current(versions: Seq<ConfidenceScore>, score: ConfidenceScore)
    ensures
        (seq![score] + versions)[0] == score,
        (seq![score] + versions).len() == versions.len() + 1,
        (seq![score] + versions).subrange(1, versions.len() + 1 as int) == versions,
{
    assert((seq![score] + versions).subrange(1, versions.len() + 1 as int) =~= versions);
}

// ── Laws of the model ────────────────────────────────────────────────────

/// Identical inputs give identical factors and scores: the score depends
/// on the inputs' values alone.
pub proof fn lemma_score_deterministic(a: ScoringInput, b: ScoringInput)
    requires
        a.primary_artifact_class == b.primary_artifact_class,
        a.corroboration_count == b.corroboration_count,
        a.source_timestamps@ == b.source_timestamps@,
        a.acquisition_time == b.acquisition_time,
        a.interest_window_start == b.interest_window_start,
        a.interest_window_end == b.interest_window_end,
        a.has_contradictions == b.has_contradictions,
    ensures
        factors_of(a) == factors_of(b),
        score_of(a) == score_of(b),
        classification_of(score_of(a), a.has_contradictions) == classification_of(
            score_of(b),
            b.has_contradictions,
        ),
{
}

/// More corroborating sources never give a lower corroboration factor;
/// up to five sources, each additional one raises it.
pub proof fn lemma_corroboration_monotone(fewer: int, more: int)
    requires
        0 <= fewer <= more,
    ensures
        corroboration_for(fewer) <= corroboration_for(more),
        fewer < more && fewer < 5 ==> corroboration_for(fewer) < corroboration_for(more),
{
}

/// Two inputs that differ only in their corroboration count.
pub open spec fn differ_only_in_corroboration(a: ScoringInput, b: ScoringInput) -> bool {
    &&& a.primary_artifact_class == b.primary_artifact_class
    &&& a.source_timestamps@ == b.source_timestamps@
    &&& a.acquisition_time == b.acquisition_time
    &&& a.interest_window_start == b.interest_window_start
    &&& a.interest_window_end == b.interest_window_end
    &&& a.has_contradictions == b.has_contradictions
}

/// The factors of every input lie in `[0, 1]`, and the reliability never
/// drops below that of an unknown artifact (0.30).
pub proof fn lemma_factors_in_range(input: ScoringInput)
    ensures
        3000 <= factors_of(input).source_reliability <= SCORE_SCALE,
        factors_of(input).temporal_consistency <= SCORE_SCALE,
        factors_of(input).corroboration <= SCORE_SCALE,
        FRESHNESS_FLOOR <= factors_of(input).freshness <= SCORE_SCALE,
        0 < weighted_sum(factors_of(input)) <= SCORE_SCALE,
{
    lemma_consistency_in_range(secs_of(input.source_timestamps@));
    lemma_freshness_in_range(input.acquisition_time, input.interest_window_start, input.interest_window_end);
}

/// Consistency lies in `[0, 1]`.
pub proof fn lemma_consistency_in_range(xs: Seq<int>)
    ensures
        consistency_of(xs) <= SCORE_SCALE,
{
    crate::stats::lemma_normalized_deviation_exists(xs);
}

/// Freshness lies in `[0.05, 1]`.
pub proof fn lemma_freshness_in_range(acquisition: UtcInstant, start: UtcInstant, end: UtcInstant)
    ensures
        FRESHNESS_FLOOR <= freshness_of(acquisition, start, end) <= SCORE_SCALE,
{
    let h = hours_outside_window(acquisition, start, end);
    lemma_halved_monotone(hour_decay((h % 24) as int) as nat, 10000, h / 24);
    lemma_halved_antitone(10000, 0, h / 24);
}

/// More corroborating sources, everything else equal, never lower the
/// score; without contradictions, up to five sources, each additional
/// source raises it.
pub proof fn lemma_more_sources_higher_score(fewer: ScoringInput, more: ScoringInput)
    requires
        differ_only_in_corroboration(fewer, more),
        fewer.corroboration_count <= more.corroboration_count,
    ensures
        score_of(fewer) <= score_of(more),
        !fewer.has_contradictions && fewer.corroboration_count < more.corroboration_count
            && fewer.corroboration_count < 5 ==> score_of(fewer) < score_of(more),
{
    lemma_corroboration_monotone(fewer.corroboration_count as int, more.corroboration_count as int);
    lemma_factors_in_range(fewer);
    lemma_factors_in_range(more);
}

/// Two inputs that differ only in whether contradictions are present.
pub open spec fn differ_only_in_contradictions(a: ScoringInput, b: ScoringInput) -> bool {
    &&& a.primary_artifact_class == b.primary_artifact_class
    &&& a.corroboration_count == b.corroboration_count
    &&& a.source_timestamps@ == b.source_timestamps@
    &&& a.acquisition_time == b.acquisition_time
    &&& a.interest_window_start == b.interest_window_start
    &&& a.interest_window_end == b.interest_window_end
}

/// A contradiction always lowers the score, caps it at 0.50, and when the
/// penalized score falls below 0.50 the finding is classified `Contradicted`.
pub proof fn lemma_contradiction_penalizes(clean: ScoringInput, contradicted: ScoringInput)
    requires
        differ_only_in_contradictions(clean, contradicted),
        !clean.has_contradictions,
        contradicted.has_contradictions,
    ensures
        score_of(contradicted) < score_of(clean),
        score_of(contradicted) <= CONTRADICTION_MAX_CONFIDENCE,
        score_of(contradicted) < 5000 ==> classification_of(score_of(contradicted), true)
            == ConfidenceClassification::Contradicted,
{
    lemma_factors_in_range(clean);
}

proof fn lemma_halved_of_half(x: nat, k: nat)
    ensures
        halved(x, k + 1) == halved(x / 2, k),
    decreases k,
{
    if k == 0 {
        assert(halved(x, 1) == halved(x, 0) / 2);
    } else {
        lemma_halved_of_half(x, (k - 1) as nat);
        assert(halved(x, k + 1) == halved(x, k) / 2);
        assert(halved(x / 2, k) == halved(x / 2, (k - 1) as nat) / 2);
    }
}

/// One more hour away from the interest window never gives more freshness.
proof fn lemma_decay_step(h: nat)
    ensures
        decay_after(h + 1) <= decay_after(h),
        decay_after(h) <= 10000,
        decay_after(h + 1) <= 10000,
{
    let q = h / 24;
    let r = h % 24;
    lemma_halved_antitone(hour_decay(r as int) as nat, 0, q);
    if r < 23 {
        assert((h + 1) / 24 == q && (h + 1) % 24 == r + 1);
        lemma_halved_monotone(hour_decay((r + 1) as int) as nat, hour_decay(r as int) as nat, q);
    } else {
        assert((h + 1) / 24 == q + 1 && (h + 1) % 24 == 0);
        lemma_halved_of_half(10000, q);
        lemma_halved_monotone(5000, hour_decay(r as int) as nat, q);
    }
}

/// Freshness decays with age: the farther from the interest window, the
/// lower (or equal) the freshness.
pub proof fn lemma_freshness_decays_with_age(nearer: nat, farther: nat)
    requires
        nearer <= farther,
    ensures
        freshness_for_hours(farther) <= freshness_for_hours(nearer),
    decreases farther - nearer,
{
    if nearer < farther {
        lemma_decay_step((farther - 1) as nat);
        lemma_freshness_decays_with_age(nearer, (farther - 1) as nat);
    }
}

/// The raw weighted sum is the four factors weighted 0.30, 0.25, 0.30 and
/// 0.15, in ten-thousandths rounded down: every factor, freshness included,
/// counts with its own value.
pub proof fn lemma_weighted_sum_weighs_every_factor(input: ScoringInput)
    ensures
        ({
            let f = factors_of(input);
            let exact = f.source_reliability * 3000 + f.temporal_consistency * 2500
                + f.corroboration * 3000 + f.freshness * 1500;
            &&& weighted_sum(f) * 10000 <= exact
            &&& exact < (weighted_sum(f) + 1) * 10000
        }),
{
}

/// Two inputs that differ only in when the artifact was acquired and in the
/// interest window.
pub open spec fn differ_only_in_timing(a: ScoringInput, b: ScoringInput) -> bool {
    &&& a.primary_artifact_class == b.primary_artifact_class
    &&& a.corroboration_count == b.corroboration_count
    &&& a.source_timestamps@ == b.source_timestamps@
    &&& a.has_contradictions == b.has_contradictions
}

/// Freshness moves the raw sum by its weight: between two inputs that differ
/// only in timing, the raw sums differ by 0.15 times the difference of the
/// freshness factors, up to the rounding of each sum; so a freshness lower
/// by at least 1/0.15 ten-thousandths gives a strictly lower raw sum.
pub proof fn lemma_freshness_moves_raw_sum(a: ScoringInput, b: ScoringInput)
    requires
        differ_only_in_timing(a, b),
    ensures
        ({
            let fa = factors_of(a).freshness as int;
            let fb = factors_of(b).freshness as int;
            let da = weighted_sum(factors_of(a));
            let db = weighted_sum(factors_of(b));
            &&& 1500 * (fb - fa) - 10000 < (db - da) * 10000 < 1500 * (fb - fa) + 10000
            &&& 1500 * (fb - fa) >= 10000 ==> da < db
        }),
{
    lemma_weighted_sum_weighs_every_factor(a);
    lemma_weighted_sum_weighs_every_factor(b);
}

/// A finding is classified `Contradicted` exactly when it has contradictions
/// and its final score is below 0.50; every other finding gets the band of
/// its score: 0.95 and above Definitive, 0.80 and above High, 0.50 and above
/// Moderate, below that Low.
pub proof fn lemma_classification_of_score(score: u32, contradicted: bool)
    ensures
        classification_of(score, contradicted) == ConfidenceClassification::Contradicted <==> (
        contradicted && score < 5000),
        classification_of(score, contradicted) == ConfidenceClassification::Definitive <==> score
            >= 9500,
        classification_of(score, contradicted) == ConfidenceClassification::High <==> (8000
            <= score && score < 9500),
        classification_of(score, contradicted) == ConfidenceClassification::Moderate <==> (5000
            <= score && score < 8000),
        classification_of(score, contradicted) == ConfidenceClassification::Low <==> (!contradicted
            && score < 5000),
{
}

/// An acquisition at least one whole hour from the interest window is never
/// fully fresh, and within a day of it keeps more than half its freshness.
pub proof fn lemma_freshness_for_hours_bounds(h: nat)
    ensures
        h >= 1 ==> freshness_for_hours(h) < 10000,
        h < 24 ==> freshness_for_hours(h) > 5000,
        h == 0 ==> freshness_for_hours(h) == 10000,
{
    let q = h / 24;
    let r = h % 24;
    if q >= 1 {
        lemma_halved_antitone(hour_decay(r as int) as nat, 1, q);
        assert(halved(hour_decay(r as int) as nat, 1) == halved(hour_decay(r as int) as nat, 0) / 2);
    }
}

/// An artifact acquired before the interest window has the freshness of the
/// whole hours from its acquisition to the start of the window: never full
/// once that is an hour or more, more than half within a day.
pub proof fn lemma_freshness_before_window(acquisition: UtcInstant, start: UtcInstant, end: UtcInstant)
    requires
        acquisition.earlier_than(start),
    ensures
        freshness_of(acquisition, start, end) == freshness_for_hours(
            acquisition.whole_hours_until(start) as nat,
        ),
        acquisition.whole_hours_until(start) >= 1 ==> freshness_of(acquisition, start, end)
            < 10000,
        acquisition.whole_hours_until(start) < 24 ==> freshness_of(acquisition, start, end) > 5000,
{
    lemma_freshness_for_hours_bounds(acquisition.whole_hours_until(start) as nat);
}

/// Freshness is symmetric about the interest window: an artifact acquired a
/// number of whole hours before the window is exactly as fresh as one
/// acquired the same number of whole hours after it.
pub proof fn lemma_freshness_symmetric(
    before: UtcInstant,
    after: UtcInstant,
    start: UtcInstant,
    end: UtcInstant,
)
    requires
        start.no_later_than(end),
        before.earlier_than(start),
        end.earlier_than(after),
        before.whole_hours_until(start) == end.whole_hours_until(after),
    ensures
        freshness_of(before, start, end) == freshness_of(after, start, end),
{
}

/// The corroboration curve of the Confidence Model v1.0: no source 0.10,
/// one 0.40, two 0.65, three 0.80, four 0.90, five or more 0.95.
pub proof fn lemma_corroboration_curve(count: int)
    requires
        count >= 0,
    ensures
        count == 0 ==> corroboration_for(count) == 1000,
        count == 1 ==> corroboration_for(count) == 4000,
        count == 2 ==> corroboration_for(count) == 6500,
        count == 3 ==> corroboration_for(count) == 8000,
        count == 4 ==> corroboration_for(count) == 9000,
        count >= 5 ==> corroboration_for(count) == 9500,
{
}

/// The final score of a raw sum `raw` in `[0, 1]`: unchanged without
/// contradictions; with them, lowered by 0.40 (not below 0) and capped at 0.50.
pub proof fn lemma_final_score_penalty(raw: int, contradicted: bool)
    requires
        0 <= raw <= 10000,
    ensures
        !contradicted ==> final_score(raw, contradicted) == raw,
        contradicted && raw <= 4000 ==> final_score(raw, contradicted) == 0,
        contradicted && 4000 <= raw <= 9000 ==> final_score(raw, contradicted) == raw - 4000,
        contradicted && raw >= 9000 ==> final_score(raw, contradicted) == 5000,
{
}

/// Inside the interest window (both ends included) an artifact is fully fresh.
pub proof fn lemma_fresh_inside_window(acquisition: UtcInstant, start: UtcInstant, end: UtcInstant)
    requires
        start.no_later_than(acquisition),
        acquisition.no_later_than(end),
    ensures
        freshness_of(acquisition, start, end) == 10000,
{
}

/// Each further day away from the window halves the decay (rounding down),
/// and from five days on the freshness rests at its floor of 0.05.
pub proof fn lemma_decay_halves_each_day(h: nat)
    ensures
        decay_after(h + 24) == decay_after(h) / 2,
        h >= 120 ==> freshness_for_hours(h) == 500,
        freshness_for_hours(h) >= 500,
{
    assert((h + 24) / 24 == h / 24 + 1 && (h + 24) % 24 == h % 24);
    let x = hour_decay((h % 24) as int) as nat;
    assert(halved(x, h / 24 + 1) == halved(x, h / 24) / 2);
    lemma_decay_step(h);
    if h >= 120 {
        lemma_halved_antitone(x, 5, h / 24);
        lemma_halved_monotone(x, 10000, 5);
        assert(halved(10000, 5) == 312) by {
            reveal_with_fuel(halved, 6);
        }
    }
}

} // verus!
