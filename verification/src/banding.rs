//! Banding: total functions that map a score to one of a fixed set of
//! ordered qualitative tiers. Reused both for labelling the overall score of
//! a report and for bucketing many candidate destinations into discrete
//! difficulty tiers.
//!
//! Scores are fixed-point fractions of [`crate::report::SCORE_SCALE`]
//! (`10_000` stands for `1.0`).

use vstd::prelude::*;
use vstd::string::StringExecFns;

verus! {

/// The five-way difficulty tier of a score, as a ring index from 0
/// (easiest) to 4 (hardest).
pub open spec fn spec_score_to_ring(score: int) -> int {
    if score < 2000 {
        0
    } else if score < 4000 {
        1
    } else if score < 6000 {
        2
    } else if score < 8000 {
        3
    } else {
        4
    }
}

/// The name of the difficulty tier at a ring index.
pub open spec fn spec_ring_label(ring: int) -> Seq<char> {
    if ring == 0 {
        "Trivial"@
    } else if ring == 1 {
        "Easy"@
    } else if ring == 2 {
        "Moderate"@
    } else if ring == 3 {
        "Hard"@
    } else {
        "Extreme"@
    }
}

/// The difficulty-tier name of a score.
pub open spec fn spec_score_label(score: int) -> Seq<char> {
    if score < 2000 {
        "Trivial"@
    } else if score < 4000 {
        "Easy"@
    } else if score < 6000 {
        "Moderate"@
    } else if score < 8000 {
        "Hard"@
    } else {
        "Extreme"@
    }
}

/// The finer-grained per-dimension distance label of a score.
pub open spec fn spec_dim_label(score: int) -> Seq<char> {
    if score < 1500 {
        "Same"@
    } else if score < 3500 {
        "Similar"@
    } else if score < 6500 {
        "Different"@
    } else {
        "Very different"@
    }
}

/// The funding-dimension label of a score. A high score on that dimension
/// means worse funding, so the wording speaks of opportunities, not of
/// distance.
pub open spec fn spec_funding_label(score: int) -> Seq<char> {
    if score < 1500 {
        "Strong opportunities"@
    } else if score < 3500 {
        "Good opportunities"@
    } else if score < 6500 {
        "Moderate opportunities"@
    } else {
        "Limited opportunities"@
    }
}

/// Buckets a score into one of the five difficulty tiers, as a ring index
/// from 0 (easiest) to 4 (hardest).
pub fn score_to_ring(score: u32) -> (ring: usize)
    ensures
        ring == spec_score_to_ring(score as int),
{
    if score < 2000 {
        0
    } else if score < 4000 {
        1
    } else if score < 6000 {
        2
    } else if score < 8000 {
        3
    } else {
        4
    }
}

/// The difficulty-tier name of a score.
pub fn score_label(score: u32) -> (label: String)
    ensures
        label@ == spec_score_label(score as int),
{
    if score < 2000 {
        String::from_str("Trivial")
    } else if score < 4000 {
        String::from_str("Easy")
    } else if score < 6000 {
        String::from_str("Moderate")
    } else if score < 8000 {
        String::from_str("Hard")
    } else {
        String::from_str("Extreme")
    }
}

/// The finer-grained per-dimension distance label of a score.
pub fn dim_label(score: u32) -> (label: String)
    ensures
        label@ == spec_dim_label(score as int),
{
    if score < 1500 {
        String::from_str("Same")
    } else if score < 3500 {
        String::from_str("Similar")
    } else if score < 6500 {
        String::from_str("Different")
    } else {
        String::from_str("Very different")
    }
}

/// The funding-dimension label of a score.
pub fn funding_label(score: u32) -> (label: String)
    ensures
        label@ == spec_funding_label(score as int),
{
    if score < 1500 {
        String::from_str("Strong opportunities")
    } else if score < 3500 {
        String::from_str("Good opportunities")
    } else if score < 6500 {
        String::from_str("Moderate opportunities")
    } else {
        String::from_str("Limited opportunities")
    }
}

/// Banding is monotone: of two scores, the lower one never lands in a
/// harder tier.
pub proof fn lemma_banding_monotone(s1: int, s2: int)
    requires
        s1 <= s2,
    ensures
        spec_score_to_ring(s1) <= spec_score_to_ring(s2),
{
}

/// The overall-score label and the tier buckets agree: a score's label is
/// the name of its ring.
pub proof fn lemma_score_label_matches_ring(score: int)
    ensures
        spec_score_label(score) == spec_ring_label(spec_score_to_ring(score)),
{
}

} // verus!
