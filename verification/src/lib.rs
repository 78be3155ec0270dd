//! Migration difficulty scoring for platform ecosystems.
//!
//! Given two platform entities (a migration source and a destination), the
//! engine measures how hard the move is along nine independent dimensions,
//! aggregates them through fixed weights into one overall score, bands
//! scores into qualitative tiers, and derives human-readable explanation
//! lists. The computation is pure: a report is a function of its four
//! inputs and nothing else.
//!
//! All scores are fixed-point fractions of [`report::SCORE_SCALE`]: the
//! value `10_000` stands for a full score of `1.0`.

pub mod banding;
pub mod classify;
pub mod distance;
pub mod ecosystem;
pub mod laws;
pub mod report;
pub mod text;

pub use banding::{dim_label, funding_label, score_label, score_to_ring};
pub use classify::{is_account_family, lang_family, vm_group};
pub use distance::{deploy_model_distance, dest_docs_difficulty, dest_funding_difficulty,
    dest_tooling_difficulty, effective_languages, evm_compat_distance, l2_gap, language_distance,
    transaction_model_distance, vm_distance};
pub use ecosystem::{DeployMode, Ecosystem};
pub use report::{compute_migration, DimensionScore, MigrationReport, SCORE_SCALE};
