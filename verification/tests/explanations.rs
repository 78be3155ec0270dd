//! Tests of the explanation generator: which positives and challenges fire
//! on which thresholds, and the exact wording of each entry.

use migration_score::ecosystem::Ecosystem;
use migration_score::report::compute_migration;

fn base(id: &str) -> Ecosystem {
    Ecosystem {
        id: id.to_string(),
        name: id.to_string(),
        short: id.to_string(),
        languages: vec!["Solidity".to_string()],
        vm: "EVM".to_string(),
        transaction_model: "account".to_string(),
        evm_compatibility: "native".to_string(),
        deployment_options: vec!["contract".to_string()],
        chain_layer: "L1".to_string(),
        l2_maturity: 3,
        consensus: "PoS".to_string(),
        tooling_maturity: 3,
        tooling: vec![],
        doc_quality: 3,
        ecosystem_funding: 3,
        deploy_modes: None,
    }
}

#[test]
fn positives_for_identical_paradigms() {
    let src = base("a");
    let mut dst = base("b");
    dst.tooling_maturity = 5;
    dst.doc_quality = 4;
    dst.ecosystem_funding = 4;
    let report = compute_migration(&src, &dst, None, None);
    assert_eq!(
        report.positives,
        vec![
            "Same language (Solidity) — existing code may port directly".to_string(),
            "Same VM (EVM) — runtime behavior is identical".to_string(),
            "Both EVM-native — tooling, libraries, and patterns transfer directly".to_string(),
            "Same transaction model — no paradigm shift required".to_string(),
            "Same deployment model — no infrastructure changes needed".to_string(),
            "Excellent destination tooling (5/5)".to_string(),
            "Strong destination documentation (4/5)".to_string(),
            "Well-funded destination ecosystem (4/5) — grants and support available".to_string(),
        ]
    );
    assert_eq!(report.challenges, Vec::<String>::new());
}

#[test]
fn shared_language_list_is_joined_with_commas() {
    let mut src = base("a");
    src.languages = vec!["Solidity".to_string(), "Vyper".to_string()];
    let mut dst = base("b");
    dst.languages = vec!["Vyper".to_string()];
    let report = compute_migration(&src, &dst, None, None);
    assert_eq!(
        report.positives[0],
        "Same language (Solidity, Vyper) — existing code may port directly"
    );
}

#[test]
fn related_family_fires_positive_and_challenge() {
    let src = base("a");
    let mut dst = base("b");
    dst.languages = vec!["Vyper".to_string()];
    let report = compute_migration(&src, &dst, None, None);
    assert!(report
        .positives
        .iter()
        .any(|p| p == "Related language family — developer skills transfer well"));
    assert!(report
        .challenges
        .iter()
        .any(|c| c == "Related but distinct languages: Solidity → Vyper"));
}

#[test]
fn completely_different_languages_challenge() {
    let src = base("a");
    let mut dst = base("b");
    dst.languages = vec!["Rust".to_string(), "Go".to_string()];
    let report = compute_migration(&src, &dst, None, None);
    assert!(report
        .challenges
        .iter()
        .any(|c| c == "Completely different languages: Solidity → Rust, Go"));
}

#[test]
fn vm_and_transaction_model_challenges() {
    let src = base("a");
    let mut dst = base("b");
    dst.vm = "Plutus VM (UPLC)".to_string();
    dst.transaction_model = "eUTXO".to_string();
    let report = compute_migration(&src, &dst, None, None);
    assert!(report
        .challenges
        .iter()
        .any(|c| c == "Different VM architecture: EVM → Plutus VM (UPLC)"));
    assert!(report
        .challenges
        .iter()
        .any(|c| c == "Different transaction model: account → eUTXO"));
}

#[test]
fn leaving_and_entering_the_evm_world() {
    let evm_side = base("a");
    let mut other_side = base("b");
    other_side.evm_compatibility = "none".to_string();
    let leaving = compute_migration(&evm_side, &other_side, None, None);
    assert!(leaving
        .challenges
        .iter()
        .any(|c| c == "Leaving the EVM ecosystem — existing tooling won't transfer"));
    let entering = compute_migration(&other_side, &evm_side, None, None);
    assert!(entering
        .challenges
        .iter()
        .any(|c| c == "Entering the EVM ecosystem — different paradigm from source"));
}

#[test]
fn deployment_options_are_joined_with_slashes() {
    let mut src = base("a");
    src.deployment_options = vec!["contract".to_string(), "rollup".to_string()];
    let mut dst = base("b");
    dst.deployment_options = vec!["appchain".to_string()];
    let report = compute_migration(&src, &dst, None, None);
    assert!(report
        .challenges
        .iter()
        .any(|c| c == "Different deployment model: contract/rollup → appchain"));
}

#[test]
fn weak_destination_quality_challenges() {
    let mut src = base("a");
    src.l2_maturity = 5;
    let mut dst = base("b");
    dst.tooling_maturity = 1;
    dst.doc_quality = 2;
    dst.l2_maturity = 2;
    dst.ecosystem_funding = 2;
    let report = compute_migration(&src, &dst, None, None);
    assert_eq!(
        report.challenges,
        vec![
            "Destination tooling is immature (1/5)".to_string(),
            "Destination documentation is limited (2/5)".to_string(),
            "Significant L2/rollup ecosystem gap".to_string(),
            "Limited ecosystem funding (2/5) — fewer grants and support programs".to_string(),
        ]
    );
}

#[test]
fn middle_ratings_fire_no_quality_entries() {
    let src = base("a");
    let dst = base("b");
    let report = compute_migration(&src, &dst, None, None);
    // Ratings of 3 give distance 5000: below every challenge threshold for
    // the quality dimensions and above every positive one.
    assert_eq!(report.challenges, Vec::<String>::new());
    assert_eq!(
        report.positives,
        vec![
            "Same language (Solidity) — existing code may port directly".to_string(),
            "Same VM (EVM) — runtime behavior is identical".to_string(),
            "Both EVM-native — tooling, libraries, and patterns transfer directly".to_string(),
            "Same transaction model — no paradigm shift required".to_string(),
            "Same deployment model — no infrastructure changes needed".to_string(),
        ]
    );
}

#[test]
fn tooling_threshold_boundaries() {
    let src = base("a");
    let mut dst = base("b");
    dst.tooling_maturity = 4;
    // Rating 4 gives distance 2500, exactly on the positive threshold.
    let report = compute_migration(&src, &dst, None, None);
    assert!(report.positives.iter().any(|p| p == "Excellent destination tooling (4/5)"));
    dst.tooling_maturity = 2;
    // Rating 2 gives distance 7500, above the challenge threshold.
    let report = compute_migration(&src, &dst, None, None);
    assert!(report.challenges.iter().any(|c| c == "Destination tooling is immature (2/5)"));
}
