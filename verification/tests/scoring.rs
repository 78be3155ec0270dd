//! End-to-end tests of the migration scoring engine: the dimension
//! distances, the weighted aggregate, the report structure, and the
//! documented scenarios.

use migration_score::ecosystem::{DeployMode, Ecosystem};
use migration_score::report::compute_migration;
use migration_score::distance::{deploy_model_distance, dest_docs_difficulty,
    dest_funding_difficulty, dest_tooling_difficulty, effective_languages, evm_compat_distance,
    l2_gap, language_distance, transaction_model_distance, vm_distance};

fn entity(
    id: &str,
    languages: &[&str],
    vm: &str,
    transaction_model: &str,
    evm_compatibility: &str,
    deployment_options: &[&str],
    l2_maturity: u8,
    tooling_maturity: u8,
    doc_quality: u8,
    ecosystem_funding: u8,
) -> Ecosystem {
    Ecosystem {
        id: id.to_string(),
        name: id.to_string(),
        short: id.to_string(),
        languages: languages.iter().map(|s| s.to_string()).collect(),
        vm: vm.to_string(),
        transaction_model: transaction_model.to_string(),
        evm_compatibility: evm_compatibility.to_string(),
        deployment_options: deployment_options.iter().map(|s| s.to_string()).collect(),
        chain_layer: "L1".to_string(),
        l2_maturity,
        consensus: "PoS".to_string(),
        tooling_maturity,
        tooling: vec![],
        doc_quality,
        ecosystem_funding,
        deploy_modes: None,
    }
}

fn evm_chain() -> Ecosystem {
    entity(
        "evm-chain",
        &["Solidity"],
        "EVM",
        "account",
        "native",
        &["contract"],
        5,
        5,
        5,
        5,
    )
}

#[test]
fn self_migration_zeroes_symmetric_dimensions() {
    let e = entity(
        "self",
        &["Rust"],
        "CosmWasm",
        "account",
        "none",
        &["appchain"],
        3,
        4,
        3,
        2,
    );
    let report = compute_migration(&e, &e, None, None);
    // Language, VM, tx model, EVM compat, deploy model, and the L2 gap.
    assert_eq!(report.dimensions[0].score, 0);
    assert_eq!(report.dimensions[1].score, 0);
    assert_eq!(report.dimensions[2].score, 0);
    assert_eq!(report.dimensions[3].score, 0);
    assert_eq!(report.dimensions[4].score, 0);
    assert_eq!(report.dimensions[7].score, 0);
    // The directional dimensions still reflect the entity's own ratings.
    assert_eq!(report.dimensions[5].score, 2500);
    assert_eq!(report.dimensions[6].score, 5000);
    assert_eq!(report.dimensions[8].score, 7500);
    assert_eq!(report.overall, (2500 * 1000 + 5000 * 700 + 7500 * 600) / 10000);
}

#[test]
fn overall_is_weighted_sum_of_dimensions() {
    let weights: [u32; 9] = [3500, 1200, 800, 800, 700, 1000, 700, 700, 600];
    let a = evm_chain();
    let b = entity(
        "rusty",
        &["Rust"],
        "SVM (sBPF)",
        "account",
        "none",
        &["contract"],
        2,
        4,
        3,
        4,
    );
    for (src, dst) in [(&a, &b), (&b, &a), (&a, &a)] {
        let report = compute_migration(src, dst, None, None);
        assert_eq!(report.dimensions.len(), 9);
        let total: u32 = report
            .dimensions
            .iter()
            .zip(weights.iter())
            .map(|(d, w)| d.score * w)
            .sum();
        assert_eq!(report.overall * 10000, total);
    }
}

#[test]
fn asymmetric_when_tooling_ratings_differ() {
    let a = entity(
        "well-tooled",
        &["Solidity"],
        "EVM",
        "account",
        "native",
        &["contract"],
        5,
        5,
        4,
        3,
    );
    let mut b = a.clone();
    b.id = "poorly-tooled".to_string();
    b.tooling_maturity = 2;
    let there = compute_migration(&a, &b, None, None);
    let back = compute_migration(&b, &a, None, None);
    assert_ne!(there.overall, back.overall);
    // Moving into the well-tooled ecosystem is the easier direction.
    assert!(back.overall < there.overall);
}

#[test]
fn mode_override_switches_language_set() {
    let src = entity(
        "rust-chain",
        &["Rust"],
        "EVM",
        "account",
        "native",
        &["contract"],
        5,
        5,
        5,
        5,
    );
    let mut dst = entity(
        "dual-mode",
        &["Move"],
        "EVM",
        "account",
        "native",
        &["contract", "appchain"],
        5,
        5,
        5,
        5,
    );
    dst.deploy_modes = Some(vec![(
        "x".to_string(),
        DeployMode { languages: vec!["Rust".to_string()] },
    )]);
    // Without the selector, the default language set applies.
    let plain = compute_migration(&src, &dst, None, None);
    assert_eq!(plain.dimensions[0].score, 10000);
    // With the selector, the language dimension is computed against "Foo".
    let with_mode = compute_migration(&src, &dst, None, Some("x"));
    assert_eq!(with_mode.dimensions[0].score, 0);
    // An unknown mode name silently falls back to the default set.
    let unknown = compute_migration(&src, &dst, None, Some("y"));
    assert_eq!(unknown.dimensions[0].score, 10000);
}

#[test]
fn effective_languages_reads_selected_mode() {
    let mut e = entity(
        "dual-mode",
        &["Solidity"],
        "EVM",
        "account",
        "native",
        &["contract", "appchain"],
        5,
        5,
        5,
        5,
    );
    e.deploy_modes = Some(vec![(
        "appchain".to_string(),
        DeployMode { languages: vec!["Rust".to_string(), "Go".to_string()] },
    )]);
    assert_eq!(effective_languages(&e, None), &vec!["Solidity".to_string()]);
    assert_eq!(
        effective_languages(&e, Some("appchain")),
        &vec!["Rust".to_string(), "Go".to_string()]
    );
    assert_eq!(effective_languages(&e, Some("rollup")), &vec!["Solidity".to_string()]);
}

#[test]
fn same_chain_family_with_weak_tooling() {
    let src = evm_chain();
    let mut dst = src.clone();
    dst.id = "weak-tools".to_string();
    dst.tooling_maturity = 2;
    let report = compute_migration(&src, &dst, None, None);
    assert_eq!(report.dimensions[0].score, 0);
    assert_eq!(report.dimensions[1].score, 0);
    assert_eq!(report.dimensions[2].score, 0);
    assert_eq!(report.dimensions[3].score, 0);
    assert_eq!(report.dimensions[4].score, 0);
    let tooling = &report.dimensions[5];
    assert_eq!(tooling.score, 7500);
    assert_eq!(tooling.label, "Very different");
    assert_eq!(report.overall, 750);
    assert_eq!(report.difficulty_label, "Trivial");
    // The challenge threshold fires independently of the low overall score.
    assert!(report
        .challenges
        .iter()
        .any(|c| c == "Destination tooling is immature (2/5)"));
}

#[test]
fn sidechain_against_contract_is_not_the_generic_penalty() {
    let src = entity(
        "side",
        &["Solidity"],
        "EVM",
        "account",
        "native",
        &["sidechain"],
        3,
        3,
        3,
        3,
    );
    let dst_contract = entity(
        "con",
        &["Solidity"],
        "EVM",
        "account",
        "native",
        &["contract"],
        3,
        3,
        3,
        3,
    );
    let dst_rollup = entity(
        "roll",
        &["Solidity"],
        "EVM",
        "account",
        "native",
        &["rollup"],
        3,
        3,
        3,
        3,
    );
    assert_eq!(deploy_model_distance(&src, &dst_contract), 8000);
    assert_eq!(deploy_model_distance(&dst_contract, &src), 8000);
    // The generic sidechain penalty applies only when the other side lacks
    // the contract option.
    assert_eq!(deploy_model_distance(&src, &dst_rollup), 9000);
    assert_eq!(deploy_model_distance(&dst_rollup, &src), 9000);
}

#[test]
fn language_distance_levels() {
    let solidity = evm_chain();
    let mut vyper = evm_chain();
    vyper.languages = vec!["Vyper".to_string()];
    let mut rust = evm_chain();
    rust.languages = vec!["Rust".to_string()];
    let mut multi = evm_chain();
    multi.languages = vec!["TypeScript".to_string(), "Solidity".to_string()];
    assert_eq!(language_distance(&solidity, &solidity, None, None), 0);
    assert_eq!(language_distance(&solidity, &multi, None, None), 0);
    assert_eq!(language_distance(&solidity, &vyper, None, None), 3000);
    assert_eq!(language_distance(&solidity, &rust, None, None), 10000);
}

#[test]
fn vm_distance_levels() {
    let mut evm = evm_chain();
    evm.vm = "EVM".to_string();
    let mut zkevm = evm_chain();
    zkevm.vm = "zkEVM".to_string();
    let mut hybrid = evm_chain();
    hybrid.vm = "PolkaVM/EVM".to_string();
    let mut wasm = evm_chain();
    wasm.vm = "CosmWasm".to_string();
    let mut da = evm_chain();
    da.vm = "N/A (DA layer)".to_string();
    let mut tvm = evm_chain();
    tvm.vm = "TVM".to_string();
    assert_eq!(vm_distance(&evm, &evm), 0);
    assert_eq!(vm_distance(&evm, &zkevm), 2000);
    assert_eq!(vm_distance(&hybrid, &evm), 3000);
    assert_eq!(vm_distance(&wasm, &hybrid), 3000);
    assert_eq!(vm_distance(&evm, &da), 10000);
    assert_eq!(vm_distance(&evm, &tvm), 10000);
}

#[test]
fn transaction_model_distance_levels() {
    let make = |model: &str| {
        let mut e = evm_chain();
        e.transaction_model = model.to_string();
        e
    };
    let account = make("account");
    let resource = make("account-resource");
    let eutxo = make("eUTXO");
    let object = make("object-centric");
    let actor = make("actor");
    assert_eq!(transaction_model_distance(&account, &account), 0);
    assert_eq!(transaction_model_distance(&account, &resource), 1500);
    assert_eq!(transaction_model_distance(&account, &eutxo), 6000);
    assert_eq!(transaction_model_distance(&eutxo, &resource), 6000);
    assert_eq!(transaction_model_distance(&object, &account), 5000);
    assert_eq!(transaction_model_distance(&actor, &eutxo), 8000);
    assert_eq!(transaction_model_distance(&object, &eutxo), 7000);
}

#[test]
fn evm_compat_distance_levels() {
    let make = |compat: &str| {
        let mut e = evm_chain();
        e.evm_compatibility = compat.to_string();
        e
    };
    let native = make("native");
    let supported = make("supported");
    let none = make("none");
    assert_eq!(evm_compat_distance(&native, &native), 0);
    assert_eq!(evm_compat_distance(&none, &none), 0);
    assert_eq!(evm_compat_distance(&native, &supported), 2000);
    assert_eq!(evm_compat_distance(&native, &none), 10000);
    assert_eq!(evm_compat_distance(&none, &supported), 10000);
}

#[test]
fn deploy_model_distance_levels() {
    let make = |options: &[&str]| {
        let mut e = evm_chain();
        e.deployment_options = options.iter().map(|s| s.to_string()).collect();
        e
    };
    let contract = make(&["contract"]);
    let appchain = make(&["appchain"]);
    let both = make(&["contract", "appchain"]);
    let rollup = make(&["rollup"]);
    assert_eq!(deploy_model_distance(&contract, &both), 0);
    assert_eq!(deploy_model_distance(&contract, &appchain), 7000);
    assert_eq!(deploy_model_distance(&appchain, &contract), 7000);
    assert_eq!(deploy_model_distance(&rollup, &appchain), 5000);
}

#[test]
fn destination_quality_formulas() {
    for rating in 1..=5u8 {
        let mut dst = evm_chain();
        dst.tooling_maturity = rating;
        dst.doc_quality = rating;
        dst.ecosystem_funding = rating;
        let expected = (5 - rating as u32) * 2500;
        assert_eq!(dest_tooling_difficulty(&dst), expected);
        assert_eq!(dest_docs_difficulty(&dst), expected);
        assert_eq!(dest_funding_difficulty(&dst), expected);
    }
    let mut low = evm_chain();
    low.l2_maturity = 1;
    let mut high = evm_chain();
    high.l2_maturity = 4;
    assert_eq!(l2_gap(&low, &high), 7500);
    assert_eq!(l2_gap(&high, &low), 7500);
    assert_eq!(l2_gap(&high, &high), 0);
}

#[test]
fn dimension_names_in_declaration_order() {
    let a = evm_chain();
    let report = compute_migration(&a, &a, None, None);
    let names: Vec<&str> = report.dimensions.iter().map(|d| d.name.as_str()).collect();
    assert_eq!(
        names,
        vec![
            "Language",
            "VM / Runtime",
            "Tx Model",
            "EVM Compat",
            "Deploy Model",
            "Dest. Tooling",
            "Dest. Docs",
            "L2 Gap",
            "Ecosystem Funding",
        ]
    );
}

#[test]
fn funding_dimension_uses_opportunity_vocabulary() {
    let src = evm_chain();
    let mut dst = evm_chain();
    dst.ecosystem_funding = 1;
    let report = compute_migration(&src, &dst, None, None);
    assert_eq!(report.dimensions[8].score, 10000);
    assert_eq!(report.dimensions[8].label, "Limited opportunities");
    let generous = compute_migration(&dst, &src, None, None);
    assert_eq!(generous.dimensions[8].score, 0);
    assert_eq!(generous.dimensions[8].label, "Strong opportunities");
}
