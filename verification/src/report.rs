//! The migration report: fixed weights, the aggregate score, the labelled
//! per-dimension breakdown, and the two explanation lists.
//!
//! All scores are fixed-point fractions of [`SCORE_SCALE`]: `10_000` stands
//! for `1.0`. The nine weights are fractions of the same scale and sum to
//! exactly the scale, so the overall score is the exact weighted sum of the
//! nine dimension distances, scaled back down.

use crate::banding::{dim_label, funding_label, score_label, spec_dim_label, spec_funding_label,
    spec_score_label};
use crate::distance::{deploy_model_distance, dest_docs_difficulty, dest_funding_difficulty,
    dest_tooling_difficulty, effective_languages, evm_compat_distance, l2_gap, language_distance,
    lemma_distance_bounds, spec_deploy_model_distance, spec_dest_docs_difficulty,
    spec_dest_funding_difficulty, spec_dest_tooling_difficulty, spec_effective_languages,
    spec_evm_compat_distance, spec_l2_gap, spec_language_distance, spec_mode_view,
    spec_transaction_model_distance, spec_vm_distance, transaction_model_distance, vm_distance};
use crate::ecosystem::{Ecosystem, EcosystemView};
use crate::text::{join_strings, rating_text, spec_join, spec_rating_text, str_eq};
use vstd::prelude::*;
use vstd::string::StringExecFns;

verus! {

/// The full score scale: a score of `SCORE_SCALE` stands for `1.0`.
pub const SCORE_SCALE: u32 = 10000;

/// Weight of the language dimension, as a fraction of [`SCORE_SCALE`].
pub const W_LANGUAGE: u32 = 3500;

/// Weight of the VM / runtime dimension.
pub const W_VM: u32 = 1200;

/// Weight of the transaction-model dimension.
pub const W_TX_MODEL: u32 = 800;

/// Weight of the EVM-compatibility dimension.
pub const W_EVM_COMPAT: u32 = 800;

/// Weight of the deployment-model dimension.
pub const W_DEPLOY: u32 = 700;

/// Weight of the destination-tooling dimension.
pub const W_TOOLING: u32 = 1000;

/// Weight of the destination-documentation dimension.
pub const W_DOCS: u32 = 700;

/// Weight of the L2-maturity-gap dimension.
pub const W_L2: u32 = 700;

/// Weight of the destination-funding dimension.
pub const W_FUNDING: u32 = 600;

/// One row of the per-dimension breakdown: the dimension's name, its
/// distance, and its qualitative label.
#[derive(Clone, PartialEq)]
pub struct DimensionScore {
    pub name: String,
    pub score: u32,
    pub label: String,
}

/// The mathematical model of a [`DimensionScore`].
#[verifier::ext_equal]
pub ghost struct DimensionScoreView {
    pub name: Seq<char>,
    pub score: int,
    pub label: Seq<char>,
}

impl View for DimensionScore {
    type V = DimensionScoreView;

    open spec fn view(&self) -> DimensionScoreView {
        DimensionScoreView { name: self.name@, score: self.score as int, label: self.label@ }
    }
}

impl DeepView for DimensionScore {
    type V = DimensionScoreView;

    open spec fn deep_view(&self) -> DimensionScoreView {
        self.view()
    }
}

/// The report of one migration query: the aggregate score with its
/// difficulty label, the nine dimensions in fixed declaration order, and
/// the two explanation lists. Never mutated after construction.
#[derive(Clone, PartialEq)]
pub struct MigrationReport {
    pub overall: u32,
    pub difficulty_label: String,
    pub dimensions: Vec<DimensionScore>,
    pub challenges: Vec<String>,
    pub positives: Vec<String>,
}

/// The mathematical model of a [`MigrationReport`].
#[verifier::ext_equal]
pub ghost struct MigrationReportView {
    pub overall: int,
    pub difficulty_label: Seq<char>,
    pub dimensions: Seq<DimensionScoreView>,
    pub challenges: Seq<Seq<char>>,
    pub positives: Seq<Seq<char>>,
}

impl View for MigrationReport {
    type V = MigrationReportView;

    open spec fn view(&self) -> MigrationReportView {
        MigrationReportView {
            overall: self.overall as int,
            difficulty_label: self.difficulty_label@,
            dimensions: self.dimensions.deep_view(),
            challenges: self.challenges.deep_view(),
            positives: self.positives.deep_view(),
        }
    }
}

/// The weighted sum of the nine dimension distances, as a fraction of
/// `SCORE_SCALE * SCORE_SCALE`.
pub open spec fn spec_weighted_total(
    src: EcosystemView,
    dst: EcosystemView,
    src_mode: Option<Seq<char>>,
    dst_mode: Option<Seq<char>>,
) -> int {
    spec_language_distance(src, dst, src_mode, dst_mode) * W_LANGUAGE + spec_vm_distance(src, dst)
        * W_VM + spec_transaction_model_distance(src, dst) * W_TX_MODEL + spec_evm_compat_distance(
        src,
        dst,
    ) * W_EVM_COMPAT + spec_deploy_model_distance(src, dst) * W_DEPLOY
        + spec_dest_tooling_difficulty(dst) * W_TOOLING + spec_dest_docs_difficulty(dst) * W_DOCS
        + spec_l2_gap(src, dst) * W_L2 + spec_dest_funding_difficulty(dst) * W_FUNDING
}

/// The overall migration score: the weighted sum of the nine dimension
/// distances, scaled back to a fraction of [`SCORE_SCALE`].
pub open spec fn spec_overall(
    src: EcosystemView,
    dst: EcosystemView,
    src_mode: Option<Seq<char>>,
    dst_mode: Option<Seq<char>>,
) -> int {
    spec_weighted_total(src, dst, src_mode, dst_mode) / (SCORE_SCALE as int)
}

/// The nine labelled dimensions of a report, in fixed declaration order.
pub open spec fn spec_dimensions(
    src: EcosystemView,
    dst: EcosystemView,
    src_mode: Option<Seq<char>>,
    dst_mode: Option<Seq<char>>,
) -> Seq<DimensionScoreView> {
    let lang: int = spec_language_distance(src, dst, src_mode, dst_mode);
    let vm: int = spec_vm_distance(src, dst);
    let state: int = spec_transaction_model_distance(src, dst);
    let evm: int = spec_evm_compat_distance(src, dst);
    let deploy: int = spec_deploy_model_distance(src, dst);
    let tooling: int = spec_dest_tooling_difficulty(dst);
    let docs: int = spec_dest_docs_difficulty(dst);
    let l2: int = spec_l2_gap(src, dst);
    let funding: int = spec_dest_funding_difficulty(dst);
    seq![
        DimensionScoreView { name: "Language"@, score: lang, label: spec_dim_label(lang) },
        DimensionScoreView { name: "VM / Runtime"@, score: vm, label: spec_dim_label(vm) },
        DimensionScoreView { name: "Tx Model"@, score: state, label: spec_dim_label(state) },
        DimensionScoreView { name: "EVM Compat"@, score: evm, label: spec_dim_label(evm) },
        DimensionScoreView { name: "Deploy Model"@, score: deploy, label: spec_dim_label(deploy) },
        DimensionScoreView {
            name: "Dest. Tooling"@,
            score: tooling,
            label: spec_dim_label(tooling),
        },
        DimensionScoreView { name: "Dest. Docs"@, score: docs, label: spec_dim_label(docs) },
        DimensionScoreView { name: "L2 Gap"@, score: l2, label: spec_dim_label(l2) },
        DimensionScoreView {
            name: "Ecosystem Funding"@,
            score: funding,
            label: spec_funding_label(funding),
        },
    ]
}

/// The positives list: one entry per dimension whose threshold rule finds
/// the migration easy on that axis, in dimension-evaluation order.
pub open spec fn spec_positives(
    src: EcosystemView,
    dst: EcosystemView,
    src_mode: Option<Seq<char>>,
    dst_mode: Option<Seq<char>>,
) -> Seq<Seq<char>> {
    let lang: int = spec_language_distance(src, dst, src_mode, dst_mode);
    let vm: int = spec_vm_distance(src, dst);
    let state: int = spec_transaction_model_distance(src, dst);
    let evm: int = spec_evm_compat_distance(src, dst);
    let deploy: int = spec_deploy_model_distance(src, dst);
    let tooling: int = spec_dest_tooling_difficulty(dst);
    let docs: int = spec_dest_docs_difficulty(dst);
    let src_langs = spec_effective_languages(src, src_mode);
    let p0 = Seq::<Seq<char>>::empty();
    let p1 = if lang == 0 {
        p0.push(
            "Same language ("@ + spec_join(src_langs, ", "@)
                + ") — existing code may port directly"@,
        )
    } else if lang <= 3000 {
        p0.push("Related language family — developer skills transfer well"@)
    } else {
        p0
    };
    let p2 = if vm == 0 {
        p1.push("Same VM ("@ + src.vm + ") — runtime behavior is identical"@)
    } else {
        p1
    };
    let p3 = if evm == 0 && src.evm_compatibility == "native"@ {
        p2.push("Both EVM-native — tooling, libraries, and patterns transfer directly"@)
    } else {
        p2
    };
    let p4 = if state == 0 {
        p3.push("Same transaction model — no paradigm shift required"@)
    } else {
        p3
    };
    let p5 = if deploy == 0 {
        p4.push("Same deployment model — no infrastructure changes needed"@)
    } else {
        p4
    };
    let p6 = if tooling <= 2500 {
        p5.push(
            "Excellent destination tooling ("@ + spec_rating_text(dst.tooling_maturity) + "/5)"@,
        )
    } else {
        p5
    };
    let p7 = if docs <= 2500 {
        p6.push("Strong destination documentation ("@ + spec_rating_text(dst.doc_quality) + "/5)"@)
    } else {
        p6
    };
    let p8 = if dst.ecosystem_funding >= 4 {
        p7.push(
            "Well-funded destination ecosystem ("@ + spec_rating_text(dst.ecosystem_funding)
                + "/5) — grants and support available"@,
        )
    } else {
        p7
    };
    p8
}

/// The challenges list: one entry per dimension whose threshold rule finds
/// the migration hard on that axis, in dimension-evaluation order.
pub open spec fn spec_challenges(
    src: EcosystemView,
    dst: EcosystemView,
    src_mode: Option<Seq<char>>,
    dst_mode: Option<Seq<char>>,
) -> Seq<Seq<char>> {
    let lang: int = spec_language_distance(src, dst, src_mode, dst_mode);
    let vm: int = spec_vm_distance(src, dst);
    let state: int = spec_transaction_model_distance(src, dst);
    let evm: int = spec_evm_compat_distance(src, dst);
    let deploy: int = spec_deploy_model_distance(src, dst);
    let tooling: int = spec_dest_tooling_difficulty(dst);
    let docs: int = spec_dest_docs_difficulty(dst);
    let l2: int = spec_l2_gap(src, dst);
    let src_langs = spec_effective_languages(src, src_mode);
    let dst_langs = spec_effective_languages(dst, dst_mode);
    let c0 = Seq::<Seq<char>>::empty();
    let c1 = if lang >= 8000 {
        c0.push(
            "Completely different languages: "@ + spec_join(src_langs, ", "@) + " → "@ + spec_join(
                dst_langs,
                ", "@,
            ),
        )
    } else if lang >= 3000 {
        c0.push(
            "Related but distinct languages: "@ + spec_join(src_langs, ", "@) + " → "@ + spec_join(
                dst_langs,
                ", "@,
            ),
        )
    } else {
        c0
    };
    let c2 = if vm >= 8000 {
        c1.push("Different VM architecture: "@ + src.vm + " → "@ + dst.vm)
    } else {
        c1
    };
    let c3 = if state >= 5000 {
        c2.push(
            "Different transaction model: "@ + src.transaction_model + " → "@
                + dst.transaction_model,
        )
    } else {
        c2
    };
    let c4 = if evm >= 8000 {
        if src.evm_compatibility == "native"@ || src.evm_compatibility == "supported"@ {
            c3.push("Leaving the EVM ecosystem — existing tooling won't transfer"@)
        } else {
            c3.push("Entering the EVM ecosystem — different paradigm from source"@)
        }
    } else {
        c3
    };
    let c5 = if deploy >= 5000 {
        c4.push(
            "Different deployment model: "@ + spec_join(src.deployment_options, "/"@) + " → "@
                + spec_join(dst.deployment_options, "/"@),
        )
    } else {
        c4
    };
    let c6 = if tooling >= 6000 {
        c5.push(
            "Destination tooling is immature ("@ + spec_rating_text(dst.tooling_maturity) + "/5)"@,
        )
    } else {
        c5
    };
    let c7 = if docs >= 6000 {
        c6.push(
            "Destination documentation is limited ("@ + spec_rating_text(dst.doc_quality)
                + "/5)"@,
        )
    } else {
        c6
    };
    let c8 = if l2 >= 5000 {
        c7.push("Significant L2/rollup ecosystem gap"@)
    } else {
        c7
    };
    let c9 = if dst.ecosystem_funding <= 2 {
        c8.push(
            "Limited ecosystem funding ("@ + spec_rating_text(dst.ecosystem_funding)
                + "/5) — fewer grants and support programs"@,
        )
    } else {
        c8
    };
    c9
}

/// The full report of one migration query.
pub open spec fn spec_compute_migration(
    src: EcosystemView,
    dst: EcosystemView,
    src_mode: Option<Seq<char>>,
    dst_mode: Option<Seq<char>>,
) -> MigrationReportView {
    let overall: int = spec_overall(src, dst, src_mode, dst_mode);
    MigrationReportView {
        overall,
        difficulty_label: spec_score_label(overall),
        dimensions: spec_dimensions(src, dst, src_mode, dst_mode),
        challenges: spec_challenges(src, dst, src_mode, dst_mode),
        positives: spec_positives(src, dst, src_mode, dst_mode),
    }
}

/// Builds the nine labelled dimensions in fixed declaration order.
fn build_dimensions(
    src: &Ecosystem,
    dst: &Ecosystem,
    src_mode: Option<&str>,
    dst_mode: Option<&str>,
) -> (dimensions: Vec<DimensionScore>)
    requires
        src.wf(),
        dst.wf(),
    ensures
        dimensions.deep_view() == spec_dimensions(
            src@,
            dst@,
            spec_mode_view(src_mode),
            spec_mode_view(dst_mode),
        ),
{
    let lang: u32 = language_distance(src, dst, src_mode, dst_mode);
    let vm: u32 = vm_distance(src, dst);
    let state: u32 = transaction_model_distance(src, dst);
    let evm: u32 = evm_compat_distance(src, dst);
    let deploy: u32 = deploy_model_distance(src, dst);
    let tooling: u32 = dest_tooling_difficulty(dst);
    let docs: u32 = dest_docs_difficulty(dst);
    let l2: u32 = l2_gap(src, dst);
    let funding: u32 = dest_funding_difficulty(dst);
    let mut dimensions: Vec<DimensionScore> = Vec::new();
    dimensions.push(
        DimensionScore { name: String::from_str("Language"), score: lang, label: dim_label(lang) },
    );
    dimensions.push(
        DimensionScore { name: String::from_str("VM / Runtime"), score: vm, label: dim_label(vm) },
    );
    dimensions.push(
        DimensionScore { name: String::from_str("Tx Model"), score: state, label: dim_label(state) },
    );
    dimensions.push(
        DimensionScore { name: String::from_str("EVM Compat"), score: evm, label: dim_label(evm) },
    );
    dimensions.push(
        DimensionScore {
            name: String::from_str("Deploy Model"),
            score: deploy,
            label: dim_label(deploy),
        },
    );
    dimensions.push(
        DimensionScore {
            name: String::from_str("Dest. Tooling"),
            score: tooling,
            label: dim_label(tooling),
        },
    );
    dimensions.push(
        DimensionScore {
            name: String::from_str("Dest. Docs"),
            score: docs,
            label: dim_label(docs),
        },
    );
    dimensions.push(
        DimensionScore { name: String::from_str("L2 Gap"), score: l2, label: dim_label(l2) },
    );
    dimensions.push(
        DimensionScore {
            name: String::from_str("Ecosystem Funding"),
            score: funding,
            label: funding_label(funding),
        },
    );
    proof {
        assert(dimensions.deep_view() =~= spec_dimensions(
            src@,
            dst@,
            spec_mode_view(src_mode),
            spec_mode_view(dst_mode),
        ));
    }
    dimensions
}

/// Builds the positives list in dimension-evaluation order.
fn build_positives(
    src: &Ecosystem,
    dst: &Ecosystem,
    src_mode: Option<&str>,
    dst_mode: Option<&str>,
) -> (positives: Vec<String>)
    requires
        src.wf(),
        dst.wf(),
    ensures
        positives.deep_view() == spec_positives(
            src@,
            dst@,
            spec_mode_view(src_mode),
            spec_mode_view(dst_mode),
        ),
{
    let ghost src_v = src@;
    let ghost dst_v = dst@;
    let ghost sm = spec_mode_view(src_mode);
    let ghost dm = spec_mode_view(dst_mode);
    let lang: u32 = language_distance(src, dst, src_mode, dst_mode);
    let vm: u32 = vm_distance(src, dst);
    let state: u32 = transaction_model_distance(src, dst);
    let evm: u32 = evm_compat_distance(src, dst);
    let deploy: u32 = deploy_model_distance(src, dst);
    let tooling: u32 = dest_tooling_difficulty(dst);
    let docs: u32 = dest_docs_difficulty(dst);
    let src_langs = effective_languages(src, src_mode);

    let mut positives: Vec<String> = Vec::new();
    let ghost p0 = Seq::<Seq<char>>::empty();

    if lang == 0 {
        let mut text = String::from_str("Same language (");
        let joined = join_strings(src_langs, ", ");
        text.append(joined.as_str());
        text.append(") — existing code may port directly");
        positives.push(text);
    } else if lang <= 3000 {
        positives.push(
            String::from_str("Related language family — developer skills transfer well"),
        );
    }
    let ghost p1 = (if lang == 0 {
        p0.push(
            "Same language ("@ + spec_join(spec_effective_languages(src_v, sm), ", "@)
                + ") — existing code may port directly"@,
        )
    } else if lang <= 3000 {
        p0.push("Related language family — developer skills transfer well"@)
    } else {
        p0
    });
    proof {
        assert(positives.deep_view() =~= p1);
    }

    if vm == 0 {
        let mut text = String::from_str("Same VM (");
        text.append(src.vm.as_str());
        text.append(") — runtime behavior is identical");
        positives.push(text);
    }
    let ghost p2 = (if vm == 0 {
        p1.push("Same VM ("@ + src_v.vm + ") — runtime behavior is identical"@)
    } else {
        p1
    });
    proof {
        assert(positives.deep_view() =~= p2);
    }

    if evm == 0 && str_eq(src.evm_compatibility.as_str(), "native") {
        positives.push(
            String::from_str(
                "Both EVM-native — tooling, libraries, and patterns transfer directly",
            ),
        );
    }
    let ghost p3 = (if evm == 0 && src_v.evm_compatibility == "native"@ {
        p2.push("Both EVM-native — tooling, libraries, and patterns transfer directly"@)
    } else {
        p2
    });
    proof {
        assert(positives.deep_view() =~= p3);
    }

    if state == 0 {
        positives.push(String::from_str("Same transaction model — no paradigm shift required"));
    }
    let ghost p4 = (if state == 0 {
        p3.push("Same transaction model — no paradigm shift required"@)
    } else {
        p3
    });
    proof {
        assert(positives.deep_view() =~= p4);
    }

    if deploy == 0 {
        positives.push(String::from_str("Same deployment model — no infrastructure changes needed"));
    }
    let ghost p5 = (if deploy == 0 {
        p4.push("Same deployment model — no infrastructure changes needed"@)
    } else {
        p4
    });
    proof {
        assert(positives.deep_view() =~= p5);
    }

    if tooling <= 2500 {
        let mut text = String::from_str("Excellent destination tooling (");
        text.append(rating_text(dst.tooling_maturity));
        text.append("/5)");
        positives.push(text);
    }
    let ghost p6 = (if tooling <= 2500 {
        p5.push(
            "Excellent destination tooling ("@ + spec_rating_text(dst_v.tooling_maturity) + "/5)"@,
        )
    } else {
        p5
    });
    proof {
        assert(positives.deep_view() =~= p6);
    }

    if docs <= 2500 {
        let mut text = String::from_str("Strong destination documentation (");
        text.append(rating_text(dst.doc_quality));
        text.append("/5)");
        positives.push(text);
    }
    let ghost p7 = (if docs <= 2500 {
        p6.push(
            "Strong destination documentation ("@ + spec_rating_text(dst_v.doc_quality) + "/5)"@,
        )
    } else {
        p6
    });
    proof {
        assert(positives.deep_view() =~= p7);
    }

    if dst.ecosystem_funding >= 4 {
        let mut text = String::from_str("Well-funded destination ecosystem (");
        text.append(rating_text(dst.ecosystem_funding));
        text.append("/5) — grants and support available");
        positives.push(text);
    }
    let ghost p8 = (if dst_v.ecosystem_funding >= 4 {
        p7.push(
            "Well-funded destination ecosystem ("@ + spec_rating_text(dst_v.ecosystem_funding)
                + "/5) — grants and support available"@,
        )
    } else {
        p7
    });
    proof {
        assert(positives.deep_view() =~= p8);
        assert(p8 == spec_positives(src_v, dst_v, sm, dm));
    }

    positives
}

/// Builds the challenges list in dimension-evaluation order.
#[verifier::rlimit(60)]
fn build_challenges(
    src: &Ecosystem,
    dst: &Ecosystem,
    src_mode: Option<&str>,
    dst_mode: Option<&str>,
) -> (challenges: Vec<String>)
    requires
        src.wf(),
        dst.wf(),
    ensures
        challenges.deep_view() == spec_challenges(
            src@,
            dst@,
            spec_mode_view(src_mode),
            spec_mode_view(dst_mode),
        ),
{
    let ghost src_v = src@;
    let ghost dst_v = dst@;
    let ghost sm = spec_mode_view(src_mode);
    let ghost dm = spec_mode_view(dst_mode);
    let lang: u32 = language_distance(src, dst, src_mode, dst_mode);
    let vm: u32 = vm_distance(src, dst);
    let state: u32 = transaction_model_distance(src, dst);
    let evm: u32 = evm_compat_distance(src, dst);
    let deploy: u32 = deploy_model_distance(src, dst);
    let tooling: u32 = dest_tooling_difficulty(dst);
    let docs: u32 = dest_docs_difficulty(dst);
    let l2: u32 = l2_gap(src, dst);
    let src_langs = effective_languages(src, src_mode);
    let dst_langs = effective_languages(dst, dst_mode);

    let mut challenges: Vec<String> = Vec::new();
    let ghost c0 = Seq::<Seq<char>>::empty();

    if lang >= 8000 {
        let mut text = String::from_str("Completely different languages: ");
        text.append(join_strings(src_langs, ", ").as_str());
        text.append(" → ");
        text.append(join_strings(dst_langs, ", ").as_str());
        challenges.push(text);
    } else if lang >= 3000 {
        let mut text = String::from_str("Related but distinct languages: ");
        text.append(join_strings(src_langs, ", ").as_str());
        text.append(" → ");
        text.append(join_strings(dst_langs, ", ").as_str());
        challenges.push(text);
    }
    let ghost c1 = (if lang >= 8000 {
        c0.push(
            "Completely different languages: "@ + spec_join(
                spec_effective_languages(src_v, sm),
                ", "@,
            ) + " → "@ + spec_join(spec_effective_languages(dst_v, dm), ", "@),
        )
    } else if lang >= 3000 {
        c0.push(
            "Related but distinct languages: "@ + spec_join(
                spec_effective_languages(src_v, sm),
                ", "@,
            ) + " → "@ + spec_join(spec_effective_languages(dst_v, dm), ", "@),
        )
    } else {
        c0
    });
    proof {
        assert(challenges.deep_view() =~= c1);
    }

    if vm >= 8000 {
        let mut text = String::from_str("Different VM architecture: ");
        text.append(src.vm.as_str());
        text.append(" → ");
        text.append(dst.vm.as_str());
        challenges.push(text);
    }
    let ghost c2 = (if vm >= 8000 {
        c1.push("Different VM architecture: "@ + src_v.vm + " → "@ + dst_v.vm)
    } else {
        c1
    });
    proof {
        assert(challenges.deep_view() =~= c2);
    }

    if state >= 5000 {
        let mut text = String::from_str("Different transaction model: ");
        text.append(src.transaction_model.as_str());
        text.append(" → ");
        text.append(dst.transaction_model.as_str());
        challenges.push(text);
    }
    let ghost c3 = (if state >= 5000 {
        c2.push(
            "Different transaction model: "@ + src_v.transaction_model + " → "@
                + dst_v.transaction_model,
        )
    } else {
        c2
    });
    proof {
        assert(challenges.deep_view() =~= c3);
    }

    if evm >= 8000 {
        if str_eq(src.evm_compatibility.as_str(), "native") || str_eq(
            src.evm_compatibility.as_str(),
            "supported",
        ) {
            challenges.push(
                String::from_str("Leaving the EVM ecosystem — existing tooling won't transfer"),
            );
        } else {
            challenges.push(
                String::from_str("Entering the EVM ecosystem — different paradigm from source"),
            );
        }
    }
    let ghost c4 = (if evm >= 8000 {
        if src_v.evm_compatibility == "native"@ || src_v.evm_compatibility == "supported"@ {
            c3.push("Leaving the EVM ecosystem — existing tooling won't transfer"@)
        } else {
            c3.push("Entering the EVM ecosystem — different paradigm from source"@)
        }
    } else {
        c3
    });
    proof {
        assert(challenges.deep_view() =~= c4);
    }

    if deploy >= 5000 {
        let mut text = String::from_str("Different deployment model: ");
        text.append(join_strings(&src.deployment_options, "/").as_str());
        text.append(" → ");
        text.append(join_strings(&dst.deployment_options, "/").as_str());
        challenges.push(text);
    }
    let ghost c5 = (if deploy >= 5000 {
        c4.push(
            "Different deployment model: "@ + spec_join(src_v.deployment_options, "/"@) + " → "@
                + spec_join(dst_v.deployment_options, "/"@),
        )
    } else {
        c4
    });
    proof {
        assert(challenges.deep_view() =~= c5);
    }

    if tooling >= 6000 {
        let mut text = String::from_str("Destination tooling is immature (");
        text.append(rating_text(dst.tooling_maturity));
        text.append("/5)");
        challenges.push(text);
    }
    let ghost c6 = (if tooling >= 6000 {
        c5.push(
            "Destination tooling is immature ("@ + spec_rating_text(dst_v.tooling_maturity)
                + "/5)"@,
        )
    } else {
        c5
    });
    proof {
        assert(challenges.deep_view() =~= c6);
    }

    if docs >= 6000 {
        let mut text = String::from_str("Destination documentation is limited (");
        text.append(rating_text(dst.doc_quality));
        text.append("/5)");
        challenges.push(text);
    }
    let ghost c7 = (if docs >= 6000 {
        c6.push(
            "Destination documentation is limited ("@ + spec_rating_text(dst_v.doc_quality)
                + "/5)"@,
        )
    } else {
        c6
    });
    proof {
        assert(challenges.deep_view() =~= c7);
    }

    if l2 >= 5000 {
        challenges.push(String::from_str("Significant L2/rollup ecosystem gap"));
    }
    let ghost c8 = (if l2 >= 5000 {
        c7.push("Significant L2/rollup ecosystem gap"@)
    } else {
        c7
    });
    proof {
        assert(challenges.deep_view() =~= c8);
    }

    if dst.ecosystem_funding <= 2 {
        let mut text = String::from_str("Limited ecosystem funding (");
        text.append(rating_text(dst.ecosystem_funding));
        text.append("/5) — fewer grants and support programs");
        challenges.push(text);
    }
    let ghost c9 = (if dst_v.ecosystem_funding <= 2 {
        c8.push(
            "Limited ecosystem funding ("@ + spec_rating_text(dst_v.ecosystem_funding)
                + "/5) — fewer grants and support programs"@,
        )
    } else {
        c8
    });
    proof {
        assert(challenges.deep_view() =~= c9);
        assert(c9 == spec_challenges(src_v, dst_v, sm, dm));
    }

    challenges
}

/// Computes the full migration report for one (source, destination,
/// source-mode, destination-mode) query.
///
/// Both entities must be valid loaded entities; an unknown mode name
/// silently falls back to that entity's default language set.
pub fn compute_migration(
    src: &Ecosystem,
    dst: &Ecosystem,
    src_mode: Option<&str>,
    dst_mode: Option<&str>,
) -> (report: MigrationReport)
    requires
        src.wf(),
        dst.wf(),
    ensures
        report@ == spec_compute_migration(
            src@,
            dst@,
            spec_mode_view(src_mode),
            spec_mode_view(dst_mode),
        ),
        report.overall <= SCORE_SCALE,
{
    let ghost sm = spec_mode_view(src_mode);
    let ghost dm = spec_mode_view(dst_mode);
    let lang: u32 = language_distance(src, dst, src_mode, dst_mode);
    let vm: u32 = vm_distance(src, dst);
    let state: u32 = transaction_model_distance(src, dst);
    let evm: u32 = evm_compat_distance(src, dst);
    let deploy: u32 = deploy_model_distance(src, dst);
    let tooling: u32 = dest_tooling_difficulty(dst);
    let docs: u32 = dest_docs_difficulty(dst);
    let l2: u32 = l2_gap(src, dst);
    let funding: u32 = dest_funding_difficulty(dst);
    proof {
        lemma_distance_bounds(src@, dst@, sm, dm);
    }
    let total: u32 = lang * W_LANGUAGE + vm * W_VM + state * W_TX_MODEL + evm * W_EVM_COMPAT
        + deploy * W_DEPLOY + tooling * W_TOOLING + docs * W_DOCS + l2 * W_L2 + funding * W_FUNDING;
    let overall: u32 = total / SCORE_SCALE;
    let report = MigrationReport {
        overall,
        difficulty_label: score_label(overall),
        dimensions: build_dimensions(src, dst, src_mode, dst_mode),
        challenges: build_challenges(src, dst, src_mode, dst_mode),
        positives: build_positives(src, dst, src_mode, dst_mode),
    };
    proof {
        assert(total == spec_weighted_total(src@, dst@, sm, dm));
        assert(report@ =~~= spec_compute_migration(src@, dst@, sm, dm));
    }
    report
}

} // verus!
