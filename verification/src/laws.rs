//! Proof functions stating the engine's laws: what self-comparison yields,
//! that the overall score is exactly the weighted sum of the dimension
//! distances, which dimensions are symmetric and why whole reports are not,
//! and how deploy-mode selectors steer the language dimension.

use crate::classify::spec_lang_family;
use crate::distance::{spec_contains_str, spec_deploy_model_distance, spec_dest_docs_difficulty,
    spec_dest_funding_difficulty, spec_dest_tooling_difficulty, spec_effective_languages,
    spec_evm_compat_distance, spec_l2_gap, spec_language_distance, spec_mode_languages,
    spec_share_any, spec_share_family, spec_transaction_model_distance, spec_vm_distance};
use crate::distance::lemma_distance_bounds;
use crate::ecosystem::EcosystemView;
use crate::report::{spec_compute_migration, spec_weighted_total, SCORE_SCALE, W_DEPLOY, W_DOCS,
    W_EVM_COMPAT, W_FUNDING, W_L2, W_LANGUAGE, W_TOOLING, W_TX_MODEL, W_VM};
use vstd::prelude::*;

verus! {

/// Comparing an entity with itself yields distance 0 on every symmetric
/// dimension: language, VM, transaction model, EVM compatibility,
/// deployment model, and the L2 gap. (The three destination-quality
/// dimensions still reflect the entity's own ratings, so the overall score
/// of a self-comparison need not be 0.) The language and deployment
/// dimensions need at least one language and one deployment option to find
/// a shared member.
pub proof fn lemma_self_migration(e: EcosystemView)
    requires
        e.wf(),
        e.languages.len() > 0,
        e.deployment_options.len() > 0,
    ensures
        spec_language_distance(e, e, None, None) == 0,
        spec_vm_distance(e, e) == 0,
        spec_transaction_model_distance(e, e) == 0,
        spec_evm_compat_distance(e, e) == 0,
        spec_deploy_model_distance(e, e) == 0,
        spec_l2_gap(e, e) == 0,
{
    assert(spec_contains_str(e.languages, e.languages[0]));
    assert(spec_share_any(e.languages, e.languages));
    assert(spec_contains_str(e.deployment_options, e.deployment_options[0]));
    assert(spec_share_any(e.deployment_options, e.deployment_options));
}

/// The nine dimension weights sum to exactly the full scale, so a weighted
/// sum of distances stays on the distances' own scale.
pub proof fn lemma_weights_sum_to_scale()
    ensures
        W_LANGUAGE + W_VM + W_TX_MODEL + W_EVM_COMPAT + W_DEPLOY + W_TOOLING + W_DOCS + W_L2
            + W_FUNDING == SCORE_SCALE,
{
}

/// A distance in hundredth-of-the-scale steps times a weight in the same
/// steps is the full scale times the product of the two step counts.
proof fn lemma_term_divisible(d: int, w: int)
    requires
        d % 100 == 0,
        w % 100 == 0,
    ensures
        d * w == 10000 * ((d / 100) * (w / 100)),
{
    assert(d * w == 10000 * ((d / 100) * (w / 100))) by (nonlinear_arith)
        requires
            d == 100 * (d / 100),
            w == 100 * (w / 100),
    ;
}

/// The overall score is exactly the weighted sum of the nine dimension
/// distances: the weights sum to the full scale and every product is a
/// multiple of it, so scaling the weighted total back down loses nothing.
pub proof fn lemma_overall_is_weighted_sum(
    src: EcosystemView,
    dst: EcosystemView,
    src_mode: Option<Seq<char>>,
    dst_mode: Option<Seq<char>>,
)
    requires
        src.wf(),
        dst.wf(),
    ensures
        spec_compute_migration(src, dst, src_mode, dst_mode).overall * SCORE_SCALE
            == spec_weighted_total(src, dst, src_mode, dst_mode),
        spec_weighted_total(src, dst, src_mode, dst_mode) == spec_language_distance(
            src,
            dst,
            src_mode,
            dst_mode,
        ) * W_LANGUAGE + spec_vm_distance(src, dst) * W_VM + spec_transaction_model_distance(
            src,
            dst,
        ) * W_TX_MODEL + spec_evm_compat_distance(src, dst) * W_EVM_COMPAT
            + spec_deploy_model_distance(src, dst) * W_DEPLOY + spec_dest_tooling_difficulty(dst)
            * W_TOOLING + spec_dest_docs_difficulty(dst) * W_DOCS + spec_l2_gap(src, dst) * W_L2
            + spec_dest_funding_difficulty(dst) * W_FUNDING,
{
    lemma_distance_bounds(src, dst, src_mode, dst_mode);
    let lang: int = spec_language_distance(src, dst, src_mode, dst_mode);
    let vm: int = spec_vm_distance(src, dst);
    let state: int = spec_transaction_model_distance(src, dst);
    let evm: int = spec_evm_compat_distance(src, dst);
    let deploy: int = spec_deploy_model_distance(src, dst);
    let tooling: int = spec_dest_tooling_difficulty(dst);
    let docs: int = spec_dest_docs_difficulty(dst);
    let l2: int = spec_l2_gap(src, dst);
    let funding: int = spec_dest_funding_difficulty(dst);
    lemma_term_divisible(lang, W_LANGUAGE as int);
    lemma_term_divisible(vm, W_VM as int);
    lemma_term_divisible(state, W_TX_MODEL as int);
    lemma_term_divisible(evm, W_EVM_COMPAT as int);
    lemma_term_divisible(deploy, W_DEPLOY as int);
    lemma_term_divisible(tooling, W_TOOLING as int);
    lemma_term_divisible(docs, W_DOCS as int);
    lemma_term_divisible(l2, W_L2 as int);
    lemma_term_divisible(funding, W_FUNDING as int);
    let steps: int = (lang / 100) * 35 + (vm / 100) * 12 + (state / 100) * 8 + (evm / 100) * 8 + (
    deploy / 100) * 7 + (tooling / 100) * 10 + (docs / 100) * 7 + (l2 / 100) * 7 + (funding / 100)
        * 6;
    let total: int = spec_weighted_total(src, dst, src_mode, dst_mode);
    assert(total == 10000 * steps);
    assert(total / 10000 == steps) by (nonlinear_arith)
        requires
            total == 10000 * steps,
    ;
}

/// Sharing a string is mutual.
proof fn lemma_share_any_symmetric(a: Seq<Seq<char>>, b: Seq<Seq<char>>)
    ensures
        spec_share_any(a, b) == spec_share_any(b, a),
{
    if spec_share_any(a, b) {
        let i = choose|i: int| 0 <= i < a.len() && spec_contains_str(b, a[i]);
        let j = choose|j: int| 0 <= j < b.len() && b[j] == a[i];
        assert(spec_contains_str(a, b[j]));
        assert(spec_share_any(b, a));
    }
    if spec_share_any(b, a) {
        let i = choose|i: int| 0 <= i < b.len() && spec_contains_str(a, b[i]);
        let j = choose|j: int| 0 <= j < a.len() && a[j] == b[i];
        assert(spec_contains_str(b, a[j]));
        assert(spec_share_any(a, b));
    }
}

/// Sharing a language family is mutual.
proof fn lemma_share_family_symmetric(a: Seq<Seq<char>>, b: Seq<Seq<char>>)
    ensures
        spec_share_family(a, b) == spec_share_family(b, a),
{
    if spec_share_family(a, b) {
        let (i, j) = choose|i: int, j: int|
            0 <= i < a.len() && 0 <= j < b.len() && spec_lang_family(a[i]) == spec_lang_family(
                b[j],
            );
        assert(0 <= j < b.len() && 0 <= i < a.len() && spec_lang_family(b[j]) == spec_lang_family(
            a[i],
        ));
        assert(spec_share_family(b, a));
    }
    if spec_share_family(b, a) {
        let (i, j) = choose|i: int, j: int|
            0 <= i < b.len() && 0 <= j < a.len() && spec_lang_family(b[i]) == spec_lang_family(
                a[j],
            );
        assert(0 <= j < a.len() && 0 <= i < b.len() && spec_lang_family(a[j]) == spec_lang_family(
            b[i],
        ));
        assert(spec_share_family(a, b));
    }
}

/// Two sets with a common member share a string.
proof fn lemma_common_member_shares(a: Seq<Seq<char>>, b: Seq<Seq<char>>, s: Seq<char>)
    requires
        spec_contains_str(a, s),
        spec_contains_str(b, s),
    ensures
        spec_share_any(a, b),
{
    let i = choose|i: int| 0 <= i < a.len() && a[i] == s;
    assert(spec_contains_str(b, a[i]));
}

/// The deployment-model distance reads the same both ways: its one
/// syntactically one-sided rule (contract against appchain-only) only fires
/// on disjoint option sets, where it is mutual after all.
proof fn lemma_deploy_model_symmetric(a: EcosystemView, b: EcosystemView)
    ensures
        spec_deploy_model_distance(a, b) == spec_deploy_model_distance(b, a),
{
    let oa = a.deployment_options;
    let ob = b.deployment_options;
    lemma_share_any_symmetric(oa, ob);
    if !spec_share_any(oa, ob) {
        if spec_contains_str(oa, "contract"@) && spec_contains_str(ob, "contract"@) {
            lemma_common_member_shares(oa, ob, "contract"@);
        }
        if spec_contains_str(oa, "appchain"@) && spec_contains_str(ob, "appchain"@) {
            lemma_common_member_shares(oa, ob, "appchain"@);
        }
    }
}

/// The five paradigm dimensions and the L2 gap are symmetric: swapping the
/// two entities (and their mode selectors) leaves each of these distances
/// unchanged. Only the three destination-quality dimensions are
/// directional.
pub proof fn lemma_paradigm_dimensions_symmetric(
    a: EcosystemView,
    b: EcosystemView,
    a_mode: Option<Seq<char>>,
    b_mode: Option<Seq<char>>,
)
    ensures
        spec_language_distance(a, b, a_mode, b_mode) == spec_language_distance(
            b,
            a,
            b_mode,
            a_mode,
        ),
        spec_vm_distance(a, b) == spec_vm_distance(b, a),
        spec_transaction_model_distance(a, b) == spec_transaction_model_distance(b, a),
        spec_evm_compat_distance(a, b) == spec_evm_compat_distance(b, a),
        spec_deploy_model_distance(a, b) == spec_deploy_model_distance(b, a),
        spec_l2_gap(a, b) == spec_l2_gap(b, a),
{
    lemma_share_any_symmetric(
        spec_effective_languages(a, a_mode),
        spec_effective_languages(b, b_mode),
    );
    lemma_share_family_symmetric(
        spec_effective_languages(a, a_mode),
        spec_effective_languages(b, b_mode),
    );
    lemma_deploy_model_symmetric(a, b);
}

/// Migration difficulty is not symmetric: two entities whose documentation
/// and funding ratings agree but whose tooling ratings differ score
/// differently in the two directions, whatever their other attributes.
/// (When several directional ratings differ at once, their weighted
/// contributions can cancel, so this law fixes all but one.)
pub proof fn lemma_directional_asymmetry(a: EcosystemView, b: EcosystemView)
    requires
        a.wf(),
        b.wf(),
        a.doc_quality == b.doc_quality,
        a.ecosystem_funding == b.ecosystem_funding,
        a.tooling_maturity != b.tooling_maturity,
    ensures
        spec_compute_migration(a, b, None, None).overall != spec_compute_migration(
            b,
            a,
            None,
            None,
        ).overall,
{
    lemma_paradigm_dimensions_symmetric(a, b, None, None);
    lemma_overall_is_weighted_sum(a, b, None, None);
    lemma_overall_is_weighted_sum(b, a, None, None);
    let t1: int = spec_weighted_total(a, b, None, None);
    let t2: int = spec_weighted_total(b, a, None, None);
    assert(t1 - t2 == W_TOOLING * (spec_dest_tooling_difficulty(b) - spec_dest_tooling_difficulty(
        a,
    )));
    assert(t1 != t2);
}

/// Looking a mode up by the name of its entry finds that entry, because
/// mode names are pairwise distinct.
proof fn lemma_mode_lookup_found(modes: Seq<(Seq<char>, Seq<Seq<char>>)>, k: int)
    requires
        0 <= k < modes.len(),
        forall|i: int, j: int| 0 <= i < j < modes.len() ==> modes[i].0 != modes[j].0,
    ensures
        spec_mode_languages(modes, modes[k].0) == Some(modes[k].1),
    decreases k,
{
    if k > 0 {
        let tail = modes.drop_first();
        assert forall|i: int, j: int| 0 <= i < j < tail.len() implies tail[i].0 != tail[j].0 by {
            assert(tail[i] == modes[i + 1]);
            assert(tail[j] == modes[j + 1]);
        }
        assert(tail[k - 1] == modes[k]);
        lemma_mode_lookup_found(tail, k - 1);
    }
}

/// A name that no mode entry bears finds nothing.
proof fn lemma_mode_lookup_missing(modes: Seq<(Seq<char>, Seq<Seq<char>>)>, name: Seq<char>)
    requires
        forall|k: int| 0 <= k < modes.len() ==> modes[k].0 != name,
    ensures
        spec_mode_languages(modes, name) is None,
    decreases modes.len(),
{
    if modes.len() > 0 {
        let tail = modes.drop_first();
        assert forall|k: int| 0 <= k < tail.len() implies tail[k].0 != name by {
            assert(tail[k] == modes[k + 1]);
        }
        lemma_mode_lookup_missing(tail, name);
    }
}

/// Selecting a mode that the entity defines makes its alternate language
/// set the effective one: the language dimension is then computed against
/// it, not against the entity's default languages.
pub proof fn lemma_mode_override(
    e: EcosystemView,
    modes: Seq<(Seq<char>, Seq<Seq<char>>)>,
    k: int,
)
    requires
        e.wf(),
        e.deploy_modes == Some(modes),
        0 <= k < modes.len(),
    ensures
        spec_effective_languages(e, Some(modes[k].0)) == modes[k].1,
{
    lemma_mode_lookup_found(modes, k);
}

/// Selecting a mode name that the entity does not define silently falls
/// back to the entity's default language set.
pub proof fn lemma_unknown_mode_falls_back(e: EcosystemView, name: Seq<char>)
    requires
        match e.deploy_modes {
            Some(modes) => forall|k: int| 0 <= k < modes.len() ==> modes[k].0 != name,
            None => true,
        },
    ensures
        spec_effective_languages(e, Some(name)) == e.languages,
{
    match e.deploy_modes {
        Some(modes) => lemma_mode_lookup_missing(modes, name),
        None => (),
    }
}

} // verus!
