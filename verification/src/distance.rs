//! The nine dimension distance functions. Each returns a distance between
//! 0 (no migration cost on this axis) and [`crate::report::SCORE_SCALE`]
//! (maximal cost), as a fixed-point fraction of that scale.
//!
//! Five dimensions compare the two entities' paradigms; four are
//! directional: they read only the destination's quality ratings (or, for
//! the L2 gap, the two ratings' absolute difference), because migration
//! difficulty is not a symmetric metric.

use crate::classify::{is_account_family, lang_family, spec_is_account_family, spec_lang_family,
    spec_vm_group, vm_group};
use crate::ecosystem::{DeployMode, Ecosystem, EcosystemView};
use crate::text::str_eq;
use vstd::prelude::*;

verus! {

/// The view of an optional mode selector.
pub open spec fn spec_mode_view(mode: Option<&str>) -> Option<Seq<char>> {
    match mode {
        Some(m) => Some(m@),
        None => None,
    }
}

/// Whether `items` holds the string `s`.
pub open spec fn spec_contains_str(items: Seq<Seq<char>>, s: Seq<char>) -> bool {
    exists|i: int| 0 <= i < items.len() && items[i] == s
}

/// Whether `a` and `b` share at least one string.
pub open spec fn spec_share_any(a: Seq<Seq<char>>, b: Seq<Seq<char>>) -> bool {
    exists|i: int| 0 <= i < a.len() && spec_contains_str(b, a[i])
}

/// Whether some language of `a` and some language of `b` fall into the same
/// family.
pub open spec fn spec_share_family(a: Seq<Seq<char>>, b: Seq<Seq<char>>) -> bool {
    exists|i: int, j: int|
        0 <= i < a.len() && 0 <= j < b.len() && spec_lang_family(a[i]) == spec_lang_family(b[j])
}

/// Whether `items` holds the string `s`.
fn vec_contains_str(items: &Vec<String>, s: &str) -> (r: bool)
    ensures
        r == spec_contains_str(items.deep_view(), s@),
{
    let mut i: usize = 0;
    while i < items.len()
        invariant
            i <= items.len(),
            items.deep_view().len() == items@.len(),
            forall|j: int| 0 <= j < i ==> items.deep_view()[j] != s@,
        decreases items.len() - i,
    {
        if str_eq(items[i].as_str(), s) {
            proof {
                assert(items.deep_view()[i as int] == items@[i as int]@);
                assert(spec_contains_str(items.deep_view(), s@));
            }
            return true;
        }
        i = i + 1;
    }
    false
}

/// Whether `a` and `b` share at least one string.
fn share_any(a: &Vec<String>, b: &Vec<String>) -> (r: bool)
    ensures
        r == spec_share_any(a.deep_view(), b.deep_view()),
{
    let mut i: usize = 0;
    while i < a.len()
        invariant
            i <= a.len(),
            a.deep_view().len() == a@.len(),
            forall|j: int| 0 <= j < i ==> !spec_contains_str(b.deep_view(), a.deep_view()[j]),
        decreases a.len() - i,
    {
        if vec_contains_str(b, a[i].as_str()) {
            proof {
                assert(0 <= i < a.deep_view().len() && spec_contains_str(
                    b.deep_view(),
                    a.deep_view()[i as int],
                ));
            }
            return true;
        }
        i = i + 1;
    }
    false
}

/// Whether some language of `a` and some language of `b` fall into the same
/// family.
fn share_family(a: &Vec<String>, b: &Vec<String>) -> (r: bool)
    ensures
        r == spec_share_family(a.deep_view(), b.deep_view()),
{
    let mut i: usize = 0;
    while i < a.len()
        invariant
            i <= a.len(),
            a.deep_view().len() == a@.len(),
            b.deep_view().len() == b@.len(),
            forall|x: int, y: int|
                0 <= x < i && 0 <= y < b.deep_view().len() ==> spec_lang_family(
                    a.deep_view()[x],
                ) != spec_lang_family(b.deep_view()[y]),
        decreases a.len() - i,
    {
        let family_a = lang_family(a[i].as_str());
        let mut j: usize = 0;
        while j < b.len()
            invariant
                i < a.len(),
                j <= b.len(),
                a.deep_view().len() == a@.len(),
                b.deep_view().len() == b@.len(),
                family_a@ == spec_lang_family(a.deep_view()[i as int]),
                forall|y: int|
                    0 <= y < j ==> spec_lang_family(a.deep_view()[i as int]) != spec_lang_family(
                        b.deep_view()[y],
                    ),
            decreases b.len() - j,
        {
            if str_eq(family_a, lang_family(b[j].as_str())) {
                proof {
                    assert(0 <= i < a.deep_view().len() && 0 <= j < b.deep_view().len()
                        && spec_lang_family(a.deep_view()[i as int]) == spec_lang_family(
                        b.deep_view()[j as int],
                    ));
                }
                return true;
            }
            j = j + 1;
        }
        i = i + 1;
    }
    false
}

/// The languages of the mode named `name` in `modes`, if one is named so.
pub open spec fn spec_mode_languages(
    modes: Seq<(Seq<char>, Seq<Seq<char>>)>,
    name: Seq<char>,
) -> Option<Seq<Seq<char>>>
    decreases modes.len(),
{
    if modes.len() == 0 {
        None
    } else if modes[0].0 == name {
        Some(modes[0].1)
    } else {
        spec_mode_languages(modes.drop_first(), name)
    }
}

/// The language set an entity effectively uses: the alternate set of the
/// selected deploy mode when one is selected and defined, the entity's
/// default set otherwise.
pub open spec fn spec_effective_languages(
    eco: EcosystemView,
    mode: Option<Seq<char>>,
) -> Seq<Seq<char>> {
    match (mode, eco.deploy_modes) {
        (Some(name), Some(modes)) => match spec_mode_languages(modes, name) {
            Some(languages) => languages,
            None => eco.languages,
        },
        _ => eco.languages,
    }
}

/// Gets the effective languages for an ecosystem given an optional deploy
/// mode. An unknown mode name silently falls back to the default language
/// set.
pub fn effective_languages<'a>(eco: &'a Ecosystem, mode: Option<&str>) -> (languages: &'a Vec<
    String,
>)
    ensures
        languages.deep_view() == spec_effective_languages(eco@, spec_mode_view(mode)),
{
    if let Some(mode_name) = mode {
        if let Some(modes) = &eco.deploy_modes {
            let ghost modes_view = eco@.deploy_modes.unwrap();
            proof {
                assert(modes_view.skip(0) =~= modes_view);
            }
            let mut i: usize = 0;
            while i < modes.len()
                invariant
                    i <= modes.len(),
                    spec_mode_view(mode) == Some(mode_name@),
                    eco@.deploy_modes == Some(modes_view),
                    modes_view == modes@.map_values(
                        |entry: (String, DeployMode)| (entry.0@, entry.1@),
                    ),
                    modes_view.len() == modes@.len(),
                    spec_mode_languages(modes_view, mode_name@) == spec_mode_languages(
                        modes_view.skip(i as int),
                        mode_name@,
                    ),
                decreases modes.len() - i,
            {
                if str_eq(modes[i].0.as_str(), mode_name) {
                    proof {
                        assert(modes_view.skip(i as int)[0] == modes_view[i as int]);
                        assert(modes_view[i as int] == (modes@[i as int].0@, modes@[i as int].1@));
                        assert(spec_mode_languages(modes_view.skip(i as int), mode_name@) == Some(
                            modes_view[i as int].1,
                        ));
                        assert(modes@[i as int].1@ == modes@[i as int].1.languages.deep_view());
                        assert(spec_effective_languages(eco@, spec_mode_view(mode))
                            == modes_view[i as int].1);
                    }
                    return &modes[i].1.languages;
                }
                proof {
                    assert(modes_view.skip(i as int).drop_first() =~= modes_view.skip(i + 1));
                }
                i = i + 1;
            }
            proof {
                assert(modes_view.skip(i as int).len() == 0);
            }
        }
    }
    &eco.languages
}

/// Language distance. 0 when any language is shared verbatim; 3000 when no
/// language is shared but some language families overlap; 10000 otherwise.
pub open spec fn spec_language_distance(
    src: EcosystemView,
    dst: EcosystemView,
    src_mode: Option<Seq<char>>,
    dst_mode: Option<Seq<char>>,
) -> int {
    let src_langs = spec_effective_languages(src, src_mode);
    let dst_langs = spec_effective_languages(dst, dst_mode);
    if spec_share_any(src_langs, dst_langs) {
        0
    } else if spec_share_family(src_langs, dst_langs) {
        3000
    } else {
        10000
    }
}

/// Language distance between the two entities' effective language sets.
pub fn language_distance(
    src: &Ecosystem,
    dst: &Ecosystem,
    src_mode: Option<&str>,
    dst_mode: Option<&str>,
) -> (d: u32)
    ensures
        d == spec_language_distance(src@, dst@, spec_mode_view(src_mode), spec_mode_view(dst_mode)),
{
    let src_langs = effective_languages(src, src_mode);
    let dst_langs = effective_languages(dst, dst_mode);
    if share_any(src_langs, dst_langs) {
        0
    } else if share_family(src_langs, dst_langs) {
        3000
    } else {
        10000
    }
}

/// VM distance. 0 for the identical VM string; 2000 within one VM group;
/// 3000 between the hybrid `"evm-plus-pvm"` group and the `"evm"` or
/// `"wasm"` group; 10000 otherwise (in particular whenever either side is a
/// `"da-layer"` or `"xrpl-native"` engine, which has no general-purpose VM).
pub open spec fn spec_vm_distance(src: EcosystemView, dst: EcosystemView) -> int {
    if src.vm == dst.vm {
        0
    } else {
        let sg = spec_vm_group(src.vm);
        let dg = spec_vm_group(dst.vm);
        if sg == dg {
            2000
        } else if (sg == "evm-plus-pvm"@ && (dg == "evm"@ || dg == "wasm"@)) || (dg
            == "evm-plus-pvm"@ && (sg == "evm"@ || sg == "wasm"@)) {
            3000
        } else {
            10000
        }
    }
}

/// VM distance between the two entities' execution engines.
pub fn vm_distance(src: &Ecosystem, dst: &Ecosystem) -> (d: u32)
    ensures
        d == spec_vm_distance(src@, dst@),
{
    if str_eq(src.vm.as_str(), dst.vm.as_str()) {
        return 0;
    }
    let sg = vm_group(src.vm.as_str());
    let dg = vm_group(dst.vm.as_str());
    if str_eq(sg, dg) {
        return 2000;
    }
    // The hybrid engine group overlaps with both the EVM and the Wasm groups.
    if (str_eq(sg, "evm-plus-pvm") && (str_eq(dg, "evm") || str_eq(dg, "wasm"))) || (str_eq(
        dg,
        "evm-plus-pvm",
    ) && (str_eq(sg, "evm") || str_eq(sg, "wasm"))) {
        return 3000;
    }
    // A DA layer or the XRPL has no general-purpose VM - always a big gap,
    // like any other pair of unrelated groups.
    10000
}

/// Transaction-model distance. 0 for the identical tag; 1500 within the
/// account family; 6000 between the account family and eUTXO; 5000 between
/// the account family and the object-centric model; 8000 when either side
/// is the actor model; 7000 otherwise.
pub open spec fn spec_transaction_model_distance(src: EcosystemView, dst: EcosystemView) -> int {
    if src.transaction_model == dst.transaction_model {
        0
    } else if spec_is_account_family(src.transaction_model) && spec_is_account_family(
        dst.transaction_model,
    ) {
        1500
    } else if (spec_is_account_family(src.transaction_model) && dst.transaction_model == "eUTXO"@)
        || (src.transaction_model == "eUTXO"@ && spec_is_account_family(dst.transaction_model)) {
        6000
    } else if (spec_is_account_family(src.transaction_model) && dst.transaction_model
        == "object-centric"@) || (src.transaction_model == "object-centric"@
        && spec_is_account_family(dst.transaction_model)) {
        5000
    } else if src.transaction_model == "actor"@ || dst.transaction_model == "actor"@ {
        8000
    } else {
        7000
    }
}

/// Transaction-model distance between the two entities' state paradigms.
pub fn transaction_model_distance(src: &Ecosystem, dst: &Ecosystem) -> (d: u32)
    ensures
        d == spec_transaction_model_distance(src@, dst@),
{
    if str_eq(src.transaction_model.as_str(), dst.transaction_model.as_str()) {
        return 0;
    }
    let src_account = is_account_family(src.transaction_model.as_str());
    let dst_account = is_account_family(dst.transaction_model.as_str());
    // Account variants are close.
    if src_account && dst_account {
        return 1500;
    }
    // eUTXO <-> account is a moderate paradigm shift.
    if (src_account && str_eq(dst.transaction_model.as_str(), "eUTXO")) || (str_eq(
        src.transaction_model.as_str(),
        "eUTXO",
    ) && dst_account) {
        return 6000;
    }
    // Object-centric <-> account is moderate.
    if (src_account && str_eq(dst.transaction_model.as_str(), "object-centric")) || (str_eq(
        src.transaction_model.as_str(),
        "object-centric",
    ) && dst_account) {
        return 5000;
    }
    // Actor <-> anything else is significant.
    if str_eq(src.transaction_model.as_str(), "actor") || str_eq(
        dst.transaction_model.as_str(),
        "actor",
    ) {
        return 8000;
    }
    7000
}

/// The EVM-compatibility rank of a tag: native 0, supported 1, none 2.
pub open spec fn spec_evm_rank(compatibility: Seq<char>) -> int {
    if compatibility == "native"@ {
        0
    } else if compatibility == "supported"@ {
        1
    } else {
        2
    }
}

/// EVM-compatibility distance. 0 for equal ranks; 2000 between native and
/// supported; 10000 between the EVM world (rank 0 or 1) and the non-EVM
/// world (rank 2); 5000 otherwise.
pub open spec fn spec_evm_compat_distance(src: EcosystemView, dst: EcosystemView) -> int {
    let sr = spec_evm_rank(src.evm_compatibility);
    let dr = spec_evm_rank(dst.evm_compatibility);
    if sr == dr {
        0
    } else if sr <= 1 && dr <= 1 {
        2000
    } else if (sr <= 1 && dr == 2) || (sr == 2 && dr <= 1) {
        10000
    } else {
        5000
    }
}

/// The EVM-compatibility rank of a tag: native 0, supported 1, none 2.
fn evm_rank(compatibility: &str) -> (rank: u8)
    ensures
        rank == spec_evm_rank(compatibility@),
{
    if str_eq(compatibility, "native") {
        0
    } else if str_eq(compatibility, "supported") {
        1
    } else {
        2
    }
}

/// EVM-compatibility distance: moving between EVM-native chains is trivial,
/// moving from the EVM world to the non-EVM world (or vice versa) is a
/// penalty.
pub fn evm_compat_distance(src: &Ecosystem, dst: &Ecosystem) -> (d: u32)
    ensures
        d == spec_evm_compat_distance(src@, dst@),
{
    let sr = evm_rank(src.evm_compatibility.as_str());
    let dr = evm_rank(dst.evm_compatibility.as_str());
    if sr == dr {
        return 0;
    }
    // Native <-> supported is a small gap.
    if sr <= 1 && dr <= 1 {
        return 2000;
    }
    // EVM world <-> non-EVM world.
    if (sr <= 1 && dr == 2) || (sr == 2 && dr <= 1) {
        return 10000;
    }
    5000
}

/// Deployment-model distance. 0 when the deployment-option sets intersect;
/// 8000 between a side offering `"sidechain"` and a side offering
/// `"contract"`; 9000 when either side offers `"sidechain"` otherwise; 7000
/// between a contract side and an appchain-only side; 5000 otherwise.
pub open spec fn spec_deploy_model_distance(src: EcosystemView, dst: EcosystemView) -> int {
    let a = src.deployment_options;
    let b = dst.deployment_options;
    if spec_share_any(a, b) {
        0
    } else if (spec_contains_str(a, "sidechain"@) && spec_contains_str(b, "contract"@)) || (
    spec_contains_str(a, "contract"@) && spec_contains_str(b, "sidechain"@)) {
        8000
    } else if spec_contains_str(a, "sidechain"@) || spec_contains_str(b, "sidechain"@) {
        9000
    } else if (spec_contains_str(a, "contract"@) && spec_contains_str(b, "appchain"@)
        && !spec_contains_str(b, "contract"@)) || (spec_contains_str(a, "appchain"@)
        && spec_contains_str(b, "contract"@) && !spec_contains_str(b, "appchain"@)) {
        7000
    } else {
        5000
    }
}

/// Deployment-model distance: measures how different the "what you ship"
/// is.
pub fn deploy_model_distance(src: &Ecosystem, dst: &Ecosystem) -> (d: u32)
    ensures
        d == spec_deploy_model_distance(src@, dst@),
{
    // Any shared deployment option = familiar territory.
    if share_any(&src.deployment_options, &dst.deployment_options) {
        return 0;
    }
    // Sidechains are penalized heavily: separate validator set, bridge trust
    // assumptions, not a native solution. Worse than appchain/rollup
    // transitions since L2s and appchains inherit or extend L1 security.
    if (vec_contains_str(&src.deployment_options, "sidechain") && vec_contains_str(
        &dst.deployment_options,
        "contract",
    )) || (vec_contains_str(&src.deployment_options, "contract") && vec_contains_str(
        &dst.deployment_options,
        "sidechain",
    )) {
        return 8000;
    }
    if vec_contains_str(&src.deployment_options, "sidechain") || vec_contains_str(
        &dst.deployment_options,
        "sidechain",
    ) {
        return 9000;
    }
    // Contract-only <-> appchain-only is a big shift; contract <-> rollup is
    // moderate.
    if (vec_contains_str(&src.deployment_options, "contract") && vec_contains_str(
        &dst.deployment_options,
        "appchain",
    ) && !vec_contains_str(&dst.deployment_options, "contract")) || (vec_contains_str(
        &src.deployment_options,
        "appchain",
    ) && vec_contains_str(&dst.deployment_options, "contract") && !vec_contains_str(
        &dst.deployment_options,
        "appchain",
    )) {
        return 7000;
    }
    5000
}

/// Destination tooling difficulty: directional, reads only the
/// destination's tooling-maturity rating.
pub open spec fn spec_dest_tooling_difficulty(dst: EcosystemView) -> int {
    (5 - dst.tooling_maturity) * 2500
}

/// Destination tooling difficulty; a top rating costs nothing, the lowest
/// rating costs the full scale.
pub fn dest_tooling_difficulty(dst: &Ecosystem) -> (d: u32)
    requires
        1 <= dst.tooling_maturity <= 5,
    ensures
        d == spec_dest_tooling_difficulty(dst@),
{
    (5 - dst.tooling_maturity as u32) * 2500
}

/// Destination documentation difficulty: directional, reads only the
/// destination's documentation-quality rating.
pub open spec fn spec_dest_docs_difficulty(dst: EcosystemView) -> int {
    (5 - dst.doc_quality) * 2500
}

/// Destination documentation difficulty.
pub fn dest_docs_difficulty(dst: &Ecosystem) -> (d: u32)
    requires
        1 <= dst.doc_quality <= 5,
    ensures
        d == spec_dest_docs_difficulty(dst@),
{
    (5 - dst.doc_quality as u32) * 2500
}

/// Destination funding difficulty: directional, reads only the
/// destination's ecosystem-funding rating.
pub open spec fn spec_dest_funding_difficulty(dst: EcosystemView) -> int {
    (5 - dst.ecosystem_funding) * 2500
}

/// Destination funding difficulty.
pub fn dest_funding_difficulty(dst: &Ecosystem) -> (d: u32)
    requires
        1 <= dst.ecosystem_funding <= 5,
    ensures
        d == spec_dest_funding_difficulty(dst@),
{
    (5 - dst.ecosystem_funding as u32) * 2500
}

/// L2-maturity gap: the absolute difference of the two entities' ratings,
/// spread over the full scale.
pub open spec fn spec_l2_gap(src: EcosystemView, dst: EcosystemView) -> int {
    if src.l2_maturity >= dst.l2_maturity {
        (src.l2_maturity - dst.l2_maturity) * 2500
    } else {
        (dst.l2_maturity - src.l2_maturity) * 2500
    }
}

/// L2-maturity gap between the two entities.
pub fn l2_gap(src: &Ecosystem, dst: &Ecosystem) -> (d: u32)
    requires
        1 <= src.l2_maturity <= 5,
        1 <= dst.l2_maturity <= 5,
    ensures
        d == spec_l2_gap(src@, dst@),
{
    let diff: u32 = if src.l2_maturity >= dst.l2_maturity {
        (src.l2_maturity - dst.l2_maturity) as u32
    } else {
        (dst.l2_maturity - src.l2_maturity) as u32
    };
    diff * 2500
}

/// Every dimension distance lies between 0 and the full scale, in steps of
/// a hundredth of the scale.
pub proof fn lemma_distance_bounds(
    src: EcosystemView,
    dst: EcosystemView,
    src_mode: Option<Seq<char>>,
    dst_mode: Option<Seq<char>>,
)
    requires
        src.wf(),
        dst.wf(),
    ensures
        0 <= spec_language_distance(src, dst, src_mode, dst_mode) <= 10000,
        spec_language_distance(src, dst, src_mode, dst_mode) % 100 == 0,
        0 <= spec_vm_distance(src, dst) <= 10000,
        spec_vm_distance(src, dst) % 100 == 0,
        0 <= spec_transaction_model_distance(src, dst) <= 10000,
        spec_transaction_model_distance(src, dst) % 100 == 0,
        0 <= spec_evm_compat_distance(src, dst) <= 10000,
        spec_evm_compat_distance(src, dst) % 100 == 0,
        0 <= spec_deploy_model_distance(src, dst) <= 10000,
        spec_deploy_model_distance(src, dst) % 100 == 0,
        0 <= spec_dest_tooling_difficulty(dst) <= 10000,
        spec_dest_tooling_difficulty(dst) % 100 == 0,
        0 <= spec_dest_docs_difficulty(dst) <= 10000,
        spec_dest_docs_difficulty(dst) % 100 == 0,
        0 <= spec_l2_gap(src, dst) <= 10000,
        spec_l2_gap(src, dst) % 100 == 0,
        0 <= spec_dest_funding_difficulty(dst) <= 10000,
        spec_dest_funding_difficulty(dst) % 100 == 0,
{
}

} // verus!
