//! The platform entity under migration comparison, together with its
//! mathematical model.

use vstd::prelude::*;

verus! {

/// An alternate language set used when one particular deployment shape of an
/// ecosystem is selected. Owned exclusively by its parent [`Ecosystem`].
#[derive(Clone, PartialEq)]
pub struct DeployMode {
    pub languages: Vec<String>,
}

impl View for DeployMode {
    type V = Seq<Seq<char>>;

    open spec fn view(&self) -> Seq<Seq<char>> {
        self.languages.deep_view()
    }
}

/// A named platform being migrated to or from. Immutable once loaded.
///
/// The ordinal ratings (`l2_maturity`, `tooling_maturity`, `doc_quality`,
/// `ecosystem_funding`) sit on a fixed 1-to-5 scale; see
/// [`EcosystemView::wf`].
#[derive(Clone, PartialEq)]
pub struct Ecosystem {
    pub id: String,
    pub name: String,
    pub short: String,
    pub languages: Vec<String>,
    pub vm: String,
    pub transaction_model: String,
    pub evm_compatibility: String,
    pub deployment_options: Vec<String>,
    pub chain_layer: String,
    pub l2_maturity: u8,
    pub consensus: String,
    pub tooling_maturity: u8,
    pub tooling: Vec<String>,
    pub doc_quality: u8,
    pub ecosystem_funding: u8,
    pub deploy_modes: Option<Vec<(String, DeployMode)>>,
}

/// The mathematical model of an [`Ecosystem`]: each string as a sequence of
/// characters, each list as a sequence, each optional mode table as a
/// sequence of (mode name, language set) pairs.
#[verifier::ext_equal]
pub ghost struct EcosystemView {
    pub id: Seq<char>,
    pub name: Seq<char>,
    pub short: Seq<char>,
    pub languages: Seq<Seq<char>>,
    pub vm: Seq<char>,
    pub transaction_model: Seq<char>,
    pub evm_compatibility: Seq<char>,
    pub deployment_options: Seq<Seq<char>>,
    pub chain_layer: Seq<char>,
    pub l2_maturity: u8,
    pub consensus: Seq<char>,
    pub tooling_maturity: u8,
    pub tooling: Seq<Seq<char>>,
    pub doc_quality: u8,
    pub ecosystem_funding: u8,
    pub deploy_modes: Option<Seq<(Seq<char>, Seq<Seq<char>>)>>,
}

impl View for Ecosystem {
    type V = EcosystemView;

    open spec fn view(&self) -> EcosystemView {
        EcosystemView {
            id: self.id@,
            name: self.name@,
            short: self.short@,
            languages: self.languages.deep_view(),
            vm: self.vm@,
            transaction_model: self.transaction_model@,
            evm_compatibility: self.evm_compatibility@,
            deployment_options: self.deployment_options.deep_view(),
            chain_layer: self.chain_layer@,
            l2_maturity: self.l2_maturity,
            consensus: self.consensus@,
            tooling_maturity: self.tooling_maturity,
            tooling: self.tooling.deep_view(),
            doc_quality: self.doc_quality,
            ecosystem_funding: self.ecosystem_funding,
            deploy_modes: match &self.deploy_modes {
                Some(modes) => Some(
                    modes@.map_values(|entry: (String, DeployMode)| (entry.0@, entry.1@)),
                ),
                None => None,
            },
        }
    }
}

impl EcosystemView {
    /// A valid loaded entity: every ordinal rating sits on the 1-to-5 scale,
    /// and the deploy-mode table, if present, is a mapping (its names are
    /// pairwise distinct).
    pub open spec fn wf(self) -> bool {
        &&& 1 <= self.l2_maturity <= 5
        &&& 1 <= self.tooling_maturity <= 5
        &&& 1 <= self.doc_quality <= 5
        &&& 1 <= self.ecosystem_funding <= 5
        &&& match self.deploy_modes {
            Some(modes) => forall|i: int, j: int|
                0 <= i < j < modes.len() ==> modes[i].0 != modes[j].0,
            None => true,
        }
    }
}

impl Ecosystem {
    /// A valid loaded entity; see [`EcosystemView::wf`].
    pub open spec fn wf(&self) -> bool {
        self@.wf()
    }
}

} // verus!
