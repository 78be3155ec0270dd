//! Category classifiers: total lookup functions that collapse raw
//! categorical attribute strings into coarser equivalence classes, used to
//! detect near-matches that are not exact matches. Every input maps to some
//! class; unmapped values fall into an explicit fallback class.

use crate::text::str_eq;
use vstd::prelude::*;

verus! {

/// The family of a programming-language name; unmapped languages fall into
/// `"other"`.
pub open spec fn spec_lang_family(lang: Seq<char>) -> Seq<char> {
    if lang == "Solidity"@ || lang == "Vyper"@ || lang == "Huff"@ || lang == "Cairo"@ {
        "evm-adjacent"@
    } else if lang == "Rust"@ {
        "rust"@
    } else if lang == "Go"@ || lang == "Golang"@ {
        "go"@
    } else if lang == "C++"@ || lang == "C"@ {
        "c-family"@
    } else if lang == "TypeScript"@ || lang == "JavaScript"@ || lang == "AssemblyScript"@ {
        "js-family"@
    } else if lang == "Move"@ || lang == "Sui Move"@ || lang == "Aptos Move"@ {
        "move"@
    } else if lang == "Tolk"@ || lang == "Tact"@ || lang == "FunC"@ || lang == "FunC (legacy)"@ {
        "ton-native"@
    } else if lang == "Aiken"@ || lang == "Plinth"@ || lang == "OpShin"@ {
        "cardano-native"@
    } else if lang == "Compact"@ {
        "zk-native"@
    } else {
        "other"@
    }
}

/// Maps a language string to its family for fuzzy matching.
pub fn lang_family(lang: &str) -> (family: &'static str)
    ensures
        family@ == spec_lang_family(lang@),
{
    if str_eq(lang, "Solidity") || str_eq(lang, "Vyper") || str_eq(lang, "Huff") || str_eq(
        lang,
        "Cairo",
    ) {
        "evm-adjacent"
    } else if str_eq(lang, "Rust") {
        "rust"
    } else if str_eq(lang, "Go") || str_eq(lang, "Golang") {
        "go"
    } else if str_eq(lang, "C++") || str_eq(lang, "C") {
        "c-family"
    } else if str_eq(lang, "TypeScript") || str_eq(lang, "JavaScript") || str_eq(
        lang,
        "AssemblyScript",
    ) {
        "js-family"
    } else if str_eq(lang, "Move") || str_eq(lang, "Sui Move") || str_eq(lang, "Aptos Move") {
        "move"
    } else if str_eq(lang, "Tolk") || str_eq(lang, "Tact") || str_eq(lang, "FunC") || str_eq(
        lang,
        "FunC (legacy)",
    ) {
        "ton-native"
    } else if str_eq(lang, "Aiken") || str_eq(lang, "Plinth") || str_eq(lang, "OpShin") {
        "cardano-native"
    } else if str_eq(lang, "Compact") {
        "zk-native"
    } else {
        "other"
    }
}

/// The compatibility group of an execution-engine identifier; the sentinel
/// groups `"da-layer"` and `"xrpl-native"` stand for engines with no
/// general-purpose VM, and unmapped engines fall into `"other"`.
pub open spec fn spec_vm_group(vm: Seq<char>) -> Seq<char> {
    if vm == "EVM"@ || vm == "EVM / Subnet-EVM"@ || vm == "zkEVM"@ {
        "evm"@
    } else if vm == "PolkaVM/EVM"@ {
        "evm-plus-pvm"@
    } else if vm == "CosmWasm"@ || vm == "NearVM"@ || vm == "Soroban (Wasmi)"@ {
        "wasm"@
    } else if vm == "SVM (sBPF)"@ {
        "svm"@
    } else if vm == "Sui MoveVM"@ || vm == "MoveVM + Block-STM"@ {
        "move"@
    } else if vm == "TVM"@ {
        "tvm"@
    } else if vm == "CairoVM (STARK)"@ {
        "cairo"@
    } else if vm == "Plutus VM (UPLC)"@ {
        "plutus"@
    } else if vm == "ZK Circuit VM"@ {
        "zk-circuit"@
    } else if vm == "N/A (DA layer)"@ {
        "da-layer"@
    } else if vm == "XRPL Native"@ {
        "xrpl-native"@
    } else {
        "other"@
    }
}

/// Categorizes a VM string into a compatibility group.
pub fn vm_group(vm: &str) -> (group: &'static str)
    ensures
        group@ == spec_vm_group(vm@),
{
    if str_eq(vm, "EVM") || str_eq(vm, "EVM / Subnet-EVM") || str_eq(vm, "zkEVM") {
        "evm"
    } else if str_eq(vm, "PolkaVM/EVM") {
        "evm-plus-pvm"
    } else if str_eq(vm, "CosmWasm") || str_eq(vm, "NearVM") || str_eq(vm, "Soroban (Wasmi)") {
        "wasm"
    } else if str_eq(vm, "SVM (sBPF)") {
        "svm"
    } else if str_eq(vm, "Sui MoveVM") || str_eq(vm, "MoveVM + Block-STM") {
        "move"
    } else if str_eq(vm, "TVM") {
        "tvm"
    } else if str_eq(vm, "CairoVM (STARK)") {
        "cairo"
    } else if str_eq(vm, "Plutus VM (UPLC)") {
        "plutus"
    } else if str_eq(vm, "ZK Circuit VM") {
        "zk-circuit"
    } else if str_eq(vm, "N/A (DA layer)") {
        "da-layer"
    } else if str_eq(vm, "XRPL Native") {
        "xrpl-native"
    } else {
        "other"
    }
}

/// Whether a transaction-model tag belongs to the account family.
pub open spec fn spec_is_account_family(model: Seq<char>) -> bool {
    model == "account"@ || model == "account-resource"@
}

/// Tests membership of a transaction-model tag in the account family.
pub fn is_account_family(model: &str) -> (r: bool)
    ensures
        r == spec_is_account_family(model@),
{
    str_eq(model, "account") || str_eq(model, "account-resource")
}

} // verus!
