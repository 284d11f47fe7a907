//! Runestones: the etching and minting messages that the canister puts in
//! an OP_RETURN output.
use vstd::prelude::*;

verus! {

/// The mint terms of an etched rune.
#[derive(Debug, Clone, Copy, PartialEq, Eq)]
pub struct TermsData {
    pub amount: Option<u128>,
    pub cap: Option<u128>,
    pub height: (Option<u64>, Option<u64>),
    pub offset: (Option<u64>, Option<u64>),
}

/// The etching of a new rune.
#[derive(Debug, Clone, Copy, PartialEq, Eq)]
pub struct EtchingData {
    pub divisibility: Option<u8>,
    pub premine: Option<u128>,
    pub rune: Option<u128>,
    pub spacers: Option<u32>,
    pub symbol: Option<char>,
    pub terms: Option<TermsData>,
    pub turbo: bool,
}

/// A runestone without edicts: an etching, a mint, and the output that
/// unallocated runes go to.
#[derive(Debug, Clone, Copy, PartialEq, Eq)]
pub struct RunestoneData {
    pub etching: Option<EtchingData>,
    pub mint: Option<(u64, u32)>,
    pub pointer: Option<u32>,
}

} // verus!
