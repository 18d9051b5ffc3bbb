//! Protocol types that events carry.

use vstd::prelude::*;
use soroban_sdk::{Address, Symbol};
use crate::host::is_short_symbol;

verus! {

/// Credit tier derived from a 0–100 risk score (AAA is the lowest risk).
#[derive(Clone, Copy, Debug, PartialEq, Eq, Structural)]
pub enum RiskTier {
    AAA,
    AA,
    A,
    B,
    C,
}

/// The variant name of a tier, which is how a contract enum's unit variant
/// is encoded on the ledger.
pub open spec fn tier_name(t: RiskTier) -> Seq<char> {
    match t {
        RiskTier::AAA => seq!['A', 'A', 'A'],
        RiskTier::AA => seq!['A', 'A'],
        RiskTier::A => seq!['A'],
        RiskTier::B => seq!['B'],
        RiskTier::C => seq!['C'],
    }
}

impl RiskTier {
    /// The variant name of this tier.
    pub fn name(self) -> (r: &'static str)
        ensures
            r@ == tier_name(self),
            is_short_symbol(r@),
    {
        match self {
            RiskTier::AAA => {
                proof { reveal_strlit("AAA"); }
                "AAA"
            },
            RiskTier::AA => {
                proof { reveal_strlit("AA"); }
                "AA"
            },
            RiskTier::A => {
                proof { reveal_strlit("A"); }
                "A"
            },
            RiskTier::B => {
                proof { reveal_strlit("B"); }
                "B"
            },
            RiskTier::C => {
                proof { reveal_strlit("C"); }
                "C"
            },
        }
    }
}

/// One entry of the admin audit trail: the `sequence`-th admin-gated call,
/// made by `actor`, naming the `action` taken and the `source` contract
/// area it was taken in, at ledger time `timestamp`.
pub struct AdminAuditEntry {
    pub sequence: u64,
    pub actor: Address,
    pub action: Symbol,
    pub source: Symbol,
    pub timestamp: u64,
}

} // verus!
