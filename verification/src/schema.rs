//! The event schema of the protocol: for every kind of event, its topic and
//! the fields of its payload, in order.
//!
//! The canonical payload convention is
//! `(actor, subject, ..., amount, ledger_timestamp)`: the address that acts
//! comes first and the ledger close time last.  System events have no actor,
//! and events keyed by a proposal id or an audit sequence number put that key
//! ahead of the actor.  The laws at the end of this file state these rules
//! over every event.

use vstd::prelude::*;
use soroban_sdk::{Address, Bytes, BytesN, Symbol};
use crate::host::{is_short_symbol, is_symbol_char};
use crate::types::{AdminAuditEntry, RiskTier};

verus! {

/// One field of an event payload.
pub enum EventField {
    Addr(Address),
    U32(u32),
    U64(u64),
    I128(i128),
    Sym(Symbol),
    Bytes(Bytes),
    Hash(BytesN<32>),
    U64List(soroban_sdk::Vec<u64>),
    Tier(RiskTier),
}

/// The kinds of event the protocol publishes, one per topic.
#[derive(Clone, Copy, Debug, PartialEq, Eq, Structural)]
pub enum EventKind {
    InvoiceCreated,
    InvoiceListed,
    InvoiceFunded,
    InvoiceRepaid,
    InvoiceDefaulted,
    InvoiceAmended,
    InvoiceWithdrawn,
    InvoiceBatchMinted,
    RiskScoreRefreshed,
    RepaymentMade,
    InstallmentPaid,
    YieldDistributed,
    LatePenaltyApplied,
    ListingCancelled,
    ListingExpired,
    FeeCollected,
    FeeWithdrawn,
    EmergencyWithdrawn,
    FeeRateUpdated,
    ReferralFeePaid,
    TreasuryInitialized,
    ProtocolPaused,
    ProtocolUnpaused,
    TokenWhitelisted,
    TokenWhitelistRemoved,
    AdminTransferred,
    RoleGranted,
    RoleRevoked,
    PoolOpened,
    PositionRecorded,
    VerifierAdded,
    VerifierRemoved,
    SmeRegistered,
    SmeScoreUpdated,
    SmeDefaultRecorded,
    SmeInvoiceCountIncremented,
    DebtorScoreSet,
    RegistryInitialized,
    SubAccountAdded,
    SubAccountRemoved,
    UpgradeProposed,
    UpgradeExecuted,
    MultisigConfigured,
    ActionProposed,
    ActionApproved,
    ActionExecuted,
    RefundClaimed,
    PositionListedForSale,
    PositionSold,
    WithdrawalCapProposed,
    WithdrawalCapUpdated,
    SmeCreditLimitSet,
    InvoiceFrozen,
    InvoiceUnfrozen,
    CancellationRequested,
    DecayScheduleSet,
    BidSubmitted,
    BidAccepted,
    AdminActionAudited,
}

/// The topic under which each kind of event is published.
pub open spec fn topic_name(k: EventKind) -> Seq<char> {
    match k {
        EventKind::InvoiceCreated => seq!['I', 'N', 'V', '_', 'C', 'R', 'T'],
        EventKind::InvoiceListed => seq!['I', 'N', 'V', '_', 'L', 'S', 'T'],
        EventKind::InvoiceFunded => seq!['I', 'N', 'V', '_', 'F', 'N', 'D'],
        EventKind::InvoiceRepaid => seq!['I', 'N', 'V', '_', 'R', 'P', 'D'],
        EventKind::InvoiceDefaulted => seq!['I', 'N', 'V', '_', 'D', 'F', 'T'],
        EventKind::InvoiceAmended => seq!['I', 'N', 'V', '_', 'A', 'M', 'D'],
        EventKind::InvoiceWithdrawn => seq!['I', 'N', 'V', '_', 'W', 'T', 'H'],
        EventKind::InvoiceBatchMinted => seq!['I', 'N', 'V', '_', 'B', 'A', 'T', 'C', 'H'],
        EventKind::RiskScoreRefreshed => seq!['R', 'I', 'S', 'K', '_', 'R', 'F', 'S', 'H'],
        EventKind::RepaymentMade => seq!['R', 'E', 'P', 'A', 'Y'],
        EventKind::InstallmentPaid => seq!['I', 'N', 'S', 'T', 'L', '_', 'P', 'D'],
        EventKind::YieldDistributed => seq!['Y', 'I', 'E', 'L', 'D'],
        EventKind::LatePenaltyApplied => seq!['L', 'A', 'T', 'E', '_', 'P', 'E', 'N'],
        EventKind::ListingCancelled => seq!['L', 'S', 'T', '_', 'C', 'X', 'L'],
        EventKind::ListingExpired => seq!['L', 'S', 'T', '_', 'E', 'X', 'P'],
        EventKind::FeeCollected => seq!['T', 'R', 'E', 'S', '_', 'F', 'E', 'E'],
        EventKind::FeeWithdrawn => seq!['F', 'E', 'E', '_', 'W', 'T', 'H'],
        EventKind::EmergencyWithdrawn => seq!['E', 'M', 'R', 'G', '_', 'W', 'T', 'H'],
        EventKind::FeeRateUpdated => seq!['F', 'E', 'E', '_', 'U', 'P', 'D'],
        EventKind::ReferralFeePaid => seq!['R', 'E', 'F', '_', 'F', 'E', 'E'],
        EventKind::TreasuryInitialized => seq!['T', 'R', 'E', 'S', '_', 'I', 'N', 'I'],
        EventKind::ProtocolPaused => seq!['A', 'C', '_', 'P', 'A', 'U', 'S', 'E', 'D'],
        EventKind::ProtocolUnpaused => seq!['A', 'C', '_', 'U', 'N', 'P', 'A', 'U', 'S'],
        EventKind::TokenWhitelisted => seq!['T', 'O', 'K', '_', 'W', 'L'],
        EventKind::TokenWhitelistRemoved => seq!['T', 'O', 'K', '_', 'U', 'N', 'W', 'L'],
        EventKind::AdminTransferred => seq!['A', 'D', 'M', '_', 'T', 'R', 'F'],
        EventKind::RoleGranted => seq!['R', 'O', 'L', '_', 'G', 'R', 'T'],
        EventKind::RoleRevoked => seq!['R', 'O', 'L', '_', 'R', 'V', 'K'],
        EventKind::PoolOpened => seq!['P', 'O', 'O', 'L', '_', 'O', 'P', 'N'],
        EventKind::PositionRecorded => seq!['P', 'O', 'S', '_', 'R', 'E', 'C'],
        EventKind::VerifierAdded => seq!['V', 'R', 'F', '_', 'A', 'D', 'D'],
        EventKind::VerifierRemoved => seq!['V', 'R', 'F', '_', 'R', 'M', 'V'],
        EventKind::SmeRegistered => seq!['S', 'M', 'E', '_', 'R', 'E', 'G'],
        EventKind::SmeScoreUpdated => seq!['S', 'M', 'E', '_', 'S', 'C', 'U'],
        EventKind::SmeDefaultRecorded => seq!['S', 'M', 'E', '_', 'D', 'F', 'L', 'T'],
        EventKind::SmeInvoiceCountIncremented => seq!['S', 'M', 'E', '_', 'I', 'N', 'V', 'C'],
        EventKind::DebtorScoreSet => seq!['D', 'B', 'T', '_', 'S', 'C', 'R'],
        EventKind::RegistryInitialized => seq!['R', 'E', 'G', '_', 'I', 'N', 'I'],
        EventKind::SubAccountAdded => seq!['V', 'R', 'F', '_', 'S', 'A', 'D', 'D'],
        EventKind::SubAccountRemoved => seq!['V', 'R', 'F', '_', 'S', 'R', 'M', 'V'],
        EventKind::UpgradeProposed => seq!['A', 'C', '_', 'U', 'P', 'G', '_', 'P'],
        EventKind::UpgradeExecuted => seq!['A', 'C', '_', 'U', 'P', 'G', '_', 'E'],
        EventKind::MultisigConfigured => seq!['A', 'C', '_', 'M', 'S', 'I', 'G'],
        EventKind::ActionProposed => seq!['A', 'C', '_', 'A', 'C', 'T', '_', 'P'],
        EventKind::ActionApproved => seq!['A', 'C', '_', 'A', 'C', 'T', '_', 'A'],
        EventKind::ActionExecuted => seq!['A', 'C', '_', 'A', 'C', 'T', '_', 'E'],
        EventKind::RefundClaimed => seq!['R', 'F', 'N', 'D', '_', 'C', 'L', 'M'],
        EventKind::PositionListedForSale => seq!['P', 'O', 'S', '_', 'S', 'A', 'L', 'E'],
        EventKind::PositionSold => seq!['P', 'O', 'S', '_', 'S', 'O', 'L', 'D'],
        EventKind::WithdrawalCapProposed => seq!['W', 'T', 'H', '_', 'C', 'A', 'P', '_', 'P'],
        EventKind::WithdrawalCapUpdated => seq!['W', 'T', 'H', '_', 'C', 'A', 'P', '_', 'U'],
        EventKind::SmeCreditLimitSet => seq!['S', 'M', 'E', '_', 'C', 'L'],
        EventKind::InvoiceFrozen => seq!['I', 'N', 'V', '_', 'F', 'R', 'Z'],
        EventKind::InvoiceUnfrozen => seq!['I', 'N', 'V', '_', 'U', 'F', 'R', 'Z'],
        EventKind::CancellationRequested => seq!['C', 'X', 'L', '_', 'R', 'E', 'Q'],
        EventKind::DecayScheduleSet => seq!['D', 'E', 'C', 'A', 'Y', '_', 'S', 'E', 'T'],
        EventKind::BidSubmitted => seq!['B', 'I', 'D', '_', 'S', 'U', 'B', 'M'],
        EventKind::BidAccepted => seq!['B', 'I', 'D', '_', 'A', 'C', 'C', 'P'],
        EventKind::AdminActionAudited => seq!['A', 'D', 'M', '_', 'A', 'U', 'D', 'I', 'T'],
    }
}

/// Whether events of this kind are stamped with the ledger close time at
/// publication; the admin audit record carries the time stored in its entry
/// instead.
pub open spec fn is_ledger_stamped(k: EventKind) -> bool {
    k != EventKind::AdminActionAudited
}

impl EventKind {
    /// Whether events of this kind are stamped with the ledger close time.
    pub fn ledger_stamped(self) -> (r: bool)
        ensures
            r == is_ledger_stamped(self),
    {
        match self {
            EventKind::AdminActionAudited => false,
            _ => true,
        }
    }

    /// The topic of this kind of event; it always fits a small symbol.
    pub fn topic(self) -> (r: &'static str)
        ensures
            r@ == topic_name(self),
            is_short_symbol(r@),
    {
        proof { law_topic_is_short_symbol(self); }
        match self {
            EventKind::InvoiceCreated => {
                proof { reveal_strlit("INV_CRT"); }
                "INV_CRT"
            },
            EventKind::InvoiceListed => {
                proof { reveal_strlit("INV_LST"); }
                "INV_LST"
            },
            EventKind::InvoiceFunded => {
                proof { reveal_strlit("INV_FND"); }
                "INV_FND"
            },
            EventKind::InvoiceRepaid => {
                proof { reveal_strlit("INV_RPD"); }
                "INV_RPD"
            },
            EventKind::InvoiceDefaulted => {
                proof { reveal_strlit("INV_DFT"); }
                "INV_DFT"
            },
            EventKind::InvoiceAmended => {
                proof { reveal_strlit("INV_AMD"); }
                "INV_AMD"
            },
            EventKind::InvoiceWithdrawn => {
                proof { reveal_strlit("INV_WTH"); }
                "INV_WTH"
            },
            EventKind::InvoiceBatchMinted => {
                proof { reveal_strlit("INV_BATCH"); }
                "INV_BATCH"
            },
            EventKind::RiskScoreRefreshed => {
                proof { reveal_strlit("RISK_RFSH"); }
                "RISK_RFSH"
            },
            EventKind::RepaymentMade => {
                proof { reveal_strlit("REPAY"); }
                "REPAY"
            },
            EventKind::InstallmentPaid => {
                proof { reveal_strlit("INSTL_PD"); }
                "INSTL_PD"
            },
            EventKind::YieldDistributed => {
                proof { reveal_strlit("YIELD"); }
                "YIELD"
            },
            EventKind::LatePenaltyApplied => {
                proof { reveal_strlit("LATE_PEN"); }
                "LATE_PEN"
            },
            EventKind::ListingCancelled => {
                proof { reveal_strlit("LST_CXL"); }
                "LST_CXL"
            },
            EventKind::ListingExpired => {
                proof { reveal_strlit("LST_EXP"); }
                "LST_EXP"
            },
            EventKind::FeeCollected => {
                proof { reveal_strlit("TRES_FEE"); }
                "TRES_FEE"
            },
            EventKind::FeeWithdrawn => {
                proof { reveal_strlit("FEE_WTH"); }
                "FEE_WTH"
            },
            EventKind::EmergencyWithdrawn => {
                proof { reveal_strlit("EMRG_WTH"); }
                "EMRG_WTH"
            },
            EventKind::FeeRateUpdated => {
                proof { reveal_strlit("FEE_UPD"); }
                "FEE_UPD"
            },
            EventKind::ReferralFeePaid => {
                proof { reveal_strlit("REF_FEE"); }
                "REF_FEE"
            },
            EventKind::TreasuryInitialized => {
                proof { reveal_strlit("TRES_INI"); }
                "TRES_INI"
            },
            EventKind::ProtocolPaused => {
                proof { reveal_strlit("AC_PAUSED"); }
                "AC_PAUSED"
            },
            EventKind::ProtocolUnpaused => {
                proof { reveal_strlit("AC_UNPAUS"); }
                "AC_UNPAUS"
            },
            EventKind::TokenWhitelisted => {
                proof { reveal_strlit("TOK_WL"); }
                "TOK_WL"
            },
            EventKind::TokenWhitelistRemoved => {
                proof { reveal_strlit("TOK_UNWL"); }
                "TOK_UNWL"
            },
            EventKind::AdminTransferred => {
                proof { reveal_strlit("ADM_TRF"); }
                "ADM_TRF"
            },
            EventKind::RoleGranted => {
                proof { reveal_strlit("ROL_GRT"); }
                "ROL_GRT"
            },
            EventKind::RoleRevoked => {
                proof { reveal_strlit("ROL_RVK"); }
                "ROL_RVK"
            },
            EventKind::PoolOpened => {
                proof { reveal_strlit("POOL_OPN"); }
                "POOL_OPN"
            },
            EventKind::PositionRecorded => {
                proof { reveal_strlit("POS_REC"); }
                "POS_REC"
            },
            EventKind::VerifierAdded => {
                proof { reveal_strlit("VRF_ADD"); }
                "VRF_ADD"
            },
            EventKind::VerifierRemoved => {
                proof { reveal_strlit("VRF_RMV"); }
                "VRF_RMV"
            },
            EventKind::SmeRegistered => {
                proof { reveal_strlit("SME_REG"); }
                "SME_REG"
            },
            EventKind::SmeScoreUpdated => {
                proof { reveal_strlit("SME_SCU"); }
                "SME_SCU"
            },
            EventKind::SmeDefaultRecorded => {
                proof { reveal_strlit("SME_DFLT"); }
                "SME_DFLT"
            },
            EventKind::SmeInvoiceCountIncremented => {
                proof { reveal_strlit("SME_INVC"); }
                "SME_INVC"
            },
            EventKind::DebtorScoreSet => {
                proof { reveal_strlit("DBT_SCR"); }
                "DBT_SCR"
            },
            EventKind::RegistryInitialized => {
                proof { reveal_strlit("REG_INI"); }
                "REG_INI"
            },
            EventKind::SubAccountAdded => {
                proof { reveal_strlit("VRF_SADD"); }
                "VRF_SADD"
            },
            EventKind::SubAccountRemoved => {
                proof { reveal_strlit("VRF_SRMV"); }
                "VRF_SRMV"
            },
            EventKind::UpgradeProposed => {
                proof { reveal_strlit("AC_UPG_P"); }
                "AC_UPG_P"
            },
            EventKind::UpgradeExecuted => {
                proof { reveal_strlit("AC_UPG_E"); }
                "AC_UPG_E"
            },
            EventKind::MultisigConfigured => {
                proof { reveal_strlit("AC_MSIG"); }
                "AC_MSIG"
            },
            EventKind::ActionProposed => {
                proof { reveal_strlit("AC_ACT_P"); }
                "AC_ACT_P"
            },
            EventKind::ActionApproved => {
                proof { reveal_strlit("AC_ACT_A"); }
                "AC_ACT_A"
            },
            EventKind::ActionExecuted => {
                proof { reveal_strlit("AC_ACT_E"); }
                "AC_ACT_E"
            },
            EventKind::RefundClaimed => {
                proof { reveal_strlit("RFND_CLM"); }
                "RFND_CLM"
            },
            EventKind::PositionListedForSale => {
                proof { reveal_strlit("POS_SALE"); }
                "POS_SALE"
            },
            EventKind::PositionSold => {
                proof { reveal_strlit("POS_SOLD"); }
                "POS_SOLD"
            },
            EventKind::WithdrawalCapProposed => {
                proof { reveal_strlit("WTH_CAP_P"); }
                "WTH_CAP_P"
            },
            EventKind::WithdrawalCapUpdated => {
                proof { reveal_strlit("WTH_CAP_U"); }
                "WTH_CAP_U"
            },
            EventKind::SmeCreditLimitSet => {
                proof { reveal_strlit("SME_CL"); }
                "SME_CL"
            },
            EventKind::InvoiceFrozen => {
                proof { reveal_strlit("INV_FRZ"); }
                "INV_FRZ"
            },
            EventKind::InvoiceUnfrozen => {
                proof { reveal_strlit("INV_UFRZ"); }
                "INV_UFRZ"
            },
            EventKind::CancellationRequested => {
                proof { reveal_strlit("CXL_REQ"); }
                "CXL_REQ"
            },
            EventKind::DecayScheduleSet => {
                proof { reveal_strlit("DECAY_SET"); }
                "DECAY_SET"
            },
            EventKind::BidSubmitted => {
                proof { reveal_strlit("BID_SUBM"); }
                "BID_SUBM"
            },
            EventKind::BidAccepted => {
                proof { reveal_strlit("BID_ACCP"); }
                "BID_ACCP"
            },
            EventKind::AdminActionAudited => {
                proof { reveal_strlit("ADM_AUDIT"); }
                "ADM_AUDIT"
            },
        }
    }
}

/// An event, with the values its payload is made of (all but the ledger
/// close time, which is read when the event is published).
pub enum KoraEvent {
    InvoiceCreated { invoice_id: u64, sme: Address, amount: i128, currency: Symbol },
    InvoiceListed { invoice_id: u64, seller: Address, asking_price: i128, currency: Symbol },
    InvoiceFunded { invoice_id: u64, investor: Address, amount: i128, currency: Symbol },
    InvoiceRepaid { invoice_id: u64, sme: Address, amount: i128, currency: Symbol },
    InvoiceDefaulted { invoice_id: u64, actor: Address, amount: i128, currency: Symbol },
    InvoiceAmended { invoice_id: u64, sme: Address, currency: Symbol },
    InvoiceWithdrawn { invoice_id: u64, sme: Address, currency: Symbol },
    InvoiceBatchMinted { batch_id: u64, sme: Address, invoice_ids: soroban_sdk::Vec<u64> },
    RiskScoreRefreshed { invoice_id: u64, caller: Address, old_score: u32, new_score: u32, old_tier: RiskTier, new_tier: RiskTier },
    RepaymentMade { invoice_id: u64, payer: Address, amount: i128 },
    InstallmentPaid { invoice_id: u64, payer: Address, index: u32, amount: i128 },
    YieldDistributed { invoice_id: u64, investor: Address, yield_amount: i128 },
    LatePenaltyApplied { invoice_id: u64, penalty_amount: i128, total_owed: i128 },
    ListingCancelled { invoice_id: u64, seller: Address },
    ListingExpired { invoice_id: u64, seller: Address },
    FeeCollected { investor: Address, invoice_id: u64, fee_amount: i128, token: Address },
    FeeWithdrawn { actor: Address, token: Address, amount: i128 },
    EmergencyWithdrawn { by: Address, token: Address, amount: i128 },
    FeeRateUpdated { by: Address, old_bps: u32, new_bps: u32 },
    ReferralFeePaid { invoice_id: u64, referrer: Address, referral_fee: i128 },
    TreasuryInitialized { admin: Address, fee_bps: u32 },
    ProtocolPaused { by: Address },
    ProtocolUnpaused { by: Address },
    TokenWhitelisted { actor: Address, token: Address },
    TokenWhitelistRemoved { actor: Address, token: Address },
    AdminTransferred { actor: Address, new_admin: Address },
    RoleGranted { admin: Address, target: Address },
    RoleRevoked { admin: Address, target: Address },
    PoolOpened { marketplace: Address, invoice_id: u64, token: Address, face_value: i128 },
    PositionRecorded { admin: Address, invoice_id: u64, investor: Address, contributed: i128, share_bps: u32 },
    VerifierAdded { admin: Address, verifier: Address },
    VerifierRemoved { admin: Address, verifier: Address },
    SmeRegistered { verifier: Address, sme: Address, risk_score: u32 },
    SmeScoreUpdated { verifier: Address, sme: Address, new_score: u32 },
    SmeDefaultRecorded { admin: Address, sme: Address, total_defaults: u32 },
    SmeInvoiceCountIncremented { sme: Address, new_total: u32 },
    DebtorScoreSet { verifier: Address, debtor_hash: Bytes, score: u32 },
    RegistryInitialized { admin: Address, invoice_nft: Address },
    SubAccountAdded { primary: Address, sub_account: Address },
    SubAccountRemoved { primary: Address, sub_account: Address },
    UpgradeProposed { admin: Address, wasm_hash: BytesN<32> },
    UpgradeExecuted { admin: Address, wasm_hash: BytesN<32> },
    MultisigConfigured { threshold: u32, signer_count: u32 },
    ActionProposed { proposal_id: u64, proposer: Address },
    ActionApproved { proposal_id: u64, approver: Address, approval_count: u32 },
    ActionExecuted { proposal_id: u64, executor: Address },
    RefundClaimed { invoice_id: u64, investor: Address, amount: i128 },
    PositionListedForSale { invoice_id: u64, seller: Address, price: i128 },
    PositionSold { invoice_id: u64, seller: Address, buyer: Address, price: i128 },
    WithdrawalCapProposed { admin: Address, new_cap: i128 },
    WithdrawalCapUpdated { admin: Address, old_cap: i128, new_cap: i128 },
    SmeCreditLimitSet { verifier: Address, sme: Address, credit_limit: i128 },
    InvoiceFrozen { invoice_id: u64, admin: Address },
    InvoiceUnfrozen { invoice_id: u64, admin: Address },
    CancellationRequested { invoice_id: u64, caller: Address },
    DecayScheduleSet { invoice_id: u64, seller: Address, floor_price: i128, decay_end_ts: u64 },
    BidSubmitted { invoice_id: u64, investor: Address, bid_price: i128, amount: i128 },
    BidAccepted { invoice_id: u64, seller: Address, investor: Address, bid_price: i128, amount: i128 },
    AdminActionAudited { entry: AdminAuditEntry },
}

impl KoraEvent {
    /// The kind of this event.
    pub open spec fn kind(self) -> EventKind {
        match self {
            KoraEvent::InvoiceCreated { .. } => EventKind::InvoiceCreated,
            KoraEvent::InvoiceListed { .. } => EventKind::InvoiceListed,
            KoraEvent::InvoiceFunded { .. } => EventKind::InvoiceFunded,
            KoraEvent::InvoiceRepaid { .. } => EventKind::InvoiceRepaid,
            KoraEvent::InvoiceDefaulted { .. } => EventKind::InvoiceDefaulted,
            KoraEvent::InvoiceAmended { .. } => EventKind::InvoiceAmended,
            KoraEvent::InvoiceWithdrawn { .. } => EventKind::InvoiceWithdrawn,
            KoraEvent::InvoiceBatchMinted { .. } => EventKind::InvoiceBatchMinted,
            KoraEvent::RiskScoreRefreshed { .. } => EventKind::RiskScoreRefreshed,
            KoraEvent::RepaymentMade { .. } => EventKind::RepaymentMade,
            KoraEvent::InstallmentPaid { .. } => EventKind::InstallmentPaid,
            KoraEvent::YieldDistributed { .. } => EventKind::YieldDistributed,
            KoraEvent::LatePenaltyApplied { .. } => EventKind::LatePenaltyApplied,
            KoraEvent::ListingCancelled { .. } => EventKind::ListingCancelled,
            KoraEvent::ListingExpired { .. } => EventKind::ListingExpired,
            KoraEvent::FeeCollected { .. } => EventKind::FeeCollected,
            KoraEvent::FeeWithdrawn { .. } => EventKind::FeeWithdrawn,
            KoraEvent::EmergencyWithdrawn { .. } => EventKind::EmergencyWithdrawn,
            KoraEvent::FeeRateUpdated { .. } => EventKind::FeeRateUpdated,
            KoraEvent::ReferralFeePaid { .. } => EventKind::ReferralFeePaid,
            KoraEvent::TreasuryInitialized { .. } => EventKind::TreasuryInitialized,
            KoraEvent::ProtocolPaused { .. } => EventKind::ProtocolPaused,
            KoraEvent::ProtocolUnpaused { .. } => EventKind::ProtocolUnpaused,
            KoraEvent::TokenWhitelisted { .. } => EventKind::TokenWhitelisted,
            KoraEvent::TokenWhitelistRemoved { .. } => EventKind::TokenWhitelistRemoved,
            KoraEvent::AdminTransferred { .. } => EventKind::AdminTransferred,
            KoraEvent::RoleGranted { .. } => EventKind::RoleGranted,
            KoraEvent::RoleRevoked { .. } => EventKind::RoleRevoked,
            KoraEvent::PoolOpened { .. } => EventKind::PoolOpened,
            KoraEvent::PositionRecorded { .. } => EventKind::PositionRecorded,
            KoraEvent::VerifierAdded { .. } => EventKind::VerifierAdded,
            KoraEvent::VerifierRemoved { .. } => EventKind::VerifierRemoved,
            KoraEvent::SmeRegistered { .. } => EventKind::SmeRegistered,
            KoraEvent::SmeScoreUpdated { .. } => EventKind::SmeScoreUpdated,
            KoraEvent::SmeDefaultRecorded { .. } => EventKind::SmeDefaultRecorded,
            KoraEvent::SmeInvoiceCountIncremented { .. } => EventKind::SmeInvoiceCountIncremented,
            KoraEvent::DebtorScoreSet { .. } => EventKind::DebtorScoreSet,
            KoraEvent::RegistryInitialized { .. } => EventKind::RegistryInitialized,
            KoraEvent::SubAccountAdded { .. } => EventKind::SubAccountAdded,
            KoraEvent::SubAccountRemoved { .. } => EventKind::SubAccountRemoved,
            KoraEvent::UpgradeProposed { .. } => EventKind::UpgradeProposed,
            KoraEvent::UpgradeExecuted { .. } => EventKind::UpgradeExecuted,
            KoraEvent::MultisigConfigured { .. } => EventKind::MultisigConfigured,
            KoraEvent::ActionProposed { .. } => EventKind::ActionProposed,
            KoraEvent::ActionApproved { .. } => EventKind::ActionApproved,
            KoraEvent::ActionExecuted { .. } => EventKind::ActionExecuted,
            KoraEvent::RefundClaimed { .. } => EventKind::RefundClaimed,
            KoraEvent::PositionListedForSale { .. } => EventKind::PositionListedForSale,
            KoraEvent::PositionSold { .. } => EventKind::PositionSold,
            KoraEvent::WithdrawalCapProposed { .. } => EventKind::WithdrawalCapProposed,
            KoraEvent::WithdrawalCapUpdated { .. } => EventKind::WithdrawalCapUpdated,
            KoraEvent::SmeCreditLimitSet { .. } => EventKind::SmeCreditLimitSet,
            KoraEvent::InvoiceFrozen { .. } => EventKind::InvoiceFrozen,
            KoraEvent::InvoiceUnfrozen { .. } => EventKind::InvoiceUnfrozen,
            KoraEvent::CancellationRequested { .. } => EventKind::CancellationRequested,
            KoraEvent::DecayScheduleSet { .. } => EventKind::DecayScheduleSet,
            KoraEvent::BidSubmitted { .. } => EventKind::BidSubmitted,
            KoraEvent::BidAccepted { .. } => EventKind::BidAccepted,
            KoraEvent::AdminActionAudited { .. } => EventKind::AdminActionAudited,
        }
    }

    /// The address that the schema names as the event's actor, if it names
    /// one.
    pub open spec fn actor(self) -> Option<Address> {
        match self {
            KoraEvent::InvoiceCreated { sme, .. } => Some(sme),
            KoraEvent::InvoiceListed { seller, .. } => Some(seller),
            KoraEvent::InvoiceFunded { investor, .. } => Some(investor),
            KoraEvent::InvoiceRepaid { sme, .. } => Some(sme),
            KoraEvent::InvoiceDefaulted { actor, .. } => Some(actor),
            KoraEvent::InvoiceAmended { .. } => None,
            KoraEvent::InvoiceWithdrawn { .. } => None,
            KoraEvent::InvoiceBatchMinted { sme, .. } => Some(sme),
            KoraEvent::RiskScoreRefreshed { caller, .. } => Some(caller),
            KoraEvent::RepaymentMade { payer, .. } => Some(payer),
            KoraEvent::InstallmentPaid { payer, .. } => Some(payer),
            KoraEvent::YieldDistributed { investor, .. } => Some(investor),
            KoraEvent::LatePenaltyApplied { .. } => None,
            KoraEvent::ListingCancelled { seller, .. } => Some(seller),
            KoraEvent::ListingExpired { seller, .. } => Some(seller),
            KoraEvent::FeeCollected { investor, .. } => Some(investor),
            KoraEvent::FeeWithdrawn { actor, .. } => Some(actor),
            KoraEvent::EmergencyWithdrawn { by, .. } => Some(by),
            KoraEvent::FeeRateUpdated { by, .. } => Some(by),
            KoraEvent::ReferralFeePaid { .. } => None,
            KoraEvent::TreasuryInitialized { admin, .. } => Some(admin),
            KoraEvent::ProtocolPaused { by, .. } => Some(by),
            KoraEvent::ProtocolUnpaused { by, .. } => Some(by),
            KoraEvent::TokenWhitelisted { actor, .. } => Some(actor),
            KoraEvent::TokenWhitelistRemoved { actor, .. } => Some(actor),
            KoraEvent::AdminTransferred { actor, .. } => Some(actor),
            KoraEvent::RoleGranted { admin, .. } => Some(admin),
            KoraEvent::RoleRevoked { admin, .. } => Some(admin),
            KoraEvent::PoolOpened { marketplace, .. } => Some(marketplace),
            KoraEvent::PositionRecorded { admin, .. } => Some(admin),
            KoraEvent::VerifierAdded { admin, .. } => Some(admin),
            KoraEvent::VerifierRemoved { admin, .. } => Some(admin),
            KoraEvent::SmeRegistered { verifier, .. } => Some(verifier),
            KoraEvent::SmeScoreUpdated { verifier, .. } => Some(verifier),
            KoraEvent::SmeDefaultRecorded { admin, .. } => Some(admin),
            KoraEvent::SmeInvoiceCountIncremented { sme, .. } => Some(sme),
            KoraEvent::DebtorScoreSet { verifier, .. } => Some(verifier),
            KoraEvent::RegistryInitialized { admin, .. } => Some(admin),
            KoraEvent::SubAccountAdded { .. } => None,
            KoraEvent::SubAccountRemoved { .. } => None,
            KoraEvent::UpgradeProposed { admin, .. } => Some(admin),
            KoraEvent::UpgradeExecuted { admin, .. } => Some(admin),
            KoraEvent::MultisigConfigured { .. } => None,
            KoraEvent::ActionProposed { proposer, .. } => Some(proposer),
            KoraEvent::ActionApproved { approver, .. } => Some(approver),
            KoraEvent::ActionExecuted { executor, .. } => Some(executor),
            KoraEvent::RefundClaimed { investor, .. } => Some(investor),
            KoraEvent::PositionListedForSale { seller, .. } => Some(seller),
            KoraEvent::PositionSold { seller, .. } => Some(seller),
            KoraEvent::WithdrawalCapProposed { admin, .. } => Some(admin),
            KoraEvent::WithdrawalCapUpdated { admin, .. } => Some(admin),
            KoraEvent::SmeCreditLimitSet { verifier, .. } => Some(verifier),
            KoraEvent::InvoiceFrozen { admin, .. } => Some(admin),
            KoraEvent::InvoiceUnfrozen { admin, .. } => Some(admin),
            KoraEvent::CancellationRequested { caller, .. } => Some(caller),
            KoraEvent::DecayScheduleSet { seller, .. } => Some(seller),
            KoraEvent::BidSubmitted { investor, .. } => Some(investor),
            KoraEvent::BidAccepted { seller, .. } => Some(seller),
            KoraEvent::AdminActionAudited { entry } => Some(entry.actor),
        }
    }

    /// The payload of this event when published at ledger close time
    /// `ledger_timestamp`.
    pub open spec fn payload(self, ledger_timestamp: u64) -> Seq<EventField> {
        match self {
            KoraEvent::InvoiceCreated { invoice_id, sme, amount, currency } => seq![
                EventField::Addr(sme),
                EventField::U64(invoice_id),
                EventField::I128(amount),
                EventField::Sym(currency),
                EventField::U64(ledger_timestamp),
            ],
            KoraEvent::InvoiceListed { invoice_id, seller, asking_price, currency } => seq![
                EventField::Addr(seller),
                EventField::U64(invoice_id),
                EventField::I128(asking_price),
                EventField::Sym(currency),
                EventField::U64(ledger_timestamp),
            ],
            KoraEvent::InvoiceFunded { invoice_id, investor, amount, currency } => seq![
                EventField::Addr(investor),
                EventField::U64(invoice_id),
                EventField::I128(amount),
                EventField::Sym(currency),
                EventField::U64(ledger_timestamp),
            ],
            KoraEvent::InvoiceRepaid { invoice_id, sme, amount, currency } => seq![
                EventField::Addr(sme),
                EventField::U64(invoice_id),
                EventField::I128(amount),
                EventField::Sym(currency),
                EventField::U64(ledger_timestamp),
            ],
            KoraEvent::InvoiceDefaulted { invoice_id, actor, amount, currency } => seq![
                EventField::Addr(actor),
                EventField::U64(invoice_id),
                EventField::I128(amount),
                EventField::Sym(currency),
                EventField::U64(ledger_timestamp),
            ],
            KoraEvent::InvoiceAmended { invoice_id, sme, currency } => seq![
                EventField::U64(invoice_id),
                EventField::Addr(sme),
                EventField::Sym(currency),
                EventField::U64(ledger_timestamp),
            ],
            KoraEvent::InvoiceWithdrawn { invoice_id, sme, currency } => seq![
                EventField::U64(invoice_id),
                EventField::Addr(sme),
                EventField::Sym(currency),
                EventField::U64(ledger_timestamp),
            ],
            KoraEvent::InvoiceBatchMinted { batch_id, sme, invoice_ids } => seq![
                EventField::Addr(sme),
                EventField::U64(batch_id),
                EventField::U64List(invoice_ids),
                EventField::U64(ledger_timestamp),
            ],
            KoraEvent::RiskScoreRefreshed { invoice_id, caller, old_score, new_score, old_tier, new_tier } => seq![
                EventField::Addr(caller),
                EventField::U64(invoice_id),
                EventField::U32(old_score),
                EventField::U32(new_score),
                EventField::Tier(old_tier),
                EventField::Tier(new_tier),
                EventField::U64(ledger_timestamp),
            ],
            KoraEvent::RepaymentMade { invoice_id, payer, amount } => seq![
                EventField::Addr(payer),
                EventField::U64(invoice_id),
                EventField::I128(amount),
                EventField::U64(ledger_timestamp),
            ],
            KoraEvent::InstallmentPaid { invoice_id, payer, index, amount } => seq![
                EventField::Addr(payer),
                EventField::U64(invoice_id),
                EventField::U32(index),
                EventField::I128(amount),
                EventField::U64(ledger_timestamp),
            ],
            KoraEvent::YieldDistributed { invoice_id, investor, yield_amount } => seq![
                EventField::Addr(investor),
                EventField::U64(invoice_id),
                EventField::I128(yield_amount),
                EventField::U64(ledger_timestamp),
            ],
            KoraEvent::LatePenaltyApplied { invoice_id, penalty_amount, total_owed } => seq![
                EventField::U64(invoice_id),
                EventField::I128(penalty_amount),
                EventField::I128(total_owed),
                EventField::U64(ledger_timestamp),
            ],
            KoraEvent::ListingCancelled { invoice_id, seller } => seq![
                EventField::Addr(seller),
                EventField::U64(invoice_id),
                EventField::U64(ledger_timestamp),
            ],
            KoraEvent::ListingExpired { invoice_id, seller } => seq![
                EventField::Addr(seller),
                EventField::U64(invoice_id),
                EventField::U64(ledger_timestamp),
            ],
            KoraEvent::FeeCollected { investor, invoice_id, fee_amount, token } => seq![
                EventField::Addr(investor),
                EventField::U64(invoice_id),
                EventField::I128(fee_amount),
                EventField::Addr(token),
                EventField::U64(ledger_timestamp),
            ],
            KoraEvent::FeeWithdrawn { actor, token, amount } => seq![
                EventField::Addr(actor),
                EventField::Addr(token),
                EventField::I128(amount),
                EventField::U64(ledger_timestamp),
            ],
            KoraEvent::EmergencyWithdrawn { by, token, amount } => seq![
                EventField::Addr(by),
                EventField::Addr(token),
                EventField::I128(amount),
                EventField::U64(ledger_timestamp),
            ],
            KoraEvent::FeeRateUpdated { by, old_bps, new_bps } => seq![
                EventField::Addr(by),
                EventField::U32(old_bps),
                EventField::U32(new_bps),
                EventField::U64(ledger_timestamp),
            ],
            KoraEvent::ReferralFeePaid { invoice_id, referrer, referral_fee } => seq![
                EventField::U64(invoice_id),
                EventField::Addr(referrer),
                EventField::I128(referral_fee),
                EventField::U64(ledger_timestamp),
            ],
            KoraEvent::TreasuryInitialized { admin, fee_bps } => seq![
                EventField::Addr(admin),
                EventField::U32(fee_bps),
                EventField::U64(ledger_timestamp),
            ],
            KoraEvent::ProtocolPaused { by } => seq![
                EventField::Addr(by),
                EventField::U64(ledger_timestamp),
            ],
            KoraEvent::ProtocolUnpaused { by } => seq![
                EventField::Addr(by),
                EventField::U64(ledger_timestamp),
            ],
            KoraEvent::TokenWhitelisted { actor, token } => seq![
                EventField::Addr(actor),
                EventField::Addr(token),
                EventField::U64(ledger_timestamp),
            ],
            KoraEvent::TokenWhitelistRemoved { actor, token } => seq![
                EventField::Addr(actor),
                EventField::Addr(token),
                EventField::U64(ledger_timestamp),
            ],
            KoraEvent::AdminTransferred { actor, new_admin } => seq![
                EventField::Addr(actor),
                EventField::Addr(new_admin),
                EventField::U64(ledger_timestamp),
            ],
            KoraEvent::RoleGranted { admin, target } => seq![
                EventField::Addr(admin),
                EventField::Addr(target),
                EventField::U64(ledger_timestamp),
            ],
            KoraEvent::RoleRevoked { admin, target } => seq![
                EventField::Addr(admin),
                EventField::Addr(target),
                EventField::U64(ledger_timestamp),
            ],
            KoraEvent::PoolOpened { marketplace, invoice_id, token, face_value } => seq![
                EventField::Addr(marketplace),
                EventField::U64(invoice_id),
                EventField::Addr(token),
                EventField::I128(face_value),
                EventField::U64(ledger_timestamp),
            ],
            KoraEvent::PositionRecorded { admin, invoice_id, investor, contributed, share_bps } => seq![
                EventField::Addr(admin),
                EventField::U64(invoice_id),
                EventField::Addr(investor),
                EventField::I128(contributed),
                EventField::U32(share_bps),
                EventField::U64(ledger_timestamp),
            ],
            KoraEvent::VerifierAdded { admin, verifier } => seq![
                EventField::Addr(admin),
                EventField::Addr(verifier),
                EventField::U64(ledger_timestamp),
            ],
            KoraEvent::VerifierRemoved { admin, verifier } => seq![
                EventField::Addr(admin),
                EventField::Addr(verifier),
                EventField::U64(ledger_timestamp),
            ],
            KoraEvent::SmeRegistered { verifier, sme, risk_score } => seq![
                EventField::Addr(verifier),
                EventField::Addr(sme),
                EventField::U32(risk_score),
                EventField::U64(ledger_timestamp),
            ],
            KoraEvent::SmeScoreUpdated { verifier, sme, new_score } => seq![
                EventField::Addr(verifier),
                EventField::Addr(sme),
                EventField::U32(new_score),
                EventField::U64(ledger_timestamp),
            ],
            KoraEvent::SmeDefaultRecorded { admin, sme, total_defaults } => seq![
                EventField::Addr(admin),
                EventField::Addr(sme),
                EventField::U32(total_defaults),
                EventField::U64(ledger_timestamp),
            ],
            KoraEvent::SmeInvoiceCountIncremented { sme, new_total } => seq![
                EventField::Addr(sme),
                EventField::U32(new_total),
                EventField::U64(ledger_timestamp),
            ],
            KoraEvent::DebtorScoreSet { verifier, debtor_hash, score } => seq![
                EventField::Addr(verifier),
                EventField::Bytes(debtor_hash),
                EventField::U32(score),
                EventField::U64(ledger_timestamp),
            ],
            KoraEvent::RegistryInitialized { admin, invoice_nft } => seq![
                EventField::Addr(admin),
                EventField::Addr(invoice_nft),
                EventField::U64(ledger_timestamp),
            ],
            KoraEvent::SubAccountAdded { primary, sub_account } => seq![
                EventField::Addr(primary),
                EventField::Addr(sub_account),
                EventField::U64(ledger_timestamp),
            ],
            KoraEvent::SubAccountRemoved { primary, sub_account } => seq![
                EventField::Addr(primary),
                EventField::Addr(sub_account),
                EventField::U64(ledger_timestamp),
            ],
            KoraEvent::UpgradeProposed { admin, wasm_hash } => seq![
                EventField::Addr(admin),
                EventField::Hash(wasm_hash),
                EventField::U64(ledger_timestamp),
            ],
            KoraEvent::UpgradeExecuted { admin, wasm_hash } => seq![
                EventField::Addr(admin),
                EventField::Hash(wasm_hash),
                EventField::U64(ledger_timestamp),
            ],
            KoraEvent::MultisigConfigured { threshold, signer_count } => seq![
                EventField::U32(threshold),
                EventField::U32(signer_count),
                EventField::U64(ledger_timestamp),
            ],
            KoraEvent::ActionProposed { proposal_id, proposer } => seq![
                EventField::U64(proposal_id),
                EventField::Addr(proposer),
                EventField::U64(ledger_timestamp),
            ],
            KoraEvent::ActionApproved { proposal_id, approver, approval_count } => seq![
                EventField::U64(proposal_id),
                EventField::Addr(approver),
                EventField::U32(approval_count),
                EventField::U64(ledger_timestamp),
            ],
            KoraEvent::ActionExecuted { proposal_id, executor } => seq![
                EventField::U64(proposal_id),
                EventField::Addr(executor),
                EventField::U64(ledger_timestamp),
            ],
            KoraEvent::RefundClaimed { invoice_id, investor, amount } => seq![
                EventField::Addr(investor),
                EventField::U64(invoice_id),
                EventField::I128(amount),
                EventField::U64(ledger_timestamp),
            ],
            KoraEvent::PositionListedForSale { invoice_id, seller, price } => seq![
                EventField::Addr(seller),
                EventField::U64(invoice_id),
                EventField::I128(price),
                EventField::U64(ledger_timestamp),
            ],
            KoraEvent::PositionSold { invoice_id, seller, buyer, price } => seq![
                EventField::Addr(seller),
                EventField::U64(invoice_id),
                EventField::Addr(buyer),
                EventField::I128(price),
                EventField::U64(ledger_timestamp),
            ],
            KoraEvent::WithdrawalCapProposed { admin, new_cap } => seq![
                EventField::Addr(admin),
                EventField::I128(new_cap),
                EventField::U64(ledger_timestamp),
            ],
            KoraEvent::WithdrawalCapUpdated { admin, old_cap, new_cap } => seq![
                EventField::Addr(admin),
                EventField::I128(old_cap),
                EventField::I128(new_cap),
                EventField::U64(ledger_timestamp),
            ],
            KoraEvent::SmeCreditLimitSet { verifier, sme, credit_limit } => seq![
                EventField::Addr(verifier),
                EventField::Addr(sme),
                EventField::I128(credit_limit),
                EventField::U64(ledger_timestamp),
            ],
            KoraEvent::InvoiceFrozen { invoice_id, admin } => seq![
                EventField::Addr(admin),
                EventField::U64(invoice_id),
                EventField::U64(ledger_timestamp),
            ],
            KoraEvent::InvoiceUnfrozen { invoice_id, admin } => seq![
                EventField::Addr(admin),
                EventField::U64(invoice_id),
                EventField::U64(ledger_timestamp),
            ],
            KoraEvent::CancellationRequested { invoice_id, caller } => seq![
                EventField::Addr(caller),
                EventField::U64(invoice_id),
                EventField::U64(ledger_timestamp),
            ],
            KoraEvent::DecayScheduleSet { invoice_id, seller, floor_price, decay_end_ts } => seq![
                EventField::Addr(seller),
                EventField::U64(invoice_id),
                EventField::I128(floor_price),
                EventField::U64(decay_end_ts),
                EventField::U64(ledger_timestamp),
            ],
            KoraEvent::BidSubmitted { invoice_id, investor, bid_price, amount } => seq![
                EventField::Addr(investor),
                EventField::U64(invoice_id),
                EventField::I128(bid_price),
                EventField::I128(amount),
                EventField::U64(ledger_timestamp),
            ],
            KoraEvent::BidAccepted { invoice_id, seller, investor, bid_price, amount } => seq![
                EventField::Addr(seller),
                EventField::U64(invoice_id),
                EventField::Addr(investor),
                EventField::I128(bid_price),
                EventField::I128(amount),
                EventField::U64(ledger_timestamp),
            ],
            KoraEvent::AdminActionAudited { entry } => seq![
                EventField::U64(entry.sequence),
                EventField::Addr(entry.actor),
                EventField::Sym(entry.action),
                EventField::Sym(entry.source),
                EventField::U64(entry.timestamp),
            ],
        }
    }

    /// The kind of this event.
    pub fn event_kind(&self) -> (k: EventKind)
        ensures
            k == self.kind(),
    {
        match self {
            KoraEvent::InvoiceCreated { .. } => EventKind::InvoiceCreated,
            KoraEvent::InvoiceListed { .. } => EventKind::InvoiceListed,
            KoraEvent::InvoiceFunded { .. } => EventKind::InvoiceFunded,
            KoraEvent::InvoiceRepaid { .. } => EventKind::InvoiceRepaid,
            KoraEvent::InvoiceDefaulted { .. } => EventKind::InvoiceDefaulted,
            KoraEvent::InvoiceAmended { .. } => EventKind::InvoiceAmended,
            KoraEvent::InvoiceWithdrawn { .. } => EventKind::InvoiceWithdrawn,
            KoraEvent::InvoiceBatchMinted { .. } => EventKind::InvoiceBatchMinted,
            KoraEvent::RiskScoreRefreshed { .. } => EventKind::RiskScoreRefreshed,
            KoraEvent::RepaymentMade { .. } => EventKind::RepaymentMade,
            KoraEvent::InstallmentPaid { .. } => EventKind::InstallmentPaid,
            KoraEvent::YieldDistributed { .. } => EventKind::YieldDistributed,
            KoraEvent::LatePenaltyApplied { .. } => EventKind::LatePenaltyApplied,
            KoraEvent::ListingCancelled { .. } => EventKind::ListingCancelled,
            KoraEvent::ListingExpired { .. } => EventKind::ListingExpired,
            KoraEvent::FeeCollected { .. } => EventKind::FeeCollected,
            KoraEvent::FeeWithdrawn { .. } => EventKind::FeeWithdrawn,
            KoraEvent::EmergencyWithdrawn { .. } => EventKind::EmergencyWithdrawn,
            KoraEvent::FeeRateUpdated { .. } => EventKind::FeeRateUpdated,
            KoraEvent::ReferralFeePaid { .. } => EventKind::ReferralFeePaid,
            KoraEvent::TreasuryInitialized { .. } => EventKind::TreasuryInitialized,
            KoraEvent::ProtocolPaused { .. } => EventKind::ProtocolPaused,
            KoraEvent::ProtocolUnpaused { .. } => EventKind::ProtocolUnpaused,
            KoraEvent::TokenWhitelisted { .. } => EventKind::TokenWhitelisted,
            KoraEvent::TokenWhitelistRemoved { .. } => EventKind::TokenWhitelistRemoved,
            KoraEvent::AdminTransferred { .. } => EventKind::AdminTransferred,
            KoraEvent::RoleGranted { .. } => EventKind::RoleGranted,
            KoraEvent::RoleRevoked { .. } => EventKind::RoleRevoked,
            KoraEvent::PoolOpened { .. } => EventKind::PoolOpened,
            KoraEvent::PositionRecorded { .. } => EventKind::PositionRecorded,
            KoraEvent::VerifierAdded { .. } => EventKind::VerifierAdded,
            KoraEvent::VerifierRemoved { .. } => EventKind::VerifierRemoved,
            KoraEvent::SmeRegistered { .. } => EventKind::SmeRegistered,
            KoraEvent::SmeScoreUpdated { .. } => EventKind::SmeScoreUpdated,
            KoraEvent::SmeDefaultRecorded { .. } => EventKind::SmeDefaultRecorded,
            KoraEvent::SmeInvoiceCountIncremented { .. } => EventKind::SmeInvoiceCountIncremented,
            KoraEvent::DebtorScoreSet { .. } => EventKind::DebtorScoreSet,
            KoraEvent::RegistryInitialized { .. } => EventKind::RegistryInitialized,
            KoraEvent::SubAccountAdded { .. } => EventKind::SubAccountAdded,
            KoraEvent::SubAccountRemoved { .. } => EventKind::SubAccountRemoved,
            KoraEvent::UpgradeProposed { .. } => EventKind::UpgradeProposed,
            KoraEvent::UpgradeExecuted { .. } => EventKind::UpgradeExecuted,
            KoraEvent::MultisigConfigured { .. } => EventKind::MultisigConfigured,
            KoraEvent::ActionProposed { .. } => EventKind::ActionProposed,
            KoraEvent::ActionApproved { .. } => EventKind::ActionApproved,
            KoraEvent::ActionExecuted { .. } => EventKind::ActionExecuted,
            KoraEvent::RefundClaimed { .. } => EventKind::RefundClaimed,
            KoraEvent::PositionListedForSale { .. } => EventKind::PositionListedForSale,
            KoraEvent::PositionSold { .. } => EventKind::PositionSold,
            KoraEvent::WithdrawalCapProposed { .. } => EventKind::WithdrawalCapProposed,
            KoraEvent::WithdrawalCapUpdated { .. } => EventKind::WithdrawalCapUpdated,
            KoraEvent::SmeCreditLimitSet { .. } => EventKind::SmeCreditLimitSet,
            KoraEvent::InvoiceFrozen { .. } => EventKind::InvoiceFrozen,
            KoraEvent::InvoiceUnfrozen { .. } => EventKind::InvoiceUnfrozen,
            KoraEvent::CancellationRequested { .. } => EventKind::CancellationRequested,
            KoraEvent::DecayScheduleSet { .. } => EventKind::DecayScheduleSet,
            KoraEvent::BidSubmitted { .. } => EventKind::BidSubmitted,
            KoraEvent::BidAccepted { .. } => EventKind::BidAccepted,
            KoraEvent::AdminActionAudited { .. } => EventKind::AdminActionAudited,
        }
    }

    /// Builds the payload of this event for ledger close time
    /// `ledger_timestamp`.
    pub fn into_payload(self, ledger_timestamp: u64) -> (r: Vec<EventField>)
        ensures
            r@ == self.payload(ledger_timestamp),
    {
        match self {
            KoraEvent::InvoiceCreated { invoice_id, sme, amount, currency } => vec![
                EventField::Addr(sme),
                EventField::U64(invoice_id),
                EventField::I128(amount),
                EventField::Sym(currency),
                EventField::U64(ledger_timestamp),
            ],
            KoraEvent::InvoiceListed { invoice_id, seller, asking_price, currency } => vec![
                EventField::Addr(seller),
                EventField::U64(invoice_id),
                EventField::I128(asking_price),
                EventField::Sym(currency),
                EventField::U64(ledger_timestamp),
            ],
            KoraEvent::InvoiceFunded { invoice_id, investor, amount, currency } => vec![
                EventField::Addr(investor),
                EventField::U64(invoice_id),
                EventField::I128(amount),
                EventField::Sym(currency),
                EventField::U64(ledger_timestamp),
            ],
            KoraEvent::InvoiceRepaid { invoice_id, sme, amount, currency } => vec![
                EventField::Addr(sme),
                EventField::U64(invoice_id),
                EventField::I128(amount),
                EventField::Sym(currency),
                EventField::U64(ledger_timestamp),
            ],
            KoraEvent::InvoiceDefaulted { invoice_id, actor, amount, currency } => vec![
                EventField::Addr(actor),
                EventField::U64(invoice_id),
                EventField::I128(amount),
                EventField::Sym(currency),
                EventField::U64(ledger_timestamp),
            ],
            KoraEvent::InvoiceAmended { invoice_id, sme, currency } => vec![
                EventField::U64(invoice_id),
                EventField::Addr(sme),
                EventField::Sym(currency),
                EventField::U64(ledger_timestamp),
            ],
            KoraEvent::InvoiceWithdrawn { invoice_id, sme, currency } => vec![
                EventField::U64(invoice_id),
                EventField::Addr(sme),
                EventField::Sym(currency),
                EventField::U64(ledger_timestamp),
            ],
            KoraEvent::InvoiceBatchMinted { batch_id, sme, invoice_ids } => vec![
                EventField::Addr(sme),
                EventField::U64(batch_id),
                EventField::U64List(invoice_ids),
                EventField::U64(ledger_timestamp),
            ],
            KoraEvent::RiskScoreRefreshed { invoice_id, caller, old_score, new_score, old_tier, new_tier } => vec![
                EventField::Addr(caller),
                EventField::U64(invoice_id),
                EventField::U32(old_score),
                EventField::U32(new_score),
                EventField::Tier(old_tier),
                EventField::Tier(new_tier),
                EventField::U64(ledger_timestamp),
            ],
            KoraEvent::RepaymentMade { invoice_id, payer, amount } => vec![
                EventField::Addr(payer),
                EventField::U64(invoice_id),
                EventField::I128(amount),
                EventField::U64(ledger_timestamp),
            ],
            KoraEvent::InstallmentPaid { invoice_id, payer, index, amount } => vec![
                EventField::Addr(payer),
                EventField::U64(invoice_id),
                EventField::U32(index),
                EventField::I128(amount),
                EventField::U64(ledger_timestamp),
            ],
            KoraEvent::YieldDistributed { invoice_id, investor, yield_amount } => vec![
                EventField::Addr(investor),
                EventField::U64(invoice_id),
                EventField::I128(yield_amount),
                EventField::U64(ledger_timestamp),
            ],
            KoraEvent::LatePenaltyApplied { invoice_id, penalty_amount, total_owed } => vec![
                EventField::U64(invoice_id),
                EventField::I128(penalty_amount),
                EventField::I128(total_owed),
                EventField::U64(ledger_timestamp),
            ],
            KoraEvent::ListingCancelled { invoice_id, seller } => vec![
                EventField::Addr(seller),
                EventField::U64(invoice_id),
                EventField::U64(ledger_timestamp),
            ],
            KoraEvent::ListingExpired { invoice_id, seller } => vec![
                EventField::Addr(seller),
                EventField::U64(invoice_id),
                EventField::U64(ledger_timestamp),
            ],
            KoraEvent::FeeCollected { investor, invoice_id, fee_amount, token } => vec![
                EventField::Addr(investor),
                EventField::U64(invoice_id),
                EventField::I128(fee_amount),
                EventField::Addr(token),
                EventField::U64(ledger_timestamp),
            ],
            KoraEvent::FeeWithdrawn { actor, token, amount } => vec![
                EventField::Addr(actor),
                EventField::Addr(token),
                EventField::I128(amount),
                EventField::U64(ledger_timestamp),
            ],
            KoraEvent::EmergencyWithdrawn { by, token, amount } => vec![
                EventField::Addr(by),
                EventField::Addr(token),
                EventField::I128(amount),
                EventField::U64(ledger_timestamp),
            ],
            KoraEvent::FeeRateUpdated { by, old_bps, new_bps } => vec![
                EventField::Addr(by),
                EventField::U32(old_bps),
                EventField::U32(new_bps),
                EventField::U64(ledger_timestamp),
            ],
            KoraEvent::ReferralFeePaid { invoice_id, referrer, referral_fee } => vec![
                EventField::U64(invoice_id),
                EventField::Addr(referrer),
                EventField::I128(referral_fee),
                EventField::U64(ledger_timestamp),
            ],
            KoraEvent::TreasuryInitialized { admin, fee_bps } => vec![
                EventField::Addr(admin),
                EventField::U32(fee_bps),
                EventField::U64(ledger_timestamp),
            ],
            KoraEvent::ProtocolPaused { by } => vec![
                EventField::Addr(by),
                EventField::U64(ledger_timestamp),
            ],
            KoraEvent::ProtocolUnpaused { by } => vec![
                EventField::Addr(by),
                EventField::U64(ledger_timestamp),
            ],
            KoraEvent::TokenWhitelisted { actor, token } => vec![
                EventField::Addr(actor),
                EventField::Addr(token),
                EventField::U64(ledger_timestamp),
            ],
            KoraEvent::TokenWhitelistRemoved { actor, token } => vec![
                EventField::Addr(actor),
                EventField::Addr(token),
                EventField::U64(ledger_timestamp),
            ],
            KoraEvent::AdminTransferred { actor, new_admin } => vec![
                EventField::Addr(actor),
                EventField::Addr(new_admin),
                EventField::U64(ledger_timestamp),
            ],
            KoraEvent::RoleGranted { admin, target } => vec![
                EventField::Addr(admin),
                EventField::Addr(target),
                EventField::U64(ledger_timestamp),
            ],
            KoraEvent::RoleRevoked { admin, target } => vec![
                EventField::Addr(admin),
                EventField::Addr(target),
                EventField::U64(ledger_timestamp),
            ],
            KoraEvent::PoolOpened { marketplace, invoice_id, token, face_value } => vec![
                EventField::Addr(marketplace),
                EventField::U64(invoice_id),
                EventField::Addr(token),
                EventField::I128(face_value),
                EventField::U64(ledger_timestamp),
            ],
            KoraEvent::PositionRecorded { admin, invoice_id, investor, contributed, share_bps } => vec![
                EventField::Addr(admin),
                EventField::U64(invoice_id),
                EventField::Addr(investor),
                EventField::I128(contributed),
                EventField::U32(share_bps),
                EventField::U64(ledger_timestamp),
            ],
            KoraEvent::VerifierAdded { admin, verifier } => vec![
                EventField::Addr(admin),
                EventField::Addr(verifier),
                EventField::U64(ledger_timestamp),
            ],
            KoraEvent::VerifierRemoved { admin, verifier } => vec![
                EventField::Addr(admin),
                EventField::Addr(verifier),
                EventField::U64(ledger_timestamp),
            ],
            KoraEvent::SmeRegistered { verifier, sme, risk_score } => vec![
                EventField::Addr(verifier),
                EventField::Addr(sme),
                EventField::U32(risk_score),
                EventField::U64(ledger_timestamp),
            ],
            KoraEvent::SmeScoreUpdated { verifier, sme, new_score } => vec![
                EventField::Addr(verifier),
                EventField::Addr(sme),
                EventField::U32(new_score),
                EventField::U64(ledger_timestamp),
            ],
            KoraEvent::SmeDefaultRecorded { admin, sme, total_defaults } => vec![
                EventField::Addr(admin),
                EventField::Addr(sme),
                EventField::U32(total_defaults),
                EventField::U64(ledger_timestamp),
            ],
            KoraEvent::SmeInvoiceCountIncremented { sme, new_total } => vec![
                EventField::Addr(sme),
                EventField::U32(new_total),
                EventField::U64(ledger_timestamp),
            ],
            KoraEvent::DebtorScoreSet { verifier, debtor_hash, score } => vec![
                EventField::Addr(verifier),
                EventField::Bytes(debtor_hash),
                EventField::U32(score),
                EventField::U64(ledger_timestamp),
            ],
            KoraEvent::RegistryInitialized { admin, invoice_nft } => vec![
                EventField::Addr(admin),
                EventField::Addr(invoice_nft),
                EventField::U64(ledger_timestamp),
            ],
            KoraEvent::SubAccountAdded { primary, sub_account } => vec![
                EventField::Addr(primary),
                EventField::Addr(sub_account),
                EventField::U64(ledger_timestamp),
            ],
            KoraEvent::SubAccountRemoved { primary, sub_account } => vec![
                EventField::Addr(primary),
                EventField::Addr(sub_account),
                EventField::U64(ledger_timestamp),
            ],
            KoraEvent::UpgradeProposed { admin, wasm_hash } => vec![
                EventField::Addr(admin),
                EventField::Hash(wasm_hash),
                EventField::U64(ledger_timestamp),
            ],
            KoraEvent::UpgradeExecuted { admin, wasm_hash } => vec![
                EventField::Addr(admin),
                EventField::Hash(wasm_hash),
                EventField::U64(ledger_timestamp),
            ],
            KoraEvent::MultisigConfigured { threshold, signer_count } => vec![
                EventField::U32(threshold),
                EventField::U32(signer_count),
                EventField::U64(ledger_timestamp),
            ],
            KoraEvent::ActionProposed { proposal_id, proposer } => vec![
                EventField::U64(proposal_id),
                EventField::Addr(proposer),
                EventField::U64(ledger_timestamp),
            ],
            KoraEvent::ActionApproved { proposal_id, approver, approval_count } => vec![
                EventField::U64(proposal_id),
                EventField::Addr(approver),
                EventField::U32(approval_count),
                EventField::U64(ledger_timestamp),
            ],
            KoraEvent::ActionExecuted { proposal_id, executor } => vec![
                EventField::U64(proposal_id),
                EventField::Addr(executor),
                EventField::U64(ledger_timestamp),
            ],
            KoraEvent::RefundClaimed { invoice_id, investor, amount } => vec![
                EventField::Addr(investor),
                EventField::U64(invoice_id),
                EventField::I128(amount),
                EventField::U64(ledger_timestamp),
            ],
            KoraEvent::PositionListedForSale { invoice_id, seller, price } => vec![
                EventField::Addr(seller),
                EventField::U64(invoice_id),
                EventField::I128(price),
                EventField::U64(ledger_timestamp),
            ],
            KoraEvent::PositionSold { invoice_id, seller, buyer, price } => vec![
                EventField::Addr(seller),
                EventField::U64(invoice_id),
                EventField::Addr(buyer),
                EventField::I128(price),
                EventField::U64(ledger_timestamp),
            ],
            KoraEvent::WithdrawalCapProposed { admin, new_cap } => vec![
                EventField::Addr(admin),
                EventField::I128(new_cap),
                EventField::U64(ledger_timestamp),
            ],
            KoraEvent::WithdrawalCapUpdated { admin, old_cap, new_cap } => vec![
                EventField::Addr(admin),
                EventField::I128(old_cap),
                EventField::I128(new_cap),
                EventField::U64(ledger_timestamp),
            ],
            KoraEvent::SmeCreditLimitSet { verifier, sme, credit_limit } => vec![
                EventField::Addr(verifier),
                EventField::Addr(sme),
                EventField::I128(credit_limit),
                EventField::U64(ledger_timestamp),
            ],
            KoraEvent::InvoiceFrozen { invoice_id, admin } => vec![
                EventField::Addr(admin),
                EventField::U64(invoice_id),
                EventField::U64(ledger_timestamp),
            ],
            KoraEvent::InvoiceUnfrozen { invoice_id, admin } => vec![
                EventField::Addr(admin),
                EventField::U64(invoice_id),
                EventField::U64(ledger_timestamp),
            ],
            KoraEvent::CancellationRequested { invoice_id, caller } => vec![
                EventField::Addr(caller),
                EventField::U64(invoice_id),
                EventField::U64(ledger_timestamp),
            ],
            KoraEvent::DecayScheduleSet { invoice_id, seller, floor_price, decay_end_ts } => vec![
                EventField::Addr(seller),
                EventField::U64(invoice_id),
                EventField::I128(floor_price),
                EventField::U64(decay_end_ts),
                EventField::U64(ledger_timestamp),
            ],
            KoraEvent::BidSubmitted { invoice_id, investor, bid_price, amount } => vec![
                EventField::Addr(investor),
                EventField::U64(invoice_id),
                EventField::I128(bid_price),
                EventField::I128(amount),
                EventField::U64(ledger_timestamp),
            ],
            KoraEvent::BidAccepted { invoice_id, seller, investor, bid_price, amount } => vec![
                EventField::Addr(seller),
                EventField::U64(invoice_id),
                EventField::Addr(investor),
                EventField::I128(bid_price),
                EventField::I128(amount),
                EventField::U64(ledger_timestamp),
            ],
            KoraEvent::AdminActionAudited { entry } => vec![
                EventField::U64(entry.sequence),
                EventField::Addr(entry.actor),
                EventField::Sym(entry.action),
                EventField::Sym(entry.source),
                EventField::U64(entry.timestamp),
            ],
        }
    }
}

/// The topic and the payload under which `event` is published at ledger
/// close time `ledger_timestamp`.
pub fn published_form(event: KoraEvent, ledger_timestamp: u64) -> (r: (&'static str, Vec<EventField>))
    ensures
        r.0@ == topic_name(event.kind()),
        is_short_symbol(r.0@),
        r.1@ == event.payload(ledger_timestamp),
{
    let topic = event.event_kind().topic();
    (topic, event.into_payload(ledger_timestamp))
}

// ── Laws of the schema ───────────────────────────────────────────────────────

/// Every topic fits a small symbol: at most nine characters, each from
/// `a-zA-Z0-9_`.
pub proof fn law_topic_is_short_symbol(k: EventKind)
    ensures
        is_short_symbol(topic_name(k)),
{
}

/// The `i`-th character of `s` as a number, or 0 past its end.
spec fn char_code(s: Seq<char>, i: int) -> int {
    if 0 <= i < s.len() {
        s[i] as int
    } else {
        0
    }
}

/// A number that tells apart any two strings of at most nine characters
/// below 128 (it packs the length and the characters).
spec fn short_code(s: Seq<char>) -> int {
    s.len() + 16 * (char_code(s, 0) + 128 * (char_code(s, 1) + 128 * (char_code(s, 2) + 128 * (
    char_code(s, 3) + 128 * (char_code(s, 4) + 128 * (char_code(s, 5) + 128 * (char_code(s, 6)
        + 128 * (char_code(s, 7) + 128 * char_code(s, 8)))))))))
}

/// The packed code of each topic.
spec fn topic_code(k: EventKind) -> int {
    match k {
        EventKind::InvoiceCreated => 5956345460847767,
        EventKind::InvoiceListed => 5956933871367319,
        EventKind::InvoiceFunded => 4828259415651479,
        EventKind::InvoiceRepaid => 4829410466886807,
        EventKind::InvoiceDefaulted => 5949752686048407,
        EventKind::InvoiceAmended => 4827688185001111,
        EventKind::InvoiceWithdrawn => 5113105941689495,
        EventKind::InvoiceBatchMinted => 83619777677077673113,
        EventKind::RiskScoreRefreshed => 83762917172466044201,
        EventKind::RepaymentMade => 384454241573,
        EventKind::InstallmentPaid => 618171604916925592,
        EventKind::YieldDistributed => 294626151829,
        EventKind::LatePenaltyApplied => 707461376042470600,
        EventKind::ListingCancelled => 5396694041795783,
        EventKind::ListingExpired => 5678177608441031,
        EventKind::FeeCollected => 626391085657527624,
        EventKind::FeeWithdrawn => 5113105937214567,
        EventKind::EmergencyWithdrawn => 654477560033995864,
        EventKind::FeeRateUpdated => 4829423347313767,
        EventKind::ReferralFeePaid => 4893680353291559,
        EventKind::TreasuryInitialized => 663054850641532232,
        EventKind::ProtocolPaused => 79026046678735920153,
        EventKind::ProtocolUnpaused => 96462715105742560281,
        EventKind::TokenWhitelisted => 42158311505222,
        EventKind::TokenWhitelistRemoved => 690712473336970568,
        EventKind::AdminTransferred => 4971256054424599,
        EventKind::RoleGranted => 5956362638097703,
        EventKind::RoleRevoked => 5325290208394535,
        EventKind::PoolOpened => 708234882706210056,
        EventKind::PositionRecorded => 4752994407972103,
        EventKind::VerifierAdded => 4822740378490215,
        EventKind::VerifierRemoved => 6094398590457191,
        EventKind::SmeRegistered => 5034469381008695,
        EventKind::SmeScoreUpdated => 6018536582835511,
        EventKind::SmeDefaultRecorded => 761991540126412088,
        EventKind::SmeInvoiceCountIncremented => 609577259758939448,
        EventKind::DebtorScoreSet => 5807430354211911,
        EventKind::RegistryInitialized => 5180116017491239,
        EventKind::SubAccountAdded => 617310717742847336,
        EventKind::SubAccountRemoved => 780082968874620264,
        EventKind::UpgradeProposed => 727300350213495832,
        EventKind::UpgradeExecuted => 628221158411344920,
        EventKind::MultisigConfigured => 5036672102046743,
        EventKind::ActionProposed => 727307440533412888,
        EventKind::ActionApproved => 592199451712298008,
        EventKind::ActionExecuted => 628228248731261976,
        EventKind::RefundClaimed => 698939611136275752,
        EventKind::PositionListedForSale => 626880866954411272,
        EventKind::PositionSold => 617881364281064712,
        EventKind::WithdrawalCapProposed => 93095069822379795833,
        EventKind::WithdrawalCapUpdated => 98859677345414030713,
        EventKind::SmeCreditLimitSet => 42072410582326,
        EventKind::InvoiceFrozen => 6378570810815639,
        EventKind::InvoiceUnfrozen => 816457021138826392,
        EventKind::CancellationRequested => 5738156824642615,
        EventKind::DecayScheduleSet => 97472796352572173385,
        EventKind::BidSubmitted => 698245768662895656,
        EventKind::BidAccepted => 725327762257234984,
        EventKind::AdminActionAudited => 97507764018800370713,
    }
}

/// The kind whose topic packs to `code`, if any.
spec fn kind_of_code(code: int) -> Option<EventKind> {
    if code == 5956345460847767 {
        Some(EventKind::InvoiceCreated)
    } else if code == 5956933871367319 {
        Some(EventKind::InvoiceListed)
    } else if code == 4828259415651479 {
        Some(EventKind::InvoiceFunded)
    } else if code == 4829410466886807 {
        Some(EventKind::InvoiceRepaid)
    } else if code == 5949752686048407 {
        Some(EventKind::InvoiceDefaulted)
    } else if code == 4827688185001111 {
        Some(EventKind::InvoiceAmended)
    } else if code == 5113105941689495 {
        Some(EventKind::InvoiceWithdrawn)
    } else if code == 83619777677077673113 {
        Some(EventKind::InvoiceBatchMinted)
    } else if code == 83762917172466044201 {
        Some(EventKind::RiskScoreRefreshed)
    } else if code == 384454241573 {
        Some(EventKind::RepaymentMade)
    } else if code == 618171604916925592 {
        Some(EventKind::InstallmentPaid)
    } else if code == 294626151829 {
        Some(EventKind::YieldDistributed)
    } else if code == 707461376042470600 {
        Some(EventKind::LatePenaltyApplied)
    } else if code == 5396694041795783 {
        Some(EventKind::ListingCancelled)
    } else if code == 5678177608441031 {
        Some(EventKind::ListingExpired)
    } else if code == 626391085657527624 {
        Some(EventKind::FeeCollected)
    } else if code == 5113105937214567 {
        Some(EventKind::FeeWithdrawn)
    } else if code == 654477560033995864 {
        Some(EventKind::EmergencyWithdrawn)
    } else if code == 4829423347313767 {
        Some(EventKind::FeeRateUpdated)
    } else if code == 4893680353291559 {
        Some(EventKind::ReferralFeePaid)
    } else if code == 663054850641532232 {
        Some(EventKind::TreasuryInitialized)
    } else if code == 79026046678735920153 {
        Some(EventKind::ProtocolPaused)
    } else if code == 96462715105742560281 {
        Some(EventKind::ProtocolUnpaused)
    } else if code == 42158311505222 {
        Some(EventKind::TokenWhitelisted)
    } else if code == 690712473336970568 {
        Some(EventKind::TokenWhitelistRemoved)
    } else if code == 4971256054424599 {
        Some(EventKind::AdminTransferred)
    } else if code == 5956362638097703 {
        Some(EventKind::RoleGranted)
    } else if code == 5325290208394535 {
        Some(EventKind::RoleRevoked)
    } else if code == 708234882706210056 {
        Some(EventKind::PoolOpened)
    } else if code == 4752994407972103 {
        Some(EventKind::PositionRecorded)
    } else if code == 4822740378490215 {
        Some(EventKind::VerifierAdded)
    } else if code == 6094398590457191 {
        Some(EventKind::VerifierRemoved)
    } else if code == 5034469381008695 {
        Some(EventKind::SmeRegistered)
    } else if code == 6018536582835511 {
        Some(EventKind::SmeScoreUpdated)
    } else if code == 761991540126412088 {
        Some(EventKind::SmeDefaultRecorded)
    } else if code == 609577259758939448 {
        Some(EventKind::SmeInvoiceCountIncremented)
    } else if code == 5807430354211911 {
        Some(EventKind::DebtorScoreSet)
    } else if code == 5180116017491239 {
        Some(EventKind::RegistryInitialized)
    } else if code == 617310717742847336 {
        Some(EventKind::SubAccountAdded)
    } else if code == 780082968874620264 {
        Some(EventKind::SubAccountRemoved)
    } else if code == 727300350213495832 {
        Some(EventKind::UpgradeProposed)
    } else if code == 628221158411344920 {
        Some(EventKind::UpgradeExecuted)
    } else if code == 5036672102046743 {
        Some(EventKind::MultisigConfigured)
    } else if code == 727307440533412888 {
        Some(EventKind::ActionProposed)
    } else if code == 592199451712298008 {
        Some(EventKind::ActionApproved)
    } else if code == 628228248731261976 {
        Some(EventKind::ActionExecuted)
    } else if code == 698939611136275752 {
        Some(EventKind::RefundClaimed)
    } else if code == 626880866954411272 {
        Some(EventKind::PositionListedForSale)
    } else if code == 617881364281064712 {
        Some(EventKind::PositionSold)
    } else if code == 93095069822379795833 {
        Some(EventKind::WithdrawalCapProposed)
    } else if code == 98859677345414030713 {
        Some(EventKind::WithdrawalCapUpdated)
    } else if code == 42072410582326 {
        Some(EventKind::SmeCreditLimitSet)
    } else if code == 6378570810815639 {
        Some(EventKind::InvoiceFrozen)
    } else if code == 816457021138826392 {
        Some(EventKind::InvoiceUnfrozen)
    } else if code == 5738156824642615 {
        Some(EventKind::CancellationRequested)
    } else if code == 97472796352572173385 {
        Some(EventKind::DecayScheduleSet)
    } else if code == 698245768662895656 {
        Some(EventKind::BidSubmitted)
    } else if code == 725327762257234984 {
        Some(EventKind::BidAccepted)
    } else if code == 97507764018800370713 {
        Some(EventKind::AdminActionAudited)
    } else {
        None
    }
}

proof fn lemma_topic_code(k: EventKind)
    ensures
        short_code(topic_name(k)) == topic_code(k),
        kind_of_code(topic_code(k)) == Some(k),
{
    match k {
        EventKind::InvoiceCreated => {},
        EventKind::InvoiceListed => {},
        EventKind::InvoiceFunded => {},
        EventKind::InvoiceRepaid => {},
        EventKind::InvoiceDefaulted => {},
        EventKind::InvoiceAmended => {},
        EventKind::InvoiceWithdrawn => {},
        EventKind::InvoiceBatchMinted => {},
        EventKind::RiskScoreRefreshed => {},
        EventKind::RepaymentMade => {},
        EventKind::InstallmentPaid => {},
        EventKind::YieldDistributed => {},
        EventKind::LatePenaltyApplied => {},
        EventKind::ListingCancelled => {},
        EventKind::ListingExpired => {},
        EventKind::FeeCollected => {},
        EventKind::FeeWithdrawn => {},
        EventKind::EmergencyWithdrawn => {},
        EventKind::FeeRateUpdated => {},
        EventKind::ReferralFeePaid => {},
        EventKind::TreasuryInitialized => {},
        EventKind::ProtocolPaused => {},
        EventKind::ProtocolUnpaused => {},
        EventKind::TokenWhitelisted => {},
        EventKind::TokenWhitelistRemoved => {},
        EventKind::AdminTransferred => {},
        EventKind::RoleGranted => {},
        EventKind::RoleRevoked => {},
        EventKind::PoolOpened => {},
        EventKind::PositionRecorded => {},
        EventKind::VerifierAdded => {},
        EventKind::VerifierRemoved => {},
        EventKind::SmeRegistered => {},
        EventKind::SmeScoreUpdated => {},
        EventKind::SmeDefaultRecorded => {},
        EventKind::SmeInvoiceCountIncremented => {},
        EventKind::DebtorScoreSet => {},
        EventKind::RegistryInitialized => {},
        EventKind::SubAccountAdded => {},
        EventKind::SubAccountRemoved => {},
        EventKind::UpgradeProposed => {},
        EventKind::UpgradeExecuted => {},
        EventKind::MultisigConfigured => {},
        EventKind::ActionProposed => {},
        EventKind::ActionApproved => {},
        EventKind::ActionExecuted => {},
        EventKind::RefundClaimed => {},
        EventKind::PositionListedForSale => {},
        EventKind::PositionSold => {},
        EventKind::WithdrawalCapProposed => {},
        EventKind::WithdrawalCapUpdated => {},
        EventKind::SmeCreditLimitSet => {},
        EventKind::InvoiceFrozen => {},
        EventKind::InvoiceUnfrozen => {},
        EventKind::CancellationRequested => {},
        EventKind::DecayScheduleSet => {},
        EventKind::BidSubmitted => {},
        EventKind::BidAccepted => {},
        EventKind::AdminActionAudited => {},
    }
}

/// Distinct kinds of event are published under distinct topics, so the topic
/// of an event names its kind.
pub proof fn law_topics_distinct(k1: EventKind, k2: EventKind)
    requires
        k1 != k2,
    ensures
        topic_name(k1) != topic_name(k2),
{
    lemma_topic_code(k1);
    lemma_topic_code(k2);
}

/// The kinds of event whose payload puts a key (a proposal id, or the audit
/// sequence number) ahead of the actor.
pub open spec fn key_precedes_actor(k: EventKind) -> bool {
    ||| k == EventKind::ActionProposed
    ||| k == EventKind::ActionApproved
    ||| k == EventKind::ActionExecuted
    ||| k == EventKind::AdminActionAudited
}

/// The actor leads the payload: an event whose schema names an actor carries
/// it as its first field, or, when a proposal id or audit sequence number
/// keys the event, as its second field right after that key.
pub proof fn law_actor_leads(e: KoraEvent, ledger_timestamp: u64)
    ensures
        e.actor() matches Some(a) ==> (!key_precedes_actor(e.kind()) ==> e.payload(
            ledger_timestamp,
        )[0] == EventField::Addr(a)),
        e.actor() matches Some(a) ==> (key_precedes_actor(e.kind()) ==> {
            &&& e.payload(ledger_timestamp)[0] is U64
            &&& e.payload(ledger_timestamp)[1] == EventField::Addr(a)
        }),
{
}

/// The timestamp closes the payload: an event stamped with the ledger close
/// time ends with the time it is published at, and the admin audit record
/// ends with the time stored in its entry.  Every payload holds at least one
/// field besides the timestamp.
pub proof fn law_timestamp_last(e: KoraEvent, ledger_timestamp: u64)
    ensures
        e.payload(ledger_timestamp).len() >= 2,
        is_ledger_stamped(e.kind()) ==> e.payload(ledger_timestamp).last() == EventField::U64(
            ledger_timestamp,
        ),
        e matches KoraEvent::AdminActionAudited { entry } ==> e.payload(ledger_timestamp).last()
            == EventField::U64(entry.timestamp),
{
}

/// An event that is not stamped with the ledger close time has the same
/// payload whatever the time it is published at.
pub proof fn law_unstamped_payload_ignores_ledger_time(e: KoraEvent, t1: u64, t2: u64)
    requires
        !is_ledger_stamped(e.kind()),
    ensures
        e.payload(t1) == e.payload(t2),
{
}

/// The counterpart of an event that undoes or completes it with the same
/// fields: unpausing mirrors pausing, removal mirrors addition, execution
/// mirrors proposal, and so on.
pub open spec fn counterpart(e: KoraEvent) -> Option<KoraEvent> {
    match e {
        KoraEvent::ProtocolUnpaused { by } => Some(KoraEvent::ProtocolPaused { by }),
        KoraEvent::VerifierRemoved { admin, verifier } => Some(
            KoraEvent::VerifierAdded { admin, verifier },
        ),
        KoraEvent::SubAccountRemoved { primary, sub_account } => Some(
            KoraEvent::SubAccountAdded { primary, sub_account },
        ),
        KoraEvent::UpgradeExecuted { admin, wasm_hash } => Some(
            KoraEvent::UpgradeProposed { admin, wasm_hash },
        ),
        KoraEvent::InvoiceRepaid { invoice_id, sme, amount, currency } => Some(
            KoraEvent::InvoiceCreated { invoice_id, sme, amount, currency },
        ),
        KoraEvent::InvoiceWithdrawn { invoice_id, sme, currency } => Some(
            KoraEvent::InvoiceAmended { invoice_id, sme, currency },
        ),
        KoraEvent::ListingExpired { invoice_id, seller } => Some(
            KoraEvent::ListingCancelled { invoice_id, seller },
        ),
        KoraEvent::EmergencyWithdrawn { by, token, amount } => Some(
            KoraEvent::FeeWithdrawn { actor: by, token, amount },
        ),
        KoraEvent::TokenWhitelistRemoved { actor, token } => Some(
            KoraEvent::TokenWhitelisted { actor, token },
        ),
        KoraEvent::RoleRevoked { admin, target } => Some(KoraEvent::RoleGranted { admin, target }),
        KoraEvent::InvoiceUnfrozen { invoice_id, admin } => Some(
            KoraEvent::InvoiceFrozen { invoice_id, admin },
        ),
        KoraEvent::ActionExecuted { proposal_id, executor } => Some(
            KoraEvent::ActionProposed { proposal_id, proposer: executor },
        ),
        _ => None,
    }
}

/// Paired events differ only in their topic: an event and its counterpart
/// carry the same payload and the same actor, under distinct topics.
pub proof fn law_paired_events_differ_in_topic_only(e: KoraEvent, ledger_timestamp: u64)
    ensures
        counterpart(e) matches Some(f) ==> {
            &&& f.payload(ledger_timestamp) == e.payload(ledger_timestamp)
            &&& f.actor() == e.actor()
            &&& f.kind() != e.kind()
            &&& topic_name(f.kind()) != topic_name(e.kind())
        },
{
    if let Some(f) = counterpart(e) {
        law_topics_distinct(f.kind(), e.kind());
    }
}

} // verus!
