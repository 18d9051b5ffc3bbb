//! The schema of every event, stated field by field: for each kind of event,
//! the topic it is published under and the exact fields of its payload, in
//! order, in terms of the values the event is made from and the time it is
//! published at.

use vstd::prelude::*;
use soroban_sdk::{Address, Bytes, BytesN, Symbol};
use crate::schema::{topic_name, EventField, EventKind, KoraEvent};
use crate::types::{AdminAuditEntry, RiskTier};

verus! {

/// A `INV_CRT` event carries, in this order: `sme`, `invoice_id`, `amount`, `currency`, the time it is published at.
pub proof fn law_invoice_created_fields(
    invoice_id: u64,
    sme: Address,
    amount: i128,
    currency: Symbol,
    t: u64,
)
    ensures
        topic_name(EventKind::InvoiceCreated) == seq!['I', 'N', 'V', '_', 'C', 'R', 'T'],
        (KoraEvent::InvoiceCreated { invoice_id, sme, amount, currency }).payload(t) == seq![
            EventField::Addr(sme),
            EventField::U64(invoice_id),
            EventField::I128(amount),
            EventField::Sym(currency),
            EventField::U64(t),
        ],
{
}

/// A `INV_LST` event carries, in this order: `seller`, `invoice_id`, `asking_price`, `currency`, the time it is published at.
pub proof fn law_invoice_listed_fields(
    invoice_id: u64,
    seller: Address,
    asking_price: i128,
    currency: Symbol,
    t: u64,
)
    ensures
        topic_name(EventKind::InvoiceListed) == seq!['I', 'N', 'V', '_', 'L', 'S', 'T'],
        (KoraEvent::InvoiceListed { invoice_id, seller, asking_price, currency }).payload(t) == seq![
            EventField::Addr(seller),
            EventField::U64(invoice_id),
            EventField::I128(asking_price),
            EventField::Sym(currency),
            EventField::U64(t),
        ],
{
}

/// A `INV_FND` event carries, in this order: `investor`, `invoice_id`, `amount`, `currency`, the time it is published at.
pub proof fn law_invoice_funded_fields(
    invoice_id: u64,
    investor: Address,
    amount: i128,
    currency: Symbol,
    t: u64,
)
    ensures
        topic_name(EventKind::InvoiceFunded) == seq!['I', 'N', 'V', '_', 'F', 'N', 'D'],
        (KoraEvent::InvoiceFunded { invoice_id, investor, amount, currency }).payload(t) == seq![
            EventField::Addr(investor),
            EventField::U64(invoice_id),
            EventField::I128(amount),
            EventField::Sym(currency),
            EventField::U64(t),
        ],
{
}

/// A `INV_RPD` event carries, in this order: `sme`, `invoice_id`, `amount`, `currency`, the time it is published at.
pub proof fn law_invoice_repaid_fields(
    invoice_id: u64,
    sme: Address,
    amount: i128,
    currency: Symbol,
    t: u64,
)
    ensures
        topic_name(EventKind::InvoiceRepaid) == seq!['I', 'N', 'V', '_', 'R', 'P', 'D'],
        (KoraEvent::InvoiceRepaid { invoice_id, sme, amount, currency }).payload(t) == seq![
            EventField::Addr(sme),
            EventField::U64(invoice_id),
            EventField::I128(amount),
            EventField::Sym(currency),
            EventField::U64(t),
        ],
{
}

/// A `INV_DFT` event carries, in this order: `actor`, `invoice_id`, `amount`, `currency`, the time it is published at.
pub proof fn law_invoice_defaulted_fields(
    invoice_id: u64,
    actor: Address,
    amount: i128,
    currency: Symbol,
    t: u64,
)
    ensures
        topic_name(EventKind::InvoiceDefaulted) == seq!['I', 'N', 'V', '_', 'D', 'F', 'T'],
        (KoraEvent::InvoiceDefaulted { invoice_id, actor, amount, currency }).payload(t) == seq![
            EventField::Addr(actor),
            EventField::U64(invoice_id),
            EventField::I128(amount),
            EventField::Sym(currency),
            EventField::U64(t),
        ],
{
}

/// A `INV_AMD` event carries, in this order: `invoice_id`, `sme`, `currency`, the time it is published at.
pub proof fn law_invoice_amended_fields(invoice_id: u64, sme: Address, currency: Symbol, t: u64)
    ensures
        topic_name(EventKind::InvoiceAmended) == seq!['I', 'N', 'V', '_', 'A', 'M', 'D'],
        (KoraEvent::InvoiceAmended { invoice_id, sme, currency }).payload(t) == seq![
            EventField::U64(invoice_id),
            EventField::Addr(sme),
            EventField::Sym(currency),
            EventField::U64(t),
        ],
{
}

/// A `INV_WTH` event carries, in this order: `invoice_id`, `sme`, `currency`, the time it is published at.
pub proof fn law_invoice_withdrawn_fields(invoice_id: u64, sme: Address, currency: Symbol, t: u64)
    ensures
        topic_name(EventKind::InvoiceWithdrawn) == seq!['I', 'N', 'V', '_', 'W', 'T', 'H'],
        (KoraEvent::InvoiceWithdrawn { invoice_id, sme, currency }).payload(t) == seq![
            EventField::U64(invoice_id),
            EventField::Addr(sme),
            EventField::Sym(currency),
            EventField::U64(t),
        ],
{
}

/// A `INV_BATCH` event carries, in this order: `sme`, `batch_id`, `invoice_ids`, the time it is published at.
pub proof fn law_invoice_batch_minted_fields(
    batch_id: u64,
    sme: Address,
    invoice_ids: soroban_sdk::Vec<u64>,
    t: u64,
)
    ensures
        topic_name(EventKind::InvoiceBatchMinted) == seq!['I', 'N', 'V', '_', 'B', 'A', 'T', 'C', 'H'],
        (KoraEvent::InvoiceBatchMinted { batch_id, sme, invoice_ids }).payload(t) == seq![
            EventField::Addr(sme),
            EventField::U64(batch_id),
            EventField::U64List(invoice_ids),
            EventField::U64(t),
        ],
{
}

/// A `RISK_RFSH` event carries, in this order: `caller`, `invoice_id`, `old_score`, `new_score`, `old_tier`, `new_tier`, the time it is published at.
pub proof fn law_risk_score_refreshed_fields(
    invoice_id: u64,
    caller: Address,
    old_score: u32,
    new_score: u32,
    old_tier: RiskTier,
    new_tier: RiskTier,
    t: u64,
)
    ensures
        topic_name(EventKind::RiskScoreRefreshed) == seq!['R', 'I', 'S', 'K', '_', 'R', 'F', 'S', 'H'],
        (KoraEvent::RiskScoreRefreshed { invoice_id, caller, old_score, new_score, old_tier, new_tier }).payload(t) == seq![
            EventField::Addr(caller),
            EventField::U64(invoice_id),
            EventField::U32(old_score),
            EventField::U32(new_score),
            EventField::Tier(old_tier),
            EventField::Tier(new_tier),
            EventField::U64(t),
        ],
{
}

/// A `REPAY` event carries, in this order: `payer`, `invoice_id`, `amount`, the time it is published at.
pub proof fn law_repayment_made_fields(invoice_id: u64, payer: Address, amount: i128, t: u64)
    ensures
        topic_name(EventKind::RepaymentMade) == seq!['R', 'E', 'P', 'A', 'Y'],
        (KoraEvent::RepaymentMade { invoice_id, payer, amount }).payload(t) == seq![
            EventField::Addr(payer),
            EventField::U64(invoice_id),
            EventField::I128(amount),
            EventField::U64(t),
        ],
{
}

/// A `INSTL_PD` event carries, in this order: `payer`, `invoice_id`, `index`, `amount`, the time it is published at.
pub proof fn law_installment_paid_fields(
    invoice_id: u64,
    payer: Address,
    index: u32,
    amount: i128,
    t: u64,
)
    ensures
        topic_name(EventKind::InstallmentPaid) == seq!['I', 'N', 'S', 'T', 'L', '_', 'P', 'D'],
        (KoraEvent::InstallmentPaid { invoice_id, payer, index, amount }).payload(t) == seq![
            EventField::Addr(payer),
            EventField::U64(invoice_id),
            EventField::U32(index),
            EventField::I128(amount),
            EventField::U64(t),
        ],
{
}

/// A `YIELD` event carries, in this order: `investor`, `invoice_id`, `yield_amount`, the time it is published at.
pub proof fn law_yield_distributed_fields(
    invoice_id: u64,
    investor: Address,
    yield_amount: i128,
    t: u64,
)
    ensures
        topic_name(EventKind::YieldDistributed) == seq!['Y', 'I', 'E', 'L', 'D'],
        (KoraEvent::YieldDistributed { invoice_id, investor, yield_amount }).payload(t) == seq![
            EventField::Addr(investor),
            EventField::U64(invoice_id),
            EventField::I128(yield_amount),
            EventField::U64(t),
        ],
{
}

/// A `LATE_PEN` event carries, in this order: `invoice_id`, `penalty_amount`, `total_owed`, the time it is published at.
pub proof fn law_late_penalty_applied_fields(
    invoice_id: u64,
    penalty_amount: i128,
    total_owed: i128,
    t: u64,
)
    ensures
        topic_name(EventKind::LatePenaltyApplied) == seq!['L', 'A', 'T', 'E', '_', 'P', 'E', 'N'],
        (KoraEvent::LatePenaltyApplied { invoice_id, penalty_amount, total_owed }).payload(t) == seq![
            EventField::U64(invoice_id),
            EventField::I128(penalty_amount),
            EventField::I128(total_owed),
            EventField::U64(t),
        ],
{
}

/// A `LST_CXL` event carries, in this order: `seller`, `invoice_id`, the time it is published at.
pub proof fn law_listing_cancelled_fields(invoice_id: u64, seller: Address, t: u64)
    ensures
        topic_name(EventKind::ListingCancelled) == seq!['L', 'S', 'T', '_', 'C', 'X', 'L'],
        (KoraEvent::ListingCancelled { invoice_id, seller }).payload(t) == seq![
            EventField::Addr(seller),
            EventField::U64(invoice_id),
            EventField::U64(t),
        ],
{
}

/// A `LST_EXP` event carries, in this order: `seller`, `invoice_id`, the time it is published at.
pub proof fn law_listing_expired_fields(invoice_id: u64, seller: Address, t: u64)
    ensures
        topic_name(EventKind::ListingExpired) == seq!['L', 'S', 'T', '_', 'E', 'X', 'P'],
        (KoraEvent::ListingExpired { invoice_id, seller }).payload(t) == seq![
            EventField::Addr(seller),
            EventField::U64(invoice_id),
            EventField::U64(t),
        ],
{
}

/// A `TRES_FEE` event carries, in this order: `investor`, `invoice_id`, `fee_amount`, `token`, the time it is published at.
pub proof fn law_fee_collected_fields(
    investor: Address,
    invoice_id: u64,
    fee_amount: i128,
    token: Address,
    t: u64,
)
    ensures
        topic_name(EventKind::FeeCollected) == seq!['T', 'R', 'E', 'S', '_', 'F', 'E', 'E'],
        (KoraEvent::FeeCollected { investor, invoice_id, fee_amount, token }).payload(t) == seq![
            EventField::Addr(investor),
            EventField::U64(invoice_id),
            EventField::I128(fee_amount),
            EventField::Addr(token),
            EventField::U64(t),
        ],
{
}

/// A `FEE_WTH` event carries, in this order: `actor`, `token`, `amount`, the time it is published at.
pub proof fn law_fee_withdrawn_fields(actor: Address, token: Address, amount: i128, t: u64)
    ensures
        topic_name(EventKind::FeeWithdrawn) == seq!['F', 'E', 'E', '_', 'W', 'T', 'H'],
        (KoraEvent::FeeWithdrawn { actor, token, amount }).payload(t) == seq![
            EventField::Addr(actor),
            EventField::Addr(token),
            EventField::I128(amount),
            EventField::U64(t),
        ],
{
}

/// A `EMRG_WTH` event carries, in this order: `by`, `token`, `amount`, the time it is published at.
pub proof fn law_emergency_withdrawn_fields(by: Address, token: Address, amount: i128, t: u64)
    ensures
        topic_name(EventKind::EmergencyWithdrawn) == seq!['E', 'M', 'R', 'G', '_', 'W', 'T', 'H'],
        (KoraEvent::EmergencyWithdrawn { by, token, amount }).payload(t) == seq![
            EventField::Addr(by),
            EventField::Addr(token),
            EventField::I128(amount),
            EventField::U64(t),
        ],
{
}

/// A `FEE_UPD` event carries, in this order: `by`, `old_bps`, `new_bps`, the time it is published at.
pub proof fn law_fee_rate_updated_fields(by: Address, old_bps: u32, new_bps: u32, t: u64)
    ensures
        topic_name(EventKind::FeeRateUpdated) == seq!['F', 'E', 'E', '_', 'U', 'P', 'D'],
        (KoraEvent::FeeRateUpdated { by, old_bps, new_bps }).payload(t) == seq![
            EventField::Addr(by),
            EventField::U32(old_bps),
            EventField::U32(new_bps),
            EventField::U64(t),
        ],
{
}

/// A `REF_FEE` event carries, in this order: `invoice_id`, `referrer`, `referral_fee`, the time it is published at.
pub proof fn law_referral_fee_paid_fields(
    invoice_id: u64,
    referrer: Address,
    referral_fee: i128,
    t: u64,
)
    ensures
        topic_name(EventKind::ReferralFeePaid) == seq!['R', 'E', 'F', '_', 'F', 'E', 'E'],
        (KoraEvent::ReferralFeePaid { invoice_id, referrer, referral_fee }).payload(t) == seq![
            EventField::U64(invoice_id),
            EventField::Addr(referrer),
            EventField::I128(referral_fee),
            EventField::U64(t),
        ],
{
}

/// A `TRES_INI` event carries, in this order: `admin`, `fee_bps`, the time it is published at.
pub proof fn law_treasury_initialized_fields(admin: Address, fee_bps: u32, t: u64)
    ensures
        topic_name(EventKind::TreasuryInitialized) == seq!['T', 'R', 'E', 'S', '_', 'I', 'N', 'I'],
        (KoraEvent::TreasuryInitialized { admin, fee_bps }).payload(t) == seq![
            EventField::Addr(admin),
            EventField::U32(fee_bps),
            EventField::U64(t),
        ],
{
}

/// A `AC_PAUSED` event carries, in this order: `by`, the time it is published at.
pub proof fn law_protocol_paused_fields(by: Address, t: u64)
    ensures
        topic_name(EventKind::ProtocolPaused) == seq!['A', 'C', '_', 'P', 'A', 'U', 'S', 'E', 'D'],
        (KoraEvent::ProtocolPaused { by }).payload(t) == seq![
            EventField::Addr(by),
            EventField::U64(t),
        ],
{
}

/// A `AC_UNPAUS` event carries, in this order: `by`, the time it is published at.
pub proof fn law_protocol_unpaused_fields(by: Address, t: u64)
    ensures
        topic_name(EventKind::ProtocolUnpaused) == seq!['A', 'C', '_', 'U', 'N', 'P', 'A', 'U', 'S'],
        (KoraEvent::ProtocolUnpaused { by }).payload(t) == seq![
            EventField::Addr(by),
            EventField::U64(t),
        ],
{
}

/// A `TOK_WL` event carries, in this order: `actor`, `token`, the time it is published at.
pub proof fn law_token_whitelisted_fields(actor: Address, token: Address, t: u64)
    ensures
        topic_name(EventKind::TokenWhitelisted) == seq!['T', 'O', 'K', '_', 'W', 'L'],
        (KoraEvent::TokenWhitelisted { actor, token }).payload(t) == seq![
            EventField::Addr(actor),
            EventField::Addr(token),
            EventField::U64(t),
        ],
{
}

/// A `TOK_UNWL` event carries, in this order: `actor`, `token`, the time it is published at.
pub proof fn law_token_whitelist_removed_fields(actor: Address, token: Address, t: u64)
    ensures
        topic_name(EventKind::TokenWhitelistRemoved) == seq!['T', 'O', 'K', '_', 'U', 'N', 'W', 'L'],
        (KoraEvent::TokenWhitelistRemoved { actor, token }).payload(t) == seq![
            EventField::Addr(actor),
            EventField::Addr(token),
            EventField::U64(t),
        ],
{
}

/// A `ADM_TRF` event carries, in this order: `actor`, `new_admin`, the time it is published at.
pub proof fn law_admin_transferred_fields(actor: Address, new_admin: Address, t: u64)
    ensures
        topic_name(EventKind::AdminTransferred) == seq!['A', 'D', 'M', '_', 'T', 'R', 'F'],
        (KoraEvent::AdminTransferred { actor, new_admin }).payload(t) == seq![
            EventField::Addr(actor),
            EventField::Addr(new_admin),
            EventField::U64(t),
        ],
{
}

/// A `ROL_GRT` event carries, in this order: `admin`, `target`, the time it is published at.
pub proof fn law_role_granted_fields(admin: Address, target: Address, t: u64)
    ensures
        topic_name(EventKind::RoleGranted) == seq!['R', 'O', 'L', '_', 'G', 'R', 'T'],
        (KoraEvent::RoleGranted { admin, target }).payload(t) == seq![
            EventField::Addr(admin),
            EventField::Addr(target),
            EventField::U64(t),
        ],
{
}

/// A `ROL_RVK` event carries, in this order: `admin`, `target`, the time it is published at.
pub proof fn law_role_revoked_fields(admin: Address, target: Address, t: u64)
    ensures
        topic_name(EventKind::RoleRevoked) == seq!['R', 'O', 'L', '_', 'R', 'V', 'K'],
        (KoraEvent::RoleRevoked { admin, target }).payload(t) == seq![
            EventField::Addr(admin),
            EventField::Addr(target),
            EventField::U64(t),
        ],
{
}

/// A `POOL_OPN` event carries, in this order: `marketplace`, `invoice_id`, `token`, `face_value`, the time it is published at.
pub proof fn law_pool_opened_fields(
    marketplace: Address,
    invoice_id: u64,
    token: Address,
    face_value: i128,
    t: u64,
)
    ensures
        topic_name(EventKind::PoolOpened) == seq!['P', 'O', 'O', 'L', '_', 'O', 'P', 'N'],
        (KoraEvent::PoolOpened { marketplace, invoice_id, token, face_value }).payload(t) == seq![
            EventField::Addr(marketplace),
            EventField::U64(invoice_id),
            EventField::Addr(token),
            EventField::I128(face_value),
            EventField::U64(t),
        ],
{
}

/// A `POS_REC` event carries, in this order: `admin`, `invoice_id`, `investor`, `contributed`, `share_bps`, the time it is published at.
pub proof fn law_position_recorded_fields(
    admin: Address,
    invoice_id: u64,
    investor: Address,
    contributed: i128,
    share_bps: u32,
    t: u64,
)
    ensures
        topic_name(EventKind::PositionRecorded) == seq!['P', 'O', 'S', '_', 'R', 'E', 'C'],
        (KoraEvent::PositionRecorded { admin, invoice_id, investor, contributed, share_bps }).payload(t) == seq![
            EventField::Addr(admin),
            EventField::U64(invoice_id),
            EventField::Addr(investor),
            EventField::I128(contributed),
            EventField::U32(share_bps),
            EventField::U64(t),
        ],
{
}

/// A `VRF_ADD` event carries, in this order: `admin`, `verifier`, the time it is published at.
pub proof fn law_verifier_added_fields(admin: Address, verifier: Address, t: u64)
    ensures
        topic_name(EventKind::VerifierAdded) == seq!['V', 'R', 'F', '_', 'A', 'D', 'D'],
        (KoraEvent::VerifierAdded { admin, verifier }).payload(t) == seq![
            EventField::Addr(admin),
            EventField::Addr(verifier),
            EventField::U64(t),
        ],
{
}

/// A `VRF_RMV` event carries, in this order: `admin`, `verifier`, the time it is published at.
pub proof fn law_verifier_removed_fields(admin: Address, verifier: Address, t: u64)
    ensures
        topic_name(EventKind::VerifierRemoved) == seq!['V', 'R', 'F', '_', 'R', 'M', 'V'],
        (KoraEvent::VerifierRemoved { admin, verifier }).payload(t) == seq![
            EventField::Addr(admin),
            EventField::Addr(verifier),
            EventField::U64(t),
        ],
{
}

/// A `SME_REG` event carries, in this order: `verifier`, `sme`, `risk_score`, the time it is published at.
pub proof fn law_sme_registered_fields(verifier: Address, sme: Address, risk_score: u32, t: u64)
    ensures
        topic_name(EventKind::SmeRegistered) == seq!['S', 'M', 'E', '_', 'R', 'E', 'G'],
        (KoraEvent::SmeRegistered { verifier, sme, risk_score }).payload(t) == seq![
            EventField::Addr(verifier),
            EventField::Addr(sme),
            EventField::U32(risk_score),
            EventField::U64(t),
        ],
{
}

/// A `SME_SCU` event carries, in this order: `verifier`, `sme`, `new_score`, the time it is published at.
pub proof fn law_sme_score_updated_fields(verifier: Address, sme: Address, new_score: u32, t: u64)
    ensures
        topic_name(EventKind::SmeScoreUpdated) == seq!['S', 'M', 'E', '_', 'S', 'C', 'U'],
        (KoraEvent::SmeScoreUpdated { verifier, sme, new_score }).payload(t) == seq![
            EventField::Addr(verifier),
            EventField::Addr(sme),
            EventField::U32(new_score),
            EventField::U64(t),
        ],
{
}

/// A `SME_DFLT` event carries, in this order: `admin`, `sme`, `total_defaults`, the time it is published at.
pub proof fn law_sme_default_recorded_fields(
    admin: Address,
    sme: Address,
    total_defaults: u32,
    t: u64,
)
    ensures
        topic_name(EventKind::SmeDefaultRecorded) == seq!['S', 'M', 'E', '_', 'D', 'F', 'L', 'T'],
        (KoraEvent::SmeDefaultRecorded { admin, sme, total_defaults }).payload(t) == seq![
            EventField::Addr(admin),
            EventField::Addr(sme),
            EventField::U32(total_defaults),
            EventField::U64(t),
        ],
{
}

/// A `SME_INVC` event carries, in this order: `sme`, `new_total`, the time it is published at.
pub proof fn law_sme_invoice_count_incremented_fields(sme: Address, new_total: u32, t: u64)
    ensures
        topic_name(EventKind::SmeInvoiceCountIncremented) == seq!['S', 'M', 'E', '_', 'I', 'N', 'V', 'C'],
        (KoraEvent::SmeInvoiceCountIncremented { sme, new_total }).payload(t) == seq![
            EventField::Addr(sme),
            EventField::U32(new_total),
            EventField::U64(t),
        ],
{
}

/// A `DBT_SCR` event carries, in this order: `verifier`, `debtor_hash`, `score`, the time it is published at.
pub proof fn law_debtor_score_set_fields(verifier: Address, debtor_hash: Bytes, score: u32, t: u64)
    ensures
        topic_name(EventKind::DebtorScoreSet) == seq!['D', 'B', 'T', '_', 'S', 'C', 'R'],
        (KoraEvent::DebtorScoreSet { verifier, debtor_hash, score }).payload(t) == seq![
            EventField::Addr(verifier),
            EventField::Bytes(debtor_hash),
            EventField::U32(score),
            EventField::U64(t),
        ],
{
}

/// A `REG_INI` event carries, in this order: `admin`, `invoice_nft`, the time it is published at.
pub proof fn law_registry_initialized_fields(admin: Address, invoice_nft: Address, t: u64)
    ensures
        topic_name(EventKind::RegistryInitialized) == seq!['R', 'E', 'G', '_', 'I', 'N', 'I'],
        (KoraEvent::RegistryInitialized { admin, invoice_nft }).payload(t) == seq![
            EventField::Addr(admin),
            EventField::Addr(invoice_nft),
            EventField::U64(t),
        ],
{
}

/// A `VRF_SADD` event carries, in this order: `primary`, `sub_account`, the time it is published at.
pub proof fn law_sub_account_added_fields(primary: Address, sub_account: Address, t: u64)
    ensures
        topic_name(EventKind::SubAccountAdded) == seq!['V', 'R', 'F', '_', 'S', 'A', 'D', 'D'],
        (KoraEvent::SubAccountAdded { primary, sub_account }).payload(t) == seq![
            EventField::Addr(primary),
            EventField::Addr(sub_account),
            EventField::U64(t),
        ],
{
}

/// A `VRF_SRMV` event carries, in this order: `primary`, `sub_account`, the time it is published at.
pub proof fn law_sub_account_removed_fields(primary: Address, sub_account: Address, t: u64)
    ensures
        topic_name(EventKind::SubAccountRemoved) == seq!['V', 'R', 'F', '_', 'S', 'R', 'M', 'V'],
        (KoraEvent::SubAccountRemoved { primary, sub_account }).payload(t) == seq![
            EventField::Addr(primary),
            EventField::Addr(sub_account),
            EventField::U64(t),
        ],
{
}

/// A `AC_UPG_P` event carries, in this order: `admin`, `wasm_hash`, the time it is published at.
pub proof fn law_upgrade_proposed_fields(admin: Address, wasm_hash: BytesN<32>, t: u64)
    ensures
        topic_name(EventKind::UpgradeProposed) == seq!['A', 'C', '_', 'U', 'P', 'G', '_', 'P'],
        (KoraEvent::UpgradeProposed { admin, wasm_hash }).payload(t) == seq![
            EventField::Addr(admin),
            EventField::Hash(wasm_hash),
            EventField::U64(t),
        ],
{
}

/// A `AC_UPG_E` event carries, in this order: `admin`, `wasm_hash`, the time it is published at.
pub proof fn law_upgrade_executed_fields(admin: Address, wasm_hash: BytesN<32>, t: u64)
    ensures
        topic_name(EventKind::UpgradeExecuted) == seq!['A', 'C', '_', 'U', 'P', 'G', '_', 'E'],
        (KoraEvent::UpgradeExecuted { admin, wasm_hash }).payload(t) == seq![
            EventField::Addr(admin),
            EventField::Hash(wasm_hash),
            EventField::U64(t),
        ],
{
}

/// A `AC_MSIG` event carries, in this order: `threshold`, `signer_count`, the time it is published at.
pub proof fn law_multisig_configured_fields(threshold: u32, signer_count: u32, t: u64)
    ensures
        topic_name(EventKind::MultisigConfigured) == seq!['A', 'C', '_', 'M', 'S', 'I', 'G'],
        (KoraEvent::MultisigConfigured { threshold, signer_count }).payload(t) == seq![
            EventField::U32(threshold),
            EventField::U32(signer_count),
            EventField::U64(t),
        ],
{
}

/// A `AC_ACT_P` event carries, in this order: `proposal_id`, `proposer`, the time it is published at.
pub proof fn law_action_proposed_fields(proposal_id: u64, proposer: Address, t: u64)
    ensures
        topic_name(EventKind::ActionProposed) == seq!['A', 'C', '_', 'A', 'C', 'T', '_', 'P'],
        (KoraEvent::ActionProposed { proposal_id, proposer }).payload(t) == seq![
            EventField::U64(proposal_id),
            EventField::Addr(proposer),
            EventField::U64(t),
        ],
{
}

/// A `AC_ACT_A` event carries, in this order: `proposal_id`, `approver`, `approval_count`, the time it is published at.
pub proof fn law_action_approved_fields(
    proposal_id: u64,
    approver: Address,
    approval_count: u32,
    t: u64,
)
    ensures
        topic_name(EventKind::ActionApproved) == seq!['A', 'C', '_', 'A', 'C', 'T', '_', 'A'],
        (KoraEvent::ActionApproved { proposal_id, approver, approval_count }).payload(t) == seq![
            EventField::U64(proposal_id),
            EventField::Addr(approver),
            EventField::U32(approval_count),
            EventField::U64(t),
        ],
{
}

/// A `AC_ACT_E` event carries, in this order: `proposal_id`, `executor`, the time it is published at.
pub proof fn law_action_executed_fields(proposal_id: u64, executor: Address, t: u64)
    ensures
        topic_name(EventKind::ActionExecuted) == seq!['A', 'C', '_', 'A', 'C', 'T', '_', 'E'],
        (KoraEvent::ActionExecuted { proposal_id, executor }).payload(t) == seq![
            EventField::U64(proposal_id),
            EventField::Addr(executor),
            EventField::U64(t),
        ],
{
}

/// A `RFND_CLM` event carries, in this order: `investor`, `invoice_id`, `amount`, the time it is published at.
pub proof fn law_refund_claimed_fields(invoice_id: u64, investor: Address, amount: i128, t: u64)
    ensures
        topic_name(EventKind::RefundClaimed) == seq!['R', 'F', 'N', 'D', '_', 'C', 'L', 'M'],
        (KoraEvent::RefundClaimed { invoice_id, investor, amount }).payload(t) == seq![
            EventField::Addr(investor),
            EventField::U64(invoice_id),
            EventField::I128(amount),
            EventField::U64(t),
        ],
{
}

/// A `POS_SALE` event carries, in this order: `seller`, `invoice_id`, `price`, the time it is published at.
pub proof fn law_position_listed_for_sale_fields(
    invoice_id: u64,
    seller: Address,
    price: i128,
    t: u64,
)
    ensures
        topic_name(EventKind::PositionListedForSale) == seq!['P', 'O', 'S', '_', 'S', 'A', 'L', 'E'],
        (KoraEvent::PositionListedForSale { invoice_id, seller, price }).payload(t) == seq![
            EventField::Addr(seller),
            EventField::U64(invoice_id),
            EventField::I128(price),
            EventField::U64(t),
        ],
{
}

/// A `POS_SOLD` event carries, in this order: `seller`, `invoice_id`, `buyer`, `price`, the time it is published at.
pub proof fn law_position_sold_fields(
    invoice_id: u64,
    seller: Address,
    buyer: Address,
    price: i128,
    t: u64,
)
    ensures
        topic_name(EventKind::PositionSold) == seq!['P', 'O', 'S', '_', 'S', 'O', 'L', 'D'],
        (KoraEvent::PositionSold { invoice_id, seller, buyer, price }).payload(t) == seq![
            EventField::Addr(seller),
            EventField::U64(invoice_id),
            EventField::Addr(buyer),
            EventField::I128(price),
            EventField::U64(t),
        ],
{
}

/// A `WTH_CAP_P` event carries, in this order: `admin`, `new_cap`, the time it is published at.
pub proof fn law_withdrawal_cap_proposed_fields(admin: Address, new_cap: i128, t: u64)
    ensures
        topic_name(EventKind::WithdrawalCapProposed) == seq!['W', 'T', 'H', '_', 'C', 'A', 'P', '_', 'P'],
        (KoraEvent::WithdrawalCapProposed { admin, new_cap }).payload(t) == seq![
            EventField::Addr(admin),
            EventField::I128(new_cap),
            EventField::U64(t),
        ],
{
}

/// A `WTH_CAP_U` event carries, in this order: `admin`, `old_cap`, `new_cap`, the time it is published at.
pub proof fn law_withdrawal_cap_updated_fields(admin: Address, old_cap: i128, new_cap: i128, t: u64)
    ensures
        topic_name(EventKind::WithdrawalCapUpdated) == seq!['W', 'T', 'H', '_', 'C', 'A', 'P', '_', 'U'],
        (KoraEvent::WithdrawalCapUpdated { admin, old_cap, new_cap }).payload(t) == seq![
            EventField::Addr(admin),
            EventField::I128(old_cap),
            EventField::I128(new_cap),
            EventField::U64(t),
        ],
{
}

/// A `SME_CL` event carries, in this order: `verifier`, `sme`, `credit_limit`, the time it is published at.
pub proof fn law_sme_credit_limit_set_fields(
    verifier: Address,
    sme: Address,
    credit_limit: i128,
    t: u64,
)
    ensures
        topic_name(EventKind::SmeCreditLimitSet) == seq!['S', 'M', 'E', '_', 'C', 'L'],
        (KoraEvent::SmeCreditLimitSet { verifier, sme, credit_limit }).payload(t) == seq![
            EventField::Addr(verifier),
            EventField::Addr(sme),
            EventField::I128(credit_limit),
            EventField::U64(t),
        ],
{
}

/// A `INV_FRZ` event carries, in this order: `admin`, `invoice_id`, the time it is published at.
pub proof fn law_invoice_frozen_fields(invoice_id: u64, admin: Address, t: u64)
    ensures
        topic_name(EventKind::InvoiceFrozen) == seq!['I', 'N', 'V', '_', 'F', 'R', 'Z'],
        (KoraEvent::InvoiceFrozen { invoice_id, admin }).payload(t) == seq![
            EventField::Addr(admin),
            EventField::U64(invoice_id),
            EventField::U64(t),
        ],
{
}

/// A `INV_UFRZ` event carries, in this order: `admin`, `invoice_id`, the time it is published at.
pub proof fn law_invoice_unfrozen_fields(invoice_id: u64, admin: Address, t: u64)
    ensures
        topic_name(EventKind::InvoiceUnfrozen) == seq!['I', 'N', 'V', '_', 'U', 'F', 'R', 'Z'],
        (KoraEvent::InvoiceUnfrozen { invoice_id, admin }).payload(t) == seq![
            EventField::Addr(admin),
            EventField::U64(invoice_id),
            EventField::U64(t),
        ],
{
}

/// A `CXL_REQ` event carries, in this order: `caller`, `invoice_id`, the time it is published at.
pub proof fn law_cancellation_requested_fields(invoice_id: u64, caller: Address, t: u64)
    ensures
        topic_name(EventKind::CancellationRequested) == seq!['C', 'X', 'L', '_', 'R', 'E', 'Q'],
        (KoraEvent::CancellationRequested { invoice_id, caller }).payload(t) == seq![
            EventField::Addr(caller),
            EventField::U64(invoice_id),
            EventField::U64(t),
        ],
{
}

/// A `DECAY_SET` event carries, in this order: `seller`, `invoice_id`, `floor_price`, `decay_end_ts`, the time it is published at.
pub proof fn law_decay_schedule_set_fields(
    invoice_id: u64,
    seller: Address,
    floor_price: i128,
    decay_end_ts: u64,
    t: u64,
)
    ensures
        topic_name(EventKind::DecayScheduleSet) == seq!['D', 'E', 'C', 'A', 'Y', '_', 'S', 'E', 'T'],
        (KoraEvent::DecayScheduleSet { invoice_id, seller, floor_price, decay_end_ts }).payload(t) == seq![
            EventField::Addr(seller),
            EventField::U64(invoice_id),
            EventField::I128(floor_price),
            EventField::U64(decay_end_ts),
            EventField::U64(t),
        ],
{
}

/// A `BID_SUBM` event carries, in this order: `investor`, `invoice_id`, `bid_price`, `amount`, the time it is published at.
pub proof fn law_bid_submitted_fields(
    invoice_id: u64,
    investor: Address,
    bid_price: i128,
    amount: i128,
    t: u64,
)
    ensures
        topic_name(EventKind::BidSubmitted) == seq!['B', 'I', 'D', '_', 'S', 'U', 'B', 'M'],
        (KoraEvent::BidSubmitted { invoice_id, investor, bid_price, amount }).payload(t) == seq![
            EventField::Addr(investor),
            EventField::U64(invoice_id),
            EventField::I128(bid_price),
            EventField::I128(amount),
            EventField::U64(t),
        ],
{
}

/// A `BID_ACCP` event carries, in this order: `seller`, `invoice_id`, `investor`, `bid_price`, `amount`, the time it is published at.
pub proof fn law_bid_accepted_fields(
    invoice_id: u64,
    seller: Address,
    investor: Address,
    bid_price: i128,
    amount: i128,
    t: u64,
)
    ensures
        topic_name(EventKind::BidAccepted) == seq!['B', 'I', 'D', '_', 'A', 'C', 'C', 'P'],
        (KoraEvent::BidAccepted { invoice_id, seller, investor, bid_price, amount }).payload(t) == seq![
            EventField::Addr(seller),
            EventField::U64(invoice_id),
            EventField::Addr(investor),
            EventField::I128(bid_price),
            EventField::I128(amount),
            EventField::U64(t),
        ],
{
}

/// A `ADM_AUDIT` event carries, in this order: the entry's sequence number, its actor, its action, its source, its own timestamp (whatever the time of publication).
pub proof fn law_admin_action_audited_fields(entry: AdminAuditEntry, t: u64)
    ensures
        topic_name(EventKind::AdminActionAudited) == seq!['A', 'D', 'M', '_', 'A', 'U', 'D', 'I', 'T'],
        (KoraEvent::AdminActionAudited { entry }).payload(t) == seq![
            EventField::U64(entry.sequence),
            EventField::Addr(entry.actor),
            EventField::Sym(entry.action),
            EventField::Sym(entry.source),
            EventField::U64(entry.timestamp),
        ],
{
}

} // verus!
