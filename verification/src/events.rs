//! Publishing the protocol's events.
//!
//! For each event there is a builder, `<event>_event`, whose contract fixes
//! the `KoraEvent` it makes from its arguments, and a public function that
//! builds the event and publishes it.  Publishing reads the ledger close time
//! (for the kinds of event stamped with it) and hands the host the topic and
//! the payload that `published_form` gives for that time, as host values.
//! Each public function returns, as ghost state, what it handed over, and its
//! contract (`hands_over`) says what that is in terms of its arguments.  The
//! host records the event in a log that lives behind `&Env`; that log, and the
//! close time the ledger reports, are not stated here.

use vstd::prelude::*;
use soroban_sdk::{Address, Bytes, BytesN, Env, Symbol, Val};
use crate::host::{
    address_host_val, address_val, bytes_host_val, bytes_val, clone_address, clone_bytes,
    clone_hash, clone_symbol, clone_u64_list, hash_host_val, hash_val, host_vals, i128_val,
    ledger_timestamp, new_val_list, publish, push_val, short_symbol, short_symbol_of,
    small_i128_host_val, small_u64_host_val, symbol_host_val, symbol_val, u32_host_val, u32_val,
    u64_list_host_val, u64_list_val, u64_val, val_list_host_val, val_list_val,
};
use crate::schema::{
    counterpart, is_ledger_stamped, key_precedes_actor, law_actor_leads,
    law_paired_events_differ_in_topic_only, law_timestamp_last, published_form, topic_name,
    EventField, KoraEvent,
};
use crate::types::{tier_name, AdminAuditEntry, RiskTier};

verus! {

/// Whether `v` is the host value of `field`.  Addresses, symbols, byte
/// strings and host vectors are carried by their own host value, and a `u32`
/// inside the value, as are a `u64` below 2^56 and an `i128` in
/// [-2^55, 2^55).  A risk tier is encoded as a contract enum's unit variant: a
/// host vector holding the symbol of the variant's name.  A larger `u64` or
/// `i128` gets a new host object whose handle depends on the host's state, so
/// no value is fixed for it.
pub open spec fn is_field_val(field: EventField, v: Val) -> bool {
    match field {
        EventField::Addr(a) => v == address_host_val(a),
        EventField::U32(x) => v == u32_host_val(x),
        EventField::U64(x) => x < 0x100_0000_0000_0000 ==> v == small_u64_host_val(x),
        EventField::I128(x) => -0x80_0000_0000_0000 <= x < 0x80_0000_0000_0000 ==> v
            == small_i128_host_val(x),
        EventField::Sym(s) => v == symbol_host_val(s),
        EventField::Bytes(b) => v == bytes_host_val(b),
        EventField::Hash(h) => v == hash_host_val(h),
        EventField::U64List(l) => v == u64_list_host_val(l),
        EventField::Tier(t) => exists|w: soroban_sdk::Vec<Val>|
            {
                &&& host_vals(w) == seq![symbol_host_val(short_symbol_of(tier_name(t)))]
                &&& v == #[trigger] val_list_host_val(w)
            },
    }
}

/// The host value of one payload field.
fn field_val(env: &Env, field: &EventField) -> (r: Val)
    ensures
        is_field_val(*field, r),
{
    match field {
        EventField::Addr(a) => address_val(env, a),
        EventField::U32(x) => u32_val(env, *x),
        EventField::U64(x) => u64_val(env, *x),
        EventField::I128(x) => i128_val(env, *x),
        EventField::Sym(s) => symbol_val(env, s),
        EventField::Bytes(b) => bytes_val(env, b),
        EventField::Hash(h) => hash_val(env, h),
        EventField::U64List(v) => u64_list_val(env, v),
        EventField::Tier(t) => {
            let variant = short_symbol(t.name());
            let mut w = new_val_list(env);
            push_val(&mut w, symbol_val(env, &variant));
            let r = val_list_val(env, &w);
            assert(host_vals(w) =~= seq![symbol_host_val(short_symbol_of(tier_name(*t)))]);
            r
        },
    }
}

/// The payload as a host vector of values, field by field in order.
fn payload_vals(env: &Env, data: &Vec<EventField>) -> (r: soroban_sdk::Vec<Val>)
    ensures
        host_vals(r).len() == data@.len(),
        forall|j: int| 0 <= j < data@.len() ==> is_field_val(data@[j], #[trigger] host_vals(r)[j]),
{
    let mut vals = new_val_list(env);
    let mut i: usize = 0;
    while i < data.len()
        invariant
            i <= data.len(),
            host_vals(vals).len() == i,
            forall|j: int| 0 <= j < i ==> is_field_val(data@[j], #[trigger] host_vals(vals)[j]),
        decreases data.len() - i,
    {
        push_val(&mut vals, field_val(env, &data[i]));
        i += 1;
    }
    vals
}

/// What a publication hands to the host: the topic's characters, the payload
/// fields, the ledger close time that was read for it (0 where the kind of
/// event is not stamped with it), and the host values of the payload fields.
pub type Published = Ghost<(Seq<char>, Seq<EventField>, u64, Seq<Val>)>;

/// Whether `h` is what publishing `event` hands to the host: the topic of its
/// kind, its payload for the time that was read, and, field by field, the host
/// value of each payload field.  The topic itself goes to the host as the
/// small symbol `short_symbol_of(h.0)`.
pub open spec fn hands_over(h: (Seq<char>, Seq<EventField>, u64, Seq<Val>), event: KoraEvent) -> bool {
    &&& h.0 == topic_name(event.kind())
    &&& h.1 == event.payload(h.2)
    &&& !is_ledger_stamped(event.kind()) ==> h.2 == 0
    &&& h.3.len() == h.1.len()
    &&& forall|j: int| 0 <= j < h.1.len() ==> is_field_val(h.1[j], #[trigger] h.3[j])
}

/// Publishes `event`: the topic and payload handed to the host are
/// `published_form(event, time)`, where `time` is the ledger close time for
/// the kinds of event stamped with it.
fn emit(env: &Env, event: KoraEvent) -> (handed: Published)
    ensures
        hands_over(handed@, event),
{
    let ghost original = event;
    let time: u64 = if event.event_kind().ledger_stamped() {
        ledger_timestamp(env)
    } else {
        0
    };
    let (topic, data) = published_form(event, time);
    let vals = payload_vals(env, &data);
    let ghost handed = (topic@, data@, time, host_vals(vals));
    publish(env, short_symbol(topic), vals);
    assert(hands_over(handed, original));
    Ghost(handed)
}

/// The `INV_CRT` event made from these arguments.
pub fn invoice_created_event(
    invoice_id: u64,
    sme: &Address,
    amount: i128,
    currency: Symbol,
) -> (e: KoraEvent)
    ensures
        e == (KoraEvent::InvoiceCreated { invoice_id, sme: *sme, amount, currency }),
{
    KoraEvent::InvoiceCreated { invoice_id, sme: clone_address(sme), amount, currency }
}

/// Schema: (actor=sme, invoice_id, amount, currency, timestamp)
/// Topic: `INV_CRT`.
pub fn invoice_created(
    env: &Env,
    invoice_id: u64,
    sme: &Address,
    amount: i128,
    currency: Symbol,
) -> (published: Published)
    ensures
        hands_over(
            published@,
            (KoraEvent::InvoiceCreated {
                invoice_id,
                sme: *sme,
                amount,
                currency,
            }),
        ),
{
    emit(env, invoice_created_event(invoice_id, sme, amount, currency))
}

/// The `INV_LST` event made from these arguments.
pub fn invoice_listed_event(
    invoice_id: u64,
    seller: &Address,
    asking_price: i128,
    currency: Symbol,
) -> (e: KoraEvent)
    ensures
        e == (KoraEvent::InvoiceListed { invoice_id, seller: *seller, asking_price, currency }),
{
    KoraEvent::InvoiceListed { invoice_id, seller: clone_address(seller), asking_price, currency }
}

/// Standardized marketplace event: invoice listed for financing.
/// Schema: (actor=seller, invoice_id, asking_price, currency, timestamp)
/// Topic: `INV_LST`.
pub fn invoice_listed(
    env: &Env,
    invoice_id: u64,
    seller: &Address,
    asking_price: i128,
    currency: Symbol,
) -> (published: Published)
    ensures
        hands_over(
            published@,
            (KoraEvent::InvoiceListed {
                invoice_id,
                seller: *seller,
                asking_price,
                currency,
            }),
        ),
{
    emit(env, invoice_listed_event(invoice_id, seller, asking_price, currency))
}

/// The `INV_FND` event made from these arguments.
pub fn invoice_funded_event(
    invoice_id: u64,
    investor: &Address,
    amount: i128,
    currency: Symbol,
) -> (e: KoraEvent)
    ensures
        e == (KoraEvent::InvoiceFunded { invoice_id, investor: *investor, amount, currency }),
{
    KoraEvent::InvoiceFunded { invoice_id, investor: clone_address(investor), amount, currency }
}

/// Standardized marketplace event: investor funded a listing.
/// Schema: (actor=investor, invoice_id, funded_amount, currency, timestamp)
/// Topic: `INV_FND`.
pub fn invoice_funded(
    env: &Env,
    invoice_id: u64,
    investor: &Address,
    amount: i128,
    currency: Symbol,
) -> (published: Published)
    ensures
        hands_over(
            published@,
            (KoraEvent::InvoiceFunded {
                invoice_id,
                investor: *investor,
                amount,
                currency,
            }),
        ),
{
    emit(env, invoice_funded_event(invoice_id, investor, amount, currency))
}

/// The `INV_RPD` event made from these arguments.
pub fn invoice_repaid_event(
    invoice_id: u64,
    sme: &Address,
    amount: i128,
    currency: Symbol,
) -> (e: KoraEvent)
    ensures
        e == (KoraEvent::InvoiceRepaid { invoice_id, sme: *sme, amount, currency }),
{
    KoraEvent::InvoiceRepaid { invoice_id, sme: clone_address(sme), amount, currency }
}

/// Schema: (actor=sme, invoice_id, amount, currency, timestamp)
/// Topic: `INV_RPD`.
pub fn invoice_repaid(
    env: &Env,
    invoice_id: u64,
    sme: &Address,
    amount: i128,
    currency: Symbol,
) -> (published: Published)
    ensures
        hands_over(
            published@,
            (KoraEvent::InvoiceRepaid {
                invoice_id,
                sme: *sme,
                amount,
                currency,
            }),
        ),
{
    emit(env, invoice_repaid_event(invoice_id, sme, amount, currency))
}

/// The `INV_DFT` event made from these arguments.
pub fn invoice_defaulted_event(
    invoice_id: u64,
    actor: &Address,
    amount: i128,
    currency: Symbol,
) -> (e: KoraEvent)
    ensures
        e == (KoraEvent::InvoiceDefaulted { invoice_id, actor: *actor, amount, currency }),
{
    KoraEvent::InvoiceDefaulted { invoice_id, actor: clone_address(actor), amount, currency }
}

/// Schema: (actor, invoice_id, amount, currency, timestamp)
/// actor is the admin marking the default (or the SME address in invoice_nft context)
/// Topic: `INV_DFT`.
pub fn invoice_defaulted(
    env: &Env,
    invoice_id: u64,
    actor: &Address,
    amount: i128,
    currency: Symbol,
) -> (published: Published)
    ensures
        hands_over(
            published@,
            (KoraEvent::InvoiceDefaulted {
                invoice_id,
                actor: *actor,
                amount,
                currency,
            }),
        ),
{
    emit(env, invoice_defaulted_event(invoice_id, actor, amount, currency))
}

/// The `INV_AMD` event made from these arguments.
pub fn invoice_amended_event(invoice_id: u64, sme: &Address, currency: Symbol) -> (e: KoraEvent)
    ensures
        e == (KoraEvent::InvoiceAmended { invoice_id, sme: *sme, currency }),
{
    KoraEvent::InvoiceAmended { invoice_id, sme: clone_address(sme), currency }
}

/// Schema: (invoice_id, sme, currency, timestamp)
/// Topic: `INV_AMD`.
pub fn invoice_amended(
    env: &Env,
    invoice_id: u64,
    sme: &Address,
    currency: Symbol,
) -> (published: Published)
    ensures
        hands_over(published@, (KoraEvent::InvoiceAmended { invoice_id, sme: *sme, currency })),
{
    emit(env, invoice_amended_event(invoice_id, sme, currency))
}

/// The `INV_WTH` event made from these arguments.
pub fn invoice_withdrawn_event(invoice_id: u64, sme: &Address, currency: Symbol) -> (e: KoraEvent)
    ensures
        e == (KoraEvent::InvoiceWithdrawn { invoice_id, sme: *sme, currency }),
{
    KoraEvent::InvoiceWithdrawn { invoice_id, sme: clone_address(sme), currency }
}

/// Schema: (invoice_id, sme, currency, timestamp)
/// Topic: `INV_WTH`.
pub fn invoice_withdrawn(
    env: &Env,
    invoice_id: u64,
    sme: &Address,
    currency: Symbol,
) -> (published: Published)
    ensures
        hands_over(published@, (KoraEvent::InvoiceWithdrawn { invoice_id, sme: *sme, currency })),
{
    emit(env, invoice_withdrawn_event(invoice_id, sme, currency))
}

/// The `INV_BATCH` event made from these arguments.
pub fn invoice_batch_minted_event(
    batch_id: u64,
    sme: &Address,
    invoice_ids: &soroban_sdk::Vec<u64>,
) -> (e: KoraEvent)
    ensures
        e == (KoraEvent::InvoiceBatchMinted { batch_id, sme: *sme, invoice_ids: *invoice_ids }),
{
    KoraEvent::InvoiceBatchMinted {
        batch_id,
        sme: clone_address(sme),
        invoice_ids: clone_u64_list(invoice_ids),
    }
}

/// Batch-level correlation event for `mint_invoices_batch`, emitted once per
/// call (in addition to the per-invoice `invoice_created` events) so an
/// off-chain indexer can group invoices minted together in one batch.
/// Schema: (actor=sme, batch_id, invoice_ids, timestamp)
/// Topic: `INV_BATCH`.
pub fn invoice_batch_minted(
    env: &Env,
    batch_id: u64,
    sme: &Address,
    invoice_ids: &soroban_sdk::Vec<u64>,
) -> (published: Published)
    ensures
        hands_over(
            published@,
            (KoraEvent::InvoiceBatchMinted {
                batch_id,
                sme: *sme,
                invoice_ids: *invoice_ids,
            }),
        ),
{
    emit(env, invoice_batch_minted_event(batch_id, sme, invoice_ids))
}

/// The `RISK_RFSH` event made from these arguments.
pub fn risk_score_refreshed_event(
    invoice_id: u64,
    caller: &Address,
    old_score: u32,
    new_score: u32,
    old_tier: &RiskTier,
    new_tier: &RiskTier,
) -> (e: KoraEvent)
    ensures
        e == (KoraEvent::RiskScoreRefreshed {
            invoice_id,
            caller: *caller,
            old_score,
            new_score,
            old_tier: *old_tier,
            new_tier: *new_tier,
        }),
{
    KoraEvent::RiskScoreRefreshed {
        invoice_id,
        caller: clone_address(caller),
        old_score,
        new_score,
        old_tier: *old_tier,
        new_tier: *new_tier,
    }
}

/// Records a risk-score refresh on an already-`Funded` invoice, capturing both
/// the prior and updated score/tier for audit purposes.
/// Schema: (actor=caller, invoice_id, old_score, new_score, old_tier, new_tier, timestamp)
/// Topic: `RISK_RFSH`.
pub fn risk_score_refreshed(
    env: &Env,
    invoice_id: u64,
    caller: &Address,
    old_score: u32,
    new_score: u32,
    old_tier: &RiskTier,
    new_tier: &RiskTier,
) -> (published: Published)
    ensures
        hands_over(
            published@,
            (KoraEvent::RiskScoreRefreshed {
                invoice_id,
                caller: *caller,
                old_score,
                new_score,
                old_tier: *old_tier,
                new_tier: *new_tier,
            }),
        ),
{
    emit(env, risk_score_refreshed_event(
        invoice_id,
        caller,
        old_score,
        new_score,
        old_tier,
        new_tier,
    ))
}

/// The `REPAY` event made from these arguments.
pub fn repayment_made_event(invoice_id: u64, payer: &Address, amount: i128) -> (e: KoraEvent)
    ensures
        e == (KoraEvent::RepaymentMade { invoice_id, payer: *payer, amount }),
{
    KoraEvent::RepaymentMade { invoice_id, payer: clone_address(payer), amount }
}

/// Schema: (actor=payer, invoice_id, amount, timestamp)
/// Topic: `REPAY`.
pub fn repayment_made(
    env: &Env,
    invoice_id: u64,
    payer: &Address,
    amount: i128,
) -> (published: Published)
    ensures
        hands_over(published@, (KoraEvent::RepaymentMade { invoice_id, payer: *payer, amount })),
{
    emit(env, repayment_made_event(invoice_id, payer, amount))
}

/// The `INSTL_PD` event made from these arguments.
pub fn installment_paid_event(
    invoice_id: u64,
    payer: &Address,
    index: u32,
    amount: i128,
) -> (e: KoraEvent)
    ensures
        e == (KoraEvent::InstallmentPaid { invoice_id, payer: *payer, index, amount }),
{
    KoraEvent::InstallmentPaid { invoice_id, payer: clone_address(payer), index, amount }
}

/// Schema: (actor=payer, invoice_id, installment_index, amount, timestamp)
/// Topic: `INSTL_PD`.
pub fn installment_paid(
    env: &Env,
    invoice_id: u64,
    payer: &Address,
    index: u32,
    amount: i128,
) -> (published: Published)
    ensures
        hands_over(
            published@,
            (KoraEvent::InstallmentPaid {
                invoice_id,
                payer: *payer,
                index,
                amount,
            }),
        ),
{
    emit(env, installment_paid_event(invoice_id, payer, index, amount))
}

/// The `YIELD` event made from these arguments.
pub fn yield_distributed_event(
    invoice_id: u64,
    investor: &Address,
    yield_amount: i128,
) -> (e: KoraEvent)
    ensures
        e == (KoraEvent::YieldDistributed { invoice_id, investor: *investor, yield_amount }),
{
    KoraEvent::YieldDistributed { invoice_id, investor: clone_address(investor), yield_amount }
}

/// Schema: (actor=investor, invoice_id, yield_amount, timestamp)
/// Topic: `YIELD`.
pub fn yield_distributed(
    env: &Env,
    invoice_id: u64,
    investor: &Address,
    yield_amount: i128,
) -> (published: Published)
    ensures
        hands_over(
            published@,
            (KoraEvent::YieldDistributed {
                invoice_id,
                investor: *investor,
                yield_amount,
            }),
        ),
{
    emit(env, yield_distributed_event(invoice_id, investor, yield_amount))
}

/// The `LATE_PEN` event made from these arguments.
pub fn late_penalty_applied_event(
    invoice_id: u64,
    penalty_amount: i128,
    total_owed: i128,
) -> (e: KoraEvent)
    ensures
        e == (KoraEvent::LatePenaltyApplied { invoice_id, penalty_amount, total_owed }),
{
    KoraEvent::LatePenaltyApplied { invoice_id, penalty_amount, total_owed }
}

/// System event — no single actor; penalty is applied automatically on late repayment.
/// Schema: (invoice_id, penalty_amount, total_owed, timestamp)
/// Topic: `LATE_PEN`.
pub fn late_penalty_applied(
    env: &Env,
    invoice_id: u64,
    penalty_amount: i128,
    total_owed: i128,
) -> (published: Published)
    ensures
        hands_over(
            published@,
            (KoraEvent::LatePenaltyApplied {
                invoice_id,
                penalty_amount,
                total_owed,
            }),
        ),
{
    emit(env, late_penalty_applied_event(invoice_id, penalty_amount, total_owed))
}

/// The `LST_CXL` event made from these arguments.
pub fn listing_cancelled_event(invoice_id: u64, seller: &Address) -> (e: KoraEvent)
    ensures
        e == (KoraEvent::ListingCancelled { invoice_id, seller: *seller }),
{
    KoraEvent::ListingCancelled { invoice_id, seller: clone_address(seller) }
}

/// Schema: (actor=seller, invoice_id, timestamp)
/// Topic: `LST_CXL`.
pub fn listing_cancelled(env: &Env, invoice_id: u64, seller: &Address) -> (published: Published)
    ensures
        hands_over(published@, (KoraEvent::ListingCancelled { invoice_id, seller: *seller })),
{
    emit(env, listing_cancelled_event(invoice_id, seller))
}

/// The `LST_EXP` event made from these arguments.
pub fn listing_expired_event(invoice_id: u64, seller: &Address) -> (e: KoraEvent)
    ensures
        e == (KoraEvent::ListingExpired { invoice_id, seller: *seller }),
{
    KoraEvent::ListingExpired { invoice_id, seller: clone_address(seller) }
}

/// Schema: (actor=seller, invoice_id, timestamp)
/// Topic: `LST_EXP`.
pub fn listing_expired(env: &Env, invoice_id: u64, seller: &Address) -> (published: Published)
    ensures
        hands_over(published@, (KoraEvent::ListingExpired { invoice_id, seller: *seller })),
{
    emit(env, listing_expired_event(invoice_id, seller))
}

/// The `TRES_FEE` event made from these arguments.
pub fn fee_collected_event(
    investor: &Address,
    invoice_id: u64,
    fee_amount: i128,
    token: &Address,
) -> (e: KoraEvent)
    ensures
        e == (KoraEvent::FeeCollected {
            investor: *investor,
            invoice_id,
            fee_amount,
            token: *token,
        }),
{
    KoraEvent::FeeCollected {
        investor: clone_address(investor),
        invoice_id,
        fee_amount,
        token: clone_address(token),
    }
}

/// Schema: (actor=investor, invoice_id, fee_amount, token, timestamp)
/// investor is the address that paid the fee; use contract address when the
/// fee is deposited programmatically (e.g., treasury.collect_fee).
/// Topic: `TRES_FEE`.
pub fn fee_collected(
    env: &Env,
    investor: &Address,
    invoice_id: u64,
    fee_amount: i128,
    token: &Address,
) -> (published: Published)
    ensures
        hands_over(
            published@,
            (KoraEvent::FeeCollected {
                investor: *investor,
                invoice_id,
                fee_amount,
                token: *token,
            }),
        ),
{
    emit(env, fee_collected_event(investor, invoice_id, fee_amount, token))
}

/// The `FEE_WTH` event made from these arguments.
pub fn fee_withdrawn_event(actor: &Address, token: &Address, amount: i128) -> (e: KoraEvent)
    ensures
        e == (KoraEvent::FeeWithdrawn { actor: *actor, token: *token, amount }),
{
    KoraEvent::FeeWithdrawn { actor: clone_address(actor), token: clone_address(token), amount }
}

/// Schema: (actor=admin, token, amount, timestamp)
/// Topic: `FEE_WTH`.
pub fn fee_withdrawn(
    env: &Env,
    actor: &Address,
    token: &Address,
    amount: i128,
) -> (published: Published)
    ensures
        hands_over(published@, (KoraEvent::FeeWithdrawn { actor: *actor, token: *token, amount })),
{
    emit(env, fee_withdrawn_event(actor, token, amount))
}

/// The `EMRG_WTH` event made from these arguments.
pub fn emergency_withdrawn_event(by: &Address, token: &Address, amount: i128) -> (e: KoraEvent)
    ensures
        e == (KoraEvent::EmergencyWithdrawn { by: *by, token: *token, amount }),
{
    KoraEvent::EmergencyWithdrawn { by: clone_address(by), token: clone_address(token), amount }
}

/// Schema: (actor=admin, token, amount, timestamp)
/// Topic: `EMRG_WTH`.
pub fn emergency_withdrawn(
    env: &Env,
    by: &Address,
    token: &Address,
    amount: i128,
) -> (published: Published)
    ensures
        hands_over(published@, (KoraEvent::EmergencyWithdrawn { by: *by, token: *token, amount })),
{
    emit(env, emergency_withdrawn_event(by, token, amount))
}

/// The `FEE_UPD` event made from these arguments.
pub fn fee_rate_updated_event(by: &Address, old_bps: u32, new_bps: u32) -> (e: KoraEvent)
    ensures
        e == (KoraEvent::FeeRateUpdated { by: *by, old_bps, new_bps }),
{
    KoraEvent::FeeRateUpdated { by: clone_address(by), old_bps, new_bps }
}

/// Schema: (actor=admin, old_bps, new_bps, timestamp)
/// Topic: `FEE_UPD`.
pub fn fee_rate_updated(
    env: &Env,
    by: &Address,
    old_bps: u32,
    new_bps: u32,
) -> (published: Published)
    ensures
        hands_over(published@, (KoraEvent::FeeRateUpdated { by: *by, old_bps, new_bps })),
{
    emit(env, fee_rate_updated_event(by, old_bps, new_bps))
}

/// The `REF_FEE` event made from these arguments.
pub fn referral_fee_paid_event(
    invoice_id: u64,
    referrer: &Address,
    referral_fee: i128,
) -> (e: KoraEvent)
    ensures
        e == (KoraEvent::ReferralFeePaid { invoice_id, referrer: *referrer, referral_fee }),
{
    KoraEvent::ReferralFeePaid { invoice_id, referrer: clone_address(referrer), referral_fee }
}

/// Emitted when part of a funding fee is routed to the invoice's referrer.
/// Schema: (invoice_id, referrer, referral_fee, timestamp)
/// Topic: `REF_FEE`.
pub fn referral_fee_paid(
    env: &Env,
    invoice_id: u64,
    referrer: &Address,
    referral_fee: i128,
) -> (published: Published)
    ensures
        hands_over(
            published@,
            (KoraEvent::ReferralFeePaid {
                invoice_id,
                referrer: *referrer,
                referral_fee,
            }),
        ),
{
    emit(env, referral_fee_paid_event(invoice_id, referrer, referral_fee))
}

/// The `TRES_INI` event made from these arguments.
pub fn treasury_initialized_event(admin: &Address, fee_bps: u32) -> (e: KoraEvent)
    ensures
        e == (KoraEvent::TreasuryInitialized { admin: *admin, fee_bps }),
{
    KoraEvent::TreasuryInitialized { admin: clone_address(admin), fee_bps }
}

/// Schema: (actor=admin, fee_bps, timestamp)
/// Topic: `TRES_INI`.
pub fn treasury_initialized(env: &Env, admin: &Address, fee_bps: u32) -> (published: Published)
    ensures
        hands_over(published@, (KoraEvent::TreasuryInitialized { admin: *admin, fee_bps })),
{
    emit(env, treasury_initialized_event(admin, fee_bps))
}

/// The `AC_PAUSED` event made from these arguments.
pub fn protocol_paused_event(by: &Address) -> (e: KoraEvent)
    ensures
        e == (KoraEvent::ProtocolPaused { by: *by }),
{
    KoraEvent::ProtocolPaused { by: clone_address(by) }
}

/// Schema: (actor=admin, timestamp)
/// Topic: `AC_PAUSED`.
pub fn protocol_paused(env: &Env, by: &Address) -> (published: Published)
    ensures
        hands_over(published@, (KoraEvent::ProtocolPaused { by: *by })),
{
    emit(env, protocol_paused_event(by))
}

/// The `AC_UNPAUS` event made from these arguments.
pub fn protocol_unpaused_event(by: &Address) -> (e: KoraEvent)
    ensures
        e == (KoraEvent::ProtocolUnpaused { by: *by }),
{
    KoraEvent::ProtocolUnpaused { by: clone_address(by) }
}

/// Schema: (actor=admin, timestamp)
/// Topic: `AC_UNPAUS`.
pub fn protocol_unpaused(env: &Env, by: &Address) -> (published: Published)
    ensures
        hands_over(published@, (KoraEvent::ProtocolUnpaused { by: *by })),
{
    emit(env, protocol_unpaused_event(by))
}

/// The `TOK_WL` event made from these arguments.
pub fn token_whitelisted_event(actor: &Address, token: &Address) -> (e: KoraEvent)
    ensures
        e == (KoraEvent::TokenWhitelisted { actor: *actor, token: *token }),
{
    KoraEvent::TokenWhitelisted { actor: clone_address(actor), token: clone_address(token) }
}

/// Schema: (actor=admin, token, timestamp)
/// Topic: `TOK_WL`.
pub fn token_whitelisted(env: &Env, actor: &Address, token: &Address) -> (published: Published)
    ensures
        hands_over(published@, (KoraEvent::TokenWhitelisted { actor: *actor, token: *token })),
{
    emit(env, token_whitelisted_event(actor, token))
}

/// The `TOK_UNWL` event made from these arguments.
pub fn token_whitelist_removed_event(actor: &Address, token: &Address) -> (e: KoraEvent)
    ensures
        e == (KoraEvent::TokenWhitelistRemoved { actor: *actor, token: *token }),
{
    KoraEvent::TokenWhitelistRemoved { actor: clone_address(actor), token: clone_address(token) }
}

/// Schema: (actor=admin, token, timestamp)
/// Topic: `TOK_UNWL`.
pub fn token_whitelist_removed(
    env: &Env,
    actor: &Address,
    token: &Address,
) -> (published: Published)
    ensures
        hands_over(published@, (KoraEvent::TokenWhitelistRemoved { actor: *actor, token: *token })),
{
    emit(env, token_whitelist_removed_event(actor, token))
}

/// The `ADM_TRF` event made from these arguments.
pub fn admin_transferred_event(actor: &Address, new_admin: &Address) -> (e: KoraEvent)
    ensures
        e == (KoraEvent::AdminTransferred { actor: *actor, new_admin: *new_admin }),
{
    KoraEvent::AdminTransferred { actor: clone_address(actor), new_admin: clone_address(new_admin) }
}

/// Schema: (actor=current_admin, new_admin, timestamp)
/// Topic: `ADM_TRF`.
pub fn admin_transferred(env: &Env, actor: &Address, new_admin: &Address) -> (published: Published)
    ensures
        hands_over(
            published@,
            (KoraEvent::AdminTransferred {
                actor: *actor,
                new_admin: *new_admin,
            }),
        ),
{
    emit(env, admin_transferred_event(actor, new_admin))
}

/// The `ROL_GRT` event made from these arguments.
pub fn role_granted_event(admin: &Address, target: &Address) -> (e: KoraEvent)
    ensures
        e == (KoraEvent::RoleGranted { admin: *admin, target: *target }),
{
    KoraEvent::RoleGranted { admin: clone_address(admin), target: clone_address(target) }
}

/// Schema: (actor=admin, target, timestamp)
/// Topic: `ROL_GRT`.
pub fn role_granted(env: &Env, admin: &Address, target: &Address) -> (published: Published)
    ensures
        hands_over(published@, (KoraEvent::RoleGranted { admin: *admin, target: *target })),
{
    emit(env, role_granted_event(admin, target))
}

/// The `ROL_RVK` event made from these arguments.
pub fn role_revoked_event(admin: &Address, target: &Address) -> (e: KoraEvent)
    ensures
        e == (KoraEvent::RoleRevoked { admin: *admin, target: *target }),
{
    KoraEvent::RoleRevoked { admin: clone_address(admin), target: clone_address(target) }
}

/// Schema: (actor=admin, target, timestamp)
/// Topic: `ROL_RVK`.
pub fn role_revoked(env: &Env, admin: &Address, target: &Address) -> (published: Published)
    ensures
        hands_over(published@, (KoraEvent::RoleRevoked { admin: *admin, target: *target })),
{
    emit(env, role_revoked_event(admin, target))
}

/// The `POOL_OPN` event made from these arguments.
pub fn pool_opened_event(
    marketplace: &Address,
    invoice_id: u64,
    token: &Address,
    face_value: i128,
) -> (e: KoraEvent)
    ensures
        e == (KoraEvent::PoolOpened {
            marketplace: *marketplace,
            invoice_id,
            token: *token,
            face_value,
        }),
{
    KoraEvent::PoolOpened {
        marketplace: clone_address(marketplace),
        invoice_id,
        token: clone_address(token),
        face_value,
    }
}

/// Schema: (actor=marketplace, invoice_id, token, face_value, timestamp)
/// Topic: `POOL_OPN`.
pub fn pool_opened(
    env: &Env,
    marketplace: &Address,
    invoice_id: u64,
    token: &Address,
    face_value: i128,
) -> (published: Published)
    ensures
        hands_over(
            published@,
            (KoraEvent::PoolOpened {
                marketplace: *marketplace,
                invoice_id,
                token: *token,
                face_value,
            }),
        ),
{
    emit(env, pool_opened_event(marketplace, invoice_id, token, face_value))
}

/// The `POS_REC` event made from these arguments.
pub fn position_recorded_event(
    admin: &Address,
    invoice_id: u64,
    investor: &Address,
    contributed: i128,
    share_bps: u32,
) -> (e: KoraEvent)
    ensures
        e == (KoraEvent::PositionRecorded {
            admin: *admin,
            invoice_id,
            investor: *investor,
            contributed,
            share_bps,
        }),
{
    KoraEvent::PositionRecorded {
        admin: clone_address(admin),
        invoice_id,
        investor: clone_address(investor),
        contributed,
        share_bps,
    }
}

/// Schema: (actor=admin, invoice_id, investor, contributed, share_bps, timestamp)
/// Topic: `POS_REC`.
pub fn position_recorded(
    env: &Env,
    admin: &Address,
    invoice_id: u64,
    investor: &Address,
    contributed: i128,
    share_bps: u32,
) -> (published: Published)
    ensures
        hands_over(
            published@,
            (KoraEvent::PositionRecorded {
                admin: *admin,
                invoice_id,
                investor: *investor,
                contributed,
                share_bps,
            }),
        ),
{
    emit(env, position_recorded_event(admin, invoice_id, investor, contributed, share_bps))
}

/// The `VRF_ADD` event made from these arguments.
pub fn verifier_added_event(admin: &Address, verifier: &Address) -> (e: KoraEvent)
    ensures
        e == (KoraEvent::VerifierAdded { admin: *admin, verifier: *verifier }),
{
    KoraEvent::VerifierAdded { admin: clone_address(admin), verifier: clone_address(verifier) }
}

/// Schema: (actor=admin, verifier, timestamp)
/// Topic: `VRF_ADD`.
pub fn verifier_added(env: &Env, admin: &Address, verifier: &Address) -> (published: Published)
    ensures
        hands_over(published@, (KoraEvent::VerifierAdded { admin: *admin, verifier: *verifier })),
{
    emit(env, verifier_added_event(admin, verifier))
}

/// The `VRF_RMV` event made from these arguments.
pub fn verifier_removed_event(admin: &Address, verifier: &Address) -> (e: KoraEvent)
    ensures
        e == (KoraEvent::VerifierRemoved { admin: *admin, verifier: *verifier }),
{
    KoraEvent::VerifierRemoved { admin: clone_address(admin), verifier: clone_address(verifier) }
}

/// Schema: (actor=admin, verifier, timestamp)
/// Topic: `VRF_RMV`.
pub fn verifier_removed(env: &Env, admin: &Address, verifier: &Address) -> (published: Published)
    ensures
        hands_over(published@, (KoraEvent::VerifierRemoved { admin: *admin, verifier: *verifier })),
{
    emit(env, verifier_removed_event(admin, verifier))
}

/// The `SME_REG` event made from these arguments.
pub fn sme_registered_event(verifier: &Address, sme: &Address, risk_score: u32) -> (e: KoraEvent)
    ensures
        e == (KoraEvent::SmeRegistered { verifier: *verifier, sme: *sme, risk_score }),
{
    KoraEvent::SmeRegistered {
        verifier: clone_address(verifier),
        sme: clone_address(sme),
        risk_score,
    }
}

/// Schema: (actor=verifier, sme, risk_score, timestamp)
/// Topic: `SME_REG`.
pub fn sme_registered(
    env: &Env,
    verifier: &Address,
    sme: &Address,
    risk_score: u32,
) -> (published: Published)
    ensures
        hands_over(
            published@,
            (KoraEvent::SmeRegistered {
                verifier: *verifier,
                sme: *sme,
                risk_score,
            }),
        ),
{
    emit(env, sme_registered_event(verifier, sme, risk_score))
}

/// The `SME_SCU` event made from these arguments.
pub fn sme_score_updated_event(verifier: &Address, sme: &Address, new_score: u32) -> (e: KoraEvent)
    ensures
        e == (KoraEvent::SmeScoreUpdated { verifier: *verifier, sme: *sme, new_score }),
{
    KoraEvent::SmeScoreUpdated {
        verifier: clone_address(verifier),
        sme: clone_address(sme),
        new_score,
    }
}

/// Schema: (actor=verifier, sme, new_score, timestamp)
/// Topic: `SME_SCU`.
pub fn sme_score_updated(
    env: &Env,
    verifier: &Address,
    sme: &Address,
    new_score: u32,
) -> (published: Published)
    ensures
        hands_over(
            published@,
            (KoraEvent::SmeScoreUpdated {
                verifier: *verifier,
                sme: *sme,
                new_score,
            }),
        ),
{
    emit(env, sme_score_updated_event(verifier, sme, new_score))
}

/// The `SME_DFLT` event made from these arguments.
pub fn sme_default_recorded_event(
    admin: &Address,
    sme: &Address,
    total_defaults: u32,
) -> (e: KoraEvent)
    ensures
        e == (KoraEvent::SmeDefaultRecorded { admin: *admin, sme: *sme, total_defaults }),
{
    KoraEvent::SmeDefaultRecorded {
        admin: clone_address(admin),
        sme: clone_address(sme),
        total_defaults,
    }
}

/// Schema: (actor=admin, sme, total_defaults, timestamp)
/// Topic: `SME_DFLT`.
pub fn sme_default_recorded(
    env: &Env,
    admin: &Address,
    sme: &Address,
    total_defaults: u32,
) -> (published: Published)
    ensures
        hands_over(
            published@,
            (KoraEvent::SmeDefaultRecorded {
                admin: *admin,
                sme: *sme,
                total_defaults,
            }),
        ),
{
    emit(env, sme_default_recorded_event(admin, sme, total_defaults))
}

/// The `SME_INVC` event made from these arguments.
pub fn sme_invoice_count_incremented_event(sme: &Address, new_total: u32) -> (e: KoraEvent)
    ensures
        e == (KoraEvent::SmeInvoiceCountIncremented { sme: *sme, new_total }),
{
    KoraEvent::SmeInvoiceCountIncremented { sme: clone_address(sme), new_total }
}

/// Schema: (actor=sme, new_total_invoices, timestamp)
/// Topic: `SME_INVC`.
pub fn sme_invoice_count_incremented(
    env: &Env,
    sme: &Address,
    new_total: u32,
) -> (published: Published)
    ensures
        hands_over(published@, (KoraEvent::SmeInvoiceCountIncremented { sme: *sme, new_total })),
{
    emit(env, sme_invoice_count_incremented_event(sme, new_total))
}

/// The `DBT_SCR` event made from these arguments.
pub fn debtor_score_set_event(verifier: &Address, debtor_hash: &Bytes, score: u32) -> (e: KoraEvent)
    ensures
        e == (KoraEvent::DebtorScoreSet { verifier: *verifier, debtor_hash: *debtor_hash, score }),
{
    KoraEvent::DebtorScoreSet {
        verifier: clone_address(verifier),
        debtor_hash: clone_bytes(debtor_hash),
        score,
    }
}

/// Schema: (actor=verifier, debtor_hash, score, timestamp)
/// Topic: `DBT_SCR`.
pub fn debtor_score_set(
    env: &Env,
    verifier: &Address,
    debtor_hash: &Bytes,
    score: u32,
) -> (published: Published)
    ensures
        hands_over(
            published@,
            (KoraEvent::DebtorScoreSet {
                verifier: *verifier,
                debtor_hash: *debtor_hash,
                score,
            }),
        ),
{
    emit(env, debtor_score_set_event(verifier, debtor_hash, score))
}

/// The `REG_INI` event made from these arguments.
pub fn registry_initialized_event(admin: &Address, invoice_nft: &Address) -> (e: KoraEvent)
    ensures
        e == (KoraEvent::RegistryInitialized { admin: *admin, invoice_nft: *invoice_nft }),
{
    KoraEvent::RegistryInitialized {
        admin: clone_address(admin),
        invoice_nft: clone_address(invoice_nft),
    }
}

/// Schema: (actor=admin, invoice_nft, timestamp)
/// Topic: `REG_INI`.
pub fn registry_initialized(
    env: &Env,
    admin: &Address,
    invoice_nft: &Address,
) -> (published: Published)
    ensures
        hands_over(
            published@,
            (KoraEvent::RegistryInitialized {
                admin: *admin,
                invoice_nft: *invoice_nft,
            }),
        ),
{
    emit(env, registry_initialized_event(admin, invoice_nft))
}

/// The `VRF_SADD` event made from these arguments.
pub fn sub_account_added_event(primary: &Address, sub_account: &Address) -> (e: KoraEvent)
    ensures
        e == (KoraEvent::SubAccountAdded { primary: *primary, sub_account: *sub_account }),
{
    KoraEvent::SubAccountAdded {
        primary: clone_address(primary),
        sub_account: clone_address(sub_account),
    }
}

/// Schema: (primary_verifier, sub_account, timestamp)
/// Topic: `VRF_SADD`.
pub fn sub_account_added(
    env: &Env,
    primary: &Address,
    sub_account: &Address,
) -> (published: Published)
    ensures
        hands_over(
            published@,
            (KoraEvent::SubAccountAdded {
                primary: *primary,
                sub_account: *sub_account,
            }),
        ),
{
    emit(env, sub_account_added_event(primary, sub_account))
}

/// The `VRF_SRMV` event made from these arguments.
pub fn sub_account_removed_event(primary: &Address, sub_account: &Address) -> (e: KoraEvent)
    ensures
        e == (KoraEvent::SubAccountRemoved { primary: *primary, sub_account: *sub_account }),
{
    KoraEvent::SubAccountRemoved {
        primary: clone_address(primary),
        sub_account: clone_address(sub_account),
    }
}

/// Schema: (primary_verifier, sub_account, timestamp)
/// Topic: `VRF_SRMV`.
pub fn sub_account_removed(
    env: &Env,
    primary: &Address,
    sub_account: &Address,
) -> (published: Published)
    ensures
        hands_over(
            published@,
            (KoraEvent::SubAccountRemoved {
                primary: *primary,
                sub_account: *sub_account,
            }),
        ),
{
    emit(env, sub_account_removed_event(primary, sub_account))
}

/// The `AC_UPG_P` event made from these arguments.
pub fn upgrade_proposed_event(admin: &Address, wasm_hash: &BytesN<32>) -> (e: KoraEvent)
    ensures
        e == (KoraEvent::UpgradeProposed { admin: *admin, wasm_hash: *wasm_hash }),
{
    KoraEvent::UpgradeProposed { admin: clone_address(admin), wasm_hash: clone_hash(wasm_hash) }
}

/// Schema: (actor=admin, wasm_hash, timestamp)
/// Topic: `AC_UPG_P`.
pub fn upgrade_proposed(
    env: &Env,
    admin: &Address,
    wasm_hash: &BytesN<32>,
) -> (published: Published)
    ensures
        hands_over(
            published@,
            (KoraEvent::UpgradeProposed {
                admin: *admin,
                wasm_hash: *wasm_hash,
            }),
        ),
{
    emit(env, upgrade_proposed_event(admin, wasm_hash))
}

/// The `AC_UPG_E` event made from these arguments.
pub fn upgrade_executed_event(admin: &Address, wasm_hash: &BytesN<32>) -> (e: KoraEvent)
    ensures
        e == (KoraEvent::UpgradeExecuted { admin: *admin, wasm_hash: *wasm_hash }),
{
    KoraEvent::UpgradeExecuted { admin: clone_address(admin), wasm_hash: clone_hash(wasm_hash) }
}

/// Schema: (actor=admin, wasm_hash, timestamp)
/// Topic: `AC_UPG_E`.
pub fn upgrade_executed(
    env: &Env,
    admin: &Address,
    wasm_hash: &BytesN<32>,
) -> (published: Published)
    ensures
        hands_over(
            published@,
            (KoraEvent::UpgradeExecuted {
                admin: *admin,
                wasm_hash: *wasm_hash,
            }),
        ),
{
    emit(env, upgrade_executed_event(admin, wasm_hash))
}

/// The `AC_MSIG` event made from these arguments.
pub fn multisig_configured_event(threshold: u32, signer_count: u32) -> (e: KoraEvent)
    ensures
        e == (KoraEvent::MultisigConfigured { threshold, signer_count }),
{
    KoraEvent::MultisigConfigured { threshold, signer_count }
}

/// System event — records the multisig configuration (no single actor).
/// Schema: (threshold, signer_count, timestamp)
/// Topic: `AC_MSIG`.
pub fn multisig_configured(env: &Env, threshold: u32, signer_count: u32) -> (published: Published)
    ensures
        hands_over(published@, (KoraEvent::MultisigConfigured { threshold, signer_count })),
{
    emit(env, multisig_configured_event(threshold, signer_count))
}

/// The `AC_ACT_P` event made from these arguments.
pub fn action_proposed_event(proposal_id: u64, proposer: &Address) -> (e: KoraEvent)
    ensures
        e == (KoraEvent::ActionProposed { proposal_id, proposer: *proposer }),
{
    KoraEvent::ActionProposed { proposal_id, proposer: clone_address(proposer) }
}

/// Schema: (proposal_id, actor=proposer, timestamp)
/// Topic: `AC_ACT_P`.
pub fn action_proposed(env: &Env, proposal_id: u64, proposer: &Address) -> (published: Published)
    ensures
        hands_over(published@, (KoraEvent::ActionProposed { proposal_id, proposer: *proposer })),
{
    emit(env, action_proposed_event(proposal_id, proposer))
}

/// The `AC_ACT_A` event made from these arguments.
pub fn action_approved_event(
    proposal_id: u64,
    approver: &Address,
    approval_count: u32,
) -> (e: KoraEvent)
    ensures
        e == (KoraEvent::ActionApproved { proposal_id, approver: *approver, approval_count }),
{
    KoraEvent::ActionApproved { proposal_id, approver: clone_address(approver), approval_count }
}

/// Schema: (proposal_id, actor=approver, approval_count, timestamp)
/// Topic: `AC_ACT_A`.
pub fn action_approved(
    env: &Env,
    proposal_id: u64,
    approver: &Address,
    approval_count: u32,
) -> (published: Published)
    ensures
        hands_over(
            published@,
            (KoraEvent::ActionApproved {
                proposal_id,
                approver: *approver,
                approval_count,
            }),
        ),
{
    emit(env, action_approved_event(proposal_id, approver, approval_count))
}

/// The `AC_ACT_E` event made from these arguments.
pub fn action_executed_event(proposal_id: u64, executor: &Address) -> (e: KoraEvent)
    ensures
        e == (KoraEvent::ActionExecuted { proposal_id, executor: *executor }),
{
    KoraEvent::ActionExecuted { proposal_id, executor: clone_address(executor) }
}

/// Schema: (proposal_id, actor=executor, timestamp)
/// Topic: `AC_ACT_E`.
pub fn action_executed(env: &Env, proposal_id: u64, executor: &Address) -> (published: Published)
    ensures
        hands_over(published@, (KoraEvent::ActionExecuted { proposal_id, executor: *executor })),
{
    emit(env, action_executed_event(proposal_id, executor))
}

/// The `RFND_CLM` event made from these arguments.
pub fn refund_claimed_event(invoice_id: u64, investor: &Address, amount: i128) -> (e: KoraEvent)
    ensures
        e == (KoraEvent::RefundClaimed { invoice_id, investor: *investor, amount }),
{
    KoraEvent::RefundClaimed { invoice_id, investor: clone_address(investor), amount }
}

/// Schema: (actor=investor, invoice_id, amount, timestamp)
/// Topic: `RFND_CLM`.
pub fn refund_claimed(
    env: &Env,
    invoice_id: u64,
    investor: &Address,
    amount: i128,
) -> (published: Published)
    ensures
        hands_over(
            published@,
            (KoraEvent::RefundClaimed {
                invoice_id,
                investor: *investor,
                amount,
            }),
        ),
{
    emit(env, refund_claimed_event(invoice_id, investor, amount))
}

/// The `POS_SALE` event made from these arguments.
pub fn position_listed_for_sale_event(
    invoice_id: u64,
    seller: &Address,
    price: i128,
) -> (e: KoraEvent)
    ensures
        e == (KoraEvent::PositionListedForSale { invoice_id, seller: *seller, price }),
{
    KoraEvent::PositionListedForSale { invoice_id, seller: clone_address(seller), price }
}

/// A position is offered on the secondary market.
/// Schema: (actor=seller, invoice_id, price, timestamp)
/// Topic: `POS_SALE`.
pub fn position_listed_for_sale(
    env: &Env,
    invoice_id: u64,
    seller: &Address,
    price: i128,
) -> (published: Published)
    ensures
        hands_over(
            published@,
            (KoraEvent::PositionListedForSale {
                invoice_id,
                seller: *seller,
                price,
            }),
        ),
{
    emit(env, position_listed_for_sale_event(invoice_id, seller, price))
}

/// The `POS_SOLD` event made from these arguments.
pub fn position_sold_event(
    invoice_id: u64,
    seller: &Address,
    buyer: &Address,
    price: i128,
) -> (e: KoraEvent)
    ensures
        e == (KoraEvent::PositionSold { invoice_id, seller: *seller, buyer: *buyer, price }),
{
    KoraEvent::PositionSold {
        invoice_id,
        seller: clone_address(seller),
        buyer: clone_address(buyer),
        price,
    }
}

/// A position changed hands on the secondary market.
/// Schema: (actor=seller, invoice_id, buyer, price, timestamp)
/// Topic: `POS_SOLD`.
pub fn position_sold(
    env: &Env,
    invoice_id: u64,
    seller: &Address,
    buyer: &Address,
    price: i128,
) -> (published: Published)
    ensures
        hands_over(
            published@,
            (KoraEvent::PositionSold {
                invoice_id,
                seller: *seller,
                buyer: *buyer,
                price,
            }),
        ),
{
    emit(env, position_sold_event(invoice_id, seller, buyer, price))
}

/// The `WTH_CAP_P` event made from these arguments.
pub fn withdrawal_cap_proposed_event(admin: &Address, new_cap: i128) -> (e: KoraEvent)
    ensures
        e == (KoraEvent::WithdrawalCapProposed { admin: *admin, new_cap }),
{
    KoraEvent::WithdrawalCapProposed { admin: clone_address(admin), new_cap }
}

/// Schema: (actor=admin, new_cap, timestamp)
/// Topic: `WTH_CAP_P`.
pub fn withdrawal_cap_proposed(env: &Env, admin: &Address, new_cap: i128) -> (published: Published)
    ensures
        hands_over(published@, (KoraEvent::WithdrawalCapProposed { admin: *admin, new_cap })),
{
    emit(env, withdrawal_cap_proposed_event(admin, new_cap))
}

/// The `WTH_CAP_U` event made from these arguments.
pub fn withdrawal_cap_updated_event(admin: &Address, old_cap: i128, new_cap: i128) -> (e: KoraEvent)
    ensures
        e == (KoraEvent::WithdrawalCapUpdated { admin: *admin, old_cap, new_cap }),
{
    KoraEvent::WithdrawalCapUpdated { admin: clone_address(admin), old_cap, new_cap }
}

/// Schema: (actor=admin, old_cap, new_cap, timestamp)
/// Topic: `WTH_CAP_U`.
pub fn withdrawal_cap_updated(
    env: &Env,
    admin: &Address,
    old_cap: i128,
    new_cap: i128,
) -> (published: Published)
    ensures
        hands_over(
            published@,
            (KoraEvent::WithdrawalCapUpdated {
                admin: *admin,
                old_cap,
                new_cap,
            }),
        ),
{
    emit(env, withdrawal_cap_updated_event(admin, old_cap, new_cap))
}

/// The `SME_CL` event made from these arguments.
pub fn sme_credit_limit_set_event(
    verifier: &Address,
    sme: &Address,
    credit_limit: i128,
) -> (e: KoraEvent)
    ensures
        e == (KoraEvent::SmeCreditLimitSet { verifier: *verifier, sme: *sme, credit_limit }),
{
    KoraEvent::SmeCreditLimitSet {
        verifier: clone_address(verifier),
        sme: clone_address(sme),
        credit_limit,
    }
}

/// Schema: (actor=verifier, sme, credit_limit, timestamp)
/// Topic: `SME_CL`.
pub fn sme_credit_limit_set(
    env: &Env,
    verifier: &Address,
    sme: &Address,
    credit_limit: i128,
) -> (published: Published)
    ensures
        hands_over(
            published@,
            (KoraEvent::SmeCreditLimitSet {
                verifier: *verifier,
                sme: *sme,
                credit_limit,
            }),
        ),
{
    emit(env, sme_credit_limit_set_event(verifier, sme, credit_limit))
}

/// The `INV_FRZ` event made from these arguments.
pub fn invoice_frozen_event(invoice_id: u64, admin: &Address) -> (e: KoraEvent)
    ensures
        e == (KoraEvent::InvoiceFrozen { invoice_id, admin: *admin }),
{
    KoraEvent::InvoiceFrozen { invoice_id, admin: clone_address(admin) }
}

/// Schema: (actor=admin, invoice_id, timestamp)
/// Topic: `INV_FRZ`.
pub fn invoice_frozen(env: &Env, invoice_id: u64, admin: &Address) -> (published: Published)
    ensures
        hands_over(published@, (KoraEvent::InvoiceFrozen { invoice_id, admin: *admin })),
{
    emit(env, invoice_frozen_event(invoice_id, admin))
}

/// The `INV_UFRZ` event made from these arguments.
pub fn invoice_unfrozen_event(invoice_id: u64, admin: &Address) -> (e: KoraEvent)
    ensures
        e == (KoraEvent::InvoiceUnfrozen { invoice_id, admin: *admin }),
{
    KoraEvent::InvoiceUnfrozen { invoice_id, admin: clone_address(admin) }
}

/// Schema: (actor=admin, invoice_id, timestamp)
/// Topic: `INV_UFRZ`.
pub fn invoice_unfrozen(env: &Env, invoice_id: u64, admin: &Address) -> (published: Published)
    ensures
        hands_over(published@, (KoraEvent::InvoiceUnfrozen { invoice_id, admin: *admin })),
{
    emit(env, invoice_unfrozen_event(invoice_id, admin))
}

/// The `CXL_REQ` event made from these arguments.
pub fn cancellation_requested_event(invoice_id: u64, caller: &Address) -> (e: KoraEvent)
    ensures
        e == (KoraEvent::CancellationRequested { invoice_id, caller: *caller }),
{
    KoraEvent::CancellationRequested { invoice_id, caller: clone_address(caller) }
}

/// Schema: (actor=caller, invoice_id, timestamp)
/// Topic: `CXL_REQ`.
pub fn cancellation_requested(
    env: &Env,
    invoice_id: u64,
    caller: &Address,
) -> (published: Published)
    ensures
        hands_over(published@, (KoraEvent::CancellationRequested { invoice_id, caller: *caller })),
{
    emit(env, cancellation_requested_event(invoice_id, caller))
}

/// The `DECAY_SET` event made from these arguments.
pub fn decay_schedule_set_event(
    invoice_id: u64,
    seller: &Address,
    floor_price: i128,
    decay_end_ts: u64,
) -> (e: KoraEvent)
    ensures
        e == (KoraEvent::DecayScheduleSet {
            invoice_id,
            seller: *seller,
            floor_price,
            decay_end_ts,
        }),
{
    KoraEvent::DecayScheduleSet {
        invoice_id,
        seller: clone_address(seller),
        floor_price,
        decay_end_ts,
    }
}

/// Schema: (actor=seller, invoice_id, floor_price, decay_end_ts, timestamp)
/// Topic: `DECAY_SET`.
pub fn decay_schedule_set(
    env: &Env,
    invoice_id: u64,
    seller: &Address,
    floor_price: i128,
    decay_end_ts: u64,
) -> (published: Published)
    ensures
        hands_over(
            published@,
            (KoraEvent::DecayScheduleSet {
                invoice_id,
                seller: *seller,
                floor_price,
                decay_end_ts,
            }),
        ),
{
    emit(env, decay_schedule_set_event(invoice_id, seller, floor_price, decay_end_ts))
}

/// The `BID_SUBM` event made from these arguments.
pub fn bid_submitted_event(
    invoice_id: u64,
    investor: &Address,
    bid_price: i128,
    amount: i128,
) -> (e: KoraEvent)
    ensures
        e == (KoraEvent::BidSubmitted { invoice_id, investor: *investor, bid_price, amount }),
{
    KoraEvent::BidSubmitted { invoice_id, investor: clone_address(investor), bid_price, amount }
}

/// Schema: (actor=investor, invoice_id, bid_price, amount, timestamp)
/// Topic: `BID_SUBM`.
pub fn bid_submitted(
    env: &Env,
    invoice_id: u64,
    investor: &Address,
    bid_price: i128,
    amount: i128,
) -> (published: Published)
    ensures
        hands_over(
            published@,
            (KoraEvent::BidSubmitted {
                invoice_id,
                investor: *investor,
                bid_price,
                amount,
            }),
        ),
{
    emit(env, bid_submitted_event(invoice_id, investor, bid_price, amount))
}

/// The `BID_ACCP` event made from these arguments.
pub fn bid_accepted_event(
    invoice_id: u64,
    seller: &Address,
    investor: &Address,
    bid_price: i128,
    amount: i128,
) -> (e: KoraEvent)
    ensures
        e == (KoraEvent::BidAccepted {
            invoice_id,
            seller: *seller,
            investor: *investor,
            bid_price,
            amount,
        }),
{
    KoraEvent::BidAccepted {
        invoice_id,
        seller: clone_address(seller),
        investor: clone_address(investor),
        bid_price,
        amount,
    }
}

/// Schema: (actor=seller, invoice_id, investor, bid_price, amount, timestamp)
/// Topic: `BID_ACCP`.
pub fn bid_accepted(
    env: &Env,
    invoice_id: u64,
    seller: &Address,
    investor: &Address,
    bid_price: i128,
    amount: i128,
) -> (published: Published)
    ensures
        hands_over(
            published@,
            (KoraEvent::BidAccepted {
                invoice_id,
                seller: *seller,
                investor: *investor,
                bid_price,
                amount,
            }),
        ),
{
    emit(env, bid_accepted_event(invoice_id, seller, investor, bid_price, amount))
}

/// The `ADM_AUDIT` event made from these arguments.
pub fn admin_action_audited_event(entry: &AdminAuditEntry) -> (e: KoraEvent)
    ensures
        e == (KoraEvent::AdminActionAudited { entry: *entry }),
{
    let entry = AdminAuditEntry {
        sequence: entry.sequence,
        actor: clone_address(&entry.actor),
        action: clone_symbol(&entry.action),
        source: clone_symbol(&entry.source),
        timestamp: entry.timestamp,
    };
    KoraEvent::AdminActionAudited { entry }
}

/// Canonical admin-action audit event emitted alongside every admin-gated call.
/// Subscribe to `ADM_AUDIT` across all protocol contracts to build a consolidated
/// off-chain compliance report via Horizon, Mercury, or a custom indexer.
/// Schema: (sequence, actor, action, source, timestamp)
/// Topic: `ADM_AUDIT`.
pub fn admin_action_audited(env: &Env, entry: &AdminAuditEntry) -> (published: Published)
    ensures
        hands_over(published@, (KoraEvent::AdminActionAudited { entry: *entry })),
{
    emit(env, admin_action_audited_event(entry))
}

// ── Laws of publication ──────────────────────────────────────────────────────

/// What is handed over follows the schema's convention: an event that names
/// an actor hands the actor's address first (second, right after the key, for
/// events keyed by a proposal id or audit sequence number), and a ledger
/// stamped event hands the close time that was read as its last field.
pub proof fn law_handed_actor_first_time_last(
    h: (Seq<char>, Seq<EventField>, u64, Seq<Val>),
    event: KoraEvent,
)
    requires
        hands_over(h, event),
    ensures
        h.1.len() >= 2,
        is_ledger_stamped(event.kind()) ==> h.1.last() == EventField::U64(h.2),
        event.actor() matches Some(a) ==> (!key_precedes_actor(event.kind()) ==> h.1[0]
            == EventField::Addr(a)),
        event.actor() matches Some(a) ==> (key_precedes_actor(event.kind()) ==> h.1[1]
            == EventField::Addr(a)),
{
    law_timestamp_last(event, h.2);
    law_actor_leads(event, h.2);
}

/// Paired publications differ only in their topic: publishing an event and
/// publishing its counterpart at the same close time hand over the same
/// fields under distinct topics.
pub proof fn law_paired_publications(
    h1: (Seq<char>, Seq<EventField>, u64, Seq<Val>),
    h2: (Seq<char>, Seq<EventField>, u64, Seq<Val>),
    event: KoraEvent,
)
    requires
        counterpart(event) is Some,
        hands_over(h1, event),
        hands_over(h2, counterpart(event)->0),
        h1.2 == h2.2,
    ensures
        h1.1 == h2.1,
        h1.0 != h2.0,
{
    law_paired_events_differ_in_topic_only(event, h1.2);
}

} // verus!
