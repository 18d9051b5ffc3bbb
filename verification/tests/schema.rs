use kora_events::schema::{EventField, EventKind, KoraEvent};
use kora_events::types::{AdminAuditEntry, RiskTier};
use soroban_sdk::testutils::{Address as _, EnvTestConfig};
use soroban_sdk::{Address, Env, Symbol};

fn all_kinds() -> Vec<EventKind> {
    vec![
        EventKind::InvoiceCreated,
        EventKind::InvoiceListed,
        EventKind::InvoiceFunded,
        EventKind::InvoiceRepaid,
        EventKind::InvoiceDefaulted,
        EventKind::InvoiceAmended,
        EventKind::InvoiceWithdrawn,
        EventKind::InvoiceBatchMinted,
        EventKind::RiskScoreRefreshed,
        EventKind::RepaymentMade,
        EventKind::InstallmentPaid,
        EventKind::YieldDistributed,
        EventKind::LatePenaltyApplied,
        EventKind::ListingCancelled,
        EventKind::ListingExpired,
        EventKind::FeeCollected,
        EventKind::FeeWithdrawn,
        EventKind::EmergencyWithdrawn,
        EventKind::FeeRateUpdated,
        EventKind::ReferralFeePaid,
        EventKind::TreasuryInitialized,
        EventKind::ProtocolPaused,
        EventKind::ProtocolUnpaused,
        EventKind::TokenWhitelisted,
        EventKind::TokenWhitelistRemoved,
        EventKind::AdminTransferred,
        EventKind::RoleGranted,
        EventKind::RoleRevoked,
        EventKind::PoolOpened,
        EventKind::PositionRecorded,
        EventKind::VerifierAdded,
        EventKind::VerifierRemoved,
        EventKind::SmeRegistered,
        EventKind::SmeScoreUpdated,
        EventKind::SmeDefaultRecorded,
        EventKind::SmeInvoiceCountIncremented,
        EventKind::DebtorScoreSet,
        EventKind::RegistryInitialized,
        EventKind::SubAccountAdded,
        EventKind::SubAccountRemoved,
        EventKind::UpgradeProposed,
        EventKind::UpgradeExecuted,
        EventKind::MultisigConfigured,
        EventKind::ActionProposed,
        EventKind::ActionApproved,
        EventKind::ActionExecuted,
        EventKind::RefundClaimed,
        EventKind::PositionListedForSale,
        EventKind::PositionSold,
        EventKind::WithdrawalCapProposed,
        EventKind::WithdrawalCapUpdated,
        EventKind::SmeCreditLimitSet,
        EventKind::InvoiceFrozen,
        EventKind::InvoiceUnfrozen,
        EventKind::CancellationRequested,
        EventKind::DecayScheduleSet,
        EventKind::BidSubmitted,
        EventKind::BidAccepted,
        EventKind::AdminActionAudited,
    ]
}

fn env() -> Env {
    Env::new_with_config(EnvTestConfig { capture_snapshot_at_drop: false })
}

#[test]
fn test_topics_in_kind_order() {
    let expected = vec![
        "INV_CRT",
        "INV_LST",
        "INV_FND",
        "INV_RPD",
        "INV_DFT",
        "INV_AMD",
        "INV_WTH",
        "INV_BATCH",
        "RISK_RFSH",
        "REPAY",
        "INSTL_PD",
        "YIELD",
        "LATE_PEN",
        "LST_CXL",
        "LST_EXP",
        "TRES_FEE",
        "FEE_WTH",
        "EMRG_WTH",
        "FEE_UPD",
        "REF_FEE",
        "TRES_INI",
        "AC_PAUSED",
        "AC_UNPAUS",
        "TOK_WL",
        "TOK_UNWL",
        "ADM_TRF",
        "ROL_GRT",
        "ROL_RVK",
        "POOL_OPN",
        "POS_REC",
        "VRF_ADD",
        "VRF_RMV",
        "SME_REG",
        "SME_SCU",
        "SME_DFLT",
        "SME_INVC",
        "DBT_SCR",
        "REG_INI",
        "VRF_SADD",
        "VRF_SRMV",
        "AC_UPG_P",
        "AC_UPG_E",
        "AC_MSIG",
        "AC_ACT_P",
        "AC_ACT_A",
        "AC_ACT_E",
        "RFND_CLM",
        "POS_SALE",
        "POS_SOLD",
        "WTH_CAP_P",
        "WTH_CAP_U",
        "SME_CL",
        "INV_FRZ",
        "INV_UFRZ",
        "CXL_REQ",
        "DECAY_SET",
        "BID_SUBM",
        "BID_ACCP",
        "ADM_AUDIT",
    ];
    let topics: Vec<&str> = all_kinds().into_iter().map(|k| k.topic()).collect();
    assert_eq!(topics, expected);
}

#[test]
fn test_topics_are_distinct() {
    let topics: Vec<&str> = all_kinds().into_iter().map(|k| k.topic()).collect();
    for i in 0..topics.len() {
        for j in 0..topics.len() {
            if i != j {
                assert_ne!(topics[i], topics[j]);
            }
        }
    }
}

#[test]
fn test_topics_fit_small_symbols() {
    for k in all_kinds() {
        let t = k.topic();
        assert!(t.len() <= 9);
        assert!(t.chars().all(|c| c.is_ascii_alphanumeric() || c == '_'));
    }
}

#[test]
fn test_topic_equals_symbol_short_spelling() {
    let env = env();
    assert_eq!(Symbol::new(&env, EventKind::ProtocolUnpaused.topic()), Symbol::new(&env, "AC_UNPAUS"));
    assert_eq!(EventKind::FeeCollected.topic(), "TRES_FEE");
    assert_eq!(EventKind::SmeScoreUpdated.topic(), "SME_SCU");
}

#[test]
fn test_risk_tier_names() {
    assert_eq!(RiskTier::AAA.name(), "AAA");
    assert_eq!(RiskTier::AA.name(), "AA");
    assert_eq!(RiskTier::A.name(), "A");
    assert_eq!(RiskTier::B.name(), "B");
    assert_eq!(RiskTier::C.name(), "C");
}

#[test]
fn test_only_audit_record_is_not_ledger_stamped() {
    for k in all_kinds() {
        assert_eq!(k.ledger_stamped(), k != EventKind::AdminActionAudited);
    }
}

#[test]
fn test_invoice_created_payload_order() {
    let env = env();
    let sme = Address::generate(&env);
    let currency = Symbol::new(&env, "EURC");
    let event = KoraEvent::InvoiceCreated { invoice_id: 9, sme: sme.clone(), amount: 2_500, currency: currency.clone() };
    assert_eq!(event.event_kind(), EventKind::InvoiceCreated);
    let p = event.into_payload(123);
    assert_eq!(p.len(), 5);
    assert!(matches!(&p[0], EventField::Addr(a) if *a == sme));
    assert!(matches!(p[1], EventField::U64(9)));
    assert!(matches!(p[2], EventField::I128(2_500)));
    assert!(matches!(&p[3], EventField::Sym(s) if *s == currency));
    assert!(matches!(p[4], EventField::U64(123)));
}

#[test]
fn test_system_event_has_no_actor_field() {
    let p = KoraEvent::MultisigConfigured { threshold: 2, signer_count: 3 }.into_payload(55);
    assert_eq!(p.len(), 3);
    assert!(matches!(p[0], EventField::U32(2)));
    assert!(matches!(p[1], EventField::U32(3)));
    assert!(matches!(p[2], EventField::U64(55)));
}

#[test]
fn test_proposal_key_precedes_actor() {
    let env = env();
    let approver = Address::generate(&env);
    let p = KoraEvent::ActionApproved { proposal_id: 4, approver: approver.clone(), approval_count: 2 }.into_payload(77);
    assert_eq!(p.len(), 4);
    assert!(matches!(p[0], EventField::U64(4)));
    assert!(matches!(&p[1], EventField::Addr(a) if *a == approver));
    assert!(matches!(p[2], EventField::U32(2)));
    assert!(matches!(p[3], EventField::U64(77)));
}

#[test]
fn test_risk_refresh_payload_carries_both_tiers() {
    let env = env();
    let caller = Address::generate(&env);
    let event = KoraEvent::RiskScoreRefreshed {
        invoice_id: 1,
        caller: caller.clone(),
        old_score: 15,
        new_score: 65,
        old_tier: RiskTier::AAA,
        new_tier: RiskTier::B,
    };
    let p = event.into_payload(8);
    assert_eq!(p.len(), 7);
    assert!(matches!(&p[0], EventField::Addr(a) if *a == caller));
    assert!(matches!(p[4], EventField::Tier(RiskTier::AAA)));
    assert!(matches!(p[5], EventField::Tier(RiskTier::B)));
    assert!(matches!(p[6], EventField::U64(8)));
}

fn audit_event(env: &Env, actor: &Address) -> KoraEvent {
    KoraEvent::AdminActionAudited {
        entry: AdminAuditEntry {
            sequence: 3,
            actor: actor.clone(),
            action: Symbol::new(env, "pause"),
            source: Symbol::new(env, "access"),
            timestamp: 1_234,
        },
    }
}

#[test]
fn test_audit_payload_ends_with_entry_time() {
    let env = env();
    let actor = Address::generate(&env);
    let p = audit_event(&env, &actor).into_payload(9_999);
    assert_eq!(p.len(), 5);
    assert!(matches!(p[0], EventField::U64(3)));
    assert!(matches!(&p[1], EventField::Addr(a) if *a == actor));
    assert!(matches!(p[4], EventField::U64(1_234)));
    let q = audit_event(&env, &actor).into_payload(1);
    assert!(matches!(q[4], EventField::U64(1_234)));
}

#[test]
fn test_builder_and_published_form_for_risk_refresh() {
    let env = env();
    let caller = Address::generate(&env);
    let event = kora_events::events::risk_score_refreshed_event(42, &caller, 30, 75, &RiskTier::AA, &RiskTier::B);
    let (topic, p) = kora_events::schema::published_form(event, 1_700_000_000);
    assert_eq!(topic, "RISK_RFSH");
    assert_eq!(p.len(), 7);
    assert!(matches!(&p[0], EventField::Addr(a) if *a == caller));
    assert!(matches!(p[1], EventField::U64(42)));
    assert!(matches!(p[2], EventField::U32(30)));
    assert!(matches!(p[3], EventField::U32(75)));
    assert!(matches!(p[4], EventField::Tier(RiskTier::AA)));
    assert!(matches!(p[5], EventField::Tier(RiskTier::B)));
    assert!(matches!(p[6], EventField::U64(1_700_000_000)));
}

#[test]
fn test_paired_events_share_payload_not_topic() {
    let env = env();
    let by = Address::generate(&env);
    let (t1, p1) = kora_events::schema::published_form(kora_events::events::protocol_paused_event(&by), 5);
    let (t2, p2) = kora_events::schema::published_form(kora_events::events::protocol_unpaused_event(&by), 5);
    assert_eq!(t1, "AC_PAUSED");
    assert_eq!(t2, "AC_UNPAUS");
    assert_eq!(p1.len(), p2.len());
    assert!(matches!((&p1[0], &p2[0]), (EventField::Addr(a), EventField::Addr(b)) if *a == by && *b == by));
    assert!(matches!((&p1[1], &p2[1]), (EventField::U64(5), EventField::U64(5))));
}

#[test]
fn test_secondary_market_events_lead_with_seller() {
    let env = env();
    let seller = Address::generate(&env);
    let buyer = Address::generate(&env);
    let p = kora_events::events::position_sold_event(3, &seller, &buyer, 900).into_payload(10);
    assert_eq!(p.len(), 5);
    assert!(matches!(&p[0], EventField::Addr(a) if *a == seller));
    assert!(matches!(p[1], EventField::U64(3)));
    assert!(matches!(&p[2], EventField::Addr(a) if *a == buyer));
    assert!(matches!(p[3], EventField::I128(900)));
    assert!(matches!(p[4], EventField::U64(10)));
    let q = kora_events::events::position_listed_for_sale_event(3, &seller, 900).into_payload(10);
    assert_eq!(q.len(), 4);
    assert!(matches!(&q[0], EventField::Addr(a) if *a == seller));
    assert!(matches!(q[1], EventField::U64(3)));
}
