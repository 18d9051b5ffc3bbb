use kora_events::events;
use kora_events::types::{AdminAuditEntry, RiskTier};
use soroban_sdk::testutils::{Address as _, EnvTestConfig, Events as _, Ledger as _};
use soroban_sdk::{Address, Bytes, BytesN, Env, IntoVal, Symbol, Val};

const LEDGER_TIME: u64 = 1_700_000_000;

fn setup() -> (Env, Address) {
    let env = Env::new_with_config(EnvTestConfig { capture_snapshot_at_drop: false });
    env.ledger().set_timestamp(LEDGER_TIME);
    let issuer = Address::generate(&env);
    let contract = env.register_stellar_asset_contract_v2(issuer).address();
    (env, contract)
}

fn one_event(env: &Env, contract: &Address, topic: &str, data: Val) -> soroban_sdk::Vec<(Address, soroban_sdk::Vec<Val>, Val)> {
    let mut expected = soroban_sdk::Vec::new(env);
    expected.push_back((contract.clone(), (Symbol::new(env, topic),).into_val(env), data));
    expected
}

fn id_list(env: &Env) -> soroban_sdk::Vec<u64> {
    let mut ids = soroban_sdk::Vec::new(env);
    ids.push_back(11u64);
    ids.push_back(12u64);
    ids.push_back(u64::MAX);
    ids
}

fn tier_val(env: &Env, name: &str) -> Val {
    (Symbol::new(env, name),).into_val(env)
}

#[test]
fn test_invoice_created_publishes_schema() {
    let (env, contract) = setup();
    let invoice_id: u64 = 1001u64;
    let sme = Address::generate(&env);
    let amount: i128 = 3_500i128;
    let currency = Symbol::new(&env, "USDC");
    env.as_contract(&contract, || events::invoice_created(&env, invoice_id, &sme, amount, currency.clone()));
    let data: Val = (sme.clone(), invoice_id, amount, currency, LEDGER_TIME).into_val(&env);
    assert_eq!(env.events().all(), one_event(&env, &contract, "INV_CRT", data));
}

#[test]
fn test_invoice_listed_publishes_schema() {
    let (env, contract) = setup();
    let invoice_id: u64 = 1001u64;
    let seller = Address::generate(&env);
    let asking_price: i128 = 3_500i128;
    let currency = Symbol::new(&env, "USDC");
    env.as_contract(&contract, || events::invoice_listed(&env, invoice_id, &seller, asking_price, currency.clone()));
    let data: Val = (seller.clone(), invoice_id, asking_price, currency, LEDGER_TIME).into_val(&env);
    assert_eq!(env.events().all(), one_event(&env, &contract, "INV_LST", data));
}

#[test]
fn test_invoice_funded_publishes_schema() {
    let (env, contract) = setup();
    let invoice_id: u64 = 1001u64;
    let investor = Address::generate(&env);
    let amount: i128 = 3_500i128;
    let currency = Symbol::new(&env, "USDC");
    env.as_contract(&contract, || events::invoice_funded(&env, invoice_id, &investor, amount, currency.clone()));
    let data: Val = (investor.clone(), invoice_id, amount, currency, LEDGER_TIME).into_val(&env);
    assert_eq!(env.events().all(), one_event(&env, &contract, "INV_FND", data));
}

#[test]
fn test_invoice_repaid_publishes_schema() {
    let (env, contract) = setup();
    let invoice_id: u64 = 1001u64;
    let sme = Address::generate(&env);
    let amount: i128 = 3_500i128;
    let currency = Symbol::new(&env, "USDC");
    env.as_contract(&contract, || events::invoice_repaid(&env, invoice_id, &sme, amount, currency.clone()));
    let data: Val = (sme.clone(), invoice_id, amount, currency, LEDGER_TIME).into_val(&env);
    assert_eq!(env.events().all(), one_event(&env, &contract, "INV_RPD", data));
}

#[test]
fn test_invoice_defaulted_publishes_schema() {
    let (env, contract) = setup();
    let invoice_id: u64 = 1001u64;
    let actor = Address::generate(&env);
    let amount: i128 = 3_500i128;
    let currency = Symbol::new(&env, "USDC");
    env.as_contract(&contract, || events::invoice_defaulted(&env, invoice_id, &actor, amount, currency.clone()));
    let data: Val = (actor.clone(), invoice_id, amount, currency, LEDGER_TIME).into_val(&env);
    assert_eq!(env.events().all(), one_event(&env, &contract, "INV_DFT", data));
}

#[test]
fn test_invoice_amended_publishes_schema() {
    let (env, contract) = setup();
    let invoice_id: u64 = 1001u64;
    let sme = Address::generate(&env);
    let currency = Symbol::new(&env, "USDC");
    env.as_contract(&contract, || events::invoice_amended(&env, invoice_id, &sme, currency.clone()));
    let data: Val = (invoice_id, sme.clone(), currency, LEDGER_TIME).into_val(&env);
    assert_eq!(env.events().all(), one_event(&env, &contract, "INV_AMD", data));
}

#[test]
fn test_invoice_withdrawn_publishes_schema() {
    let (env, contract) = setup();
    let invoice_id: u64 = 1001u64;
    let sme = Address::generate(&env);
    let currency = Symbol::new(&env, "USDC");
    env.as_contract(&contract, || events::invoice_withdrawn(&env, invoice_id, &sme, currency.clone()));
    let data: Val = (invoice_id, sme.clone(), currency, LEDGER_TIME).into_val(&env);
    assert_eq!(env.events().all(), one_event(&env, &contract, "INV_WTH", data));
}

#[test]
fn test_invoice_batch_minted_publishes_schema() {
    let (env, contract) = setup();
    let batch_id: u64 = 1001u64;
    let sme = Address::generate(&env);
    let invoice_ids = id_list(&env);
    env.as_contract(&contract, || events::invoice_batch_minted(&env, batch_id, &sme, &invoice_ids));
    let data: Val = (sme.clone(), batch_id, invoice_ids.clone(), LEDGER_TIME).into_val(&env);
    assert_eq!(env.events().all(), one_event(&env, &contract, "INV_BATCH", data));
}

#[test]
fn test_risk_score_refreshed_publishes_schema() {
    let (env, contract) = setup();
    let invoice_id: u64 = 1001u64;
    let caller = Address::generate(&env);
    let old_score: u32 = 33;
    let new_score: u32 = 43;
    let old_tier = RiskTier::AAA;
    let new_tier = RiskTier::B;
    env.as_contract(&contract, || events::risk_score_refreshed(&env, invoice_id, &caller, old_score, new_score, &old_tier, &new_tier));
    let data: Val = (caller.clone(), invoice_id, old_score, new_score, tier_val(&env, "AAA"), tier_val(&env, "B"), LEDGER_TIME).into_val(&env);
    assert_eq!(env.events().all(), one_event(&env, &contract, "RISK_RFSH", data));
}

#[test]
fn test_repayment_made_publishes_schema() {
    let (env, contract) = setup();
    let invoice_id: u64 = 1001u64;
    let payer = Address::generate(&env);
    let amount: i128 = 3_500i128;
    env.as_contract(&contract, || events::repayment_made(&env, invoice_id, &payer, amount));
    let data: Val = (payer.clone(), invoice_id, amount, LEDGER_TIME).into_val(&env);
    assert_eq!(env.events().all(), one_event(&env, &contract, "REPAY", data));
}

#[test]
fn test_installment_paid_publishes_schema() {
    let (env, contract) = setup();
    let invoice_id: u64 = 1001u64;
    let payer = Address::generate(&env);
    let index: u32 = 33;
    let amount: i128 = -4_000_000_000_000_000_000i128;
    env.as_contract(&contract, || events::installment_paid(&env, invoice_id, &payer, index, amount));
    let data: Val = (payer.clone(), invoice_id, index, amount, LEDGER_TIME).into_val(&env);
    assert_eq!(env.events().all(), one_event(&env, &contract, "INSTL_PD", data));
}

#[test]
fn test_yield_distributed_publishes_schema() {
    let (env, contract) = setup();
    let invoice_id: u64 = 1001u64;
    let investor = Address::generate(&env);
    let yield_amount: i128 = 3_500i128;
    env.as_contract(&contract, || events::yield_distributed(&env, invoice_id, &investor, yield_amount));
    let data: Val = (investor.clone(), invoice_id, yield_amount, LEDGER_TIME).into_val(&env);
    assert_eq!(env.events().all(), one_event(&env, &contract, "YIELD", data));
}

#[test]
fn test_late_penalty_applied_publishes_schema() {
    let (env, contract) = setup();
    let invoice_id: u64 = 1001u64;
    let penalty_amount: i128 = -2_000_000_000_000_000_000i128;
    let total_owed: i128 = 3_500i128;
    env.as_contract(&contract, || events::late_penalty_applied(&env, invoice_id, penalty_amount, total_owed));
    let data: Val = (invoice_id, penalty_amount, total_owed, LEDGER_TIME).into_val(&env);
    assert_eq!(env.events().all(), one_event(&env, &contract, "LATE_PEN", data));
}

#[test]
fn test_listing_cancelled_publishes_schema() {
    let (env, contract) = setup();
    let invoice_id: u64 = 1001u64;
    let seller = Address::generate(&env);
    env.as_contract(&contract, || events::listing_cancelled(&env, invoice_id, &seller));
    let data: Val = (seller.clone(), invoice_id, LEDGER_TIME).into_val(&env);
    assert_eq!(env.events().all(), one_event(&env, &contract, "LST_CXL", data));
}

#[test]
fn test_listing_expired_publishes_schema() {
    let (env, contract) = setup();
    let invoice_id: u64 = 1001u64;
    let seller = Address::generate(&env);
    env.as_contract(&contract, || events::listing_expired(&env, invoice_id, &seller));
    let data: Val = (seller.clone(), invoice_id, LEDGER_TIME).into_val(&env);
    assert_eq!(env.events().all(), one_event(&env, &contract, "LST_EXP", data));
}

#[test]
fn test_fee_collected_publishes_schema() {
    let (env, contract) = setup();
    let investor = Address::generate(&env);
    let invoice_id: u64 = u64::MAX;
    let fee_amount: i128 = 3_500i128;
    let token = Address::generate(&env);
    env.as_contract(&contract, || events::fee_collected(&env, &investor, invoice_id, fee_amount, &token));
    let data: Val = (investor.clone(), invoice_id, fee_amount, token.clone(), LEDGER_TIME).into_val(&env);
    assert_eq!(env.events().all(), one_event(&env, &contract, "TRES_FEE", data));
}

#[test]
fn test_fee_withdrawn_publishes_schema() {
    let (env, contract) = setup();
    let actor = Address::generate(&env);
    let token = Address::generate(&env);
    let amount: i128 = 3_500i128;
    env.as_contract(&contract, || events::fee_withdrawn(&env, &actor, &token, amount));
    let data: Val = (actor.clone(), token.clone(), amount, LEDGER_TIME).into_val(&env);
    assert_eq!(env.events().all(), one_event(&env, &contract, "FEE_WTH", data));
}

#[test]
fn test_emergency_withdrawn_publishes_schema() {
    let (env, contract) = setup();
    let by = Address::generate(&env);
    let token = Address::generate(&env);
    let amount: i128 = 3_500i128;
    env.as_contract(&contract, || events::emergency_withdrawn(&env, &by, &token, amount));
    let data: Val = (by.clone(), token.clone(), amount, LEDGER_TIME).into_val(&env);
    assert_eq!(env.events().all(), one_event(&env, &contract, "EMRG_WTH", data));
}

#[test]
fn test_fee_rate_updated_publishes_schema() {
    let (env, contract) = setup();
    let by = Address::generate(&env);
    let old_bps: u32 = 23;
    let new_bps: u32 = 33;
    env.as_contract(&contract, || events::fee_rate_updated(&env, &by, old_bps, new_bps));
    let data: Val = (by.clone(), old_bps, new_bps, LEDGER_TIME).into_val(&env);
    assert_eq!(env.events().all(), one_event(&env, &contract, "FEE_UPD", data));
}

#[test]
fn test_referral_fee_paid_publishes_schema() {
    let (env, contract) = setup();
    let invoice_id: u64 = 1001u64;
    let referrer = Address::generate(&env);
    let referral_fee: i128 = 3_500i128;
    env.as_contract(&contract, || events::referral_fee_paid(&env, invoice_id, &referrer, referral_fee));
    let data: Val = (invoice_id, referrer.clone(), referral_fee, LEDGER_TIME).into_val(&env);
    assert_eq!(env.events().all(), one_event(&env, &contract, "REF_FEE", data));
}

#[test]
fn test_treasury_initialized_publishes_schema() {
    let (env, contract) = setup();
    let admin = Address::generate(&env);
    let fee_bps: u32 = 23;
    env.as_contract(&contract, || events::treasury_initialized(&env, &admin, fee_bps));
    let data: Val = (admin.clone(), fee_bps, LEDGER_TIME).into_val(&env);
    assert_eq!(env.events().all(), one_event(&env, &contract, "TRES_INI", data));
}

#[test]
fn test_protocol_paused_publishes_schema() {
    let (env, contract) = setup();
    let by = Address::generate(&env);
    env.as_contract(&contract, || events::protocol_paused(&env, &by));
    let data: Val = (by.clone(), LEDGER_TIME).into_val(&env);
    assert_eq!(env.events().all(), one_event(&env, &contract, "AC_PAUSED", data));
}

#[test]
fn test_protocol_unpaused_publishes_schema() {
    let (env, contract) = setup();
    let by = Address::generate(&env);
    env.as_contract(&contract, || events::protocol_unpaused(&env, &by));
    let data: Val = (by.clone(), LEDGER_TIME).into_val(&env);
    assert_eq!(env.events().all(), one_event(&env, &contract, "AC_UNPAUS", data));
}

#[test]
fn test_token_whitelisted_publishes_schema() {
    let (env, contract) = setup();
    let actor = Address::generate(&env);
    let token = Address::generate(&env);
    env.as_contract(&contract, || events::token_whitelisted(&env, &actor, &token));
    let data: Val = (actor.clone(), token.clone(), LEDGER_TIME).into_val(&env);
    assert_eq!(env.events().all(), one_event(&env, &contract, "TOK_WL", data));
}

#[test]
fn test_token_whitelist_removed_publishes_schema() {
    let (env, contract) = setup();
    let actor = Address::generate(&env);
    let token = Address::generate(&env);
    env.as_contract(&contract, || events::token_whitelist_removed(&env, &actor, &token));
    let data: Val = (actor.clone(), token.clone(), LEDGER_TIME).into_val(&env);
    assert_eq!(env.events().all(), one_event(&env, &contract, "TOK_UNWL", data));
}

#[test]
fn test_admin_transferred_publishes_schema() {
    let (env, contract) = setup();
    let actor = Address::generate(&env);
    let new_admin = Address::generate(&env);
    env.as_contract(&contract, || events::admin_transferred(&env, &actor, &new_admin));
    let data: Val = (actor.clone(), new_admin.clone(), LEDGER_TIME).into_val(&env);
    assert_eq!(env.events().all(), one_event(&env, &contract, "ADM_TRF", data));
}

#[test]
fn test_role_granted_publishes_schema() {
    let (env, contract) = setup();
    let admin = Address::generate(&env);
    let target = Address::generate(&env);
    env.as_contract(&contract, || events::role_granted(&env, &admin, &target));
    let data: Val = (admin.clone(), target.clone(), LEDGER_TIME).into_val(&env);
    assert_eq!(env.events().all(), one_event(&env, &contract, "ROL_GRT", data));
}

#[test]
fn test_role_revoked_publishes_schema() {
    let (env, contract) = setup();
    let admin = Address::generate(&env);
    let target = Address::generate(&env);
    env.as_contract(&contract, || events::role_revoked(&env, &admin, &target));
    let data: Val = (admin.clone(), target.clone(), LEDGER_TIME).into_val(&env);
    assert_eq!(env.events().all(), one_event(&env, &contract, "ROL_RVK", data));
}

#[test]
fn test_pool_opened_publishes_schema() {
    let (env, contract) = setup();
    let marketplace = Address::generate(&env);
    let invoice_id: u64 = u64::MAX;
    let token = Address::generate(&env);
    let face_value: i128 = -4_000_000_000_000_000_000i128;
    env.as_contract(&contract, || events::pool_opened(&env, &marketplace, invoice_id, &token, face_value));
    let data: Val = (marketplace.clone(), invoice_id, token.clone(), face_value, LEDGER_TIME).into_val(&env);
    assert_eq!(env.events().all(), one_event(&env, &contract, "POOL_OPN", data));
}

#[test]
fn test_position_recorded_publishes_schema() {
    let (env, contract) = setup();
    let admin = Address::generate(&env);
    let invoice_id: u64 = u64::MAX;
    let investor = Address::generate(&env);
    let contributed: i128 = -4_000_000_000_000_000_000i128;
    let share_bps: u32 = 53;
    env.as_contract(&contract, || events::position_recorded(&env, &admin, invoice_id, &investor, contributed, share_bps));
    let data: Val = (admin.clone(), invoice_id, investor.clone(), contributed, share_bps, LEDGER_TIME).into_val(&env);
    assert_eq!(env.events().all(), one_event(&env, &contract, "POS_REC", data));
}

#[test]
fn test_verifier_added_publishes_schema() {
    let (env, contract) = setup();
    let admin = Address::generate(&env);
    let verifier = Address::generate(&env);
    env.as_contract(&contract, || events::verifier_added(&env, &admin, &verifier));
    let data: Val = (admin.clone(), verifier.clone(), LEDGER_TIME).into_val(&env);
    assert_eq!(env.events().all(), one_event(&env, &contract, "VRF_ADD", data));
}

#[test]
fn test_verifier_removed_publishes_schema() {
    let (env, contract) = setup();
    let admin = Address::generate(&env);
    let verifier = Address::generate(&env);
    env.as_contract(&contract, || events::verifier_removed(&env, &admin, &verifier));
    let data: Val = (admin.clone(), verifier.clone(), LEDGER_TIME).into_val(&env);
    assert_eq!(env.events().all(), one_event(&env, &contract, "VRF_RMV", data));
}

#[test]
fn test_sme_registered_publishes_schema() {
    let (env, contract) = setup();
    let verifier = Address::generate(&env);
    let sme = Address::generate(&env);
    let risk_score: u32 = 33;
    env.as_contract(&contract, || events::sme_registered(&env, &verifier, &sme, risk_score));
    let data: Val = (verifier.clone(), sme.clone(), risk_score, LEDGER_TIME).into_val(&env);
    assert_eq!(env.events().all(), one_event(&env, &contract, "SME_REG", data));
}

#[test]
fn test_sme_score_updated_publishes_schema() {
    let (env, contract) = setup();
    let verifier = Address::generate(&env);
    let sme = Address::generate(&env);
    let new_score: u32 = 33;
    env.as_contract(&contract, || events::sme_score_updated(&env, &verifier, &sme, new_score));
    let data: Val = (verifier.clone(), sme.clone(), new_score, LEDGER_TIME).into_val(&env);
    assert_eq!(env.events().all(), one_event(&env, &contract, "SME_SCU", data));
}

#[test]
fn test_sme_default_recorded_publishes_schema() {
    let (env, contract) = setup();
    let admin = Address::generate(&env);
    let sme = Address::generate(&env);
    let total_defaults: u32 = 33;
    env.as_contract(&contract, || events::sme_default_recorded(&env, &admin, &sme, total_defaults));
    let data: Val = (admin.clone(), sme.clone(), total_defaults, LEDGER_TIME).into_val(&env);
    assert_eq!(env.events().all(), one_event(&env, &contract, "SME_DFLT", data));
}

#[test]
fn test_sme_invoice_count_incremented_publishes_schema() {
    let (env, contract) = setup();
    let sme = Address::generate(&env);
    let new_total: u32 = 23;
    env.as_contract(&contract, || events::sme_invoice_count_incremented(&env, &sme, new_total));
    let data: Val = (sme.clone(), new_total, LEDGER_TIME).into_val(&env);
    assert_eq!(env.events().all(), one_event(&env, &contract, "SME_INVC", data));
}

#[test]
fn test_debtor_score_set_publishes_schema() {
    let (env, contract) = setup();
    let verifier = Address::generate(&env);
    let debtor_hash = Bytes::from_array(&env, &[9u8, 8, 7, 6]);
    let score: u32 = 33;
    env.as_contract(&contract, || events::debtor_score_set(&env, &verifier, &debtor_hash, score));
    let data: Val = (verifier.clone(), debtor_hash.clone(), score, LEDGER_TIME).into_val(&env);
    assert_eq!(env.events().all(), one_event(&env, &contract, "DBT_SCR", data));
}

#[test]
fn test_registry_initialized_publishes_schema() {
    let (env, contract) = setup();
    let admin = Address::generate(&env);
    let invoice_nft = Address::generate(&env);
    env.as_contract(&contract, || events::registry_initialized(&env, &admin, &invoice_nft));
    let data: Val = (admin.clone(), invoice_nft.clone(), LEDGER_TIME).into_val(&env);
    assert_eq!(env.events().all(), one_event(&env, &contract, "REG_INI", data));
}

#[test]
fn test_sub_account_added_publishes_schema() {
    let (env, contract) = setup();
    let primary = Address::generate(&env);
    let sub_account = Address::generate(&env);
    env.as_contract(&contract, || events::sub_account_added(&env, &primary, &sub_account));
    let data: Val = (primary.clone(), sub_account.clone(), LEDGER_TIME).into_val(&env);
    assert_eq!(env.events().all(), one_event(&env, &contract, "VRF_SADD", data));
}

#[test]
fn test_sub_account_removed_publishes_schema() {
    let (env, contract) = setup();
    let primary = Address::generate(&env);
    let sub_account = Address::generate(&env);
    env.as_contract(&contract, || events::sub_account_removed(&env, &primary, &sub_account));
    let data: Val = (primary.clone(), sub_account.clone(), LEDGER_TIME).into_val(&env);
    assert_eq!(env.events().all(), one_event(&env, &contract, "VRF_SRMV", data));
}

#[test]
fn test_upgrade_proposed_publishes_schema() {
    let (env, contract) = setup();
    let admin = Address::generate(&env);
    let wasm_hash = BytesN::from_array(&env, &[7u8; 32]);
    env.as_contract(&contract, || events::upgrade_proposed(&env, &admin, &wasm_hash));
    let data: Val = (admin.clone(), wasm_hash.clone(), LEDGER_TIME).into_val(&env);
    assert_eq!(env.events().all(), one_event(&env, &contract, "AC_UPG_P", data));
}

#[test]
fn test_upgrade_executed_publishes_schema() {
    let (env, contract) = setup();
    let admin = Address::generate(&env);
    let wasm_hash = BytesN::from_array(&env, &[7u8; 32]);
    env.as_contract(&contract, || events::upgrade_executed(&env, &admin, &wasm_hash));
    let data: Val = (admin.clone(), wasm_hash.clone(), LEDGER_TIME).into_val(&env);
    assert_eq!(env.events().all(), one_event(&env, &contract, "AC_UPG_E", data));
}

#[test]
fn test_multisig_configured_publishes_schema() {
    let (env, contract) = setup();
    let threshold: u32 = 13;
    let signer_count: u32 = 23;
    env.as_contract(&contract, || events::multisig_configured(&env, threshold, signer_count));
    let data: Val = (threshold, signer_count, LEDGER_TIME).into_val(&env);
    assert_eq!(env.events().all(), one_event(&env, &contract, "AC_MSIG", data));
}

#[test]
fn test_action_proposed_publishes_schema() {
    let (env, contract) = setup();
    let proposal_id: u64 = 1001u64;
    let proposer = Address::generate(&env);
    env.as_contract(&contract, || events::action_proposed(&env, proposal_id, &proposer));
    let data: Val = (proposal_id, proposer.clone(), LEDGER_TIME).into_val(&env);
    assert_eq!(env.events().all(), one_event(&env, &contract, "AC_ACT_P", data));
}

#[test]
fn test_action_approved_publishes_schema() {
    let (env, contract) = setup();
    let proposal_id: u64 = 1001u64;
    let approver = Address::generate(&env);
    let approval_count: u32 = 33;
    env.as_contract(&contract, || events::action_approved(&env, proposal_id, &approver, approval_count));
    let data: Val = (proposal_id, approver.clone(), approval_count, LEDGER_TIME).into_val(&env);
    assert_eq!(env.events().all(), one_event(&env, &contract, "AC_ACT_A", data));
}

#[test]
fn test_action_executed_publishes_schema() {
    let (env, contract) = setup();
    let proposal_id: u64 = 1001u64;
    let executor = Address::generate(&env);
    env.as_contract(&contract, || events::action_executed(&env, proposal_id, &executor));
    let data: Val = (proposal_id, executor.clone(), LEDGER_TIME).into_val(&env);
    assert_eq!(env.events().all(), one_event(&env, &contract, "AC_ACT_E", data));
}

#[test]
fn test_refund_claimed_publishes_schema() {
    let (env, contract) = setup();
    let invoice_id: u64 = 1001u64;
    let investor = Address::generate(&env);
    let amount: i128 = 3_500i128;
    env.as_contract(&contract, || events::refund_claimed(&env, invoice_id, &investor, amount));
    let data: Val = (investor.clone(), invoice_id, amount, LEDGER_TIME).into_val(&env);
    assert_eq!(env.events().all(), one_event(&env, &contract, "RFND_CLM", data));
}

#[test]
fn test_position_listed_for_sale_publishes_schema() {
    let (env, contract) = setup();
    let invoice_id: u64 = 1001u64;
    let seller = Address::generate(&env);
    let price: i128 = 3_500i128;
    env.as_contract(&contract, || events::position_listed_for_sale(&env, invoice_id, &seller, price));
    let data: Val = (seller.clone(), invoice_id, price, LEDGER_TIME).into_val(&env);
    assert_eq!(env.events().all(), one_event(&env, &contract, "POS_SALE", data));
}

#[test]
fn test_position_sold_publishes_schema() {
    let (env, contract) = setup();
    let invoice_id: u64 = 1001u64;
    let seller = Address::generate(&env);
    let buyer = Address::generate(&env);
    let price: i128 = -4_000_000_000_000_000_000i128;
    env.as_contract(&contract, || events::position_sold(&env, invoice_id, &seller, &buyer, price));
    let data: Val = (seller.clone(), invoice_id, buyer.clone(), price, LEDGER_TIME).into_val(&env);
    assert_eq!(env.events().all(), one_event(&env, &contract, "POS_SOLD", data));
}

#[test]
fn test_withdrawal_cap_proposed_publishes_schema() {
    let (env, contract) = setup();
    let admin = Address::generate(&env);
    let new_cap: i128 = -2_000_000_000_000_000_000i128;
    env.as_contract(&contract, || events::withdrawal_cap_proposed(&env, &admin, new_cap));
    let data: Val = (admin.clone(), new_cap, LEDGER_TIME).into_val(&env);
    assert_eq!(env.events().all(), one_event(&env, &contract, "WTH_CAP_P", data));
}

#[test]
fn test_withdrawal_cap_updated_publishes_schema() {
    let (env, contract) = setup();
    let admin = Address::generate(&env);
    let old_cap: i128 = -2_000_000_000_000_000_000i128;
    let new_cap: i128 = 3_500i128;
    env.as_contract(&contract, || events::withdrawal_cap_updated(&env, &admin, old_cap, new_cap));
    let data: Val = (admin.clone(), old_cap, new_cap, LEDGER_TIME).into_val(&env);
    assert_eq!(env.events().all(), one_event(&env, &contract, "WTH_CAP_U", data));
}

#[test]
fn test_sme_credit_limit_set_publishes_schema() {
    let (env, contract) = setup();
    let verifier = Address::generate(&env);
    let sme = Address::generate(&env);
    let credit_limit: i128 = 3_500i128;
    env.as_contract(&contract, || events::sme_credit_limit_set(&env, &verifier, &sme, credit_limit));
    let data: Val = (verifier.clone(), sme.clone(), credit_limit, LEDGER_TIME).into_val(&env);
    assert_eq!(env.events().all(), one_event(&env, &contract, "SME_CL", data));
}

#[test]
fn test_invoice_frozen_publishes_schema() {
    let (env, contract) = setup();
    let invoice_id: u64 = 1001u64;
    let admin = Address::generate(&env);
    env.as_contract(&contract, || events::invoice_frozen(&env, invoice_id, &admin));
    let data: Val = (admin.clone(), invoice_id, LEDGER_TIME).into_val(&env);
    assert_eq!(env.events().all(), one_event(&env, &contract, "INV_FRZ", data));
}

#[test]
fn test_invoice_unfrozen_publishes_schema() {
    let (env, contract) = setup();
    let invoice_id: u64 = 1001u64;
    let admin = Address::generate(&env);
    env.as_contract(&contract, || events::invoice_unfrozen(&env, invoice_id, &admin));
    let data: Val = (admin.clone(), invoice_id, LEDGER_TIME).into_val(&env);
    assert_eq!(env.events().all(), one_event(&env, &contract, "INV_UFRZ", data));
}

#[test]
fn test_cancellation_requested_publishes_schema() {
    let (env, contract) = setup();
    let invoice_id: u64 = 1001u64;
    let caller = Address::generate(&env);
    env.as_contract(&contract, || events::cancellation_requested(&env, invoice_id, &caller));
    let data: Val = (caller.clone(), invoice_id, LEDGER_TIME).into_val(&env);
    assert_eq!(env.events().all(), one_event(&env, &contract, "CXL_REQ", data));
}

#[test]
fn test_decay_schedule_set_publishes_schema() {
    let (env, contract) = setup();
    let invoice_id: u64 = 1001u64;
    let seller = Address::generate(&env);
    let floor_price: i128 = 3_500i128;
    let decay_end_ts: u64 = 1004u64;
    env.as_contract(&contract, || events::decay_schedule_set(&env, invoice_id, &seller, floor_price, decay_end_ts));
    let data: Val = (seller.clone(), invoice_id, floor_price, decay_end_ts, LEDGER_TIME).into_val(&env);
    assert_eq!(env.events().all(), one_event(&env, &contract, "DECAY_SET", data));
}

#[test]
fn test_bid_submitted_publishes_schema() {
    let (env, contract) = setup();
    let invoice_id: u64 = 1001u64;
    let investor = Address::generate(&env);
    let bid_price: i128 = 3_500i128;
    let amount: i128 = -4_000_000_000_000_000_000i128;
    env.as_contract(&contract, || events::bid_submitted(&env, invoice_id, &investor, bid_price, amount));
    let data: Val = (investor.clone(), invoice_id, bid_price, amount, LEDGER_TIME).into_val(&env);
    assert_eq!(env.events().all(), one_event(&env, &contract, "BID_SUBM", data));
}

#[test]
fn test_bid_accepted_publishes_schema() {
    let (env, contract) = setup();
    let invoice_id: u64 = 1001u64;
    let seller = Address::generate(&env);
    let investor = Address::generate(&env);
    let bid_price: i128 = -4_000_000_000_000_000_000i128;
    let amount: i128 = 5_500i128;
    env.as_contract(&contract, || events::bid_accepted(&env, invoice_id, &seller, &investor, bid_price, amount));
    let data: Val = (seller.clone(), invoice_id, investor.clone(), bid_price, amount, LEDGER_TIME).into_val(&env);
    assert_eq!(env.events().all(), one_event(&env, &contract, "BID_ACCP", data));
}

#[test]
fn test_admin_action_audited_publishes_schema() {
    let (env, contract) = setup();
    let actor = Address::generate(&env);
    let entry = AdminAuditEntry {
        sequence: 17,
        actor: actor.clone(),
        action: Symbol::new(&env, "set_fee"),
        source: Symbol::new(&env, "treasury"),
        timestamp: 1_650_000_000,
    };
    env.as_contract(&contract, || events::admin_action_audited(&env, &entry));
    let data: Val = (17u64, actor.clone(), Symbol::new(&env, "set_fee"), Symbol::new(&env, "treasury"), 1_650_000_000u64).into_val(&env);
    assert_eq!(env.events().all(), one_event(&env, &contract, "ADM_AUDIT", data));
}
