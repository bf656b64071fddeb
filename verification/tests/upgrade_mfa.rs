use soroban_sdk::testutils::{Address as _, Ledger};
use soroban_sdk::{Address, Env};
use stellar_guilds::upgrade_mfa::logic::{
    get_pending_upgrade, initialize_mfa, is_upgrade_pending, upgrade_first_signature, upgrade_second_signature,
    SECOND_SIG_WINDOW_SECS,
};
use stellar_guilds::upgrade_mfa::storage::{
    clear_pending, get_admin, get_backup_key, get_pending, is_pending, set_admin, set_backup_key, store_pending,
    MfaStorage,
};
use stellar_guilds::upgrade_mfa::types::{AccountAddress, UpgradeMfaError, UpgradePendingState};

/// The strkey of a freshly generated address.
fn generate(env: &Env) -> AccountAddress {
    let addr = Address::generate(env);
    let strkey = addr.to_string();
    let mut buf = vec![0u8; strkey.len() as usize];
    strkey.copy_into_slice(&mut buf);
    AccountAddress { strkey: String::from_utf8(buf).unwrap() }
}

fn setup() -> (Env, MfaStorage, AccountAddress, AccountAddress) {
    let env = Env::default();
    env.cost_estimate().budget().reset_unlimited();
    let store = MfaStorage::new();
    let admin = generate(&env);
    let backup = generate(&env);
    (env, store, admin, backup)
}

fn init(store: &mut MfaStorage, admin: &AccountAddress, backup: &AccountAddress) {
    initialize_mfa(store, admin, backup);
}

fn desc(s: &str) -> Vec<u8> {
    s.as_bytes().to_vec()
}

fn now(env: &Env) -> u64 {
    env.ledger().timestamp()
}

// ── Happy path ────────────────────────────────────────────────────────────

/// Full two-step flow: admin proposes, backup confirms within the window.
#[test]
fn test_two_step_upgrade_success() {
    let (env, mut store, admin, backup) = setup();
    init(&mut store, &admin, &backup);

    // Step 1: admin submits first signature
    assert_eq!(upgrade_first_signature(&mut store, &admin, desc("upgrade to v2.0"), now(&env)), Ok(()));
    assert!(is_upgrade_pending(&mut store, now(&env)), "upgrade should be pending after step 1");

    // Step 2: backup key confirms
    let result = upgrade_second_signature(&mut store, &backup, now(&env));
    assert!(result.is_ok(), "second signature should succeed");

    let approved = result.unwrap();
    assert_eq!(approved.proposed_by, admin);
    assert!(!is_upgrade_pending(&mut store, now(&env)), "pending flag should be cleared after step 2");
}

/// Second signature from a non-backup address must be rejected.
#[test]
fn test_second_sig_wrong_caller_rejected() {
    let (env, mut store, admin, backup) = setup();
    init(&mut store, &admin, &backup);
    let impostor = generate(&env);

    upgrade_first_signature(&mut store, &admin, desc("upgrade"), now(&env)).unwrap();
    let err = upgrade_second_signature(&mut store, &impostor, now(&env)).unwrap_err();
    assert_eq!(err, UpgradeMfaError::NotBackupKey);
    // Pending state untouched
    assert!(is_upgrade_pending(&mut store, now(&env)));
}

/// First signature from a non-admin address must be rejected.
#[test]
fn test_first_sig_wrong_caller_rejected() {
    let (env, mut store, admin, backup) = setup();
    init(&mut store, &admin, &backup);
    let impostor = generate(&env);

    let err = upgrade_first_signature(&mut store, &impostor, desc("attack"), now(&env)).unwrap_err();
    assert_eq!(err, UpgradeMfaError::NotAdmin);
    assert!(!is_upgrade_pending(&mut store, now(&env)));
}

// ── Expiry ────────────────────────────────────────────────────────────────

/// Second signature after the expiry window must return `UpgradeExpired`
/// and clear the pending flag.
#[test]
fn test_second_sig_after_expiry_rejected() {
    let (env, mut store, admin, backup) = setup();
    init(&mut store, &admin, &backup);

    upgrade_first_signature(&mut store, &admin, desc("upgrade"), now(&env)).unwrap();

    // Advance ledger time past the window.
    env.ledger().with_mut(|li| {
        li.timestamp = li.timestamp + SECOND_SIG_WINDOW_SECS + 1;
    });

    let err = upgrade_second_signature(&mut store, &backup, now(&env)).unwrap_err();
    assert_eq!(err, UpgradeMfaError::UpgradeExpired);
    assert!(!is_upgrade_pending(&mut store, now(&env)), "expired proposal should be cleared");
}

/// After an expired proposal is cleared, a new proposal can be created.
#[test]
fn test_new_proposal_allowed_after_expiry() {
    let (env, mut store, admin, backup) = setup();
    init(&mut store, &admin, &backup);

    upgrade_first_signature(&mut store, &admin, desc("first attempt"), now(&env)).unwrap();

    // Expire the first proposal.
    env.ledger().with_mut(|li| {
        li.timestamp = li.timestamp + SECOND_SIG_WINDOW_SECS + 1;
    });

    // A fresh proposal should succeed (expired one is lazily cleared).
    assert_eq!(upgrade_first_signature(&mut store, &admin, desc("second attempt"), now(&env)), Ok(()));
}

// ── Guard rails ───────────────────────────────────────────────────────────

/// Proposing when a non-expired proposal is already pending must return
/// `AlreadyPending`.
#[test]
fn test_duplicate_proposal_rejected() {
    let (env, mut store, admin, backup) = setup();
    init(&mut store, &admin, &backup);

    upgrade_first_signature(&mut store, &admin, desc("first"), now(&env)).unwrap();
    let err = upgrade_first_signature(&mut store, &admin, desc("second"), now(&env)).unwrap_err();
    assert_eq!(err, UpgradeMfaError::AlreadyPending);
}

/// Calling `upgrade_second_signature` when no proposal exists must return
/// `NoPendingUpgrade`.
#[test]
fn test_second_sig_without_first_sig_rejected() {
    let (env, mut store, admin, backup) = setup();
    init(&mut store, &admin, &backup);

    let err = upgrade_second_signature(&mut store, &backup, now(&env)).unwrap_err();
    assert_eq!(err, UpgradeMfaError::NoPendingUpgrade);
}

/// Calling either function before `initialize_mfa` must return
/// `NotInitialized`.
#[test]
fn test_operations_without_initialization_rejected() {
    let env = Env::default();
    env.cost_estimate().budget().reset_unlimited();
    let mut store = MfaStorage::new();
    let caller = generate(&env);

    assert_eq!(
        upgrade_first_signature(&mut store, &caller, desc("x"), now(&env)),
        Err(UpgradeMfaError::NotInitialized)
    );
    assert_eq!(upgrade_second_signature(&mut store, &caller, now(&env)), Err(UpgradeMfaError::NotInitialized));
}

// ─── Further cases ────────────────────────────────────────────────────────────

fn addr(s: &str) -> AccountAddress {
    AccountAddress { strkey: s.to_string() }
}

#[test]
fn window_is_one_hour() {
    assert_eq!(SECOND_SIG_WINDOW_SECS, 3_600);
}

#[test]
fn approved_proposal_carries_its_record() {
    let mut store = MfaStorage::new();
    let admin = addr("GADMIN");
    let backup = addr("GBACKUP");
    initialize_mfa(&mut store, &admin, &backup);
    assert_eq!(upgrade_first_signature(&mut store, &admin, desc("v3"), 1_000), Ok(()));
    let expected = UpgradePendingState { proposed_by: admin.clone(), expires_at: 4_600, description: desc("v3") };
    assert_eq!(get_pending_upgrade(&mut store, 4_600), Some(expected.clone()));
    // The last second of the window still counts.
    assert_eq!(upgrade_second_signature(&mut store, &backup, 4_600), Ok(expected));
    assert_eq!(get_pending(&store), None);
    assert!(!is_pending(&store));
}

#[test]
fn confirmation_one_second_late_expires() {
    let mut store = MfaStorage::new();
    let admin = addr("GADMIN");
    let backup = addr("GBACKUP");
    initialize_mfa(&mut store, &admin, &backup);
    upgrade_first_signature(&mut store, &admin, desc("v3"), 1_000).unwrap();
    assert_eq!(upgrade_second_signature(&mut store, &backup, 4_601), Err(UpgradeMfaError::UpgradeExpired));
    assert_eq!(get_pending(&store), None);
    assert!(!is_pending(&store));
    // Nothing left to confirm.
    assert_eq!(upgrade_second_signature(&mut store, &backup, 4_601), Err(UpgradeMfaError::NoPendingUpgrade));
}

#[test]
fn duplicate_refused_until_window_closes() {
    let mut store = MfaStorage::new();
    let admin = addr("GADMIN");
    initialize_mfa(&mut store, &admin, &addr("GBACKUP"));
    upgrade_first_signature(&mut store, &admin, desc("a"), 10).unwrap();
    let before = store.clone();
    assert_eq!(upgrade_first_signature(&mut store, &admin, desc("b"), 3_610), Err(UpgradeMfaError::AlreadyPending));
    assert_eq!(store, before);
    assert_eq!(upgrade_first_signature(&mut store, &admin, desc("b"), 3_611), Ok(()));
    let p = get_pending(&store).unwrap();
    assert_eq!(p.description, desc("b"));
    assert_eq!(p.expires_at, 7_211);
}

#[test]
fn refusals_leave_storage_unchanged() {
    let mut store = MfaStorage::new();
    let admin = addr("GADMIN");
    let backup = addr("GBACKUP");
    initialize_mfa(&mut store, &admin, &backup);
    upgrade_first_signature(&mut store, &admin, desc("a"), 10).unwrap();
    let before = store.clone();
    // The backup key is not the admin, and the admin is not the backup key.
    assert_eq!(upgrade_first_signature(&mut store, &backup, desc("x"), 20), Err(UpgradeMfaError::NotAdmin));
    assert_eq!(store, before);
    assert_eq!(upgrade_second_signature(&mut store, &admin, 20), Err(UpgradeMfaError::NotBackupKey));
    assert_eq!(store, before);
}

#[test]
fn first_signature_by_backup_key_is_not_admin() {
    let mut store = MfaStorage::new();
    let admin = addr("GADMIN");
    let backup = addr("GBACKUP");
    initialize_mfa(&mut store, &admin, &backup);
    assert_eq!(upgrade_first_signature(&mut store, &backup, desc("x"), 0), Err(UpgradeMfaError::NotAdmin));
    assert_eq!(get_pending(&store), None);
}

#[test]
fn queries_clear_expired_proposals() {
    let mut store = MfaStorage::new();
    let admin = addr("GADMIN");
    initialize_mfa(&mut store, &admin, &addr("GBACKUP"));
    upgrade_first_signature(&mut store, &admin, desc("a"), 0).unwrap();
    assert!(is_upgrade_pending(&mut store, 3_600));
    assert!(get_pending_upgrade(&mut store, 3_600).is_some());
    assert!(is_pending(&store));
    assert_eq!(get_pending_upgrade(&mut store, 3_601), None);
    assert!(!is_pending(&store));
    assert_eq!(get_pending(&store), None);

    upgrade_first_signature(&mut store, &admin, desc("b"), 5_000).unwrap();
    assert!(!is_upgrade_pending(&mut store, 8_601));
    assert_eq!(get_pending(&store), None);
    assert!(!is_pending(&store));
}

#[test]
fn flag_without_record_reads_as_pending() {
    // Storage where the flag is raised but no proposal is recorded.
    let mut store = MfaStorage::new();
    store.pending_flag = true;
    assert!(is_upgrade_pending(&mut store, 0));
    assert_eq!(get_pending_upgrade(&mut store, 0), None);
    // A new proposal may still be made, and it repairs the storage.
    let admin = addr("GADMIN");
    initialize_mfa(&mut store, &admin, &addr("GBACKUP"));
    assert_eq!(upgrade_first_signature(&mut store, &admin, desc("a"), 0), Ok(()));
    assert!(get_pending(&store).is_some());
}

#[test]
fn record_without_flag_reads_as_not_pending() {
    let mut store = MfaStorage::new();
    let admin = addr("GADMIN");
    let backup = addr("GBACKUP");
    initialize_mfa(&mut store, &admin, &backup);
    let state = UpgradePendingState { proposed_by: admin.clone(), expires_at: 100, description: desc("d") };
    store.pending = Some(state.clone());
    assert!(!is_upgrade_pending(&mut store, 0));
    assert_eq!(get_pending_upgrade(&mut store, 0), Some(state.clone()));
    // The second signature looks at the record, not at the flag.
    assert_eq!(upgrade_second_signature(&mut store, &backup, 50), Ok(state));
}

#[test]
fn storage_reads_give_back_writes() {
    let mut store = MfaStorage::new();
    assert_eq!(get_admin(&store), None);
    assert_eq!(get_backup_key(&store), None);
    assert!(!is_pending(&store));
    set_admin(&mut store, &addr("GA"));
    set_backup_key(&mut store, &addr("GB"));
    assert_eq!(get_admin(&store), Some(addr("GA")));
    assert_eq!(get_backup_key(&store), Some(addr("GB")));
    let state = UpgradePendingState { proposed_by: addr("GA"), expires_at: 7, description: desc("d") };
    store_pending(&mut store, &state);
    assert!(is_pending(&store));
    assert_eq!(get_pending(&store), Some(state));
    clear_pending(&mut store);
    assert!(!is_pending(&store));
    assert_eq!(get_pending(&store), None);
    assert_eq!(get_admin(&store), Some(addr("GA")));
}

#[test]
fn reinitialising_replaces_signers_and_keeps_proposal() {
    let mut store = MfaStorage::new();
    initialize_mfa(&mut store, &addr("GA"), &addr("GB"));
    upgrade_first_signature(&mut store, &addr("GA"), desc("a"), 0).unwrap();
    initialize_mfa(&mut store, &addr("GC"), &addr("GD"));
    assert_eq!(upgrade_second_signature(&mut store, &addr("GB"), 1), Err(UpgradeMfaError::NotBackupKey));
    let approved = upgrade_second_signature(&mut store, &addr("GD"), 1).unwrap();
    assert_eq!(approved.proposed_by, addr("GA"));
}

#[test]
fn same_address_compares_strkeys() {
    let a = addr("GSAME");
    assert!(a.same_as(&addr("GSAME")));
    assert!(!a.same_as(&addr("GOTHER")));
    assert_eq!(a.copy(), a);
}

#[test]
fn approved_proposal_is_not_returned_twice() {
    let mut store = MfaStorage::new();
    let admin = addr("GADMIN");
    let backup = addr("GBACKUP");
    initialize_mfa(&mut store, &admin, &backup);
    upgrade_first_signature(&mut store, &admin, desc("a"), 0).unwrap();
    assert!(upgrade_second_signature(&mut store, &backup, 10).is_ok());
    // Signer changes and queries do not bring it back.
    set_admin(&mut store, &addr("GNEW"));
    assert!(!is_upgrade_pending(&mut store, 20));
    assert_eq!(get_pending_upgrade(&mut store, 20), None);
    assert_eq!(upgrade_second_signature(&mut store, &backup, 30), Err(UpgradeMfaError::NoPendingUpgrade));
    assert_eq!(upgrade_second_signature(&mut store, &admin, 30), Err(UpgradeMfaError::NotBackupKey));
    // Only a new proposal can be confirmed again.
    upgrade_first_signature(&mut store, &addr("GNEW"), desc("b"), 40).unwrap();
    let approved = upgrade_second_signature(&mut store, &backup, 50).unwrap();
    assert_eq!(approved.proposed_by, addr("GNEW"));
}

#[test]
fn reads_give_back_the_last_write_over_a_history() {
    let mut store = MfaStorage::new();
    set_admin(&mut store, &addr("GA1"));
    initialize_mfa(&mut store, &addr("GA2"), &addr("GB2"));
    set_backup_key(&mut store, &addr("GB3"));
    let state = UpgradePendingState { proposed_by: addr("GA2"), expires_at: 9, description: desc("x") };
    store_pending(&mut store, &state);
    set_admin(&mut store, &addr("GA4"));
    assert_eq!(get_admin(&store), Some(addr("GA4")));
    assert_eq!(get_backup_key(&store), Some(addr("GB3")));
    assert_eq!(get_pending(&store), Some(state));
    assert!(is_pending(&store));
    clear_pending(&mut store);
    set_backup_key(&mut store, &addr("GB5"));
    assert_eq!(get_pending(&store), None);
    assert!(!is_pending(&store));
    assert_eq!(get_backup_key(&store), Some(addr("GB5")));
    assert_eq!(get_admin(&store), Some(addr("GA4")));
}

#[test]
fn flag_matches_record_over_a_history() {
    let mut store = MfaStorage::new();
    let admin = addr("GADMIN");
    let backup = addr("GBACKUP");
    let check = |s: &MfaStorage| assert_eq!(is_pending(s), get_pending(s).is_some());
    check(&store);
    initialize_mfa(&mut store, &admin, &backup);
    check(&store);
    upgrade_first_signature(&mut store, &admin, desc("a"), 0).unwrap();
    check(&store);
    is_upgrade_pending(&mut store, 5_000);
    check(&store);
    upgrade_first_signature(&mut store, &admin, desc("b"), 5_000).unwrap();
    check(&store);
    get_pending_upgrade(&mut store, 9_000);
    check(&store);
    let state = UpgradePendingState { proposed_by: admin.clone(), expires_at: 20_000, description: desc("c") };
    store_pending(&mut store, &state);
    check(&store);
    upgrade_second_signature(&mut store, &backup, 10_000).unwrap();
    check(&store);
}

#[test]
fn proposal_query_follows_the_window() {
    let mut store = MfaStorage::new();
    let admin = addr("GADMIN");
    initialize_mfa(&mut store, &admin, &addr("GBACKUP"));
    upgrade_first_signature(&mut store, &admin, desc("w"), 100).unwrap();
    let expected = UpgradePendingState { proposed_by: admin.clone(), expires_at: 3_700, description: desc("w") };
    assert_eq!(get_pending_upgrade(&mut store, 100), Some(expected.clone()));
    assert_eq!(get_pending_upgrade(&mut store, 3_700), Some(expected));
    assert_eq!(get_pending_upgrade(&mut store, 3_701), None);
}
