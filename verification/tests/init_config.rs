use farmer_core::errors::{ConfigError, InitError};
use farmer_core::initialize;
use farmer_core::instructions::init_config::{check_allowed_mints_len, init_config, InitConfig};
use farmer_core::runtime::Deployment;
use farmer_core::states::{Identity, CONFIG_RECORD_SIZE, MAX_ALLOWED_MINTS};

fn mints(n: usize) -> Vec<Identity> {
    (0..n).map(|i| Identity::filled(100 + (i as u8))).collect()
}

#[test]
fn initialize_empty_allowlist_succeeds() {
    let mut d = Deployment::new(Identity::filled(1));
    let admin = Identity::filled(2);
    let wallet = Identity::filled(3);
    let r = initialize(&mut d, InitConfig { admin: admin.clone() }, wallet.clone(), false, Vec::new());
    assert_eq!(r, Ok(()));
    let a = d.config_account.as_ref().unwrap();
    assert_eq!(a.record.admin, admin);
    assert_eq!(a.record.logistics_wallet, wallet);
    assert!(!a.record.paused);
    assert!(a.record.allowed_mints.is_empty());
}

#[test]
fn initialize_stores_fields_verbatim() {
    let mut d = Deployment::new(Identity::filled(9));
    let admin = Identity::filled(10);
    let wallet = Identity::filled(11);
    let list = mints(3);
    let r = init_config(&mut d, InitConfig { admin: admin.clone() }, wallet.clone(), true, list.clone());
    assert_eq!(r, Ok(()));
    let a = d.config_account.as_ref().unwrap();
    assert_eq!(a.record.admin, admin);
    assert_eq!(a.record.logistics_wallet, wallet);
    assert!(a.record.paused);
    assert_eq!(a.record.allowed_mints, list);
    assert_eq!(a.data.len(), CONFIG_RECORD_SIZE);
}

#[test]
fn fifty_one_mints_rejected_without_allocation() {
    let mut d = Deployment::new(Identity::filled(1));
    let r = initialize(
        &mut d,
        InitConfig { admin: Identity::filled(2) },
        Identity::filled(3),
        true,
        mints(MAX_ALLOWED_MINTS + 1),
    );
    assert_eq!(r, Err(InitError::Config(ConfigError::TooManyAllowedMints)));
    assert!(d.config_account.is_none());
}

#[test]
fn fifty_mints_accepted() {
    let mut d = Deployment::new(Identity::filled(1));
    let r = initialize(
        &mut d,
        InitConfig { admin: Identity::filled(2) },
        Identity::filled(3),
        false,
        mints(MAX_ALLOWED_MINTS),
    );
    assert_eq!(r, Ok(()));
    assert_eq!(
        d.config_account.as_ref().unwrap().record.allowed_mints.len(),
        MAX_ALLOWED_MINTS
    );
}

#[test]
fn second_initialization_fails_and_record_is_retained() {
    let mut d = Deployment::new(Identity::filled(1));
    let first_admin = Identity::filled(2);
    let first_wallet = Identity::filled(3);
    let r1 = initialize(
        &mut d,
        InitConfig { admin: first_admin.clone() },
        first_wallet.clone(),
        false,
        mints(2),
    );
    assert_eq!(r1, Ok(()));
    let first_address = d.config_account.as_ref().unwrap().address.clone();

    let r2 = initialize(
        &mut d,
        InitConfig { admin: Identity::filled(40) },
        Identity::filled(41),
        true,
        Vec::new(),
    );
    assert_eq!(r2, Err(InitError::AlreadyInitialized));
    let a = d.config_account.as_ref().unwrap();
    assert_eq!(a.record.admin, first_admin);
    assert_eq!(a.record.logistics_wallet, first_wallet);
    assert!(!a.record.paused);
    assert_eq!(a.record.allowed_mints, mints(2));
    assert_eq!(a.address, first_address);
}

#[test]
fn capacity_gate_is_exact() {
    assert_eq!(check_allowed_mints_len(0), Ok(()));
    assert_eq!(check_allowed_mints_len(MAX_ALLOWED_MINTS), Ok(()));
    assert_eq!(
        check_allowed_mints_len(MAX_ALLOWED_MINTS + 1),
        Err(ConfigError::TooManyAllowedMints)
    );
}
