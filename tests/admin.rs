use pumpfun::{launch, Address, AmountConfig, Config, PumpfunError, WhitelistRegistry};

fn addr(b: u8) -> Address {
    Address::new([b; 32])
}

fn config() -> Config {
    Config {
        authority: addr(1),
        pending_authority: None,
        team_wallet: addr(2),
        init_bonding_curve: 80,
        platform_buy_fee: 1,
        platform_sell_fee: 1,
        platform_migration_fee: 5,
        curve_limit: 85_000_000_000,
        lamport_amount_config: AmountConfig::Range {
            min: Some(1_000_000_000),
            max: Some(100_000_000_000),
        },
        token_supply_config: AmountConfig::Range { min: Some(1_000), max: None },
        token_decimals_config: AmountConfig::Enum(vec![6, 9]),
        initialized: true,
        global_authority: addr(3),
        whitelist_enabled: false,
    }
}

#[test]
fn address_equality_is_bytewise() {
    let mut bytes = [4u8; 32];
    assert_eq!(Address::new(bytes), addr(4));
    bytes[31] = 5;
    assert_ne!(Address::new(bytes), addr(4));
}

#[test]
fn range_rule_reports_each_bound() {
    let rule: AmountConfig<u64> = AmountConfig::Range { min: Some(10), max: Some(20) };
    assert_eq!(rule.validate(&9), Err(PumpfunError::ValueTooSmall));
    assert_eq!(rule.validate(&10), Ok(()));
    assert_eq!(rule.validate(&20), Ok(()));
    assert_eq!(rule.validate(&21), Err(PumpfunError::ValueTooLarge));
    let open: AmountConfig<u64> = AmountConfig::Range { min: None, max: None };
    assert_eq!(open.validate(&0), Ok(()));
    assert_eq!(open.validate(&u64::MAX), Ok(()));
}

#[test]
fn list_rule_accepts_only_listed_values() {
    let rule: AmountConfig<u8> = AmountConfig::Enum(vec![6, 9]);
    assert_eq!(rule.validate(&6), Ok(()));
    assert_eq!(rule.validate(&9), Ok(()));
    assert_eq!(rule.validate(&8), Err(PumpfunError::ValueInvalid));
    let empty: AmountConfig<u64> = AmountConfig::Enum(vec![]);
    assert_eq!(empty.validate(&0), Err(PumpfunError::ValueInvalid));
    let small: AmountConfig<u8> = AmountConfig::Range { min: Some(6), max: None };
    assert_eq!(small.validate(&5), Err(PumpfunError::ValueTooSmall));
}

#[test]
fn configure_is_gated_to_authority_once_initialized() {
    let mut current = config();
    current.initialized = false;
    let mut next = config();
    next.authority = addr(7);
    next.initialized = false;
    assert_eq!(current.configure(addr(9), next), Ok(()));
    assert!(current.initialized);
    assert_eq!(current.authority, addr(7));
    let mut again = config();
    again.platform_buy_fee = 2;
    assert_eq!(current.configure(addr(1), again), Err(PumpfunError::IncorrectAuthority));
    assert_eq!(current.platform_buy_fee, 1);
    let mut bad = config();
    bad.platform_sell_fee = 101;
    assert_eq!(current.configure(addr(7), bad), Err(PumpfunError::ValueInvalid));
    let mut zero_limit = config();
    zero_limit.curve_limit = 0;
    assert_eq!(current.configure(addr(7), zero_limit), Err(PumpfunError::ValueInvalid));
    assert_eq!(current.curve_limit, 85_000_000_000);
}

#[test]
fn authority_handover_takes_two_steps() {
    let mut cfg = config();
    assert_eq!(cfg.nominate_authority(addr(5), addr(6)), Err(PumpfunError::IncorrectAuthority));
    assert_eq!(cfg.accept_authority(addr(6)), Err(PumpfunError::IncorrectAuthority));
    assert_eq!(cfg.nominate_authority(addr(1), addr(6)), Ok(()));
    assert_eq!(cfg.pending_authority, Some(addr(6)));
    assert_eq!(cfg.authority, addr(1));
    assert_eq!(cfg.accept_authority(addr(5)), Err(PumpfunError::IncorrectAuthority));
    assert_eq!(cfg.accept_authority(addr(6)), Ok(()));
    assert_eq!(cfg.authority, addr(6));
    assert_eq!(cfg.pending_authority, None);
    assert_eq!(cfg.accept_authority(addr(6)), Err(PumpfunError::IncorrectAuthority));
}

#[test]
fn whitelist_add_then_remove_allows_readding() {
    let cfg = config();
    let mut wl = WhitelistRegistry::new();
    assert!(!wl.contains(addr(8)));
    assert_eq!(wl.add_wl(&cfg, addr(3), addr(8)), Ok(()));
    assert!(wl.contains(addr(8)));
    assert_eq!(wl.add_wl(&cfg, addr(3), addr(8)), Err(PumpfunError::WhitelistEntryExists));
    assert_eq!(wl.remove_wl(&cfg, addr(3), addr(8)), Ok(()));
    assert!(!wl.contains(addr(8)));
    assert_eq!(wl.remove_wl(&cfg, addr(3), addr(8)), Err(PumpfunError::WhitelistEntryMissing));
    assert_eq!(wl.add_wl(&cfg, addr(3), addr(8)), Ok(()));
    assert!(wl.contains(addr(8)));
}

#[test]
fn whitelist_is_gated_to_global_authority() {
    let cfg = config();
    let mut wl = WhitelistRegistry::new();
    assert_eq!(wl.add_wl(&cfg, addr(1), addr(8)), Err(PumpfunError::InvalidGlobalAuthority));
    assert!(!wl.contains(addr(8)));
    wl.add_wl(&cfg, addr(3), addr(8)).unwrap();
    wl.add_wl(&cfg, addr(3), addr(9)).unwrap();
    assert_eq!(wl.remove_wl(&cfg, addr(1), addr(8)), Err(PumpfunError::InvalidGlobalAuthority));
    assert_eq!(wl.remove_wl(&cfg, addr(3), addr(8)), Ok(()));
    assert!(!wl.contains(addr(8)));
    assert!(wl.contains(addr(9)));
}

#[test]
fn launch_validates_parameters_in_order() {
    let cfg = config();
    let wl = WhitelistRegistry::new();
    let go = |decimals: u8, supply: u64, lamports: u64| {
        launch(&cfg, &wl, addr(8), addr(9), decimals, supply, lamports)
    };
    assert_eq!(go(5, 1, 1).unwrap_err(), PumpfunError::ValueTooSmall);
    assert_eq!(go(5, 1, 200_000_000_000).unwrap_err(), PumpfunError::ValueTooLarge);
    assert_eq!(go(5, 1, 30_000_000_000).unwrap_err(), PumpfunError::ValueTooSmall);
    assert_eq!(go(5, 1_000_000, 30_000_000_000).unwrap_err(), PumpfunError::ValueInvalid);
    let c = go(6, 1_000_000_000_001, 30_000_000_000).unwrap();
    assert_eq!(c.init_lamport, 30_000_000_000);
    assert_eq!(c.reserve_lamport, 30_000_000_000);
    assert_eq!(c.reserve_token, 800_000_000_000);
    assert_eq!(c.creator, addr(8));
    assert_eq!(c.token_mint, addr(9));
    assert!(!c.is_completed);
}

#[test]
fn launch_checks_whitelist_when_enabled() {
    let mut cfg = config();
    cfg.whitelist_enabled = true;
    let mut wl = WhitelistRegistry::new();
    assert_eq!(
        launch(&cfg, &wl, addr(8), addr(9), 9, 1_000_000, 30_000_000_000).unwrap_err(),
        PumpfunError::CreatorNotWhitelisted
    );
    wl.add_wl(&cfg, addr(3), addr(8)).unwrap();
    assert!(launch(&cfg, &wl, addr(8), addr(9), 9, 1_000_000, 30_000_000_000).is_ok());
}
