use pumpfun::{
    Address, AmountConfig, Config, LaunchPhase, PumpfunError, TokenLaunch, POOL_CREATION_RESERVE,
};

fn addr(b: u8) -> Address {
    Address::new([b; 32])
}

fn config() -> Config {
    Config {
        authority: addr(1),
        pending_authority: None,
        team_wallet: addr(2),
        init_bonding_curve: 80,
        platform_buy_fee: 1,
        platform_sell_fee: 2,
        platform_migration_fee: 5,
        curve_limit: 85_000_000_000,
        lamport_amount_config: AmountConfig::Range { min: None, max: None },
        token_supply_config: AmountConfig::Range { min: None, max: None },
        token_decimals_config: AmountConfig::Enum(vec![9]),
        initialized: true,
        global_authority: addr(3),
        whitelist_enabled: false,
    }
}

fn launch_state(phase: LaunchPhase) -> TokenLaunch {
    TokenLaunch {
        token: addr(9),
        creator: addr(8),
        init_lamport: 30_000_000_000,
        reserve_lamport: 30_000_000_000,
        reserve_token: 1_000_000_000_000,
        start_timestamp: 1_700_000_000,
        presale_time: 3_600,
        launch_phase: phase,
    }
}

#[test]
fn phase_assertion_matches_exactly() {
    assert_eq!(LaunchPhase::Presale.assert_eq(&LaunchPhase::Presale), Ok(()));
    assert_eq!(
        LaunchPhase::OpenSale.assert_eq(&LaunchPhase::Completed),
        Err(PumpfunError::IncorrectLaunchPhase)
    );
    assert_eq!(
        LaunchPhase::ProcessingPresale.assert_eq(&LaunchPhase::Presale),
        Err(PumpfunError::IncorrectLaunchPhase)
    );
}

#[test]
fn launch_buy_uses_shared_pricing() {
    let cfg = config();
    let mut l = launch_state(LaunchPhase::Presale);
    let o = l.swap(&cfg, 1_000_000_000, 0).unwrap();
    assert_eq!(o.adjusted_amount, 990_000_000);
    assert_eq!(o.amount_out, 31_945_788_964);
    assert_eq!(l.reserve_lamport, 31_000_000_000);
    assert_eq!(l.reserve_token, 968_054_211_036);
    assert_eq!(l.launch_phase, LaunchPhase::Presale);
    assert!(!o.completed);
}

#[test]
fn launch_sell_uses_sell_fee() {
    let cfg = config();
    let mut l = launch_state(LaunchPhase::OpenSale);
    let o = l.swap(&cfg, 1_000_000_000, 1).unwrap();
    assert_eq!(o.adjusted_amount, 980_000_000);
    assert_eq!(o.fee_amount, 20_000_000);
    assert_eq!(o.amount_out, 29_371_216);
    assert_eq!(l.reserve_token, 1_001_000_000_000);
}

#[test]
fn launch_zero_swap_and_snipe_fail() {
    let cfg = config();
    let mut l = launch_state(LaunchPhase::Presale);
    assert_eq!(l.swap(&cfg, 0, 0), Err(PumpfunError::InvalidAmount));
    assert_eq!(l.swap(&cfg, 0, 1), Err(PumpfunError::InvalidAmount));
    assert_eq!(l.snipe(&cfg, 0), Err(PumpfunError::InvalidAmount));
}

#[test]
fn launch_buy_is_not_capped_and_completes() {
    let cfg = config();
    let mut l = launch_state(LaunchPhase::OpenSale);
    let o = l.swap(&cfg, 60_000_000_000, 0).unwrap();
    assert_eq!(o.amount_in, 60_000_000_000);
    assert_eq!(l.reserve_lamport, 90_000_000_000);
    assert_eq!(l.launch_phase, LaunchPhase::Completed);
    assert!(o.completed);
    let again = l.swap(&cfg, 1_000, 0).unwrap();
    assert!(!again.completed);
}

#[test]
fn launch_buy_overflowing_reserve_fails() {
    let cfg = config();
    let mut l = launch_state(LaunchPhase::OpenSale);
    l.reserve_lamport = u64::MAX - 10;
    assert_eq!(l.swap(&cfg, 1_000, 0), Err(PumpfunError::OverflowOrUnderflowOccurred));
    assert_eq!(l.reserve_lamport, u64::MAX - 10);
}

#[test]
fn snipe_matches_buy() {
    let cfg = config();
    let mut a = launch_state(LaunchPhase::Presale);
    let mut b = launch_state(LaunchPhase::Presale);
    assert_eq!(a.snipe(&cfg, 2_500_000_000), b.swap(&cfg, 2_500_000_000, 0));
    assert_eq!(a.reserve_token, b.reserve_token);
    assert_eq!(a.reserve_lamport, b.reserve_lamport);
}

#[test]
fn migrate_requires_completion_and_authority() {
    let cfg = config();
    let mut l = launch_state(LaunchPhase::OpenSale);
    assert_eq!(
        l.migrate(&cfg, addr(1), POOL_CREATION_RESERVE),
        Err(PumpfunError::CurveNotCompleted)
    );
    l.launch_phase = LaunchPhase::Completed;
    assert_eq!(
        l.migrate(&cfg, addr(4), POOL_CREATION_RESERVE),
        Err(PumpfunError::IncorrectAuthority)
    );
    assert_eq!(l.reserve_lamport, 30_000_000_000);
}

#[test]
fn migrate_partitions_reserves_and_empties_launch() {
    let cfg = config();
    let mut l = launch_state(LaunchPhase::Completed);
    l.reserve_lamport = 115_000_000_000;
    l.reserve_token = 200_000_000_000_000;
    let s = l.migrate(&cfg, addr(1), POOL_CREATION_RESERVE).unwrap();
    assert_eq!(s.operational_reserve, 330_000_000);
    assert_eq!(s.fee_amount, 4_250_000_000);
    assert_eq!(s.pool_currency_amount, 50_420_000_000);
    assert_eq!(s.pool_token_amount, 87_686_956_521_739);
    assert_eq!(s.fee_token_amount, 112_313_043_478_261);
    assert_eq!(
        s.fee_amount + s.operational_reserve + s.pool_currency_amount + 30_000_000_000,
        85_000_000_000
    );
    assert_eq!(s.pool_token_amount + s.fee_token_amount, 200_000_000_000_000);
    assert_eq!(l.reserve_lamport, 0);
    assert_eq!(l.reserve_token, 0);
    assert_eq!(l.launch_phase, LaunchPhase::Completed);
}

#[test]
fn migrate_fails_when_currency_does_not_cover_seed() {
    let cfg = config();
    let mut l = launch_state(LaunchPhase::Completed);
    l.reserve_lamport = 50_000_000_000;
    assert_eq!(
        l.migrate(&cfg, addr(1), POOL_CREATION_RESERVE),
        Err(PumpfunError::OverflowOrUnderflowOccurred)
    );
    assert_eq!(l.reserve_lamport, 50_000_000_000);
    assert_eq!(l.launch_phase, LaunchPhase::Completed);
}

#[test]
fn snipe_rounds_payout_to_nearest() {
    let cfg = Config { platform_buy_fee: 0, ..config() };
    let mut l = TokenLaunch { reserve_lamport: 2, reserve_token: 5, ..launch_state(LaunchPhase::Presale) };
    let o = l.snipe(&cfg, 1).unwrap();
    assert_eq!(o.amount_out, 2);
    assert_eq!(l.reserve_token, 3);
    assert_eq!(l.reserve_lamport, 3);
}
