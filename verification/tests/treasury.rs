use evm_loader::commands::collect_treasury::{
    collect_decision, plan_sweep, pool_count, treasury_report, PoolBalance, Sweep, SweepAction,
    SweepStep,
};
use evm_loader::neon_elf::CachedElfParams;
use evm_loader::types::Pubkey;

const RENT: u64 = 890_880;

fn after(pool: &[Option<PoolBalance>], actions: &[SweepAction]) -> Vec<Option<PoolBalance>> {
    let mut pool = pool.to_vec();
    for action in actions {
        if let SweepAction::Collect { index, lamports } = action {
            let balance = pool[*index as usize].as_mut().unwrap();
            balance.lamports -= lamports;
        }
    }
    pool
}

#[test]
fn sweep_collects_what_lies_above_the_minimum() {
    let pool = vec![
        Some(PoolBalance { lamports: RENT + 1_000_000, rent_exempt_minimum: RENT }),
        Some(PoolBalance { lamports: RENT, rent_exempt_minimum: RENT }),
        None,
    ];
    let actions = plan_sweep(&pool);
    assert_eq!(
        actions,
        vec![
            SweepAction::Collect { index: 0, lamports: 1_000_000 },
            SweepAction::Skip { index: 1 },
            SweepAction::NotFound { index: 2 },
        ]
    );
}

#[test]
fn second_sweep_moves_nothing() {
    let pool = vec![
        Some(PoolBalance { lamports: RENT + 1_000_000, rent_exempt_minimum: RENT }),
        Some(PoolBalance { lamports: RENT, rent_exempt_minimum: RENT }),
        None,
        Some(PoolBalance { lamports: 5, rent_exempt_minimum: RENT }),
        Some(PoolBalance { lamports: u64::MAX, rent_exempt_minimum: 0 }),
    ];
    let first = plan_sweep(&pool);
    assert_eq!(first.iter().filter(|a| matches!(a, SweepAction::Collect { .. })).count(), 2);
    let pool = after(&pool, &first);
    let second = plan_sweep(&pool);
    assert_eq!(second.iter().filter(|a| matches!(a, SweepAction::Collect { .. })).count(), 0);
    assert_eq!(after(&pool, &second), pool);
}

#[test]
fn balance_below_the_minimum_is_left_alone() {
    assert_eq!(
        collect_decision(4, Some(PoolBalance { lamports: 10, rent_exempt_minimum: 11 })),
        SweepAction::Skip { index: 4 }
    );
    assert_eq!(
        collect_decision(4, Some(PoolBalance { lamports: 0, rent_exempt_minimum: 0 })),
        SweepAction::Skip { index: 4 }
    );
    assert_eq!(
        collect_decision(4, Some(PoolBalance { lamports: 12, rent_exempt_minimum: 11 })),
        SweepAction::Collect { index: 4, lamports: 1 }
    );
    assert_eq!(collect_decision(9, None), SweepAction::NotFound { index: 9 });
}

#[test]
fn sweep_reads_in_order_then_syncs_then_reports() {
    let mut sweep = Sweep::new(3);
    assert_eq!(sweep.next_step(), SweepStep::Read(0));
    assert_eq!(
        sweep.observe(Some(PoolBalance { lamports: RENT + 1_000_000, rent_exempt_minimum: RENT })),
        SweepAction::Collect { index: 0, lamports: 1_000_000 }
    );
    assert_eq!(sweep.next_step(), SweepStep::Read(1));
    assert_eq!(
        sweep.observe(Some(PoolBalance { lamports: RENT, rent_exempt_minimum: RENT })),
        SweepAction::Skip { index: 1 }
    );
    assert_eq!(sweep.next_step(), SweepStep::Read(2));
    assert_eq!(sweep.observe(None), SweepAction::NotFound { index: 2 });
    assert_eq!(sweep.next_step(), SweepStep::Sync);
    assert_eq!(sweep.transfers_made(), 1);
    sweep.synced();
    assert_eq!(sweep.next_step(), SweepStep::Report);
}

#[test]
fn empty_pool_goes_straight_to_sync() {
    let mut sweep = Sweep::new(0);
    assert_eq!(sweep.next_step(), SweepStep::Sync);
    sweep.synced();
    assert_eq!(sweep.next_step(), SweepStep::Report);
    assert_eq!(sweep.transfers_made(), 0);
    assert_eq!(plan_sweep(&[]), vec![]);
}

#[test]
fn pool_count_is_read_from_the_parameters() {
    let mut params = CachedElfParams::empty();
    assert_eq!(pool_count(&params), None);
    params.insert("NEON_POOL_COUNT".to_string(), "128".to_string());
    assert_eq!(pool_count(&params), Some(128));
    params.insert("NEON_POOL_COUNT".to_string(), "+7".to_string());
    assert_eq!(pool_count(&params), Some(7));
    for bad in ["", "+", "-1", " 1", "1 ", "12a", "4294967296", "0x10"] {
        params.insert("NEON_POOL_COUNT".to_string(), bad.to_string());
        assert_eq!(pool_count(&params), None);
    }
    params.insert("NEON_POOL_COUNT".to_string(), "4294967295".to_string());
    assert_eq!(pool_count(&params), Some(u32::MAX));
    params.insert("NEON_POOL_COUNT".to_string(), "007".to_string());
    assert_eq!(pool_count(&params), Some(7));
}

#[test]
fn report_names_the_main_treasury() {
    let report = treasury_report(Pubkey([3u8; 32]), 42);
    assert_eq!(report.pool_address, Pubkey([3u8; 32]));
    assert_eq!(report.balance, 42);
}
