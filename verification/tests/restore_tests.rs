//! Rebuilding components from persisted entries, as a host adapter does
//! between two invocations.

use amm_core::pool::PoolUnit;
use amm_core::vault::{ContractError, Vault};
use amm_core::vault_msg::{PoolDataResponse, RegisterPoolParams};

fn row(token0: &str, token1: &str, reserve0: u128, reserve1: u128) -> PoolDataResponse {
    PoolDataResponse {
        registered: true,
        token0: String::from(token0),
        token1: String::from(token1),
        reserve0,
        reserve1,
    }
}

#[test]
fn vault_restore_keeps_the_later_binding() {
    let vault = Vault::restore(
        String::from("owner"),
        vec![(String::from("factory"), true)],
        vec![
            (String::from("pool"), row("usdc", "usdt", 1, 2)),
            (String::from("pool"), row("usdc", "usdt", 30, 40)),
        ],
    );
    let data = vault.query_pool_data(&String::from("pool")).unwrap();
    assert_eq!((data.reserve0, data.reserve1), (30, 40));
}

#[test]
fn a_restored_unauthorized_factory_stays_rejected() {
    let mut vault = Vault::restore(
        String::from("owner"),
        vec![(String::from("factory"), false)],
        vec![],
    );
    let r = vault.execute_register_pool(
        &String::from("factory"),
        RegisterPoolParams {
            pool_address: String::from("pool"),
            token0: String::from("usdc"),
            token1: String::from("usdt"),
        },
    );
    assert_eq!(r, Err(ContractError::UnauthorizedFactory));
}

#[test]
fn vault_round_trips_through_its_entries() {
    let owner = String::from("owner");
    let mut vault = Vault::instantiate(owner.clone());
    vault.execute_register_factory(&owner, String::from("factory")).unwrap();
    vault
        .execute_register_pool(
            &String::from("factory"),
            RegisterPoolParams {
                pool_address: String::from("pool"),
                token0: String::from("usdc"),
                token1: String::from("usdt"),
            },
        )
        .unwrap();
    let copy = Vault::restore(
        vault.owner().clone(),
        vault.factories_entries().clone(),
        vault.pools_entries().clone(),
    );
    assert_eq!(
        copy.query_pool_data(&String::from("pool")),
        vault.query_pool_data(&String::from("pool"))
    );
}

#[test]
fn pool_restore_accumulates_duplicate_holders() {
    let pool = PoolUnit::restore(
        String::from("pool_lp"),
        String::from("POOL_LP"),
        18,
        vec![
            (String::from("a"), 5),
            (String::from("b"), 100),
            (String::from("a"), 7),
        ],
    )
    .unwrap();
    assert_eq!(pool.total_supply(), 112);
    assert_eq!(pool.balance_of(&String::from("a")), Some(12));
    assert_eq!(pool.balance_of(&String::from("b")), Some(100));
}

#[test]
fn pool_restore_rejects_an_overflowing_supply() {
    let r = PoolUnit::restore(
        String::from("pool_lp"),
        String::from("POOL_LP"),
        18,
        vec![(String::from("a"), u128::MAX), (String::from("b"), 1)],
    );
    assert!(r.is_none());
}

#[test]
fn pool_round_trips_through_its_entries() {
    let pool = PoolUnit::restore(
        String::from("pool_lp"),
        String::from("POOL_LP"),
        18,
        vec![(String::from("a"), 5), (String::from("b"), 100)],
    )
    .unwrap();
    let copy = PoolUnit::restore(
        pool.name.clone(),
        pool.symbol.clone(),
        pool.decimals,
        pool.balances_entries().clone(),
    )
    .unwrap();
    assert_eq!(copy.total_supply(), pool.total_supply());
    assert_eq!(copy.balance_of(&String::from("a")), Some(5));
}
