use amm_core::factory::{ContractError, FactoryData, POOL_INSTANTIATE_TX_ID};

fn fresh_factory() -> FactoryData {
    FactoryData::instantiate(String::from("vault"), 42)
}

#[test]
fn instantiate_leaves_the_pending_slot_empty() {
    let factory = fresh_factory();
    assert_eq!(factory.vault_contract, "vault");
    assert_eq!(factory.pool_contract_code_id, 42);
    assert_eq!(factory.token0, None);
    assert_eq!(factory.token1, None);
}

#[test]
fn create_pool_rejects_identical_addresses() {
    let mut factory = fresh_factory();
    let r = factory.execute_create_pool(String::from("usdc"), String::from("usdc"));
    assert_eq!(r, Err(ContractError::IdenticalAddresses));
    assert_eq!(factory.token0, None);
}

#[test]
fn create_pool_rejects_two_empty_addresses() {
    // Two empty addresses are equal, so the identical-address check fires
    // first; the dedicated error stays unreachable.
    let mut factory = fresh_factory();
    let r = factory.execute_create_pool(String::new(), String::new());
    assert_eq!(r, Err(ContractError::IdenticalAddresses));
}

#[test]
fn create_pool_fills_the_pending_slot() {
    let mut factory = fresh_factory();
    let request = factory
        .execute_create_pool(String::from("usdc"), String::from("usdt"))
        .unwrap();
    assert_eq!(request.code_id, 42);
    assert_eq!(request.reply_id, POOL_INSTANTIATE_TX_ID);
    assert_eq!(request.label, "pool_contract");
    assert_eq!(request.msg.name, "pool_lp");
    assert_eq!(request.msg.symbol, "POOL_LP");
    assert_eq!(request.msg.decimals, 18);
    assert_eq!(factory.token0, Some(String::from("usdc")));
    assert_eq!(factory.token1, Some(String::from("usdt")));
}

#[test]
fn create_pool_overwrites_the_pending_slot() {
    let mut factory = fresh_factory();
    factory.execute_create_pool(String::from("usdc"), String::from("usdt")).unwrap();
    factory.execute_create_pool(String::from("atom"), String::from("osmo")).unwrap();
    assert_eq!(factory.token0, Some(String::from("atom")));
    assert_eq!(factory.token1, Some(String::from("osmo")));
}

#[test]
fn reply_registers_the_pending_pair() {
    let mut factory = fresh_factory();
    factory.execute_create_pool(String::from("usdc"), String::from("usdt")).unwrap();
    let params = factory
        .reply(POOL_INSTANTIATE_TX_ID, Some(String::from("pool_addr")))
        .unwrap();
    assert_eq!(params.pool_address, "pool_addr");
    assert_eq!(params.token0, "usdc");
    assert_eq!(params.token1, "usdt");
    // The slot stays filled until the next creation overwrites it.
    assert_eq!(factory.token0, Some(String::from("usdc")));
}

#[test]
fn reply_rejects_unknown_ids_and_missing_data() {
    let mut factory = fresh_factory();
    factory.execute_create_pool(String::from("usdc"), String::from("usdt")).unwrap();
    assert_eq!(
        factory.reply(9, Some(String::from("pool_addr"))),
        Err(ContractError::ReplyIdError)
    );
    assert_eq!(factory.reply(POOL_INSTANTIATE_TX_ID, None), Err(ContractError::ReplyDataError));
}

#[test]
fn reply_without_a_pending_pair_finds_no_tokens() {
    let factory = fresh_factory();
    assert_eq!(
        factory.reply(POOL_INSTANTIATE_TX_ID, Some(String::from("pool_addr"))),
        Err(ContractError::TokenNotFound)
    );
}
