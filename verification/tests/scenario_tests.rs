//! The whole system played end to end, with the tests standing in for the
//! host: they dispatch the calls each component asks for and deliver the
//! continuations.

use amm_core::factory::{FactoryData, POOL_INSTANTIATE_TX_ID};
use amm_core::pool::{PoolUnit, MINIMUM_LIQUIDITY};
use amm_core::pool_msg::{Cw20ReceiveMsg as PoolReceiveMsg, InstantiateMsg, MintRecieveParams, RemoveLiquidityPoolParams};
use amm_core::vault::{Vault, EXECUTE_REPLY_ID};
use amm_core::vault_msg::{
    AddLiquidityParams, ContractCall, Cw20ReceiveMsg, SwapTokensParams,
};

#[test]
fn factory_vault_pool_lifecycle() {
    let vault_owner = String::from("vault_owner");
    let vault_addr = String::from("vault_contract");
    let factory_addr = String::from("factory_contract");
    let provider = String::from("liquidity_provider");
    let usdc = String::from("usdc20");
    let usdt = String::from("usdt20");

    // The vault comes up owned by its instantiator, who authorizes the
    // factory; the factory is bound to the vault and a pool code template.
    let mut vault = Vault::instantiate(vault_owner.clone());
    vault.execute_register_factory(&vault_owner, factory_addr.clone()).unwrap();
    let mut factory = FactoryData::instantiate(vault_addr.clone(), 9);

    // Create a pool for (usdc, usdt): the factory asks for an instantiation
    // and, once its address comes back, registers the pool with the vault.
    let request = factory.execute_create_pool(usdc.clone(), usdt.clone()).unwrap();
    assert_eq!(request.code_id, 9);
    let mut pool = PoolUnit::instantiate(InstantiateMsg {
        name: request.msg.name.clone(),
        symbol: request.msg.symbol.clone(),
        decimals: request.msg.decimals,
    });
    let pool_addr = String::from("pool_contract_address");
    let register = factory.reply(POOL_INSTANTIATE_TX_ID, Some(pool_addr.clone())).unwrap();
    vault.execute_register_pool(&factory_addr, register).unwrap();
    let row = vault.query_pool_data(&pool_addr).unwrap();
    assert_eq!((row.reserve0, row.reserve1), (0, 0));

    // Add liquidity (10_000, 9_000) with minimums (9_999, 8_999): on the
    // first deposit the bootstrap branch uses both desired amounts whole.
    let plan = vault
        .execute_add_liquidity(
            &provider,
            &vault_addr,
            &AddLiquidityParams {
                pool_address: pool_addr.clone(),
                token_a: usdc.clone(),
                token_b: usdt.clone(),
                amount_a_desired: 10_000,
                amount_b_desired: 9_000,
                amount_a_min: 9_999,
                amount_b_min: 8_999,
                address_to: provider.clone(),
                deadline: 1,
            },
        )
        .unwrap();
    let mint = match &plan.submessage.contract_msg {
        ContractCall::PoolMint(mint) => mint.clone(),
        other => panic!("expected a mint call, got {other:?}"),
    };
    assert_eq!((mint.amount0, mint.amount1), (10_000, 9_000));

    // The host delivers the mint to the pool, which reports the reserves
    // back to the vault under the plan's continuation id.
    let snapshot = vault.query_pool_data(&pool_addr).unwrap();
    let reply = pool
        .execute_pool_mint(
            &pool_addr,
            &snapshot,
            &MintRecieveParams { to: mint.to.clone(), amount0: mint.amount0, amount1: mint.amount1 },
        )
        .unwrap();
    // isqrt(10_000 * 9_000) - 1_000 = 9_486 - 1_000 liquidity for the user.
    assert_eq!(pool.balance_of(&provider), Some(8_486));
    assert_eq!(pool.balance_of(&pool_addr), Some(MINIMUM_LIQUIDITY));
    vault.reply(plan.reply_id, Some(reply)).unwrap();
    let row = vault.query_pool_data(&pool_addr).unwrap();
    assert_eq!((row.reserve0, row.reserve1), (10_000, 9_000));
    assert_eq!(plan.reply_id, EXECUTE_REPLY_ID);

    // Swap: the provider pays 100 usdt into the vault with instructions.
    // Against (reserve_in, reserve_out) = (9_000, 10_000) that buys 109.
    let transfer = vault
        .execute_swap_tokens(&Cw20ReceiveMsg {
            sender: provider.clone(),
            amount: 100,
            msg: SwapTokensParams {
                message: String::from("execute_swap_tokens"),
                pool_address: pool_addr.clone(),
                amount_out_min: 5,
                token_in: usdt.clone(),
                token_out: usdc.clone(),
                address_to: provider.clone(),
            },
        })
        .unwrap();
    assert_eq!(transfer.contract_address, usdc);
    assert_eq!(
        transfer.contract_msg,
        ContractCall::TokenTransfer { recipient: provider.clone(), amount: 109 }
    );
    let row = vault.query_pool_data(&pool_addr).unwrap();
    assert_eq!((row.reserve0, row.reserve1), (9_891, 9_100));

    // Remove liquidity: the provider sends 100 shares to the pool with
    // burn instructions; the pool must hold exactly what the envelope says,
    // so the locked floor is included in the signaled amount.
    let instructions = RemoveLiquidityPoolParams {
        vault_contract_addresss: vault_addr.clone(),
        amount_a_min: 50,
        amount_b_min: 50,
        address_to: provider.clone(),
    };
    let recv = pool.execute_send(&provider, &pool_addr, 100, instructions).unwrap();
    let snapshot = vault.query_pool_data(&pool_addr).unwrap();
    let held = 100 + MINIMUM_LIQUIDITY;
    let withdrawal = pool
        .execute_burn_lp_tokens(
            &pool_addr,
            &snapshot,
            &PoolReceiveMsg { sender: recv.sender.clone(), amount: held, msg: recv.msg.clone() },
        )
        .unwrap();
    // 1_100 shares of a 9_486 supply: 1_100 * 9_891 / 9_486 = 1_146 usdc
    // and 1_100 * 9_100 / 9_486 = 1_055 usdt.
    assert_eq!((withdrawal.amount_a, withdrawal.amount_b), (1_146, 1_055));
    assert_eq!((withdrawal.reserve_a, withdrawal.reserve_b), (8_745, 8_045));
    assert_eq!(pool.total_supply(), 9_486 - held);

    // The pool reports the withdrawal to the vault, which commits the
    // reserves and pays both sides out of custody.
    let payouts = vault.execute_remove_liquidity(&pool_addr, &withdrawal).unwrap();
    assert_eq!(payouts.len(), 2);
    assert_eq!(payouts[0].contract_address, usdc);
    assert_eq!(
        payouts[0].contract_msg,
        ContractCall::TokenTransfer { recipient: provider.clone(), amount: 1_146 }
    );
    assert_eq!(payouts[1].contract_address, usdt);
    assert_eq!(
        payouts[1].contract_msg,
        ContractCall::TokenTransfer { recipient: provider.clone(), amount: 1_055 }
    );
    let row = vault.query_pool_data(&pool_addr).unwrap();
    assert_eq!((row.reserve0, row.reserve1), (8_745, 8_045));
}
