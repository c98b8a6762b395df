//! Messages understood and emitted by the vault.
//!
//! The host delivers requests to the vault already decoded into these types,
//! and the vault answers with [`ContractMsg`] values describing the calls it
//! wants dispatched to other components.

use vstd::prelude::*;

verus! {

/// Asks the vault to come into existence; the sender becomes its owner.
#[derive(Debug, Clone, PartialEq, Eq)]
pub struct InstantiateMsg {}

/// A request delivered to the vault's execution entry point.
#[derive(Debug, Clone, PartialEq, Eq)]
pub enum VaultExecuteMsg {
    /// Lets the owner authorize a factory to register pools.
    RegisterFactory { factory_address: String },
    /// Lets an authorized factory enter a new pool into the reserve table.
    RegisterPool(RegisterPoolParams),
    /// Starts an add-liquidity workflow for a registered pool.
    AddLiquidity(AddLiquidityParams),
    /// Step of a remove-liquidity workflow: the pool reports the amounts
    /// withdrawn and the reserves left behind.
    RemoveLiquidity(RemoveLiquidityParams),
    /// A payment arrived with swap instructions attached.
    Receive(Cw20ReceiveMsg),
}

/// Identifies the new pool and its token pair at registration time.
#[derive(Debug, Clone, PartialEq, Eq)]
pub struct RegisterPoolParams {
    pub pool_address: String,
    pub token0: String,
    pub token1: String,
}

/// Everything an add-liquidity request carries. The `deadline` is accepted
/// but not enforced anywhere in the workflows.
#[derive(Debug, Clone, PartialEq, Eq)]
pub struct AddLiquidityParams {
    pub pool_address: String,
    pub token_a: String,
    pub token_b: String,
    pub amount_a_desired: u128,
    pub amount_b_desired: u128,
    pub amount_a_min: u128,
    pub amount_b_min: u128,
    pub address_to: String,
    pub deadline: u128,
}

/// What the pool tells the vault after burning shares: the remaining
/// reserves and the amounts owed to the withdrawing holder.
#[derive(Debug, Clone, PartialEq, Eq)]
pub struct RemoveLiquidityParams {
    pub token_a: String,
    pub token_b: String,
    pub reserve_a: u128,
    pub reserve_b: u128,
    pub amount_a: u128,
    pub amount_b: u128,
    pub address_to: String,
}

/// A token payment forwarded to the vault, with the decoded swap
/// instructions that rode along with it. The transferred amount is the swap
/// input.
#[derive(Debug, Clone, PartialEq, Eq)]
pub struct Cw20ReceiveMsg {
    pub sender: String,
    pub amount: u128,
    pub msg: SwapTokensParams,
}

/// The instructions attached to a swap payment.
#[derive(Debug, Clone, PartialEq, Eq)]
pub struct SwapTokensParams {
    pub message: String,
    pub pool_address: String,
    pub amount_out_min: u128,
    pub token_in: String,
    pub token_out: String,
    pub address_to: String,
}

/// Overwrites a pool's recorded reserves with the given amounts.
#[derive(Debug, Clone, PartialEq, Eq)]
pub struct UpdateLiquidiyParams {
    pub pool_address: String,
    pub amount_a: u128,
    pub amount_b: u128,
}

/// A call the vault wants another component to perform.
#[derive(Debug, Clone, PartialEq, Eq)]
pub enum ContractCall {
    /// Pull tokens from `owner` into `recipient`'s custody, against an
    /// allowance granted earlier.
    TokenTransferFrom { owner: String, recipient: String, amount: u128 },
    /// Pay tokens out of the caller's custody to `recipient`.
    TokenTransfer { recipient: String, amount: u128 },
    /// Ask a pool unit to mint liquidity for a deposit.
    PoolMint(crate::pool_msg::MintRecieveParams),
}

/// A [`ContractCall`] addressed to the component that must perform it.
#[derive(Debug, Clone, PartialEq, Eq)]
pub struct ContractMsg {
    pub contract_address: String,
    pub contract_msg: ContractCall,
}

/// The continuation payload a pool attaches to a completed mint: the
/// reserves the vault should now record for it.
#[derive(Debug, Clone, PartialEq, Eq)]
pub struct ExecutePoolReplyData {
    pub pool_contract_address: String,
    pub reserve_a: u128,
    pub reserve_b: u128,
}

/// A read-only request to the vault.
#[derive(Debug, Clone, PartialEq, Eq)]
pub enum VaultQueryMsg {
    QueryPoolData { pool_address: String },
}

/// One pool's row in the vault's reserve table.
#[derive(Debug, Clone, PartialEq, Eq)]
pub struct PoolDataResponse {
    pub registered: bool,
    pub token0: String,
    pub token1: String,
    pub reserve0: u128,
    pub reserve1: u128,
}

} // verus!
