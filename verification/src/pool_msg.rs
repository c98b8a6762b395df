//! Messages understood by the pool unit.
//!
//! As with the vault, the host hands the pool already-decoded requests and
//! receives plain values back; the types here mirror that interface.

use vstd::prelude::*;

pub use crate::vault_msg::PoolDataResponse;

verus! {

/// Names the claim token a new pool unit manages.
#[derive(Debug, Clone, PartialEq, Eq)]
pub struct PoolInstantiateMsg {
    /// Name of the claim token.
    pub name: String,
    /// Symbol / ticker of the claim token.
    pub symbol: String,
    /// Decimal places of the claim token (display only).
    pub decimals: u8,
}

/// Names the claim token a new pool unit manages.
#[derive(Debug, Clone, PartialEq, Eq)]
pub struct InstantiateMsg {
    /// Name of the claim token.
    pub name: String,
    /// Symbol / ticker of the claim token.
    pub symbol: String,
    /// Decimal places of the claim token (display only).
    pub decimals: u8,
}

/// A request delivered to the pool unit's execution entry point.
#[derive(Debug, Clone, PartialEq, Eq)]
pub enum PoolExecuteMsg {
    /// The vault asks for liquidity to be minted against a deposit.
    Mint(MintRecieveParams),
    /// Claim tokens arrived back at the pool with burn instructions attached.
    Receive(Cw20ReceiveMsg),
    /// A holder sends claim tokens to a contract, instructions attached.
    Send { contract: String, amount: u128, msg: RemoveLiquidityPoolParams },
}

/// Claim tokens transferred to the pool, with the decoded withdrawal
/// instructions that rode along with them.
#[derive(Debug, Clone, PartialEq, Eq)]
pub struct Cw20ReceiveMsg {
    pub sender: String,
    pub amount: u128,
    pub msg: RemoveLiquidityPoolParams,
}

/// The instructions attached to a claim-token return: where the vault
/// lives, the least acceptable withdrawal amounts, and who is paid out.
#[derive(Debug, Clone, PartialEq, Eq)]
pub struct RemoveLiquidityPoolParams {
    pub vault_contract_addresss: String,
    pub amount_a_min: u128,
    pub amount_b_min: u128,
    pub address_to: String,
}

/// A read-only request to the pool unit.
#[derive(Debug, Clone, PartialEq, Eq)]
pub enum PoolQueryMsg {
    /// The claim token's metadata and total supply.
    TokenInfo {},
    /// One holder's claim-token balance.
    Balance { address: String },
    /// The allowance one holder granted a spender.
    Allowance { owner: String, spender: String },
    /// The swap output for a given input and reserve pair.
    GetAmountOut(AmountOutParams),
    /// The swap input needed for a given output and reserve pair.
    GetAmountIn(AmountInParams),
    /// The amounts a withdrawal of the pool's held shares would pay out.
    GetAmountTransferToken { vault_address: String },
}

/// The query a pool unit sends the vault for its own reserve snapshot.
#[derive(Debug, Clone, PartialEq, Eq)]
pub enum VaultMsgEnums {
    QueryPoolData { pool_address: String },
}

/// A deposit the vault asks the pool to mint liquidity for.
#[derive(Debug, Clone, PartialEq, Eq)]
pub struct MintRecieveParams {
    pub to: String,
    pub amount0: u128,
    pub amount1: u128,
}

/// Inputs of a swap-output query.
#[derive(Debug, Clone, PartialEq, Eq)]
pub struct AmountOutParams {
    pub amount_in: u128,
    pub reserve_in: u128,
    pub reserve_out: u128,
}

/// Inputs of a swap-input query.
#[derive(Debug, Clone, PartialEq, Eq)]
pub struct AmountInParams {
    pub amount_out: u128,
    pub reserve_in: u128,
    pub reserve_out: u128,
}

/// The per-asset amounts a withdrawal pays out.
#[derive(Debug, Clone, PartialEq, Eq)]
pub struct GetAmountTokenTransfer {
    pub amount_a: u128,
    pub amount_b: u128,
}

} // verus!
