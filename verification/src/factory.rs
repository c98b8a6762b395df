//! The factory/registry: creates pool units on demand and, once an
//! instantiation completes, hands the vault the registration for the new
//! pool.
//!
//! The factory keeps a single pending-creation slot: the token pair of the
//! most recent create-pool request, overwritten by the next one. The
//! instantiation itself and the registration call are dispatched by the
//! host; the factory only decides what they carry.

use vstd::prelude::*;

verus! {

use crate::pool_msg::PoolInstantiateMsg;
use crate::vault_msg::RegisterPoolParams;

/// The continuation id under which the factory expects a pool
/// instantiation to report back.
pub const POOL_INSTANTIATE_TX_ID: u64 = 1;

/// Errors reported by the factory.
#[derive(Debug, Clone, Copy, PartialEq, Eq, Structural)]
pub enum ContractError {
    /// Both tokens of the requested pair are the same address.
    IdenticalAddresses,
    /// Both tokens of the requested pair are empty addresses.
    EmptyAddresses,
    /// A continuation arrived under an id the factory never issued.
    ReplyIdError,
    /// A continuation arrived without the new pool's address.
    ReplyDataError,
    /// The pending-creation slot holds no token pair.
    TokenNotFound,
}

/// The factory's persistent state: which vault to register pools with,
/// which code template to instantiate them from, and the pending token
/// pair of the creation in flight.
#[derive(Debug, Clone, PartialEq, Eq)]
pub struct FactoryData {
    pub vault_contract: String,
    pub pool_contract_code_id: u64,
    pub token0: Option<String>,
    pub token1: Option<String>,
}

/// The instantiation request a create-pool call dispatches, with the
/// continuation id its completion must report under.
#[derive(Debug, Clone, PartialEq, Eq)]
pub struct CreatePoolRequest {
    pub code_id: u64,
    pub msg: PoolInstantiateMsg,
    pub label: String,
    pub reply_id: u64,
}

impl FactoryData {
    /// A fresh factory bound to a vault and a pool code template, with an
    /// empty pending slot.
    pub fn instantiate(vault_contract: String, pool_contract_code_id: u64) -> (r: FactoryData)
        ensures
            r.vault_contract == vault_contract,
            r.pool_contract_code_id == pool_contract_code_id,
            r.token0 is None,
            r.token1 is None,
    {
        FactoryData { vault_contract, pool_contract_code_id, token0: None, token1: None }
    }

    /// Accepts a create-pool request: remembers the token pair in the
    /// pending slot and lines up the instantiation of a new pool unit with
    /// fixed claim-token constants.
    ///
    /// A pair of identical addresses is rejected, as is a pair of two empty
    /// addresses, both leaving the factory unchanged.
    pub fn execute_create_pool(&mut self, token_a: String, token_b: String) -> (r: Result<
        CreatePoolRequest,
        ContractError,
    >)
        ensures
            final(self).vault_contract == old(self).vault_contract,
            final(self).pool_contract_code_id == old(self).pool_contract_code_id,
            token_a@ == token_b@ ==> r == Err::<CreatePoolRequest, _>(
                ContractError::IdenticalAddresses,
            ) && *final(self) == *old(self),
            token_a@ != token_b@ && token_a@.len() == 0 && token_b@.len() == 0 ==> r == Err::<
                CreatePoolRequest,
                _,
            >(ContractError::EmptyAddresses) && *final(self) == *old(self),
            token_a@ != token_b@ && (token_a@.len() > 0 || token_b@.len() > 0) ==> {
                &&& final(self).token0 == Some(token_a)
                &&& final(self).token1 == Some(token_b)
                &&& r matches Ok(req) && {
                    &&& req.code_id == old(self).pool_contract_code_id
                    &&& req.msg.name@ == "pool_lp"@
                    &&& req.msg.symbol@ == "POOL_LP"@
                    &&& req.msg.decimals == 18
                    &&& req.label@ == "pool_contract"@
                    &&& req.reply_id == POOL_INSTANTIATE_TX_ID
                }
            },
    {
        if token_a == token_b {
            return Err(ContractError::IdenticalAddresses);
        }
        if token_a.as_str().is_empty() && token_b.as_str().is_empty() {
            return Err(ContractError::EmptyAddresses);
        }
        let request = CreatePoolRequest {
            code_id: self.pool_contract_code_id,
            msg: PoolInstantiateMsg {
                name: String::from_str("pool_lp"),
                symbol: String::from_str("POOL_LP"),
                decimals: 18,
            },
            label: String::from_str("pool_contract"),
            reply_id: POOL_INSTANTIATE_TX_ID,
        };
        self.token0 = Some(token_a);
        self.token1 = Some(token_b);
        Ok(request)
    }

    /// Turns a completed pool instantiation into the registration the vault
    /// should receive, pairing the new pool's address with the pending
    /// token pair. The pending slot is left as it is, to be overwritten by
    /// the next creation.
    pub fn handle_pool_instantiate(&self, contract_address: Option<String>) -> (r: Result<
        RegisterPoolParams,
        ContractError,
    >)
        ensures
            contract_address is None ==> r == Err::<RegisterPoolParams, _>(
                ContractError::ReplyDataError,
            ),
            (contract_address matches Some(addr) ==> (match (self.token0, self.token1) {
                (Some(t0), Some(t1)) => r == Ok::<_, ContractError>(
                    (RegisterPoolParams { pool_address: addr, token0: t0, token1: t1 }),
                ),
                _ => r == Err::<RegisterPoolParams, _>(ContractError::TokenNotFound),
            })),
    {
        let pool_address = match contract_address {
            Some(addr) => addr,
            None => {
                return Err(ContractError::ReplyDataError);
            },
        };
        let token0 = match &self.token0 {
            Some(t0) => t0.clone(),
            None => {
                return Err(ContractError::TokenNotFound);
            },
        };
        let token1 = match &self.token1 {
            Some(t1) => t1.clone(),
            None => {
                return Err(ContractError::TokenNotFound);
            },
        };
        Ok(RegisterPoolParams { pool_address, token0, token1 })
    }

    /// Routes a continuation back into the creation it belongs to: only
    /// [`POOL_INSTANTIATE_TX_ID`] is ever issued.
    pub fn reply(&self, reply_id: u64, contract_address: Option<String>) -> (r: Result<
        RegisterPoolParams,
        ContractError,
    >)
        ensures
            reply_id != POOL_INSTANTIATE_TX_ID ==> r == Err::<RegisterPoolParams, _>(
                ContractError::ReplyIdError,
            ),
            reply_id == POOL_INSTANTIATE_TX_ID && contract_address is None ==> r == Err::<
                RegisterPoolParams,
                _,
            >(ContractError::ReplyDataError),
            reply_id == POOL_INSTANTIATE_TX_ID ==> (contract_address matches Some(addr) ==> (
            match (self.token0, self.token1) {
                (Some(t0), Some(t1)) => r == Ok::<_, ContractError>(
                    (RegisterPoolParams { pool_address: addr, token0: t0, token1: t1 }),
                ),
                _ => r == Err::<RegisterPoolParams, _>(ContractError::TokenNotFound),
            })),
    {
        if reply_id != POOL_INSTANTIATE_TX_ID {
            return Err(ContractError::ReplyIdError);
        }
        self.handle_pool_instantiate(contract_address)
    }
}

} // verus!
