//! The vault: central ledger and workflow orchestrator.
//!
//! The vault owns the authoritative reserve table for every registered pool
//! and custodies the underlying assets. Workflows that depend on other
//! components — transfers, pool mints and burns — are returned as
//! [`ContractMsg`] values for the host to dispatch; the reserve table is
//! only committed by the step that can confirm the dependent work, either
//! synchronously (swaps, removals) or through a continuation carrying
//! [`ExecutePoolReplyData`] (additions).

use vstd::prelude::*;

verus! {

use crate::addr_map::AddrMap;
use crate::math;
use crate::pool_msg::MintRecieveParams;
use crate::vault_msg::AddLiquidityParams;
use crate::vault_msg::ContractCall;
use crate::vault_msg::ContractMsg;
use crate::vault_msg::Cw20ReceiveMsg;
use crate::vault_msg::ExecutePoolReplyData;
use crate::vault_msg::PoolDataResponse;
use crate::vault_msg::RegisterPoolParams;
use crate::vault_msg::RemoveLiquidityParams;
use crate::vault_msg::UpdateLiquidiyParams;

/// The continuation id under which the vault expects the mint step of an
/// add-liquidity workflow to report back.
pub const EXECUTE_REPLY_ID: u64 = 1;

/// Errors reported by the vault.
#[derive(Debug, Clone, Copy, PartialEq, Eq, Structural)]
pub enum ContractError {
    /// Only the vault owner may do this.
    Unauthorized,
    /// The calling factory was never registered.
    FactoryNotFound,
    /// The calling factory is registered but not authorized.
    UnauthorizedFactory,
    /// The pool address is already present in the reserve table.
    PoolAlreadyRegistered,
    /// No pool is registered under the given address.
    PoolNotExisted,
    /// The add-liquidity workflow found no data for the pool.
    FetchPoolDataError,
    /// The supplied input amount was zero.
    InsufficientAmount,
    /// One of the reserves involved was zero.
    InsufficientLiquidity,
    /// An intermediate product or sum exceeded the 128-bit range.
    CalculationOverflow,
    /// The recomputed A-side contribution fell below the caller's minimum.
    InsufficientAAmount,
    /// The quoted B-side contribution fell below the caller's minimum.
    InsufficientBAmount,
    /// The recomputed A-side contribution exceeded the caller's desired
    /// amount.
    AddingLiquidityFailed,
    /// The fallback quote for the A side could not be computed.
    CalculationAmountError,
    /// A reserve commit addressed a pool that is not registered.
    UpateLiquidityFailed,
    /// The payment envelope did not carry swap instructions.
    SwapFailed,
    /// The swap output could not be computed for these amounts.
    AmountOutNotFound,
    /// The computed swap output would drain the pool.
    InsufficientBalance,
    /// The remove-liquidity workflow could not commit its reserve update.
    UpdateReserveFailed,
    /// A continuation arrived under an id the vault never issued.
    ReplyIdMismatch,
    /// A continuation arrived without its reserve payload.
    ReplyDataNotFound,
}

/// How each exchange-math failure surfaces to the vault's callers.
pub open spec fn spec_math_error(e: math::MathError) -> ContractError {
    match e {
        math::MathError::InsufficientAmount => ContractError::InsufficientAmount,
        math::MathError::InsufficientLiquidity => ContractError::InsufficientLiquidity,
        math::MathError::CalculationOverflow => ContractError::CalculationOverflow,
        math::MathError::InsufficientAAmount => ContractError::InsufficientAAmount,
        math::MathError::InsufficientBAmount => ContractError::InsufficientBAmount,
        math::MathError::AddingLiquidityFailed => ContractError::AddingLiquidityFailed,
        math::MathError::CalculationAmountError => ContractError::CalculationAmountError,
    }
}

/// Carries an exchange-math failure over into the vault's error space.
fn math_error(e: math::MathError) -> (r: ContractError)
    ensures
        r == spec_math_error(e),
{
    match e {
        math::MathError::InsufficientAmount => ContractError::InsufficientAmount,
        math::MathError::InsufficientLiquidity => ContractError::InsufficientLiquidity,
        math::MathError::CalculationOverflow => ContractError::CalculationOverflow,
        math::MathError::InsufficientAAmount => ContractError::InsufficientAAmount,
        math::MathError::InsufficientBAmount => ContractError::InsufficientBAmount,
        math::MathError::AddingLiquidityFailed => ContractError::AddingLiquidityFailed,
        math::MathError::CalculationAmountError => ContractError::CalculationAmountError,
    }
}

/// The central ledger: the vault owner, the factories allowed to register
/// pools, and one reserve row per registered pool.
pub struct Vault {
    owner: String,
    factories: AddrMap<bool>,
    pools: AddrMap<PoolDataResponse>,
}

impl Vault {
    /// The owner fixed at instantiation.
    pub closed spec fn spec_owner(&self) -> String {
        self.owner
    }

    /// Which factory addresses are authorized.
    pub closed spec fn factories_map(&self) -> Map<Seq<char>, bool> {
        self.factories@
    }

    /// The reserve table, one row per registered pool address.
    pub closed spec fn pools_map(&self) -> Map<Seq<char>, PoolDataResponse> {
        self.pools@
    }

    /// Both registries keep each address at most once.
    pub closed spec fn wf(&self) -> bool {
        self.factories.wf() && self.pools.wf()
    }

    /// A fresh vault owned by `sender`, with no factories and no pools.
    pub fn instantiate(sender: String) -> (r: Vault)
        ensures
            r.wf(),
            r.spec_owner() == sender,
            r.factories_map() == Map::<Seq<char>, bool>::empty(),
            r.pools_map() == Map::<Seq<char>, PoolDataResponse>::empty(),
    {
        Vault { owner: sender, factories: AddrMap::new(), pools: AddrMap::new() }
    }

    /// The vault rebuilt from persisted state: its owner and the entries of
    /// both registries, a later binding of an address winning over an
    /// earlier one.
    pub fn restore(
        owner: String,
        factories: Vec<(String, bool)>,
        pools: Vec<(String, PoolDataResponse)>,
    ) -> (r: Vault)
        ensures
            r.wf(),
            r.spec_owner() == owner,
            r.factories_map() == crate::addr_map::entries_to_map(factories@),
            r.pools_map() == crate::addr_map::entries_to_map(pools@),
    {
        Vault {
            owner,
            factories: AddrMap::from_entries(factories),
            pools: AddrMap::from_entries(pools),
        }
    }

    /// The owner fixed at instantiation.
    pub fn owner(&self) -> (r: &String)
        ensures
            *r == self.spec_owner(),
    {
        &self.owner
    }

    /// The factory registry's backing entries, for callers that must
    /// persist the vault.
    pub fn factories_entries(&self) -> (r: &Vec<(String, bool)>)
        requires
            self.wf(),
        ensures
            crate::addr_map::entry_keys_unique(r@),
            crate::addr_map::entries_to_map(r@) == self.factories_map(),
    {
        self.factories.entries()
    }

    /// The reserve table's backing entries, for callers that must persist
    /// the vault.
    pub fn pools_entries(&self) -> (r: &Vec<(String, PoolDataResponse)>)
        requires
            self.wf(),
        ensures
            crate::addr_map::entry_keys_unique(r@),
            crate::addr_map::entries_to_map(r@) == self.pools_map(),
    {
        self.pools.entries()
    }

    /// Authorizes a factory to register pools. Only the owner may call;
    /// anyone else is turned away unchanged.
    pub fn execute_register_factory(&mut self, sender: &String, factory: String) -> (r: Result<
        (),
        ContractError,
    >)
        requires
            old(self).wf(),
        ensures
            final(self).wf(),
            final(self).spec_owner() == old(self).spec_owner(),
            final(self).pools_map() == old(self).pools_map(),
            sender@ != old(self).spec_owner()@ ==> r == Err::<(), _>(ContractError::Unauthorized)
                && final(self).factories_map() == old(self).factories_map(),
            sender@ == old(self).spec_owner()@ ==> r == Ok::<_, ContractError>(())
                && final(self).factories_map() == old(self).factories_map().insert(
                factory@,
                true,
            ),
    {
        if self.owner == *sender {
            self.factories.insert(factory, true);
            Ok(())
        } else {
            Err(ContractError::Unauthorized)
        }
    }

    /// Registers a pool and its token pair, with both reserves starting at
    /// zero.
    ///
    /// Only a caller recorded as an authorized factory succeeds: an unknown
    /// caller and a caller registered as unauthorized are both turned away
    /// unchanged. An address already present in the reserve table cannot be
    /// registered again — its row, reserves included, stays exactly as it
    /// was — so a row's `registered` mark never reverts and its recorded
    /// reserves never reset while assets stand in custody.
    pub fn execute_register_pool(&mut self, sender: &String, params: RegisterPoolParams) -> (r:
        Result<(), ContractError>)
        requires
            old(self).wf(),
        ensures
            final(self).wf(),
            final(self).spec_owner() == old(self).spec_owner(),
            final(self).factories_map() == old(self).factories_map(),
            !old(self).factories_map().contains_key(sender@) ==> r == Err::<(), _>(
                ContractError::FactoryNotFound,
            ) && final(self).pools_map() == old(self).pools_map(),
            old(self).factories_map().contains_key(sender@) && !old(self).factories_map()[sender@]
                ==> r == Err::<(), _>(ContractError::UnauthorizedFactory)
                && final(self).pools_map() == old(self).pools_map(),
            old(self).factories_map().contains_key(sender@) && old(self).factories_map()[sender@]
                && old(self).pools_map().contains_key(params.pool_address@) ==> r == Err::<(), _>(
                ContractError::PoolAlreadyRegistered,
            ) && final(self).pools_map() == old(self).pools_map(),
            old(self).factories_map().contains_key(sender@) && old(self).factories_map()[sender@]
                && !old(self).pools_map().contains_key(params.pool_address@) ==> r == Ok::<
                _,
                ContractError,
            >(()) && final(self).pools_map() == old(self).pools_map().insert(
                params.pool_address@,
                (PoolDataResponse {
                    registered: true,
                    token0: params.token0,
                    token1: params.token1,
                    reserve0: 0,
                    reserve1: 0,
                }),
            ),
    {
        let authorized = match self.factories.get(sender) {
            Some(flag) => *flag,
            None => {
                return Err(ContractError::FactoryNotFound);
            },
        };
        if !authorized {
            return Err(ContractError::UnauthorizedFactory);
        }
        if self.pools.get(&params.pool_address).is_some() {
            return Err(ContractError::PoolAlreadyRegistered);
        }
        let pool_data = PoolDataResponse {
            registered: true,
            token0: params.token0,
            token1: params.token1,
            reserve0: 0,
            reserve1: 0,
        };
        self.pools.insert(params.pool_address, pool_data);
        Ok(())
    }

    /// Overwrites a registered pool's reserves with the amounts carried by
    /// `params`; an unregistered pool address fails unchanged.
    pub fn execute_update_liquidity(&mut self, params: &UpdateLiquidiyParams) -> (r: Result<
        (),
        ContractError,
    >)
        requires
            old(self).wf(),
        ensures
            final(self).wf(),
            final(self).spec_owner() == old(self).spec_owner(),
            final(self).factories_map() == old(self).factories_map(),
            !old(self).pools_map().contains_key(params.pool_address@) ==> r == Err::<(), _>(
                ContractError::UpateLiquidityFailed,
            ) && final(self).pools_map() == old(self).pools_map(),
            old(self).pools_map().contains_key(params.pool_address@) ==> r == Ok::<
                _,
                ContractError,
            >(()) && final(self).pools_map() == old(self).pools_map().insert(
                params.pool_address@,
                (PoolDataResponse {
                    reserve0: params.amount_a,
                    reserve1: params.amount_b,
                    ..old(self).pools_map()[params.pool_address@]
                }),
            ),
    {
        let updated = match self.pools.get(&params.pool_address) {
            Some(entry) => PoolDataResponse {
                registered: entry.registered,
                token0: entry.token0.clone(),
                token1: entry.token1.clone(),
                reserve0: params.amount_a,
                reserve1: params.amount_b,
            },
            None => {
                return Err(ContractError::UpateLiquidityFailed);
            },
        };
        self.pools.insert(params.pool_address.clone(), updated);
        Ok(())
    }

    /// The reserve row recorded for a pool address.
    pub fn query_pool_data(&self, pool_address: &String) -> (r: Result<
        PoolDataResponse,
        ContractError,
    >)
        requires
            self.wf(),
        ensures
            self.pools_map().contains_key(pool_address@) ==> r == Ok::<_, ContractError>(
                self.pools_map()[pool_address@],
            ),
            !self.pools_map().contains_key(pool_address@) ==> r == Err::<PoolDataResponse, _>(
                ContractError::PoolNotExisted,
            ),
    {
        match self.pools.get(pool_address) {
            Some(entry) => Ok(
                PoolDataResponse {
                    registered: entry.registered,
                    token0: entry.token0.clone(),
                    token1: entry.token1.clone(),
                    reserve0: entry.reserve0,
                    reserve1: entry.reserve1,
                },
            ),
            None => Err(ContractError::PoolNotExisted),
        }
    }

    /// Commits the reserves a completed mint reported back for its pool.
    pub fn update_pool_reserve(&mut self, data: &ExecutePoolReplyData) -> (r: Result<
        (),
        ContractError,
    >)
        requires
            old(self).wf(),
        ensures
            final(self).wf(),
            final(self).spec_owner() == old(self).spec_owner(),
            final(self).factories_map() == old(self).factories_map(),
            !old(self).pools_map().contains_key(data.pool_contract_address@) ==> r == Err::<
                (),
                _,
            >(ContractError::UpateLiquidityFailed)
                && final(self).pools_map() == old(self).pools_map(),
            old(self).pools_map().contains_key(data.pool_contract_address@) ==> r == Ok::<
                _,
                ContractError,
            >(()) && final(self).pools_map() == old(self).pools_map().insert(
                data.pool_contract_address@,
                (PoolDataResponse {
                    reserve0: data.reserve_a,
                    reserve1: data.reserve_b,
                    ..old(self).pools_map()[data.pool_contract_address@]
                }),
            ),
    {
        let params = UpdateLiquidiyParams {
            pool_address: data.pool_contract_address.clone(),
            amount_a: data.reserve_a,
            amount_b: data.reserve_b,
        };
        match self.execute_update_liquidity(&params) {
            Ok(()) => Ok(()),
            Err(_) => Err(ContractError::UpateLiquidityFailed),
        }
    }

    /// Routes a continuation back into the workflow that awaited it.
    ///
    /// Only [`EXECUTE_REPLY_ID`] is ever issued; any other id is rejected,
    /// as is a continuation whose reserve payload is missing.
    pub fn reply(&mut self, reply_id: u64, data: Option<ExecutePoolReplyData>) -> (r: Result<
        (),
        ContractError,
    >)
        requires
            old(self).wf(),
        ensures
            final(self).wf(),
            final(self).spec_owner() == old(self).spec_owner(),
            final(self).factories_map() == old(self).factories_map(),
            reply_id != EXECUTE_REPLY_ID ==> r == Err::<(), _>(ContractError::ReplyIdMismatch)
                && final(self).pools_map() == old(self).pools_map(),
            reply_id == EXECUTE_REPLY_ID && data is None ==> r == Err::<(), _>(
                ContractError::ReplyDataNotFound,
            ) && final(self).pools_map() == old(self).pools_map(),
            reply_id == EXECUTE_REPLY_ID ==> (data matches Some(d) ==> {
                &&& !old(self).pools_map().contains_key(d.pool_contract_address@) ==> r == Err::<
                    (),
                    _,
                >(ContractError::UpateLiquidityFailed)
                    && final(self).pools_map() == old(self).pools_map()
                &&& old(self).pools_map().contains_key(d.pool_contract_address@) ==> r == Ok::<
                    _,
                    ContractError,
                >(()) && final(self).pools_map() == old(self).pools_map().insert(
                    d.pool_contract_address@,
                    (PoolDataResponse {
                        reserve0: d.reserve_a,
                        reserve1: d.reserve_b,
                        ..old(self).pools_map()[d.pool_contract_address@]
                    }),
                )
            }),
    {
        if reply_id != EXECUTE_REPLY_ID {
            return Err(ContractError::ReplyIdMismatch);
        }
        match data {
            Some(d) => self.update_pool_reserve(&d),
            None => Err(ContractError::ReplyDataNotFound),
        }
    }

    /// Computes the contribution for an add-liquidity request and lines up
    /// the calls it dispatches: pull the A side, pull the B side, then ask
    /// the pool to mint for the depositor.
    fn execute_liquidity(
        sender: &String,
        vault_addr: &String,
        params: &AddLiquidityParams,
        reserve_a: u128,
        reserve_b: u128,
    ) -> (r: Result<Vec<ContractMsg>, ContractError>)
        ensures
            (match math::spec_optimal_contribution(
                params.amount_a_desired,
                params.amount_b_desired,
                params.amount_a_min,
                params.amount_b_min,
                reserve_a,
                reserve_b,
            ) {
                Err(e) => r == Err::<Vec<ContractMsg>, _>(spec_math_error(e)),
                Ok(amounts) => r matches Ok(v) && v@ =~= spec_liquidity_messages(
                    *sender,
                    *vault_addr,
                    *params,
                    amounts.0,
                    amounts.1,
                ),
            }),
    {
        let picked = math::optimal_contribution(
            params.amount_a_desired,
            params.amount_b_desired,
            params.amount_a_min,
            params.amount_b_min,
            reserve_a,
            reserve_b,
        );
        let (amount_a, amount_b) = match picked {
            Ok(pair) => pair,
            Err(e) => {
                return Err(math_error(e));
            },
        };
        let mut messages: Vec<ContractMsg> = Vec::new();
        messages.push(
            ContractMsg {
                contract_address: params.token_a.clone(),
                contract_msg: ContractCall::TokenTransferFrom {
                    owner: sender.clone(),
                    recipient: vault_addr.clone(),
                    amount: amount_a,
                },
            },
        );
        messages.push(
            ContractMsg {
                contract_address: params.token_b.clone(),
                contract_msg: ContractCall::TokenTransferFrom {
                    owner: sender.clone(),
                    recipient: vault_addr.clone(),
                    amount: amount_b,
                },
            },
        );
        messages.push(
            ContractMsg {
                contract_address: params.pool_address.clone(),
                contract_msg: ContractCall::PoolMint(
                    MintRecieveParams {
                        to: params.address_to.clone(),
                        amount0: amount_a,
                        amount1: amount_b,
                    },
                ),
            },
        );
        Ok(messages)
    }

    /// Starts an add-liquidity workflow.
    ///
    /// The request is reordered so its A side is the pool's registered
    /// `token0`, the contribution is scaled to the recorded reserves, and
    /// the resulting plan pulls both deposits into the vault's custody and
    /// asks the pool to mint — with the mint as the continuation-bearing
    /// step, since only its completion may commit the new reserves. The
    /// reserve table itself is not touched here.
    pub fn execute_add_liquidity(
        &self,
        sender: &String,
        vault_addr: &String,
        params: &AddLiquidityParams,
    ) -> (r: Result<AddLiquidityPlan, ContractError>)
        requires
            self.wf(),
        ensures
            !self.pools_map().contains_key(params.pool_address@) ==> r == Err::<
                AddLiquidityPlan,
                _,
            >(ContractError::FetchPoolDataError),
            self.pools_map().contains_key(params.pool_address@) ==> ({
                let data = self.pools_map()[params.pool_address@];
                let canonical = spec_canonical_params(*params, data.token0);
                match math::spec_optimal_contribution(
                    canonical.amount_a_desired,
                    canonical.amount_b_desired,
                    canonical.amount_a_min,
                    canonical.amount_b_min,
                    data.reserve0,
                    data.reserve1,
                ) {
                    Err(e) => r == Err::<AddLiquidityPlan, _>(spec_math_error(e)),
                    Ok(amounts) => r matches Ok(plan) && {
                        let all = spec_liquidity_messages(
                            *sender,
                            *vault_addr,
                            canonical,
                            amounts.0,
                            amounts.1,
                        );
                        &&& plan.messages@ =~= all.drop_last()
                        &&& plan.submessage == all.last()
                        &&& plan.reply_id == EXECUTE_REPLY_ID
                    },
                }
            }),
    {
        let data = match self.query_pool_data(&params.pool_address) {
            Ok(d) => d,
            Err(_) => {
                return Err(ContractError::FetchPoolDataError);
            },
        };
        let canonical = if data.token0 == params.token_a {
            AddLiquidityParams {
                pool_address: params.pool_address.clone(),
                token_a: params.token_a.clone(),
                token_b: params.token_b.clone(),
                amount_a_desired: params.amount_a_desired,
                amount_b_desired: params.amount_b_desired,
                amount_a_min: params.amount_a_min,
                amount_b_min: params.amount_b_min,
                address_to: params.address_to.clone(),
                deadline: params.deadline,
            }
        } else {
            AddLiquidityParams {
                pool_address: params.pool_address.clone(),
                token_a: params.token_b.clone(),
                token_b: params.token_a.clone(),
                amount_a_desired: params.amount_b_desired,
                amount_b_desired: params.amount_a_desired,
                amount_a_min: params.amount_b_min,
                amount_b_min: params.amount_a_min,
                address_to: params.address_to.clone(),
                deadline: params.deadline,
            }
        };
        proof {
            assert(canonical == spec_canonical_params(*params, data.token0));
        }
        let mut messages = match Self::execute_liquidity(
            sender,
            vault_addr,
            &canonical,
            data.reserve0,
            data.reserve1,
        ) {
            Ok(m) => m,
            Err(e) => {
                return Err(e);
            },
        };
        match messages.pop() {
            Some(submessage) => Ok(
                AddLiquidityPlan { messages, submessage, reply_id: EXECUTE_REPLY_ID },
            ),
            None => Err(ContractError::FetchPoolDataError),
        }
    }

    /// Completes a remove-liquidity workflow on the pool's say-so.
    ///
    /// The caller is the pool unit itself, reporting the reserves left after
    /// a burn; the vault records them and pays both withdrawal amounts out
    /// of custody to the holder. A caller that is not a registered pool is
    /// turned away unchanged.
    pub fn execute_remove_liquidity(&mut self, sender: &String, params: &RemoveLiquidityParams) -> (r:
        Result<Vec<ContractMsg>, ContractError>)
        requires
            old(self).wf(),
        ensures
            final(self).wf(),
            final(self).spec_owner() == old(self).spec_owner(),
            final(self).factories_map() == old(self).factories_map(),
            !old(self).pools_map().contains_key(sender@) ==> r == Err::<Vec<ContractMsg>, _>(
                ContractError::UpdateReserveFailed,
            ) && final(self).pools_map() == old(self).pools_map(),
            old(self).pools_map().contains_key(sender@) ==> {
                &&& final(self).pools_map() == old(self).pools_map().insert(
                    sender@,
                    (PoolDataResponse {
                        reserve0: params.reserve_a,
                        reserve1: params.reserve_b,
                        ..old(self).pools_map()[sender@]
                    }),
                )
                &&& r matches Ok(v) && v@ =~= spec_withdraw_messages(*params)
            },
    {
        let update = UpdateLiquidiyParams {
            pool_address: sender.clone(),
            amount_a: params.reserve_a,
            amount_b: params.reserve_b,
        };
        match self.execute_update_liquidity(&update) {
            Ok(()) => {},
            Err(_) => {
                return Err(ContractError::UpdateReserveFailed);
            },
        }
        let mut messages: Vec<ContractMsg> = Vec::new();
        messages.push(
            ContractMsg {
                contract_address: params.token_a.clone(),
                contract_msg: ContractCall::TokenTransfer {
                    recipient: params.address_to.clone(),
                    amount: params.amount_a,
                },
            },
        );
        messages.push(
            ContractMsg {
                contract_address: params.token_b.clone(),
                contract_msg: ContractCall::TokenTransfer {
                    recipient: params.address_to.clone(),
                    amount: params.amount_b,
                },
            },
        );
        Ok(messages)
    }

    /// Swaps the payment carried by `received` through a registered pool.
    ///
    /// The envelope must carry swap instructions; the input side is the one
    /// whose token matches the pool's registered `token0`. The fee-adjusted
    /// output is computed from the recorded reserves, an output that would
    /// drain the pool is refused, and on success the reserves are committed
    /// — input side up, output side down — and the returned call pays the
    /// output to its recipient. A successful output computation already
    /// bounds the grown input reserve, so no range precondition is needed.
    pub fn execute_swap_tokens(&mut self, received: &Cw20ReceiveMsg) -> (r: Result<
        ContractMsg,
        ContractError,
    >)
        requires
            old(self).wf(),
        ensures
            final(self).wf(),
            final(self).spec_owner() == old(self).spec_owner(),
            final(self).factories_map() == old(self).factories_map(),
            received.msg.message@ != "execute_swap_tokens"@ ==> r == Err::<ContractMsg, _>(
                ContractError::SwapFailed,
            ) && final(self).pools_map() == old(self).pools_map(),
            received.msg.message@ == "execute_swap_tokens"@ && !old(self).pools_map().contains_key(
                received.msg.pool_address@,
            ) ==> r == Err::<ContractMsg, _>(ContractError::PoolNotExisted)
                && final(self).pools_map() == old(self).pools_map(),
            received.msg.message@ == "execute_swap_tokens"@ && old(self).pools_map().contains_key(
                received.msg.pool_address@,
            ) ==> ({
                let data = old(self).pools_map()[received.msg.pool_address@];
                let input_is_token0 = received.msg.token_in@ == data.token0@;
                let reserve_in = if input_is_token0 {
                    data.reserve0
                } else {
                    data.reserve1
                };
                let reserve_out = if input_is_token0 {
                    data.reserve1
                } else {
                    data.reserve0
                };
                match math::spec_amount_out_checked(received.amount, reserve_in, reserve_out) {
                    Err(_) => r == Err::<ContractMsg, _>(ContractError::AmountOutNotFound)
                        && final(self).pools_map() == old(self).pools_map(),
                    Ok(out) => if out >= reserve_out {
                        r == Err::<ContractMsg, _>(ContractError::InsufficientBalance)
                            && final(self).pools_map() == old(self).pools_map()
                    } else {
                        &&& r == Ok::<_, ContractError>(
                            (ContractMsg {
                                contract_address: received.msg.token_out,
                                contract_msg: (ContractCall::TokenTransfer {
                                    recipient: received.msg.address_to,
                                    amount: out,
                                }),
                            }),
                        )
                        &&& final(self).pools_map() == old(self).pools_map().insert(
                            received.msg.pool_address@,
                            (PoolDataResponse {
                                reserve0: if input_is_token0 {
                                    (data.reserve0 + received.amount) as u128
                                } else {
                                    (data.reserve0 - out) as u128
                                },
                                reserve1: if input_is_token0 {
                                    (data.reserve1 - out) as u128
                                } else {
                                    (data.reserve1 + received.amount) as u128
                                },
                                ..data
                            }),
                        )
                    },
                }
            }),
    {
        let expected = String::from_str("execute_swap_tokens");
        if !(received.msg.message == expected) {
            return Err(ContractError::SwapFailed);
        }
        let data = match self.query_pool_data(&received.msg.pool_address) {
            Ok(d) => d,
            Err(_) => {
                return Err(ContractError::PoolNotExisted);
            },
        };
        let input_is_token0 = received.msg.token_in == data.token0;
        let reserve_in = if input_is_token0 {
            data.reserve0
        } else {
            data.reserve1
        };
        let reserve_out = if input_is_token0 {
            data.reserve1
        } else {
            data.reserve0
        };
        let out = match math::amount_out(received.amount, reserve_in, reserve_out) {
            Ok(v) => v,
            Err(_) => {
                return Err(ContractError::AmountOutNotFound);
            },
        };
        if out >= reserve_out {
            return Err(ContractError::InsufficientBalance);
        }
        proof {
            // The output exists, so its denominator fits the 128-bit
            // range, and the grown input reserve is smaller still.
            assert(reserve_in * 1000 + received.amount * 997 <= u128::MAX);
            assert(reserve_in + received.amount <= u128::MAX);
        }
        let (updated_a, updated_b) = if input_is_token0 {
            (data.reserve0 + received.amount, data.reserve1 - out)
        } else {
            (data.reserve0 - out, data.reserve1 + received.amount)
        };
        let update = UpdateLiquidiyParams {
            pool_address: received.msg.pool_address.clone(),
            amount_a: updated_a,
            amount_b: updated_b,
        };
        // The pool's row was just loaded, so the commit cannot miss it.
        match self.execute_update_liquidity(&update) {
            Ok(()) => Ok(
                ContractMsg {
                    contract_address: received.msg.token_out.clone(),
                    contract_msg: ContractCall::TokenTransfer {
                        recipient: received.msg.address_to.clone(),
                        amount: out,
                    },
                },
            ),
            Err(_) => Err(ContractError::UpdateReserveFailed),
        }
    }
}

/// An accepted swap never decreases the reserve product: the reserves
/// [`Vault::execute_swap_tokens`] commits — input side grown by the
/// payment, output side less the computed output — multiply to at least
/// what the previous reserves did.
pub proof fn lemma_swap_keeps_reserve_product(amount_in: u128, reserve_in: u128, reserve_out: u128)
    requires
        math::spec_amount_out_checked(amount_in, reserve_in, reserve_out) is Ok,
    ensures
        ({
            let out = math::spec_amount_out_checked(amount_in, reserve_in, reserve_out)->Ok_0;
            &&& out < reserve_out
            &&& (reserve_in + amount_in) * (reserve_out - out) >= reserve_in * reserve_out
        }),
{
    math::lemma_constant_product_non_decreasing(
        amount_in as int,
        reserve_in as int,
        reserve_out as int,
    );
}

/// The dispatch plan an accepted add-liquidity request produces: the
/// transfer calls fired without continuation, and the mint call whose
/// completion must be reported back under `reply_id`.
#[derive(Debug, Clone, PartialEq, Eq)]
pub struct AddLiquidityPlan {
    pub messages: Vec<ContractMsg>,
    pub submessage: ContractMsg,
    pub reply_id: u64,
}

/// An add-liquidity request reordered so that its A side is the pool's
/// registered `token0`.
pub open spec fn spec_canonical_params(params: AddLiquidityParams, token0: String) -> AddLiquidityParams {
    if params.token_a@ == token0@ {
        params
    } else {
        AddLiquidityParams {
            token_a: params.token_b,
            token_b: params.token_a,
            amount_a_desired: params.amount_b_desired,
            amount_b_desired: params.amount_a_desired,
            amount_a_min: params.amount_b_min,
            amount_b_min: params.amount_a_min,
            ..params
        }
    }
}

/// The calls an accepted contribution dispatches, in order: pull the A
/// side, pull the B side, then ask the pool to mint for the depositor.
pub open spec fn spec_liquidity_messages(
    sender: String,
    vault_addr: String,
    params: AddLiquidityParams,
    amount_a: u128,
    amount_b: u128,
) -> Seq<ContractMsg> {
    seq![
        (ContractMsg {
            contract_address: params.token_a,
            contract_msg: (ContractCall::TokenTransferFrom {
                owner: sender,
                recipient: vault_addr,
                amount: amount_a,
            }),
        }),
        (ContractMsg {
            contract_address: params.token_b,
            contract_msg: (ContractCall::TokenTransferFrom {
                owner: sender,
                recipient: vault_addr,
                amount: amount_b,
            }),
        }),
        (ContractMsg {
            contract_address: params.pool_address,
            contract_msg: ContractCall::PoolMint(
                (MintRecieveParams { to: params.address_to, amount0: amount_a, amount1: amount_b }),
            ),
        }),
    ]
}

/// The payout calls a completed withdrawal dispatches: each token side of
/// the burned shares, custody to holder.
pub open spec fn spec_withdraw_messages(params: RemoveLiquidityParams) -> Seq<ContractMsg> {
    seq![
        (ContractMsg {
            contract_address: params.token_a,
            contract_msg: (ContractCall::TokenTransfer {
                recipient: params.address_to,
                amount: params.amount_a,
            }),
        }),
        (ContractMsg {
            contract_address: params.token_b,
            contract_msg: (ContractCall::TokenTransfer {
                recipient: params.address_to,
                amount: params.amount_b,
            }),
        }),
    ]
}

} // verus!
