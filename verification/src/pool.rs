//! The pool unit: one token pair's claim-token ledger and the mint/burn
//! rules that turn deposits into liquidity shares.
//!
//! The unit owns the claim token outright — total supply and per-holder
//! balances live here, and the sum of all balances always equals the total
//! supply. Reserve numbers are not stored here: every operation that needs
//! them takes a snapshot obtained from the vault.

use vstd::prelude::*;

verus! {

use vstd::arithmetic::div_mod::lemma_fundamental_div_mod;
use vstd::arithmetic::div_mod::lemma_mod_division_less_than_divisor;
use crate::addr_map::entries_to_map;
use crate::addr_map::entry_keys_unique;
use crate::addr_map::lemma_entries_to_map_contains;
use crate::addr_map::lemma_entries_to_map_empty;
use crate::addr_map::lemma_entries_to_map_push;
use crate::addr_map::lemma_entries_to_map_index;
use crate::addr_map::lemma_entries_to_map_update;
use crate::math;
use crate::pool_msg::AmountInParams;
use crate::pool_msg::AmountOutParams;
use crate::pool_msg::Cw20ReceiveMsg;
use crate::pool_msg::GetAmountTokenTransfer;
use crate::pool_msg::InstantiateMsg;
use crate::pool_msg::MintRecieveParams;
use crate::pool_msg::RemoveLiquidityPoolParams;
use crate::vault_msg::ExecutePoolReplyData;
use crate::vault_msg::PoolDataResponse;
use crate::vault_msg::RemoveLiquidityParams;

/// Liquidity locked forever on the first mint, as a floor against
/// zero-cost draining of a fresh pool.
pub const MINIMUM_LIQUIDITY: u128 = 1000;

/// Errors reported by the pool unit.
#[derive(Debug, Clone, Copy, PartialEq, Eq, Structural)]
pub enum ContractError {
    /// The caller may not move these claim tokens.
    Unauthorized,
    /// The pool holds no claim-token balance entry of its own.
    FetchLiquidityFailed,
    /// The share amount signaled upstream does not match the pool's held
    /// balance.
    AmountMismatch,
    /// The deposit is too small to mint any liquidity, or a withdrawal
    /// would pay out less than the caller's minimums.
    InsufficientLiquidity,
}

/// The sum of all balances in an entry sequence.
pub open spec fn balances_total(s: Seq<(String, u128)>) -> int
    decreases s.len(),
{
    if s.len() == 0 {
        0
    } else {
        balances_total(s.drop_last()) + s.last().1
    }
}

/// The balance a ledger map holds for `k`, zero when `k` is absent.
pub open spec fn balance_or_zero(m: Map<Seq<char>, u128>, k: Seq<char>) -> u128 {
    if m.contains_key(k) {
        m[k]
    } else {
        0
    }
}

/// The ledger map after adding `amount` to `k`'s balance.
pub open spec fn map_credit(m: Map<Seq<char>, u128>, k: Seq<char>, amount: u128) -> Map<
    Seq<char>,
    u128,
> {
    m.insert(k, (balance_or_zero(m, k) + amount) as u128)
}

/// The ledger map after removing `amount` from `k`'s balance.
pub open spec fn map_debit(m: Map<Seq<char>, u128>, k: Seq<char>, amount: u128) -> Map<
    Seq<char>,
    u128,
> {
    m.insert(k, (m[k] - amount) as u128)
}

/// The total of an entry sequence never goes negative.
proof fn lemma_balances_total_nonneg(s: Seq<(String, u128)>)
    ensures
        balances_total(s) >= 0,
    decreases s.len(),
{
    if s.len() > 0 {
        lemma_balances_total_nonneg(s.drop_last());
    }
}

/// Replacing one entry shifts the total by the difference of the balances.
proof fn lemma_balances_total_update(s: Seq<(String, u128)>, i: int, e: (String, u128))
    requires
        0 <= i < s.len(),
    ensures
        balances_total(s.update(i, e)) == balances_total(s) - s[i].1 + e.1,
    decreases s.len(),
{
    let t = s.update(i, e);
    if i == s.len() - 1 {
        assert(t.drop_last() =~= s.drop_last());
    } else {
        lemma_balances_total_update(s.drop_last(), i, e);
        assert(t.drop_last() =~= s.drop_last().update(i, e));
        assert(t.last() == s.last());
    }
}

/// The ledger map described by crediting each entry in order.
pub open spec fn credits_map(s: Seq<(String, u128)>) -> Map<Seq<char>, u128>
    decreases s.len(),
{
    if s.len() == 0 {
        Map::empty()
    } else {
        map_credit(credits_map(s.drop_last()), s.last().0@, s.last().1)
    }
}

/// A prefix of an entry sequence never sums to more than the whole.
proof fn lemma_prefix_total_le(s: Seq<(String, u128)>, j: int)
    requires
        0 <= j <= s.len(),
    ensures
        balances_total(s.subrange(0, j)) <= balances_total(s),
    decreases s.len() - j,
{
    if j == s.len() {
        assert(s.subrange(0, j) =~= s);
    } else {
        lemma_prefix_total_le(s, j + 1);
        assert(s.subrange(0, j + 1) =~= s.subrange(0, j).push(s[j]));
        assert(s.subrange(0, j + 1).drop_last() =~= s.subrange(0, j));
    }
}

/// Every single balance is at most the total of the sequence.
proof fn lemma_entry_le_total(s: Seq<(String, u128)>, i: int)
    requires
        0 <= i < s.len(),
    ensures
        s[i].1 <= balances_total(s),
    decreases s.len(),
{
    if i == s.len() - 1 {
        lemma_balances_total_nonneg(s.drop_last());
    } else {
        lemma_entry_le_total(s.drop_last(), i);
        assert(s.drop_last()[i] == s[i]);
    }
}

/// One token pair's pool: claim-token metadata, total supply, and the
/// holder balances backing that supply.
pub struct PoolUnit {
    /// Name of the claim token.
    pub name: String,
    /// Symbol / ticker of the claim token.
    pub symbol: String,
    /// Decimal places of the claim token (display only).
    pub decimals: u8,
    total_supply: u128,
    balances: Vec<(String, u128)>,
}

impl PoolUnit {
    /// How many claim tokens exist in total.
    pub closed spec fn spec_total_supply(&self) -> u128 {
        self.total_supply
    }

    /// The ledger as a map from holder address to balance.
    pub closed spec fn balances_map(&self) -> Map<Seq<char>, u128> {
        entries_to_map(self.balances@)
    }

    /// Each holder appears at most once, and the balances sum to the total
    /// supply.
    pub closed spec fn wf(&self) -> bool {
        &&& entry_keys_unique(self.balances@)
        &&& balances_total(self.balances@) == self.total_supply
    }

    /// The claim token's name.
    pub closed spec fn spec_name(&self) -> String {
        self.name
    }

    /// The claim token's symbol.
    pub closed spec fn spec_symbol(&self) -> String {
        self.symbol
    }

    /// The claim token's decimal places.
    pub closed spec fn spec_decimals(&self) -> u8 {
        self.decimals
    }

    /// The claim-token metadata of `a` and `b` agree.
    pub closed spec fn token_info_unchanged(a: &PoolUnit, b: &PoolUnit) -> bool {
        a.name == b.name && a.symbol == b.symbol && a.decimals == b.decimals
    }

    /// A fresh pool unit: the claim token named by `msg`, no supply, no
    /// holders.
    pub fn instantiate(msg: InstantiateMsg) -> (r: PoolUnit)
        ensures
            r.wf(),
            r.spec_total_supply() == 0,
            r.balances_map() == Map::<Seq<char>, u128>::empty(),
            r.spec_name() == msg.name,
            r.spec_symbol() == msg.symbol,
            r.spec_decimals() == msg.decimals,
    {
        let balances: Vec<(String, u128)> = Vec::new();
        proof {
            lemma_entries_to_map_empty(balances@);
        }
        PoolUnit {
            name: msg.name,
            symbol: msg.symbol,
            decimals: msg.decimals,
            total_supply: 0,
            balances,
        }
    }

    /// A pool unit rebuilt from persisted state: the claim-token metadata
    /// and the ledger's entries, duplicate holders accumulating. `None`
    /// when the balances sum past the 128-bit range.
    pub fn restore(
        name: String,
        symbol: String,
        decimals: u8,
        balances: Vec<(String, u128)>,
    ) -> (r: Option<PoolUnit>)
        ensures
            balances_total(balances@) <= u128::MAX ==> (r matches Some(p) && {
                &&& p.wf()
                &&& p.spec_total_supply() == balances_total(balances@)
                &&& p.balances_map() == credits_map(balances@)
                &&& p.spec_name() == name
                &&& p.spec_symbol() == symbol
                &&& p.spec_decimals() == decimals
            }),
            balances_total(balances@) > u128::MAX ==> r is None,
    {
        let ghost orig = balances@;
        let mut remaining = balances;
        let mut pool = PoolUnit {
            name,
            symbol,
            decimals,
            total_supply: 0,
            balances: Vec::new(),
        };
        proof {
            lemma_entries_to_map_empty(pool.balances@);
            assert(orig.subrange(0, 0) =~= Seq::<(String, u128)>::empty());
        }
        while remaining.len() > 0
            invariant
                orig == balances@,
                pool.wf(),
                pool.name == name,
                pool.symbol == symbol,
                pool.decimals == decimals,
                remaining@.len() <= orig.len(),
                remaining@ == orig.subrange(orig.len() - remaining@.len(), orig.len() as int),
                pool.spec_total_supply() == balances_total(
                    orig.subrange(0, orig.len() - remaining@.len()),
                ),
                pool.balances_map() == credits_map(
                    orig.subrange(0, orig.len() - remaining@.len()),
                ),
            decreases remaining.len(),
        {
            let ghost k = orig.len() - remaining@.len();
            let (key, value) = remaining.remove(0);
            proof {
                assert(orig.subrange(k as int, orig.len() as int).remove(0) =~= orig.subrange(
                    k as int + 1,
                    orig.len() as int,
                ));
                assert(orig.subrange(0, k as int + 1) =~= orig.subrange(0, k as int).push(
                    orig[k as int],
                ));
                assert(orig.subrange(0, k as int + 1).drop_last() =~= orig.subrange(0, k as int));
            }
            if value > u128::MAX - pool.total_supply {
                proof {
                    assert(balances_total(orig.subrange(0, k as int + 1)) == balances_total(
                        orig.subrange(0, k as int),
                    ) + value);
                    lemma_prefix_total_le(orig, k as int + 1);
                    assert(balances_total(orig) > u128::MAX);
                }
                return None;
            }
            pool.credit(&key, value);
        }
        proof {
            assert(orig.subrange(0, orig.len() as int) =~= orig);
        }
        Some(pool)
    }

    /// The ledger's backing entries, for callers that must persist the
    /// pool unit.
    pub fn balances_entries(&self) -> (r: &Vec<(String, u128)>)
        requires
            self.wf(),
        ensures
            entry_keys_unique(r@),
            entries_to_map(r@) == self.balances_map(),
            balances_total(r@) == self.spec_total_supply(),
    {
        &self.balances
    }

    /// How many claim tokens exist in total.
    pub fn total_supply(&self) -> (r: u128)
        ensures
            r == self.spec_total_supply(),
    {
        self.total_supply
    }

    /// A holder's recorded balance, `None` when the ledger has no entry.
    pub fn balance_of(&self, addr: &String) -> (r: Option<u128>)
        requires
            self.wf(),
        ensures
            match r {
                Some(v) => self.balances_map().contains_key(addr@) && v == self.balances_map()[addr@],
                None => !self.balances_map().contains_key(addr@),
            },
    {
        let n = self.balances.len();
        let mut i: usize = 0;
        while i < n
            invariant
                n == self.balances.len(),
                i <= n,
                self.wf(),
                forall|j: int| 0 <= j < i ==> self.balances@[j].0@ != addr@,
            decreases n - i,
        {
            let entry = &self.balances[i];
            if entry.0 == *addr {
                proof {
                    lemma_entries_to_map_index(self.balances@, i as int);
                }
                return Some(entry.1);
            }
            i = i + 1;
        }
        proof {
            lemma_entries_to_map_contains(self.balances@, addr@);
        }
        None
    }

    /// A holder's balance for display purposes: absent entries read as zero.
    pub fn query_balance(&self, addr: &String) -> (r: u128)
        requires
            self.wf(),
        ensures
            r == balance_or_zero(self.balances_map(), addr@),
    {
        match self.balance_of(addr) {
            Some(v) => v,
            None => 0,
        }
    }

    /// Creates `amount` new claim tokens and hands them to `addr`.
    fn credit(&mut self, addr: &String, amount: u128)
        requires
            old(self).wf(),
            old(self).spec_total_supply() + amount <= u128::MAX,
        ensures
            final(self).wf(),
            final(self).spec_total_supply() == old(self).spec_total_supply() + amount,
            final(self).balances_map() == map_credit(old(self).balances_map(), addr@, amount),
            Self::token_info_unchanged(final(self), old(self)),
    {
        let n = self.balances.len();
        let mut i: usize = 0;
        while i < n
            invariant
                n == self.balances.len(),
                i <= n,
                self == old(self),
                self.wf(),
                old(self).spec_total_supply() + amount <= u128::MAX,
                forall|j: int| 0 <= j < i ==> self.balances@[j].0@ != addr@,
            decreases n - i,
        {
            if self.balances[i].0 == *addr {
                proof {
                    lemma_entries_to_map_index(self.balances@, i as int);
                    lemma_entry_le_total(self.balances@, i as int);
                }
                let key = addr.clone();
                let updated = self.balances[i].1 + amount;
                proof {
                    lemma_entries_to_map_update(self.balances@, i as int, key, updated);
                    lemma_balances_total_update(self.balances@, i as int, (key, updated));
                }
                self.balances[i] = (key, updated);
                self.total_supply = self.total_supply + amount;
                return ;
            }
            i = i + 1;
        }
        let key = addr.clone();
        proof {
            lemma_entries_to_map_contains(self.balances@, addr@);
            lemma_entries_to_map_push(self.balances@, (key, amount));
            assert(self.balances@.push((key, amount)).drop_last() =~= self.balances@);
        }
        self.balances.push((key, amount));
        self.total_supply = self.total_supply + amount;
    }

    /// Destroys `amount` claim tokens out of `addr`'s balance.
    fn debit(&mut self, addr: &String, amount: u128)
        requires
            old(self).wf(),
            old(self).balances_map().contains_key(addr@),
            amount <= old(self).balances_map()[addr@],
        ensures
            final(self).wf(),
            old(self).spec_total_supply() >= amount,
            final(self).spec_total_supply() == old(self).spec_total_supply() - amount,
            final(self).balances_map() == map_debit(old(self).balances_map(), addr@, amount),
            Self::token_info_unchanged(final(self), old(self)),
    {
        let n = self.balances.len();
        let mut i: usize = 0;
        while i < n
            invariant
                n == self.balances.len(),
                i <= n,
                self == old(self),
                self.wf(),
                old(self).balances_map().contains_key(addr@),
                amount <= old(self).balances_map()[addr@],
                forall|j: int| 0 <= j < i ==> self.balances@[j].0@ != addr@,
            decreases n - i,
        {
            if self.balances[i].0 == *addr {
                proof {
                    lemma_entries_to_map_index(self.balances@, i as int);
                    lemma_entry_le_total(self.balances@, i as int);
                }
                let key = addr.clone();
                let updated = self.balances[i].1 - amount;
                proof {
                    lemma_entries_to_map_update(self.balances@, i as int, key, updated);
                    lemma_balances_total_update(self.balances@, i as int, (key, updated));
                }
                self.balances[i] = (key, updated);
                self.total_supply = self.total_supply - amount;
                return ;
            }
            i = i + 1;
        }
        proof {
            lemma_entries_to_map_contains(self.balances@, addr@);
            assert(false);
        }
    }

    /// A recorded balance never exceeds the total supply.
    proof fn lemma_balance_le_supply(&self, k: Seq<char>)
        requires
            self.wf(),
            self.balances_map().contains_key(k),
        ensures
            self.balances_map()[k] <= self.spec_total_supply(),
    {
        lemma_entries_to_map_contains(self.balances@, k);
        let i = choose|i: int| 0 <= i < self.balances@.len() && self.balances@[i].0@ == k;
        lemma_entries_to_map_index(self.balances@, i);
        lemma_entry_le_total(self.balances@, i);
    }

    /// Mints liquidity for the deposit `msg` against the reserve snapshot.
    ///
    /// On the very first deposit the pool mints the square root of the
    /// deposit product, locking [`MINIMUM_LIQUIDITY`] of it under its own
    /// address forever; afterwards it mints the deposit's proportional share
    /// of the existing supply, whichever side values it lower. A deposit
    /// worth no shares at all is rejected unchanged. On success the reply
    /// data carries the reserves the vault should now record.
    ///
    /// The range preconditions mirror the 128-bit arithmetic of the mint:
    /// the caller checks that the deposit product, the scaled shares and
    /// the grown reserves all fit before asking.
    pub fn execute_pool_mint(
        &mut self,
        self_addr: &String,
        snapshot: &PoolDataResponse,
        msg: &MintRecieveParams,
    ) -> (r: Result<ExecutePoolReplyData, ContractError>)
        requires
            old(self).wf(),
            snapshot.reserve0 + msg.amount0 <= u128::MAX,
            snapshot.reserve1 + msg.amount1 <= u128::MAX,
            old(self).spec_total_supply() == 0 ==> msg.amount0 * msg.amount1 <= u128::MAX,
            old(self).spec_total_supply() > 0 ==> {
                &&& snapshot.reserve0 > 0
                &&& snapshot.reserve1 > 0
                &&& msg.amount0 * old(self).spec_total_supply() <= u128::MAX
                &&& msg.amount1 * old(self).spec_total_supply() <= u128::MAX
                &&& old(self).spec_total_supply() + msg.amount0 * old(self).spec_total_supply()
                    / (snapshot.reserve0 as int) <= u128::MAX
            },
        ensures
            final(self).wf(),
            Self::token_info_unchanged(final(self), old(self)),
            r is Err ==> *final(self) == *old(self),
            old(self).spec_total_supply() == 0 ==> ({
                let liquidity = spec_first_liquidity(msg.amount0, msg.amount1);
                if liquidity <= 0 {
                    r == Err::<ExecutePoolReplyData, _>(ContractError::InsufficientLiquidity)
                } else {
                    &&& r == Ok::<_, ContractError>(
                        (ExecutePoolReplyData {
                            pool_contract_address: *self_addr,
                            reserve_a: (snapshot.reserve0 + msg.amount0) as u128,
                            reserve_b: (snapshot.reserve1 + msg.amount1) as u128,
                        }),
                    )
                    &&& final(self).spec_total_supply() == MINIMUM_LIQUIDITY + liquidity
                    &&& final(self).balances_map() == map_credit(
                        map_credit(old(self).balances_map(), self_addr@, MINIMUM_LIQUIDITY),
                        msg.to@,
                        liquidity as u128,
                    )
                }
            }),
            old(self).spec_total_supply() > 0 ==> ({
                let liquidity = spec_proportional_liquidity(
                    msg.amount0,
                    msg.amount1,
                    old(self).spec_total_supply(),
                    snapshot.reserve0,
                    snapshot.reserve1,
                );
                if liquidity == 0 {
                    r == Err::<ExecutePoolReplyData, _>(ContractError::InsufficientLiquidity)
                } else {
                    &&& r == Ok::<_, ContractError>(
                        (ExecutePoolReplyData {
                            pool_contract_address: *self_addr,
                            reserve_a: (snapshot.reserve0 + msg.amount0) as u128,
                            reserve_b: (snapshot.reserve1 + msg.amount1) as u128,
                        }),
                    )
                    &&& final(self).spec_total_supply() == old(self).spec_total_supply()
                        + liquidity
                    &&& final(self).balances_map() == map_credit(
                        old(self).balances_map(),
                        msg.to@,
                        liquidity as u128,
                    )
                }
            }),
    {
        let supply = self.total_supply;
        if supply == 0 {
            let root = math::isqrt(msg.amount0 * msg.amount1);
            if root <= MINIMUM_LIQUIDITY {
                return Err(ContractError::InsufficientLiquidity);
            }
            let liquidity = root - MINIMUM_LIQUIDITY;
            proof {
                assert(root < 0x1_0000_0000_0000_0000) by (nonlinear_arith)
                    requires
                        (root as int) * (root as int) <= u128::MAX,
                        root >= 0,
                ;
            }
            self.credit(self_addr, MINIMUM_LIQUIDITY);
            self.credit(&msg.to, liquidity);
            Ok(
                ExecutePoolReplyData {
                    pool_contract_address: self_addr.clone(),
                    reserve_a: snapshot.reserve0 + msg.amount0,
                    reserve_b: snapshot.reserve1 + msg.amount1,
                },
            )
        } else {
            let share0 = (msg.amount0 * supply) / snapshot.reserve0;
            let share1 = (msg.amount1 * supply) / snapshot.reserve1;
            let liquidity = if share0 < share1 {
                share0
            } else {
                share1
            };
            if liquidity == 0 {
                return Err(ContractError::InsufficientLiquidity);
            }
            self.credit(&msg.to, liquidity);
            Ok(
                ExecutePoolReplyData {
                    pool_contract_address: self_addr.clone(),
                    reserve_a: snapshot.reserve0 + msg.amount0,
                    reserve_b: snapshot.reserve1 + msg.amount1,
                },
            )
        }
    }

    /// Burns the claim tokens held under the pool's own address and computes
    /// the withdrawal they are worth.
    ///
    /// The shares must already have been transferred to the pool, and the
    /// transferred amount signaled by `received` must match the pool's held
    /// balance exactly. Each side pays out the held share of the snapshot
    /// reserve, rounded down; if either side falls below the caller's
    /// minimum the whole withdrawal is rejected unchanged. On success the
    /// returned parameters tell the vault what to pay out and which reserves
    /// to record.
    ///
    /// The range preconditions mirror the 128-bit arithmetic of the payout,
    /// and a pool with no supply at all can only be asked about a nonzero
    /// transfer (which it then rejects as mismatched).
    pub fn execute_burn_lp_tokens(
        &mut self,
        self_addr: &String,
        snapshot: &PoolDataResponse,
        received: &Cw20ReceiveMsg,
    ) -> (r: Result<RemoveLiquidityParams, ContractError>)
        requires
            old(self).wf(),
            received.amount > 0 || old(self).spec_total_supply() > 0,
            balance_or_zero(old(self).balances_map(), self_addr@) * snapshot.reserve0
                <= u128::MAX,
            balance_or_zero(old(self).balances_map(), self_addr@) * snapshot.reserve1
                <= u128::MAX,
        ensures
            final(self).wf(),
            Self::token_info_unchanged(final(self), old(self)),
            r is Err ==> *final(self) == *old(self),
            !old(self).balances_map().contains_key(self_addr@) ==> r == Err::<
                RemoveLiquidityParams,
                _,
            >(ContractError::FetchLiquidityFailed),
            old(self).balances_map().contains_key(self_addr@) && old(self).balances_map()[self_addr@]
                != received.amount ==> r == Err::<RemoveLiquidityParams, _>(
                ContractError::AmountMismatch,
            ),
            old(self).balances_map().contains_key(self_addr@) && old(self).balances_map()[self_addr@]
                == received.amount ==> ({
                let supply = old(self).spec_total_supply();
                let share = received.amount;
                let amount0 = spec_burn_amount(share, snapshot.reserve0, supply);
                let amount1 = spec_burn_amount(share, snapshot.reserve1, supply);
                if received.msg.amount_a_min > amount0 || received.msg.amount_b_min > amount1 {
                    r == Err::<RemoveLiquidityParams, _>(ContractError::InsufficientLiquidity)
                } else {
                    &&& r == Ok::<_, ContractError>(
                        (RemoveLiquidityParams {
                            token_a: snapshot.token0,
                            token_b: snapshot.token1,
                            reserve_a: (snapshot.reserve0 - amount0) as u128,
                            reserve_b: (snapshot.reserve1 - amount1) as u128,
                            amount_a: amount0 as u128,
                            amount_b: amount1 as u128,
                            address_to: received.msg.address_to,
                        }),
                    )
                    &&& final(self).spec_total_supply() == supply - share
                    &&& final(self).balances_map() == map_debit(
                        old(self).balances_map(),
                        self_addr@,
                        share,
                    )
                }
            }),
    {
        let pool_balance = match self.balance_of(self_addr) {
            Some(b) => b,
            None => {
                return Err(ContractError::FetchLiquidityFailed);
            },
        };
        if pool_balance != received.amount {
            return Err(ContractError::AmountMismatch);
        }
        proof {
            self.lemma_balance_le_supply(self_addr@);
        }
        let total = self.total_supply;
        let amount0 = (pool_balance * snapshot.reserve0) / total;
        let amount1 = (pool_balance * snapshot.reserve1) / total;
        if received.msg.amount_a_min > amount0 || received.msg.amount_b_min > amount1 {
            return Err(ContractError::InsufficientLiquidity);
        }
        proof {
            lemma_share_bounded_by_reserve(pool_balance, snapshot.reserve0, total);
            lemma_share_bounded_by_reserve(pool_balance, snapshot.reserve1, total);
        }
        self.debit(self_addr, pool_balance);
        Ok(
            RemoveLiquidityParams {
                token_a: snapshot.token0.clone(),
                token_b: snapshot.token1.clone(),
                reserve_a: snapshot.reserve0 - amount0,
                reserve_b: snapshot.reserve1 - amount1,
                amount_a: amount0,
                amount_b: amount1,
                address_to: received.msg.address_to.clone(),
            },
        )
    }

    /// The withdrawal the pool's own held shares are currently worth, per
    /// side of the pair.
    pub fn get_amount_token_transfer(&self, self_addr: &String, snapshot: &PoolDataResponse) -> (r:
        GetAmountTokenTransfer)
        requires
            self.wf(),
            self.spec_total_supply() > 0,
            balance_or_zero(self.balances_map(), self_addr@) * snapshot.reserve0 <= u128::MAX,
            balance_or_zero(self.balances_map(), self_addr@) * snapshot.reserve1 <= u128::MAX,
        ensures
            r.amount_a == spec_burn_amount(
                balance_or_zero(self.balances_map(), self_addr@),
                snapshot.reserve0,
                self.spec_total_supply(),
            ),
            r.amount_b == spec_burn_amount(
                balance_or_zero(self.balances_map(), self_addr@),
                snapshot.reserve1,
                self.spec_total_supply(),
            ),
    {
        let liquidity = self.query_balance(self_addr);
        let total = self.total_supply;
        GetAmountTokenTransfer {
            amount_a: (liquidity * snapshot.reserve0) / total,
            amount_b: (liquidity * snapshot.reserve1) / total,
        }
    }

    /// Moves `amount` claim tokens from `sender` to `contract` and hands
    /// back the receive notification that accompanies them.
    ///
    /// This is the send step of the withdrawal workflow: a holder pushes
    /// shares to the pool itself with burn instructions attached. A zero
    /// amount or a balance too small to cover the transfer is rejected
    /// unchanged.
    pub fn execute_send(
        &mut self,
        sender: &String,
        contract: &String,
        amount: u128,
        msg: RemoveLiquidityPoolParams,
    ) -> (r: Result<Cw20ReceiveMsg, ContractError>)
        requires
            old(self).wf(),
        ensures
            final(self).wf(),
            Self::token_info_unchanged(final(self), old(self)),
            final(self).spec_total_supply() == old(self).spec_total_supply(),
            amount == 0 || balance_or_zero(old(self).balances_map(), sender@) < amount ==> r
                == Err::<Cw20ReceiveMsg, _>(ContractError::Unauthorized) && *final(self) == *old(
                self,
            ),
            amount > 0 && balance_or_zero(old(self).balances_map(), sender@) >= amount ==> {
                &&& r == Ok::<_, ContractError>(
                    (Cw20ReceiveMsg { sender: *sender, amount, msg }),
                )
                &&& final(self).balances_map() == map_credit(
                    map_debit(old(self).balances_map(), sender@, amount),
                    contract@,
                    amount,
                )
            },
    {
        if amount == 0 {
            return Err(ContractError::Unauthorized);
        }
        let balance = self.query_balance(sender);
        if balance < amount {
            return Err(ContractError::Unauthorized);
        }
        self.debit(sender, amount);
        self.credit(contract, amount);
        Ok(Cw20ReceiveMsg { sender: sender.clone(), amount, msg })
    }
}

/// Liquidity minted for the very first deposit: the square root of the
/// deposit product, less the permanently locked floor.
pub open spec fn spec_first_liquidity(amount0: u128, amount1: u128) -> int {
    math::sqrt_floor(amount0 * amount1) - MINIMUM_LIQUIDITY
}

/// Liquidity minted against existing reserves: the deposit's share of the
/// supply, valued on whichever side gives less.
pub open spec fn spec_proportional_liquidity(
    amount0: u128,
    amount1: u128,
    supply: u128,
    reserve0: u128,
    reserve1: u128,
) -> int {
    let share0 = amount0 * supply / (reserve0 as int);
    let share1 = amount1 * supply / (reserve1 as int);
    if share0 <= share1 {
        share0
    } else {
        share1
    }
}

/// The amount one side of the pair pays out when `share` claim tokens are
/// burned against `reserve` at total supply `supply`.
pub open spec fn spec_burn_amount(share: u128, reserve: u128, supply: u128) -> int {
    share * reserve / (supply as int)
}

/// A holder's share of a reserve never exceeds the reserve itself.
proof fn lemma_share_bounded_by_reserve(share: u128, reserve: u128, supply: u128)
    requires
        share <= supply,
        supply > 0,
    ensures
        0 <= spec_burn_amount(share, reserve, supply) <= reserve,
{
    vstd::arithmetic::div_mod::lemma_div_pos_is_pos(share * reserve, supply as int);
    assert(share * reserve <= supply * reserve) by (nonlinear_arith)
        requires
            share <= supply,
            reserve >= 0,
    ;
    vstd::arithmetic::div_mod::lemma_div_is_ordered(
        share * reserve,
        supply * reserve,
        supply as int,
    );
    assert(supply * reserve / (supply as int) == reserve) by (nonlinear_arith)
        requires
            supply > 0,
    ;
}

/// One side of the round trip: burning `l` freshly minted shares against
/// the grown reserve pays back within one unit of the deposit.
proof fn lemma_burn_side(amount: int, supply: int, reserve: int, l: int)
    requires
        supply >= 1,
        reserve >= 1,
        l >= 1,
        amount >= 0,
        l * reserve <= amount * supply,
        amount * supply <= l * reserve + reserve - 1,
        reserve <= supply + l,
    ensures
        amount - 1 <= (l * (reserve + amount)) / (supply + l) <= amount + 1,
{
    let num = l * (reserve + amount);
    let den = supply + l;
    assert(num <= (amount + 1) * den && num >= (amount - 1) * den) by (nonlinear_arith)
        requires
            num == l * (reserve + amount),
            den == supply + l,
            l * reserve <= amount * supply,
            amount * supply <= l * reserve + reserve - 1,
            reserve <= supply + l,
            supply >= 1,
            reserve >= 1,
            l >= 1,
            amount >= 0,
    ;
    vstd::arithmetic::div_mod::lemma_div_is_ordered(num, (amount + 1) * den, den);
    vstd::arithmetic::div_mod::lemma_div_is_ordered((amount - 1) * den, num, den);
    assert(((amount + 1) * den) / den == amount + 1 && ((amount - 1) * den) / den == amount - 1)
        by (nonlinear_arith)
        requires
            den >= 1,
    ;
}

/// Minting a balanced deposit and immediately burning every minted share —
/// same reserves, no swap in between — pays back each side within one unit
/// of what was deposited.
///
/// `supply`, `reserve0`, `reserve1` describe the pool before the deposit.
/// The deposit must be balanced (both sides value it at the same share
/// count, and at least one share), and each reserve must not exceed the
/// supply backing the pool after the mint: with coarser shares than reserve
/// units, the floor rounding can swallow more than one unit.
pub proof fn lemma_mint_burn_round_trip(
    amount0: u128,
    amount1: u128,
    supply: u128,
    reserve0: u128,
    reserve1: u128,
)
    requires
        supply > 0,
        reserve0 > 0,
        reserve1 > 0,
        amount0 * supply / (reserve0 as int) == amount1 * supply / (reserve1 as int),
        spec_proportional_liquidity(amount0, amount1, supply, reserve0, reserve1) >= 1,
        reserve0 <= supply + spec_proportional_liquidity(
            amount0,
            amount1,
            supply,
            reserve0,
            reserve1,
        ),
        reserve1 <= supply + spec_proportional_liquidity(
            amount0,
            amount1,
            supply,
            reserve0,
            reserve1,
        ),
    ensures
        ({
            let minted = spec_proportional_liquidity(amount0, amount1, supply, reserve0, reserve1);
            let back0 = (minted * (reserve0 + amount0)) / (supply + minted);
            let back1 = (minted * (reserve1 + amount1)) / (supply + minted);
            &&& amount0 - 1 <= back0 <= amount0 + 1
            &&& amount1 - 1 <= back1 <= amount1 + 1
        }),
{
    let minted = spec_proportional_liquidity(amount0, amount1, supply, reserve0, reserve1);
    lemma_fundamental_div_mod(amount0 * supply, reserve0 as int);
    lemma_mod_division_less_than_divisor(amount0 * supply, reserve0 as int);
    lemma_fundamental_div_mod(amount1 * supply, reserve1 as int);
    lemma_mod_division_less_than_divisor(amount1 * supply, reserve1 as int);
    assert(minted * reserve0 <= amount0 * supply) by (nonlinear_arith)
        requires
            minted == (amount0 * supply) / (reserve0 as int),
            amount0 * supply == (reserve0 as int) * minted + (amount0 * supply) % (reserve0 as int),
            0 <= (amount0 * supply) % (reserve0 as int),
    ;
    assert(amount0 * supply <= minted * reserve0 + reserve0 - 1) by (nonlinear_arith)
        requires
            amount0 * supply == (reserve0 as int) * minted + (amount0 * supply) % (reserve0 as int),
            (amount0 * supply) % (reserve0 as int) < reserve0,
    ;
    assert(minted * reserve1 <= amount1 * supply) by (nonlinear_arith)
        requires
            minted == (amount1 * supply) / (reserve1 as int),
            amount1 * supply == (reserve1 as int) * minted + (amount1 * supply) % (reserve1 as int),
            0 <= (amount1 * supply) % (reserve1 as int),
    ;
    assert(amount1 * supply <= minted * reserve1 + reserve1 - 1) by (nonlinear_arith)
        requires
            amount1 * supply == (reserve1 as int) * minted + (amount1 * supply) % (reserve1 as int),
            (amount1 * supply) % (reserve1 as int) < reserve1,
    ;
    assert(amount0 >= 0 && amount1 >= 0);
    lemma_burn_side(amount0 as int, supply as int, reserve0 as int, minted);
    lemma_burn_side(amount1 as int, supply as int, reserve1 as int, minted);
}

/// The swap output for the given input and reserves, as the pool's query
/// interface reports it.
pub fn query_get_amountout(msg: &AmountOutParams) -> (r: Result<u128, math::MathError>)
    ensures
        r == math::spec_amount_out_checked(msg.amount_in, msg.reserve_in, msg.reserve_out),
{
    math::amount_out(msg.amount_in, msg.reserve_in, msg.reserve_out)
}

/// The swap input needed for the given output and reserves, as the pool's
/// query interface reports it.
pub fn query_get_amountin(msg: &AmountInParams) -> (r: Result<u128, math::MathError>)
    ensures
        r == math::spec_amount_in_checked(msg.amount_out, msg.reserve_in, msg.reserve_out),
{
    math::amount_in(msg.amount_out, msg.reserve_in, msg.reserve_out)
}

} // verus!
