//! The reward/burn engine: computes a reward from a tier's rates and an
//! effort score, burns a tenth of it, and records each (match, player)
//! execution exactly once.

use crate::primitives::{keccak256, keccak_digest, Address, FixedBytes};
use crate::reward_tiers::{RewardTiers, RewardTiersView, TierError, TierEvent};
use crate::table::{read, Table};
use crate::u256::{modulus, U256};
use vstd::prelude::*;

verus! {

/// Why an engine operation was refused.
#[derive(Clone, Copy, Debug, PartialEq, Eq, Structural)]
pub enum BurnError {
    /// The tier id is outside the catalog's range.
    InvalidTier,
    /// The effort score is above 100.
    InvalidEffortScore,
    /// The caller is neither the oracle nor the administrator.
    Unauthorized,
    /// A burn for this (match, player) was already executed.
    AlreadyExecuted,
}

/// The record of one executed burn.
#[derive(Clone, Copy, Debug, PartialEq, Eq)]
pub struct BurnTransaction {
    pub match_id: FixedBytes<32>,
    pub player: Address,
    pub burn_amount: U256,
    pub reward_amount: U256,
    pub tier: u8,
    pub effort_score: U256,
    pub timestamp: U256,
    pub executed: bool,
}

impl BurnTransaction {
    /// The record that a key reads as before any burn was executed for it.
    pub open spec fn spec_zero() -> BurnTransaction {
        BurnTransaction {
            match_id: FixedBytes::<32>::zero(),
            player: Address::zero(),
            burn_amount: U256::zero(),
            reward_amount: U256::zero(),
            tier: 0,
            effort_score: U256::zero(),
            timestamp: U256::zero(),
            executed: false,
        }
    }

    /// The record that a key reads as before any burn was executed for it.
    #[verifier::when_used_as_spec(spec_zero)]
    pub fn zero() -> (t: BurnTransaction)
        ensures
            t == Self::spec_zero(),
    {
        BurnTransaction {
            match_id: FixedBytes::<32>::zero(),
            player: Address::zero(),
            burn_amount: U256::zero(),
            reward_amount: U256::zero(),
            tier: 0,
            effort_score: U256::zero(),
            timestamp: U256::zero(),
            executed: false,
        }
    }
}

/// An audit record of the engine.
#[derive(Clone, Copy, Debug, PartialEq, Eq)]
pub enum BurnEvent {
    RewardCalculated {
        player: Address,
        tier: u8,
        base_reward: U256,
        effort_multiplier: U256,
        final_reward: U256,
    },
    TokensBurned {
        match_id: FixedBytes<32>,
        player: Address,
        burn_amount: U256,
        reward_amount: U256,
        tier: u8,
    },
}

/// The reward for a base reward, an effort score and a multiplier scaled by
/// ten: the base is first scaled by effort over 100, then by the multiplier
/// over 10, multiplying before dividing and rounding down.  Each product is
/// taken modulo 2^256, as 256-bit arithmetic does.
pub open spec fn reward_formula(base_reward: nat, effort_score: nat, multiplier: nat) -> nat {
    ((((base_reward * effort_score) % modulus()) / 100) * multiplier % modulus()) / 10
}

/// The part of a reward that is burned: a tenth, rounded down.
pub open spec fn burn_share(reward: nat) -> nat {
    reward / 10
}

/// Where no product reaches 2^256 the reward is plain integer arithmetic.
pub proof fn lemma_reward_without_overflow(base_reward: nat, effort_score: nat, multiplier: nat)
    requires
        base_reward * effort_score < modulus(),
        ((base_reward * effort_score) / 100) * multiplier < modulus(),
    ensures
        reward_formula(base_reward, effort_score, multiplier) == ((base_reward * effort_score)
            / 100) * multiplier / 10,
{
    vstd::arithmetic::div_mod::lemma_small_mod(base_reward * effort_score, modulus());
    vstd::arithmetic::div_mod::lemma_small_mod(
        ((base_reward * effort_score) / 100) * multiplier,
        modulus(),
    );
}

/// The byte string of length 32 with the given bytes.
pub closed spec fn bytes32(bytes: Seq<u8>) -> FixedBytes<32> {
    choose|b: FixedBytes<32>| b@ == bytes
}

/// A 32-byte string is the one that `bytes32` names for its bytes.
pub proof fn lemma_bytes32(b: FixedBytes<32>)
    ensures
        bytes32(b@) == b,
{
    let c = bytes32(b@);
    assert(c@ == b@);
    assert(c.bytes =~= b.bytes);
}

/// The key under which the burn for a (match, player) pair is recorded: the
/// Keccak-256 digest of the match identifier followed by the player's
/// address.
pub open spec fn transaction_key(match_id: FixedBytes<32>, player: Address) -> FixedBytes<32> {
    bytes32(keccak256(match_id@ + player@))
}

/// The engine as a mathematical value.
pub struct BurnView {
    pub token_contract: Address,
    pub oracle_contract: Address,
    /// The tier catalog the engine reads its rates from; its owner is the
    /// engine's administrator.
    pub catalog: RewardTiersView,
    pub total_burned: U256,
    pub total_rewards_distributed: U256,
    pub player_total_rewards: Map<Address, U256>,
    pub player_total_burned: Map<Address, U256>,
    pub burn_transactions: Map<FixedBytes<32>, BurnTransaction>,
    /// The audit log, oldest first.
    pub events: Seq<BurnEvent>,
}

impl BurnView {
    /// The administrator.
    pub open spec fn owner(self) -> Address {
        self.catalog.owner
    }

    /// What `calculate_reward` answers: the tier is checked before the
    /// effort score.
    pub open spec fn reward_of(self, tier: u8, effort_score: U256) -> Result<U256, BurnError> {
        if !self.catalog.in_range(tier) {
            Err(BurnError::InvalidTier)
        } else if effort_score@ > 100 {
            Err(BurnError::InvalidEffortScore)
        } else {
            Ok(
                U256::from_nat(
                    reward_formula(
                        self.catalog.tiers[tier as int].base_reward@,
                        effort_score@,
                        self.catalog.tiers[tier as int].multiplier@,
                    ),
                ),
            )
        }
    }

    /// What `get_reward_tier` answers.
    pub open spec fn reward_tier_of(self, tier: u8) -> Result<(U256, U256), BurnError> {
        if !self.catalog.in_range(tier) {
            Err(BurnError::InvalidTier)
        } else {
            Ok(
                (
                    self.catalog.tiers[tier as int].multiplier,
                    self.catalog.tiers[tier as int].base_reward,
                ),
            )
        }
    }

    /// Whether `caller` may execute burns: the oracle or the administrator.
    pub open spec fn may_execute(self, caller: Address) -> bool {
        caller == self.oracle_contract || caller == self.owner()
    }

    /// The burn record that `key` reads as.
    pub open spec fn transaction_at(self, key: FixedBytes<32>) -> BurnTransaction {
        read(self.burn_transactions, key, BurnTransaction::zero())
    }

    /// The total reward that `player` reads as.
    pub open spec fn rewards_of(self, player: Address) -> U256 {
        read(self.player_total_rewards, player, U256::zero())
    }

    /// The total burn that `player` reads as.
    pub open spec fn burned_of(self, player: Address) -> U256 {
        read(self.player_total_burned, player, U256::zero())
    }

    /// What executing a burn under `key` answers: the burn and the reward,
    /// or the first of: caller not allowed, key already executed, tier out
    /// of range, effort score out of range.
    pub open spec fn execute_result(
        self,
        key: FixedBytes<32>,
        tier: u8,
        effort_score: U256,
        caller: Address,
    ) -> Result<(U256, U256), BurnError> {
        if !self.may_execute(caller) {
            Err(BurnError::Unauthorized)
        } else if self.transaction_at(key).executed {
            Err(BurnError::AlreadyExecuted)
        } else {
            match self.reward_of(tier, effort_score) {
                Err(e) => Err(e),
                Ok(reward) => Ok((U256::from_nat(burn_share(reward@)), reward)),
            }
        }
    }

    /// The engine after executing a burn under `key`: unchanged if the call
    /// is refused; else the record is written as executed, the four running
    /// totals grow by the burn and the reward (modulo 2^256), and the
    /// reward-calculated and tokens-burned records are logged in that order.
    pub open spec fn after_execute(
        self,
        key: FixedBytes<32>,
        match_id: FixedBytes<32>,
        player: Address,
        tier: u8,
        effort_score: U256,
        caller: Address,
        timestamp: u64,
    ) -> BurnView {
        match self.execute_result(key, tier, effort_score, caller) {
            Err(_) => self,
            Ok((burn, reward)) => BurnView {
                burn_transactions: self.burn_transactions.insert(
                    key,
                    BurnTransaction {
                        match_id,
                        player,
                        burn_amount: burn,
                        reward_amount: reward,
                        tier,
                        effort_score,
                        timestamp: U256::from_u64(timestamp),
                        executed: true,
                    },
                ),
                total_burned: U256::from_nat(self.total_burned@ + burn@),
                total_rewards_distributed: U256::from_nat(
                    self.total_rewards_distributed@ + reward@,
                ),
                player_total_rewards: self.player_total_rewards.insert(
                    player,
                    U256::from_nat(self.rewards_of(player)@ + reward@),
                ),
                player_total_burned: self.player_total_burned.insert(
                    player,
                    U256::from_nat(self.burned_of(player)@ + burn@),
                ),
                events: self.events.push(
                    BurnEvent::RewardCalculated {
                        player,
                        tier,
                        base_reward: self.catalog.tiers[tier as int].base_reward,
                        effort_multiplier: effort_score,
                        final_reward: reward,
                    },
                ).push(
                    BurnEvent::TokensBurned {
                        match_id,
                        player,
                        burn_amount: burn,
                        reward_amount: reward,
                        tier,
                    },
                ),
                ..self
            },
        }
    }

    /// What `update_tier` answers: the caller is checked before the tier.
    pub open spec fn update_tier_result(self, tier: u8, caller: Address) -> Result<(), BurnError> {
        match self.catalog.admin_check(tier, caller) {
            Ok(()) => Ok(()),
            Err(TierError::Unauthorized) => Err(BurnError::Unauthorized),
            Err(_) => Err(BurnError::InvalidTier),
        }
    }
}

/// A burn is executed at most once per key.  Once an execution under `key`
/// has succeeded, a second one under that key, with the same arguments or
/// any others, is refused: as already executed where the caller is
/// permitted, as unauthorized where not.  It leaves the engine, and so the
/// totals that the first execution raised by its burn and its reward, as
/// they were.
pub proof fn lemma_burn_executes_once(
    s: BurnView,
    key: FixedBytes<32>,
    match_id: FixedBytes<32>,
    player: Address,
    tier: u8,
    effort_score: U256,
    caller: Address,
    timestamp: u64,
    again_match_id: FixedBytes<32>,
    again_player: Address,
    again_tier: u8,
    again_effort_score: U256,
    again_caller: Address,
    again_timestamp: u64,
)
    requires
        s.execute_result(key, tier, effort_score, caller) is Ok,
    ensures
        ({
            let first = s.execute_result(key, tier, effort_score, caller);
            let once = s.after_execute(key, match_id, player, tier, effort_score, caller, timestamp);
            let twice = once.after_execute(
                key,
                again_match_id,
                again_player,
                again_tier,
                again_effort_score,
                again_caller,
                again_timestamp,
            );
            &&& once.total_burned == U256::from_nat(s.total_burned@ + first->Ok_0.0@)
            &&& once.total_rewards_distributed == U256::from_nat(
                s.total_rewards_distributed@ + first->Ok_0.1@,
            )
            &&& once.transaction_at(key).executed
            &&& once.execute_result(key, tier, effort_score, caller) == Err::<
                (U256, U256),
                BurnError,
            >(BurnError::AlreadyExecuted)
            &&& once.execute_result(key, again_tier, again_effort_score, again_caller) == if once.may_execute(
                again_caller,
            ) {
                Err::<(U256, U256), BurnError>(BurnError::AlreadyExecuted)
            } else {
                Err::<(U256, U256), BurnError>(BurnError::Unauthorized)
            }
            &&& twice == once
        }),
{
}

/// A refused execution changes nothing, and an accepted one only adds to
/// the audit log.
pub proof fn lemma_execute_is_atomic(
    s: BurnView,
    key: FixedBytes<32>,
    match_id: FixedBytes<32>,
    player: Address,
    tier: u8,
    effort_score: U256,
    caller: Address,
    timestamp: u64,
)
    ensures
        s.execute_result(key, tier, effort_score, caller) is Err ==> s.after_execute(
            key,
            match_id,
            player,
            tier,
            effort_score,
            caller,
            timestamp,
        ) == s,
        s.events.is_prefix_of(
            s.after_execute(key, match_id, player, tier, effort_score, caller, timestamp).events,
        ),
{
}

/// An executed burn record is never rewritten: whatever is executed next,
/// under whatever key, a record that is marked executed reads the same
/// afterwards.
pub proof fn lemma_executed_record_stays(
    s: BurnView,
    key: FixedBytes<32>,
    next_key: FixedBytes<32>,
    match_id: FixedBytes<32>,
    player: Address,
    tier: u8,
    effort_score: U256,
    caller: Address,
    timestamp: u64,
)
    requires
        s.transaction_at(key).executed,
    ensures
        s.after_execute(
            next_key,
            match_id,
            player,
            tier,
            effort_score,
            caller,
            timestamp,
        ).transaction_at(key) == s.transaction_at(key),
{
}

/// The reward/burn engine.
pub struct DeflatinaryBurn {
    token_contract: Address,
    oracle_contract: Address,
    catalog: RewardTiers,
    total_burned: U256,
    total_rewards_distributed: U256,
    player_total_rewards: Table<Address, U256>,
    player_total_burned: Table<Address, U256>,
    burn_transactions: Table<FixedBytes<32>, BurnTransaction>,
    events: Vec<BurnEvent>,
}

impl View for DeflatinaryBurn {
    type V = BurnView;

    closed spec fn view(&self) -> BurnView {
        BurnView {
            token_contract: self.token_contract,
            oracle_contract: self.oracle_contract,
            catalog: self.catalog@,
            total_burned: self.total_burned,
            total_rewards_distributed: self.total_rewards_distributed,
            player_total_rewards: self.player_total_rewards@,
            player_total_burned: self.player_total_burned@,
            burn_transactions: self.burn_transactions@,
            events: self.events@,
        }
    }
}

/// The reward for the given rates and effort score, in 256-bit arithmetic.
pub fn compute_reward(base_reward: &U256, effort_score: &U256, multiplier: &U256) -> (r: U256)
    ensures
        r == U256::from_nat(reward_formula(base_reward@, effort_score@, multiplier@)),
        r@ == reward_formula(base_reward@, effort_score@, multiplier@),
{
    let hundred = U256::from_u64(100);
    let ten = U256::from_u64(10);
    let effort_adjusted = base_reward.wrapping_mul(effort_score).wrapping_div(&hundred);
    let r = effort_adjusted.wrapping_mul(multiplier).wrapping_div(&ten);
    proof {
        U256::lemma_from_nat_view(r);
    }
    r
}

/// The part of a reward that is burned: a tenth, rounded down.
pub fn compute_burn(reward: &U256) -> (r: U256)
    ensures
        r == U256::from_nat(burn_share(reward@)),
        r@ == burn_share(reward@),
{
    let ten = U256::from_u64(10);
    reward.wrapping_div(&ten)
}

impl DeflatinaryBurn {
    /// The engine before initialisation: null identities, an uninitialised
    /// catalog, zero totals, no record and an empty log.
    pub fn new() -> (e: DeflatinaryBurn)
        ensures
            e@.token_contract == Address::zero(),
            e@.oracle_contract == Address::zero(),
            e@.catalog.owner == Address::zero(),
            e@.catalog.total_tiers == 0,
            e@.catalog.tiers.len() == 8,
            forall|i: int| 0 <= i < 8 ==> (#[trigger] e@.catalog.tiers[i]).is_blank(),
            e@.catalog.events == Seq::<TierEvent>::empty(),
            e@.total_burned == U256::zero(),
            e@.total_rewards_distributed == U256::zero(),
            e@.player_total_rewards == Map::<Address, U256>::empty(),
            e@.player_total_burned == Map::<Address, U256>::empty(),
            e@.burn_transactions == Map::<FixedBytes<32>, BurnTransaction>::empty(),
            e@.events == Seq::<BurnEvent>::empty(),
    {
        DeflatinaryBurn {
            token_contract: Address::zero(),
            oracle_contract: Address::zero(),
            catalog: RewardTiers::new(),
            total_burned: U256::zero(),
            total_rewards_distributed: U256::zero(),
            player_total_rewards: Table::new(),
            player_total_burned: Table::new(),
            burn_transactions: Table::new(),
            events: Vec::new(),
        }
    }

    /// The engine that holds the given identities, catalog, totals and
    /// records, with an empty log.
    pub fn restore(
        token_contract: Address,
        oracle_contract: Address,
        catalog: RewardTiers,
        total_burned: U256,
        total_rewards_distributed: U256,
        player_total_rewards: Table<Address, U256>,
        player_total_burned: Table<Address, U256>,
        burn_transactions: Table<FixedBytes<32>, BurnTransaction>,
    ) -> (e: DeflatinaryBurn)
        ensures
            e@ == (BurnView {
                token_contract,
                oracle_contract,
                catalog: catalog@,
                total_burned,
                total_rewards_distributed,
                player_total_rewards: player_total_rewards@,
                player_total_burned: player_total_burned@,
                burn_transactions: burn_transactions@,
                events: Seq::<BurnEvent>::empty(),
            }),
    {
        DeflatinaryBurn {
            token_contract,
            oracle_contract,
            catalog,
            total_burned,
            total_rewards_distributed,
            player_total_rewards,
            player_total_burned,
            burn_transactions,
            events: Vec::new(),
        }
    }

    /// Makes `caller` the administrator, records the token ledger's and the
    /// oracle's identities, seeds the tier catalog and zeroes the two global
    /// totals.  Records and per-player totals are left as they are.
    pub fn init(&mut self, token_contract: Address, oracle_contract: Address, caller: Address) -> (r:
        Result<(), BurnError>)
        ensures
            r is Ok,
            final(self)@.token_contract == token_contract,
            final(self)@.oracle_contract == oracle_contract,
            final(self)@.catalog.is_init_of(old(self)@.catalog, caller),
            final(self)@.total_burned == U256::zero(),
            final(self)@.total_rewards_distributed == U256::zero(),
            final(self)@.player_total_rewards == old(self)@.player_total_rewards,
            final(self)@.player_total_burned == old(self)@.player_total_burned,
            final(self)@.burn_transactions == old(self)@.burn_transactions,
            final(self)@.events == old(self)@.events,
    {
        self.token_contract = token_contract;
        self.oracle_contract = oracle_contract;
        self.total_burned = U256::zero();
        self.total_rewards_distributed = U256::zero();
        let _ = self.catalog.init(caller);
        Ok(())
    }

    /// The reward for a tier and an effort score.
    pub fn calculate_reward(&self, tier: u8, effort_score: U256) -> (r: Result<U256, BurnError>)
        ensures
            r == self@.reward_of(tier, effort_score),
    {
        match self.catalog.get_tier_rates(tier) {
            Err(_) => Err(BurnError::InvalidTier),
            Ok((multiplier, base_reward)) => {
                let hundred = U256::from_u64(100);
                if effort_score.gt(&hundred) {
                    return Err(BurnError::InvalidEffortScore);
                }
                Ok(compute_reward(&base_reward, &effort_score, &multiplier))
            },
        }
    }

    /// The key under which the burn for a (match, player) pair is recorded.
    pub fn compute_tx_id(match_id: &FixedBytes<32>, player: &Address) -> (key: FixedBytes<32>)
        ensures
            key == transaction_key(*match_id, *player),
            key@ == keccak256(match_id@ + player@),
    {
        let mut data = [0u8; 52];
        let mut i: usize = 0;
        while i < 32
            invariant
                i <= 32,
                forall|j: int| 0 <= j < i ==> data@[j] == match_id@[j],
            decreases 32 - i,
        {
            data[i] = match_id.bytes[i];
            i = i + 1;
        }
        let mut k: usize = 0;
        while k < 20
            invariant
                k <= 20,
                forall|j: int| 0 <= j < 32 ==> data@[j] == match_id@[j],
                forall|j: int| 0 <= j < k ==> data@[32 + j] == player@[j],
            decreases 20 - k,
        {
            data[32 + k] = player.bytes[k];
            k = k + 1;
        }
        assert(data@ =~= match_id@ + player@);
        let key = keccak_digest(data.as_slice());
        proof {
            lemma_bytes32(key);
        }
        key
    }

    /// Executes the burn for a player's performance in a match, once.
    pub fn burn_for_performance(
        &mut self,
        match_id: FixedBytes<32>,
        player: Address,
        tier: u8,
        effort_score: U256,
        caller: Address,
        timestamp: u64,
    ) -> (r: Result<(U256, U256), BurnError>)
        ensures
            r == old(self)@.execute_result(
                transaction_key(match_id, player),
                tier,
                effort_score,
                caller,
            ),
            final(self)@ == old(self)@.after_execute(
                transaction_key(match_id, player),
                match_id,
                player,
                tier,
                effort_score,
                caller,
                timestamp,
            ),
    {
        let tx_id = Self::compute_tx_id(&match_id, &player);
        self.execute_burn(tx_id, match_id, player, tier, effort_score, caller, timestamp)
    }

    /// Executes a burn under the given record key.
    pub fn execute_burn(
        &mut self,
        tx_id: FixedBytes<32>,
        match_id: FixedBytes<32>,
        player: Address,
        tier: u8,
        effort_score: U256,
        caller: Address,
        timestamp: u64,
    ) -> (r: Result<(U256, U256), BurnError>)
        ensures
            r == old(self)@.execute_result(tx_id, tier, effort_score, caller),
            final(self)@ == old(self)@.after_execute(
                tx_id,
                match_id,
                player,
                tier,
                effort_score,
                caller,
                timestamp,
            ),
    {
        if !caller.same(&self.oracle_contract) && !caller.same(&self.catalog.owner()) {
            return Err(BurnError::Unauthorized);
        }
        let existing = self.burn_transactions.get_or(&tx_id, BurnTransaction::zero());
        if existing.executed {
            return Err(BurnError::AlreadyExecuted);
        }
        let reward_amount = match self.calculate_reward(tier, effort_score) {
            Err(e) => {
                return Err(e);
            },
            Ok(reward) => reward,
        };
        let burn_amount = compute_burn(&reward_amount);
        let base_reward = match self.catalog.get_tier_rates(tier) {
            Err(_) => U256::zero(),
            Ok((_, base)) => base,
        };
        self.burn_transactions.set(
            tx_id,
            BurnTransaction {
                match_id,
                player,
                burn_amount,
                reward_amount,
                tier,
                effort_score,
                timestamp: U256::from_u64(timestamp),
                executed: true,
            },
        );
        self.total_burned = self.total_burned.wrapping_add(&burn_amount);
        self.total_rewards_distributed = self.total_rewards_distributed.wrapping_add(
            &reward_amount,
        );
        let player_rewards = self.player_total_rewards.get_or(&player, U256::zero());
        self.player_total_rewards.set(player, player_rewards.wrapping_add(&reward_amount));
        let player_burned = self.player_total_burned.get_or(&player, U256::zero());
        self.player_total_burned.set(player, player_burned.wrapping_add(&burn_amount));
        self.events.push(
            BurnEvent::RewardCalculated {
                player,
                tier,
                base_reward,
                effort_multiplier: effort_score,
                final_reward: reward_amount,
            },
        );
        self.events.push(
            BurnEvent::TokensBurned { match_id, player, burn_amount, reward_amount, tier },
        );
        Ok((burn_amount, reward_amount))
    }

    /// The multiplier and base reward of a tier.
    pub fn get_reward_tier(&self, tier: u8) -> (r: Result<(U256, U256), BurnError>)
        ensures
            r == self@.reward_tier_of(tier),
    {
        match self.catalog.get_tier_rates(tier) {
            Err(_) => Err(BurnError::InvalidTier),
            Ok(rates) => Ok(rates),
        }
    }

    /// Total burned so far.
    pub fn total_burned(&self) -> (r: Result<U256, BurnError>)
        ensures
            r == Ok::<U256, BurnError>(self@.total_burned),
    {
        Ok(self.total_burned)
    }

    /// Total rewards distributed so far.
    pub fn total_rewards(&self) -> (r: Result<U256, BurnError>)
        ensures
            r == Ok::<U256, BurnError>(self@.total_rewards_distributed),
    {
        Ok(self.total_rewards_distributed)
    }

    /// Total reward earned by a player.
    pub fn get_player_rewards(&self, player: Address) -> (r: Result<U256, BurnError>)
        ensures
            r == Ok::<U256, BurnError>(self@.rewards_of(player)),
    {
        Ok(self.player_total_rewards.get_or(&player, U256::zero()))
    }

    /// Total burned on a player's behalf.
    pub fn get_player_burned(&self, player: Address) -> (r: Result<U256, BurnError>)
        ensures
            r == Ok::<U256, BurnError>(self@.burned_of(player)),
    {
        Ok(self.player_total_burned.get_or(&player, U256::zero()))
    }

    /// Replaces a tier's multiplier and base reward in the catalog;
    /// administrator only.
    pub fn update_tier(&mut self, tier: u8, multiplier: U256, base_reward: U256, caller: Address) -> (r:
        Result<(), BurnError>)
        ensures
            r == old(self)@.update_tier_result(tier, caller),
            final(self)@ == (BurnView {
                catalog: old(self)@.catalog.after_update_tier(tier, multiplier, base_reward, caller),
                ..old(self)@
            }),
    {
        match self.catalog.update_tier(tier, multiplier, base_reward, caller) {
            Ok(()) => Ok(()),
            Err(TierError::Unauthorized) => Err(BurnError::Unauthorized),
            Err(_) => Err(BurnError::InvalidTier),
        }
    }

    /// Burn, reward, tier and executed flag recorded for a (match, player)
    /// pair.
    pub fn get_burn_transaction(&self, match_id: FixedBytes<32>, player: Address) -> (r: Result<
        (U256, U256, u8, bool),
        BurnError,
    >)
        ensures
            r == Ok::<(U256, U256, u8, bool), BurnError>(
                (
                    self@.transaction_at(transaction_key(match_id, player)).burn_amount,
                    self@.transaction_at(transaction_key(match_id, player)).reward_amount,
                    self@.transaction_at(transaction_key(match_id, player)).tier,
                    self@.transaction_at(transaction_key(match_id, player)).executed,
                ),
            ),
    {
        let tx_id = Self::compute_tx_id(&match_id, &player);
        let tx = self.burn_transaction_at(&tx_id);
        Ok((tx.burn_amount, tx.reward_amount, tx.tier, tx.executed))
    }

    /// The burn record held under a key.
    pub fn burn_transaction_at(&self, tx_id: &FixedBytes<32>) -> (tx: BurnTransaction)
        ensures
            tx == self@.transaction_at(*tx_id),
    {
        self.burn_transactions.get_or(tx_id, BurnTransaction::zero())
    }

    /// The administrator.
    pub fn owner(&self) -> (a: Address)
        ensures
            a == self@.owner(),
    {
        self.catalog.owner()
    }

    /// The token ledger the burns are meant for.
    pub fn token_contract(&self) -> (a: Address)
        ensures
            a == self@.token_contract,
    {
        self.token_contract
    }

    /// The oracle, which may execute burns.
    pub fn oracle_contract(&self) -> (a: Address)
        ensures
            a == self@.oracle_contract,
    {
        self.oracle_contract
    }

    /// The tier catalog.
    pub fn catalog(&self) -> (c: &RewardTiers)
        ensures
            c@ == self@.catalog,
    {
        &self.catalog
    }

    /// The audit log, oldest record first.
    pub fn events(&self) -> (log: &Vec<BurnEvent>)
        ensures
            log@ == self@.events,
    {
        &self.events
    }
}

} // verus!
