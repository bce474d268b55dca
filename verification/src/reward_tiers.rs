//! The reward-tier catalog: eight tier definitions, seeded at
//! initialisation, of which the administrator may change the multiplier, the
//! base reward and the active flag.

use crate::primitives::Address;
use crate::u256::U256;
use vstd::prelude::*;

verus! {

/// Tier id: fifty or more runs in a match.
pub const TIER_NIFTY_FIFTY: u8 = 0;

/// Tier id: a hundred or more runs at a strike rate above 150.
pub const TIER_GAYLE_STORM: u8 = 1;

/// Tier id: five or more wickets in a match.
pub const TIER_FIVE_WICKET_HAUL: u8 = 2;

/// Tier id: three wickets in three consecutive balls.
pub const TIER_HAT_TRICK: u8 = 3;

/// Tier id: three or more maiden overs.
pub const TIER_MAIDEN_MASTER: u8 = 4;

/// Tier id: a hundred and fifty or more runs in a match.
pub const TIER_RUN_MACHINE: u8 = 5;

/// Tier id: the best economy rate of the match.
pub const TIER_GOLDEN_ARM: u8 = 6;

/// Tier id: thirty or more runs and two or more wickets.
pub const TIER_ALL_ROUNDER: u8 = 7;

/// Number of tiers in an initialised catalog.
pub const TIER_COUNT: u8 = 8;

/// Why a catalog operation was refused.
#[derive(Clone, Copy, Debug, PartialEq, Eq, Structural)]
pub enum TierError {
    /// The tier id is outside the catalog's range.
    InvalidTier,
    /// The caller is not the administrator.
    Unauthorized,
    /// The tier exists but is switched off.
    TierNotActive,
}

/// One tier definition.
#[derive(Debug, PartialEq, Eq)]
pub struct TierConfig {
    pub tier_id: u8,
    pub name: String,
    pub description: String,
    /// Reward multiplier, scaled by ten (15 stands for 1.5).
    pub multiplier: U256,
    pub base_reward: U256,
    /// Least primary metric that qualifies for the tier.
    pub min_runs: U256,
    /// Least secondary metric that qualifies for the tier.
    pub min_wickets: U256,
    pub is_active: bool,
}

/// An audit record of a catalog change.
#[derive(Debug, PartialEq, Eq)]
pub enum TierEvent {
    TierConfigured { tier_id: u8, name: String, multiplier: U256, base_reward: U256 },
    TierUpdated { tier_id: u8, new_multiplier: U256, new_base_reward: U256 },
    TierActivated { tier_id: u8, active: bool },
}

/// The multiplier (scaled by ten) that initialisation gives a tier.
pub open spec fn seed_multiplier(tier: int) -> nat {
    if tier == 0 {
        15
    } else if tier == 1 {
        30
    } else if tier == 2 {
        25
    } else if tier == 3 {
        30
    } else if tier == 4 {
        15
    } else if tier == 5 {
        40
    } else if tier == 6 {
        13
    } else {
        20
    }
}

/// The base reward that initialisation gives a tier.
pub open spec fn seed_base_reward(tier: int) -> nat {
    if tier == 0 {
        50
    } else if tier == 1 {
        150
    } else if tier == 2 {
        100
    } else if tier == 3 {
        200
    } else if tier == 4 {
        30
    } else if tier == 5 {
        250
    } else if tier == 6 {
        40
    } else {
        120
    }
}

/// The primary-metric threshold that initialisation gives a tier.
pub open spec fn seed_min_runs(tier: int) -> nat {
    if tier == 0 {
        50
    } else if tier == 1 {
        100
    } else if tier == 5 {
        150
    } else if tier == 7 {
        30
    } else {
        0
    }
}

/// The secondary-metric threshold that initialisation gives a tier.
pub open spec fn seed_min_wickets(tier: int) -> nat {
    if tier == 2 {
        5
    } else if tier == 3 {
        3
    } else if tier == 6 {
        1
    } else if tier == 7 {
        2
    } else {
        0
    }
}

/// The name that initialisation gives a tier.
pub open spec fn seed_name(tier: int) -> Seq<char> {
    if tier == 0 {
        "Nifty Fifty"@
    } else if tier == 1 {
        "Gayle Storm"@
    } else if tier == 2 {
        "Five Wicket Haul"@
    } else if tier == 3 {
        "Hat Trick"@
    } else if tier == 4 {
        "Maiden Master"@
    } else if tier == 5 {
        "Run Machine"@
    } else if tier == 6 {
        "Golden Arm"@
    } else {
        "All Rounder"@
    }
}

/// The description that initialisation gives a tier.
pub open spec fn seed_description(tier: int) -> Seq<char> {
    if tier == 0 {
        "Scored 50+ runs in a match"@
    } else if tier == 1 {
        "Scored 100+ runs with SR > 150"@
    } else if tier == 2 {
        "Took 5+ wickets in a match"@
    } else if tier == 3 {
        "Took 3 wickets in 3 consecutive balls"@
    } else if tier == 4 {
        "Bowled 3+ maiden overs"@
    } else if tier == 5 {
        "Scored 150+ runs in a match"@
    } else if tier == 6 {
        "Best economy rate in match"@
    } else {
        "30+ runs and 2+ wickets"@
    }
}

impl TierConfig {
    /// Whether this is an active definition with the given id, texts and
    /// numbers.
    pub open spec fn is_configured_as(
        self,
        tier_id: u8,
        name: Seq<char>,
        description: Seq<char>,
        multiplier: nat,
        base_reward: nat,
        min_runs: nat,
        min_wickets: nat,
    ) -> bool {
        &&& self.tier_id == tier_id
        &&& self.name@ == name
        &&& self.description@ == description
        &&& self.multiplier@ == multiplier
        &&& self.base_reward@ == base_reward
        &&& self.min_runs@ == min_runs
        &&& self.min_wickets@ == min_wickets
        &&& self.is_active
    }

    /// Whether this is the definition that initialisation gives tier `tier`.
    pub open spec fn is_seed(self, tier: int) -> bool {
        self.is_configured_as(
            tier as u8,
            seed_name(tier),
            seed_description(tier),
            seed_multiplier(tier),
            seed_base_reward(tier),
            seed_min_runs(tier),
            seed_min_wickets(tier),
        )
    }

    /// Whether this is the definition of a tier that was never configured:
    /// everything zero, empty or false.
    pub open spec fn is_blank(self) -> bool {
        &&& self.tier_id == 0
        &&& self.name@ == Seq::<char>::empty()
        &&& self.description@ == Seq::<char>::empty()
        &&& self.multiplier@ == 0
        &&& self.base_reward@ == 0
        &&& self.min_runs@ == 0
        &&& self.min_wickets@ == 0
        &&& !self.is_active
    }

    /// The definition of a tier that was never configured.
    pub fn blank() -> (t: TierConfig)
        ensures
            t.is_blank(),
    {
        TierConfig {
            tier_id: 0,
            name: String::new(),
            description: String::new(),
            multiplier: U256::zero(),
            base_reward: U256::zero(),
            min_runs: U256::zero(),
            min_wickets: U256::zero(),
            is_active: false,
        }
    }
}

impl TierEvent {
    /// Whether this is the record of configuring a tier with these values.
    pub open spec fn is_configured_with(
        self,
        tier: u8,
        tier_name: Seq<char>,
        tier_multiplier: nat,
        tier_base_reward: nat,
    ) -> bool {
        &&& self matches TierEvent::TierConfigured { tier_id, name, multiplier, base_reward }
        &&& tier_id == tier
        &&& name@ == tier_name
        &&& multiplier@ == tier_multiplier
        &&& base_reward@ == tier_base_reward
    }
}

/// The catalog as a mathematical value.
pub struct RewardTiersView {
    /// The administrator.
    pub owner: Address,
    /// 0 before initialisation, 8 after.
    pub total_tiers: nat,
    /// The eight tier slots, by tier id.
    pub tiers: Seq<TierConfig>,
    /// The audit log, oldest first.
    pub events: Seq<TierEvent>,
}

impl RewardTiersView {
    /// Whether `tier_id` names a tier of the catalog.
    pub open spec fn in_range(self, tier_id: u8) -> bool {
        tier_id < self.total_tiers
    }

    /// What `get_tier_multiplier` answers.
    pub open spec fn multiplier_of(self, tier_id: u8) -> Result<(U256, U256), TierError> {
        if !self.in_range(tier_id) {
            Err(TierError::InvalidTier)
        } else if !self.tiers[tier_id as int].is_active {
            Err(TierError::TierNotActive)
        } else {
            Ok((self.tiers[tier_id as int].multiplier, self.tiers[tier_id as int].base_reward))
        }
    }

    /// What `get_tier_rates` answers.
    pub open spec fn rates_of(self, tier_id: u8) -> Result<(U256, U256), TierError> {
        if !self.in_range(tier_id) {
            Err(TierError::InvalidTier)
        } else {
            Ok((self.tiers[tier_id as int].multiplier, self.tiers[tier_id as int].base_reward))
        }
    }

    /// What `get_tier_requirements` answers.
    pub open spec fn requirements_of(self, tier_id: u8) -> Result<(U256, U256), TierError> {
        if !self.in_range(tier_id) {
            Err(TierError::InvalidTier)
        } else {
            Ok((self.tiers[tier_id as int].min_runs, self.tiers[tier_id as int].min_wickets))
        }
    }

    /// What `get_tier_details` answers.
    pub open spec fn details_of(self, tier_id: u8) -> Result<
        (String, String, U256, U256, bool),
        TierError,
    > {
        if !self.in_range(tier_id) {
            Err(TierError::InvalidTier)
        } else {
            let t = self.tiers[tier_id as int];
            Ok((t.name, t.description, t.multiplier, t.base_reward, t.is_active))
        }
    }

    /// What `is_tier_active` answers.
    pub open spec fn active_of(self, tier_id: u8) -> Result<bool, TierError> {
        if !self.in_range(tier_id) {
            Err(TierError::InvalidTier)
        } else {
            Ok(self.tiers[tier_id as int].is_active)
        }
    }

    /// What `get_tier_name` answers.
    pub open spec fn name_of(self, tier_id: u8) -> Result<String, TierError> {
        if !self.in_range(tier_id) {
            Err(TierError::InvalidTier)
        } else {
            Ok(self.tiers[tier_id as int].name)
        }
    }

    /// Whether an administrative change of `tier_id` by `caller` is allowed,
    /// and if not, why: the caller is checked before the tier id.
    pub open spec fn admin_check(self, tier_id: u8, caller: Address) -> Result<(), TierError> {
        if caller != self.owner {
            Err(TierError::Unauthorized)
        } else if !self.in_range(tier_id) {
            Err(TierError::InvalidTier)
        } else {
            Ok(())
        }
    }

    /// The catalog after `update_tier`: unchanged if the call is refused,
    /// else with the tier's two rates replaced and the change logged.
    pub open spec fn after_update_tier(
        self,
        tier_id: u8,
        multiplier: U256,
        base_reward: U256,
        caller: Address,
    ) -> RewardTiersView {
        if self.admin_check(tier_id, caller) is Err {
            self
        } else {
            RewardTiersView {
                tiers: self.tiers.update(
                    tier_id as int,
                    TierConfig { multiplier, base_reward, ..self.tiers[tier_id as int] },
                ),
                events: self.events.push(
                    TierEvent::TierUpdated {
                        tier_id,
                        new_multiplier: multiplier,
                        new_base_reward: base_reward,
                    },
                ),
                ..self
            }
        }
    }

    /// The catalog after `set_tier_active`: unchanged if the call is
    /// refused, else with the tier's flag replaced and the change logged.
    pub open spec fn after_set_tier_active(
        self,
        tier_id: u8,
        active: bool,
        caller: Address,
    ) -> RewardTiersView {
        if self.admin_check(tier_id, caller) is Err {
            self
        } else {
            RewardTiersView {
                tiers: self.tiers.update(
                    tier_id as int,
                    TierConfig { is_active: active, ..self.tiers[tier_id as int] },
                ),
                events: self.events.push(TierEvent::TierActivated { tier_id, active }),
                ..self
            }
        }
    }

    /// Whether `self` is what initialisation by `caller` makes of `before`:
    /// the caller administers, all eight tiers hold their seed values and
    /// are active, and eight configuration records, in tier order, were
    /// added to the log.
    pub open spec fn is_init_of(self, before: RewardTiersView, caller: Address) -> bool {
        &&& self.owner == caller
        &&& self.total_tiers == 8
        &&& self.tiers.len() == 8
        &&& forall|i: int| 0 <= i < 8 ==> (#[trigger] self.tiers[i]).is_seed(i)
        &&& self.events.len() == before.events.len() + 8
        &&& self.events.subrange(0, before.events.len() as int) == before.events
        &&& forall|i: int|
            0 <= i < 8 ==> (#[trigger] self.events[before.events.len() + i]).is_configured_with(
                i as u8,
                seed_name(i),
                seed_multiplier(i),
                seed_base_reward(i),
            )
    }
}

/// A refused administrative change changes nothing, and an accepted one
/// only adds to the audit log.
pub proof fn lemma_admin_calls_are_atomic(
    s: RewardTiersView,
    tier_id: u8,
    multiplier: U256,
    base_reward: U256,
    active: bool,
    caller: Address,
)
    ensures
        s.admin_check(tier_id, caller) is Err ==> s.after_update_tier(
            tier_id,
            multiplier,
            base_reward,
            caller,
        ) == s && s.after_set_tier_active(tier_id, active, caller) == s,
        s.events.is_prefix_of(
            s.after_update_tier(tier_id, multiplier, base_reward, caller).events,
        ),
        s.events.is_prefix_of(s.after_set_tier_active(tier_id, active, caller).events),
{
}

/// An administrative change touches one tier and, of that tier, only the
/// multiplier and the base reward (`update_tier`) or only the active flag
/// (`set_tier_active`): its id, name, description and thresholds, every
/// other tier, the administrator and the number of tiers stay as they were.
pub proof fn lemma_admin_changes_only_rates(
    s: RewardTiersView,
    tier_id: u8,
    multiplier: U256,
    base_reward: U256,
    active: bool,
    caller: Address,
)
    requires
        s.tiers.len() == 8,
        s.total_tiers <= 8,
    ensures
        ({
            let updated = s.after_update_tier(tier_id, multiplier, base_reward, caller);
            let switched = s.after_set_tier_active(tier_id, active, caller);
            &&& updated.owner == s.owner && switched.owner == s.owner
            &&& updated.total_tiers == s.total_tiers && switched.total_tiers == s.total_tiers
            &&& updated.tiers.len() == 8 && switched.tiers.len() == 8
            &&& forall|i: int|
                0 <= i < 8 && i != tier_id ==> updated.tiers[i] == s.tiers[i] && switched.tiers[i]
                    == s.tiers[i]
            &&& forall|i: int|
                #![trigger updated.tiers[i]]
                #![trigger switched.tiers[i]]
                0 <= i < 8 ==> {
                    &&& updated.tiers[i].tier_id == s.tiers[i].tier_id
                    &&& updated.tiers[i].name == s.tiers[i].name
                    &&& updated.tiers[i].description == s.tiers[i].description
                    &&& updated.tiers[i].min_runs == s.tiers[i].min_runs
                    &&& updated.tiers[i].min_wickets == s.tiers[i].min_wickets
                    &&& updated.tiers[i].is_active == s.tiers[i].is_active
                    &&& switched.tiers[i].tier_id == s.tiers[i].tier_id
                    &&& switched.tiers[i].name == s.tiers[i].name
                    &&& switched.tiers[i].description == s.tiers[i].description
                    &&& switched.tiers[i].min_runs == s.tiers[i].min_runs
                    &&& switched.tiers[i].min_wickets == s.tiers[i].min_wickets
                    &&& switched.tiers[i].multiplier == s.tiers[i].multiplier
                    &&& switched.tiers[i].base_reward == s.tiers[i].base_reward
                }
            &&& s.admin_check(tier_id, caller) is Ok ==> {
                &&& updated.tiers[tier_id as int].multiplier == multiplier
                &&& updated.tiers[tier_id as int].base_reward == base_reward
                &&& switched.tiers[tier_id as int].is_active == active
            }
        }),
{
}

/// The tier catalog.
pub struct RewardTiers {
    owner: Address,
    seeded: bool,
    tiers: [TierConfig; 8],
    events: Vec<TierEvent>,
}

impl View for RewardTiers {
    type V = RewardTiersView;

    closed spec fn view(&self) -> RewardTiersView {
        RewardTiersView {
            owner: self.owner,
            total_tiers: if self.seeded {
                8
            } else {
                0
            },
            tiers: self.tiers@,
            events: self.events@,
        }
    }
}

impl RewardTiers {
    /// A catalog always has eight slots, and either none or all of them are
    /// in range.
    pub proof fn lemma_shape(&self)
        ensures
            self@.tiers.len() == 8,
            self@.total_tiers == 0 || self@.total_tiers == 8,
    {
    }

    /// A tier id of 8 or more is refused as invalid by every lookup and
    /// every administrative change the administrator attempts, whatever
    /// state the catalog is in.
    pub proof fn lemma_out_of_range(&self, tier_id: u8, multiplier: U256, base_reward: U256)
        requires
            tier_id >= TIER_COUNT,
        ensures
            self@.multiplier_of(tier_id) == Err::<(U256, U256), TierError>(TierError::InvalidTier),
            self@.rates_of(tier_id) == Err::<(U256, U256), TierError>(TierError::InvalidTier),
            self@.requirements_of(tier_id) == Err::<(U256, U256), TierError>(
                TierError::InvalidTier,
            ),
            self@.details_of(tier_id) is Err,
            self@.active_of(tier_id) == Err::<bool, TierError>(TierError::InvalidTier),
            self@.name_of(tier_id) is Err,
            self@.admin_check(tier_id, self@.owner) == Err::<(), TierError>(
                TierError::InvalidTier,
            ),
            self@.after_update_tier(tier_id, multiplier, base_reward, self@.owner) == self@,
    {
        self.lemma_shape();
    }

    /// The catalog before initialisation: no administrator, no tier in
    /// range, every slot blank, nothing logged.
    pub fn new() -> (c: RewardTiers)
        ensures
            c@.owner == Address::zero(),
            c@.total_tiers == 0,
            c@.tiers.len() == 8,
            forall|i: int| 0 <= i < 8 ==> (#[trigger] c@.tiers[i]).is_blank(),
            c@.events == Seq::<TierEvent>::empty(),
    {
        RewardTiers {
            owner: Address::zero(),
            seeded: false,
            tiers: [
                TierConfig::blank(),
                TierConfig::blank(),
                TierConfig::blank(),
                TierConfig::blank(),
                TierConfig::blank(),
                TierConfig::blank(),
                TierConfig::blank(),
                TierConfig::blank(),
            ],
            events: Vec::new(),
        }
    }

    /// The catalog that holds the given administrator and tier slots, with
    /// all eight tiers in range if `initialised` and none otherwise, and an
    /// empty log.
    pub fn restore(owner: Address, initialised: bool, tiers: [TierConfig; 8]) -> (c: RewardTiers)
        ensures
            c@ == (RewardTiersView {
                owner,
                total_tiers: if initialised {
                    8
                } else {
                    0
                },
                tiers: tiers@,
                events: Seq::<TierEvent>::empty(),
            }),
    {
        RewardTiers { owner, seeded: initialised, tiers, events: Vec::new() }
    }

    /// Makes `caller` the administrator and seeds the eight tiers.
    pub fn init(&mut self, caller: Address) -> (r: Result<(), TierError>)
        ensures
            r is Ok,
            final(self)@.is_init_of(old(self)@, caller),
    {
        self.owner = caller;
        self.seeded = true;
        let ghost base = self.events@.len() as int;
        let _ = self.configure_tier(
            TIER_NIFTY_FIFTY,
            "Nifty Fifty",
            "Scored 50+ runs in a match",
            15,
            50,
            50,
            0,
        );
        let _ = self.configure_tier(
            TIER_GAYLE_STORM,
            "Gayle Storm",
            "Scored 100+ runs with SR > 150",
            30,
            150,
            100,
            0,
        );
        let _ = self.configure_tier(
            TIER_FIVE_WICKET_HAUL,
            "Five Wicket Haul",
            "Took 5+ wickets in a match",
            25,
            100,
            0,
            5,
        );
        let _ = self.configure_tier(
            TIER_HAT_TRICK,
            "Hat Trick",
            "Took 3 wickets in 3 consecutive balls",
            30,
            200,
            0,
            3,
        );
        let _ = self.configure_tier(
            TIER_MAIDEN_MASTER,
            "Maiden Master",
            "Bowled 3+ maiden overs",
            15,
            30,
            0,
            0,
        );
        let _ = self.configure_tier(
            TIER_RUN_MACHINE,
            "Run Machine",
            "Scored 150+ runs in a match",
            40,
            250,
            150,
            0,
        );
        let _ = self.configure_tier(
            TIER_GOLDEN_ARM,
            "Golden Arm",
            "Best economy rate in match",
            13,
            40,
            0,
            1,
        );
        let _ = self.configure_tier(
            TIER_ALL_ROUNDER,
            "All Rounder",
            "30+ runs and 2+ wickets",
            20,
            120,
            30,
            2,
        );
        proof {
            let s = self@;
            assert(s.events.len() == base + 8);
            assert(s.events.subrange(0, base) =~= old(self)@.events);
            assert forall|i: int| 0 <= i < 8 implies (#[trigger] s.tiers[i]).is_seed(i) by {}
            assert forall|i: int| 0 <= i < 8 implies (#[trigger] s.events[base
                + i]).is_configured_with(
                i as u8,
                seed_name(i),
                seed_multiplier(i),
                seed_base_reward(i),
            ) by {}
        }
        Ok(())
    }

    /// The multiplier and base reward of an active tier.
    pub fn get_tier_multiplier(&self, tier_id: u8) -> (r: Result<(U256, U256), TierError>)
        ensures
            r == self@.multiplier_of(tier_id),
    {
        if tier_id >= self.get_total_tiers() {
            return Err(TierError::InvalidTier);
        }
        let tier = &self.tiers[tier_id as usize];
        if !tier.is_active {
            return Err(TierError::TierNotActive);
        }
        Ok((tier.multiplier, tier.base_reward))
    }

    /// The multiplier and base reward of a tier, active or not.
    pub fn get_tier_rates(&self, tier_id: u8) -> (r: Result<(U256, U256), TierError>)
        ensures
            r == self@.rates_of(tier_id),
    {
        if tier_id >= self.get_total_tiers() {
            return Err(TierError::InvalidTier);
        }
        let tier = &self.tiers[tier_id as usize];
        Ok((tier.multiplier, tier.base_reward))
    }

    /// Name, description, multiplier, base reward and active flag of a tier.
    pub fn get_tier_details(&self, tier_id: u8) -> (r: Result<
        (String, String, U256, U256, bool),
        TierError,
    >)
        ensures
            r == self@.details_of(tier_id),
    {
        if tier_id >= self.get_total_tiers() {
            return Err(TierError::InvalidTier);
        }
        let tier = &self.tiers[tier_id as usize];
        Ok(
            (
                tier.name.clone(),
                tier.description.clone(),
                tier.multiplier,
                tier.base_reward,
                tier.is_active,
            ),
        )
    }

    /// The two eligibility thresholds of a tier.
    pub fn get_tier_requirements(&self, tier_id: u8) -> (r: Result<(U256, U256), TierError>)
        ensures
            r == self@.requirements_of(tier_id),
    {
        if tier_id >= self.get_total_tiers() {
            return Err(TierError::InvalidTier);
        }
        let tier = &self.tiers[tier_id as usize];
        Ok((tier.min_runs, tier.min_wickets))
    }

    /// Replaces a tier's multiplier and base reward; administrator only.
    pub fn update_tier(
        &mut self,
        tier_id: u8,
        multiplier: U256,
        base_reward: U256,
        caller: Address,
    ) -> (r: Result<(), TierError>)
        ensures
            r == old(self)@.admin_check(tier_id, caller),
            final(self)@ == old(self)@.after_update_tier(tier_id, multiplier, base_reward, caller),
    {
        if !caller.same(&self.owner) {
            return Err(TierError::Unauthorized);
        }
        if tier_id >= self.get_total_tiers() {
            return Err(TierError::InvalidTier);
        }
        self.tiers[tier_id as usize].multiplier = multiplier;
        self.tiers[tier_id as usize].base_reward = base_reward;
        self.events.push(
            TierEvent::TierUpdated {
                tier_id,
                new_multiplier: multiplier,
                new_base_reward: base_reward,
            },
        );
        proof {
            assert(self@.tiers =~= old(self)@.after_update_tier(
                tier_id,
                multiplier,
                base_reward,
                caller,
            ).tiers);
        }
        Ok(())
    }

    /// Switches a tier on or off; administrator only.
    pub fn set_tier_active(&mut self, tier_id: u8, active: bool, caller: Address) -> (r: Result<
        (),
        TierError,
    >)
        ensures
            r == old(self)@.admin_check(tier_id, caller),
            final(self)@ == old(self)@.after_set_tier_active(tier_id, active, caller),
    {
        if !caller.same(&self.owner) {
            return Err(TierError::Unauthorized);
        }
        if tier_id >= self.get_total_tiers() {
            return Err(TierError::InvalidTier);
        }
        self.tiers[tier_id as usize].is_active = active;
        self.events.push(TierEvent::TierActivated { tier_id, active });
        proof {
            assert(self@.tiers =~= old(self)@.after_set_tier_active(tier_id, active, caller).tiers);
        }
        Ok(())
    }

    /// Whether a tier is switched on.
    pub fn is_tier_active(&self, tier_id: u8) -> (r: Result<bool, TierError>)
        ensures
            r == self@.active_of(tier_id),
    {
        if tier_id >= self.get_total_tiers() {
            return Err(TierError::InvalidTier);
        }
        Ok(self.tiers[tier_id as usize].is_active)
    }

    /// Number of tiers in range: 0 before initialisation, 8 after.
    pub fn get_total_tiers(&self) -> (n: u8)
        ensures
            n == self@.total_tiers,
            n == 0 || n == TIER_COUNT,
    {
        if self.seeded {
            TIER_COUNT
        } else {
            0
        }
    }

    /// The name of a tier.
    pub fn get_tier_name(&self, tier_id: u8) -> (r: Result<String, TierError>)
        ensures
            r == self@.name_of(tier_id),
    {
        if tier_id >= self.get_total_tiers() {
            return Err(TierError::InvalidTier);
        }
        Ok(self.tiers[tier_id as usize].name.clone())
    }

    /// The administrator.
    pub fn owner(&self) -> (a: Address)
        ensures
            a == self@.owner,
    {
        self.owner
    }

    /// The audit log, oldest record first.
    pub fn events(&self) -> (log: &Vec<TierEvent>)
        ensures
            log@ == self@.events,
    {
        &self.events
    }

    /// Writes one tier definition, active, and logs it.
    fn configure_tier(
        &mut self,
        tier_id: u8,
        name: &str,
        description: &str,
        multiplier: u16,
        base_reward: u64,
        min_runs: u64,
        min_wickets: u64,
    ) -> (r: Result<(), TierError>)
        requires
            tier_id < 8,
        ensures
            r is Ok,
            final(self)@.owner == old(self)@.owner,
            final(self)@.total_tiers == old(self)@.total_tiers,
            final(self)@.tiers.len() == 8,
            final(self)@.tiers[tier_id as int].is_configured_as(
                tier_id,
                name@,
                description@,
                multiplier as nat,
                base_reward as nat,
                min_runs as nat,
                min_wickets as nat,
            ),
            forall|i: int|
                0 <= i < 8 && i != tier_id ==> final(self)@.tiers[i] == old(self)@.tiers[i],
            final(self)@.events.len() == old(self)@.events.len() + 1,
            final(self)@.events.subrange(0, old(self)@.events.len() as int) == old(self)@.events,
            final(self)@.events.last().is_configured_with(
                tier_id,
                name@,
                multiplier as nat,
                base_reward as nat,
            ),
    {
        let slot = tier_id as usize;
        self.tiers[slot].tier_id = tier_id;
        self.tiers[slot].name = name.to_string();
        self.tiers[slot].description = description.to_string();
        self.tiers[slot].multiplier = U256::from_u64(multiplier as u64);
        self.tiers[slot].base_reward = U256::from_u64(base_reward);
        self.tiers[slot].min_runs = U256::from_u64(min_runs);
        self.tiers[slot].min_wickets = U256::from_u64(min_wickets);
        self.tiers[slot].is_active = true;
        self.events.push(
            TierEvent::TierConfigured {
                tier_id,
                name: name.to_string(),
                multiplier: U256::from_u64(multiplier as u64),
                base_reward: U256::from_u64(base_reward),
            },
        );
        proof {
            assert(self@.events.subrange(0, old(self)@.events.len() as int) =~= old(self)@.events);
        }
        Ok(())
    }
}

} // verus!
