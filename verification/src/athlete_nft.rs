//! Athlete profiles: one token per athlete, whose three skill scores
//! (power, speed, accuracy) are recomputed from the athlete's running
//! totals after every certified match result, together with a plain
//! ownership registry for the tokens.

use crate::primitives::{Address, FixedBytes};
use crate::table::{read, Table};
use crate::u256::{modulus, wrapped_difference, U256};
use vstd::prelude::*;

verus! {

/// Why a registry operation was refused.
#[derive(Clone, Copy, Debug, PartialEq, Eq, Structural)]
pub enum NftError {
    /// No such token, or no active profile under that token.
    TokenDoesNotExist,
    /// The token is not owned by the address it is to be moved from.
    NotTokenOwner,
    /// The caller is neither owner, approved, nor operator.
    NotAuthorized,
    /// The athlete already has a profile.
    AlreadyHasProfile,
    /// A null identity where none is allowed, or an operator approving
    /// itself.
    InvalidAddress,
    /// The caller is neither the oracle nor the administrator.
    Unauthorized,
}

/// The smaller of two numbers.
pub open spec fn min_nat(a: nat, b: nat) -> nat {
    if a <= b {
        a
    } else {
        b
    }
}

/// The larger of two numbers.
pub open spec fn max_nat(a: nat, b: nat) -> nat {
    if a >= b {
        a
    } else {
        b
    }
}

/// Power: average runs per match plus half the best single-match score,
/// capped at 100; 50 while no match was played.
pub open spec fn power_formula(matches_played: nat, total_runs: nat, highest_score: nat) -> nat {
    if matches_played == 0 {
        50
    } else {
        min_nat(100, total_runs / matches_played + highest_score / 2)
    }
}

/// Speed: a tenth of the total runs, read as 50 below 20 and capped at 100.
pub open spec fn speed_formula(total_runs: nat) -> nat {
    let speed = total_runs / 10;
    if speed > 100 {
        100
    } else if speed < 20 {
        50
    } else {
        speed
    }
}

/// Accuracy: 50 plus ten times the average wickets per match, capped at
/// 100; 50 while no match was played.
pub open spec fn accuracy_formula(matches_played: nat, total_wickets: nat) -> nat {
    if matches_played == 0 {
        50
    } else {
        min_nat(100, 50 + 10 * (total_wickets / matches_played))
    }
}

/// The three scores lie between 0 and 100 whatever the totals are.
pub proof fn lemma_scores_bounded(
    matches_played: nat,
    total_runs: nat,
    highest_score: nat,
    total_wickets: nat,
)
    ensures
        0 <= power_formula(matches_played, total_runs, highest_score) <= 100,
        0 <= speed_formula(total_runs) <= 100,
        0 <= accuracy_formula(matches_played, total_wickets) <= 100,
{
}

/// With no match played, power and accuracy are 50 whatever the other
/// totals are.
pub proof fn lemma_scores_without_matches(total_runs: nat, highest_score: nat, total_wickets: nat)
    ensures
        power_formula(0, total_runs, highest_score) == 50,
        accuracy_formula(0, total_wickets) == 50,
{
}

/// Speed never goes down as the total runs grow, once it has left its
/// floor of 50 (from 200 runs on).
pub proof fn lemma_speed_monotonic(total_runs: nat, more_runs: nat)
    requires
        200 <= total_runs <= more_runs,
    ensures
        speed_formula(total_runs) <= speed_formula(more_runs),
{
}

/// The numbers of one athlete profile.
#[derive(Clone, Copy, Debug, PartialEq, Eq)]
pub struct AthleteStats {
    pub athlete: Address,
    pub power: U256,
    pub speed: U256,
    pub accuracy: U256,
    pub matches_played: U256,
    pub total_runs: U256,
    pub total_wickets: U256,
    pub highest_score: U256,
    pub best_bowling: U256,
    pub last_updated: U256,
    pub is_active: bool,
}

impl AthleteStats {
    /// What a token reads as before a profile is minted under it.
    pub open spec fn spec_zero() -> AthleteStats {
        AthleteStats {
            athlete: Address::zero(),
            power: U256::zero(),
            speed: U256::zero(),
            accuracy: U256::zero(),
            matches_played: U256::zero(),
            total_runs: U256::zero(),
            total_wickets: U256::zero(),
            highest_score: U256::zero(),
            best_bowling: U256::zero(),
            last_updated: U256::zero(),
            is_active: false,
        }
    }

    /// What a token reads as before a profile is minted under it.
    #[verifier::when_used_as_spec(spec_zero)]
    pub fn zero() -> (s: AthleteStats)
        ensures
            s == Self::spec_zero(),
    {
        AthleteStats {
            athlete: Address::zero(),
            power: U256::zero(),
            speed: U256::zero(),
            accuracy: U256::zero(),
            matches_played: U256::zero(),
            total_runs: U256::zero(),
            total_wickets: U256::zero(),
            highest_score: U256::zero(),
            best_bowling: U256::zero(),
            last_updated: U256::zero(),
            is_active: false,
        }
    }

    /// A freshly minted profile: the three scores at 50, all totals and
    /// bests at zero, active.
    pub open spec fn spec_fresh(athlete: Address, timestamp: u64) -> AthleteStats {
        AthleteStats {
            athlete,
            power: U256::from_u64(50),
            speed: U256::from_u64(50),
            accuracy: U256::from_u64(50),
            matches_played: U256::zero(),
            total_runs: U256::zero(),
            total_wickets: U256::zero(),
            highest_score: U256::zero(),
            best_bowling: U256::zero(),
            last_updated: U256::from_u64(timestamp),
            is_active: true,
        }
    }

    /// A freshly minted profile.
    #[verifier::when_used_as_spec(spec_fresh)]
    pub fn fresh(athlete: Address, timestamp: u64) -> (s: AthleteStats)
        ensures
            s == Self::spec_fresh(athlete, timestamp),
    {
        AthleteStats {
            athlete,
            power: U256::from_u64(50),
            speed: U256::from_u64(50),
            accuracy: U256::from_u64(50),
            matches_played: U256::zero(),
            total_runs: U256::zero(),
            total_wickets: U256::zero(),
            highest_score: U256::zero(),
            best_bowling: U256::zero(),
            last_updated: U256::from_u64(timestamp),
            is_active: true,
        }
    }

    /// The profile after one more certified match result: the match count
    /// and the two totals grow (modulo 2^256), the two bests are raised
    /// where the result exceeds them, and the three scores are recomputed
    /// from the new totals.
    pub open spec fn after_match(self, runs: U256, wickets: U256, timestamp: u64) -> AthleteStats {
        let matches_played = U256::from_nat(self.matches_played@ + 1);
        let total_runs = U256::from_nat(self.total_runs@ + runs@);
        let total_wickets = U256::from_nat(self.total_wickets@ + wickets@);
        let highest_score = if runs@ > self.highest_score@ {
            runs
        } else {
            self.highest_score
        };
        let best_bowling = if wickets@ > self.best_bowling@ {
            wickets
        } else {
            self.best_bowling
        };
        AthleteStats {
            athlete: self.athlete,
            power: U256::from_nat(power_formula(matches_played@, total_runs@, highest_score@)),
            speed: U256::from_nat(speed_formula(total_runs@)),
            accuracy: U256::from_nat(accuracy_formula(matches_played@, total_wickets@)),
            matches_played,
            total_runs,
            total_wickets,
            highest_score,
            best_bowling,
            last_updated: U256::from_u64(timestamp),
            is_active: self.is_active,
        }
    }

    /// Power score of these totals.
    pub fn calculate_power(&self) -> (r: U256)
        ensures
            r@ == power_formula(self.matches_played@, self.total_runs@, self.highest_score@),
            r == U256::from_nat(
                power_formula(self.matches_played@, self.total_runs@, self.highest_score@),
            ),
            r@ <= 100,
    {
        let hundred = U256::from_u64(100);
        let r = if self.matches_played.is_zero() {
            U256::from_u64(50)
        } else {
            let avg_runs = self.total_runs.wrapping_div(&self.matches_played);
            let half_best = self.highest_score.wrapping_div(&U256::from_u64(2));
            if avg_runs.gt(&hundred) || half_best.gt(&hundred) {
                hundred
            } else {
                let power = avg_runs.wrapping_add(&half_best);
                proof {
                    U256::lemma_from_nat(avg_runs@ + half_best@);
                }
                if power.gt(&hundred) {
                    hundred
                } else {
                    power
                }
            }
        };
        proof {
            U256::lemma_from_nat_view(r);
        }
        r
    }

    /// Speed score of these totals.
    pub fn calculate_speed(&self) -> (r: U256)
        ensures
            r@ == speed_formula(self.total_runs@),
            r == U256::from_nat(speed_formula(self.total_runs@)),
            r@ <= 100,
    {
        let speed = self.total_runs.wrapping_div(&U256::from_u64(10));
        let r = if speed.gt(&U256::from_u64(100)) {
            U256::from_u64(100)
        } else if speed.lt(&U256::from_u64(20)) {
            U256::from_u64(50)
        } else {
            speed
        };
        proof {
            U256::lemma_from_nat_view(r);
        }
        r
    }

    /// Accuracy score of these totals.
    pub fn calculate_accuracy(&self) -> (r: U256)
        ensures
            r@ == accuracy_formula(self.matches_played@, self.total_wickets@),
            r == U256::from_nat(accuracy_formula(self.matches_played@, self.total_wickets@)),
            r@ <= 100,
    {
        let r = if self.matches_played.is_zero() {
            U256::from_u64(50)
        } else {
            let avg_wickets = self.total_wickets.wrapping_div(&self.matches_played);
            if avg_wickets.ge(&U256::from_u64(5)) {
                U256::from_u64(100)
            } else {
                let scaled = avg_wickets.wrapping_mul(&U256::from_u64(10));
                let accuracy = U256::from_u64(50).wrapping_add(&scaled);
                proof {
                    U256::lemma_from_nat(avg_wickets@ * 10);
                    U256::lemma_from_nat(50 + scaled@);
                }
                accuracy
            }
        };
        proof {
            U256::lemma_from_nat_view(r);
        }
        r
    }

    /// Applies one more certified match result to the profile.
    pub fn record_match(&self, runs: U256, wickets: U256, timestamp: u64) -> (s: AthleteStats)
        ensures
            s == self.after_match(runs, wickets, timestamp),
            s.power@ <= 100,
            s.speed@ <= 100,
            s.accuracy@ <= 100,
            s.highest_score@ >= self.highest_score@,
            s.best_bowling@ >= self.best_bowling@,
    {
        let one = U256::from_u64(1);
        let mut s = AthleteStats {
            athlete: self.athlete,
            power: self.power,
            speed: self.speed,
            accuracy: self.accuracy,
            matches_played: self.matches_played.wrapping_add(&one),
            total_runs: self.total_runs.wrapping_add(&runs),
            total_wickets: self.total_wickets.wrapping_add(&wickets),
            highest_score: if runs.gt(&self.highest_score) {
                runs
            } else {
                self.highest_score
            },
            best_bowling: if wickets.gt(&self.best_bowling) {
                wickets
            } else {
                self.best_bowling
            },
            last_updated: U256::from_u64(timestamp),
            is_active: self.is_active,
        };
        s.power = s.calculate_power();
        s.speed = s.calculate_speed();
        s.accuracy = s.calculate_accuracy();
        s
    }
}

/// One certified match result of a player.
pub struct MatchResult {
    pub runs: U256,
    pub wickets: U256,
    pub timestamp: u64,
}

/// The profile after a sequence of certified match results, oldest first.
pub open spec fn after_matches(stats: AthleteStats, results: Seq<MatchResult>) -> AthleteStats
    decreases results.len(),
{
    if results.len() == 0 {
        stats
    } else {
        after_matches(stats, results.drop_last()).after_match(
            results.last().runs,
            results.last().wickets,
            results.last().timestamp,
        )
    }
}

/// The highest runs of a sequence of results; zero for none.
pub open spec fn highest_runs(results: Seq<MatchResult>) -> nat
    decreases results.len(),
{
    if results.len() == 0 {
        0
    } else {
        max_nat(highest_runs(results.drop_last()), results.last().runs@)
    }
}

/// The highest wickets of a sequence of results; zero for none.
pub open spec fn highest_wickets(results: Seq<MatchResult>) -> nat
    decreases results.len(),
{
    if results.len() == 0 {
        0
    } else {
        max_nat(highest_wickets(results.drop_last()), results.last().wickets@)
    }
}

/// One more result never lowers a personal best, and leaves the three
/// scores between 0 and 100.
pub proof fn lemma_after_match(stats: AthleteStats, runs: U256, wickets: U256, timestamp: u64)
    ensures
        stats.after_match(runs, wickets, timestamp).highest_score@ == max_nat(
            stats.highest_score@,
            runs@,
        ),
        stats.after_match(runs, wickets, timestamp).best_bowling@ == max_nat(
            stats.best_bowling@,
            wickets@,
        ),
        stats.after_match(runs, wickets, timestamp).highest_score@ >= stats.highest_score@,
        stats.after_match(runs, wickets, timestamp).best_bowling@ >= stats.best_bowling@,
        stats.after_match(runs, wickets, timestamp).power@ <= 100,
        stats.after_match(runs, wickets, timestamp).speed@ <= 100,
        stats.after_match(runs, wickets, timestamp).accuracy@ <= 100,
{
    let after = stats.after_match(runs, wickets, timestamp);
    lemma_scores_bounded(
        after.matches_played@,
        after.total_runs@,
        after.highest_score@,
        after.total_wickets@,
    );
    U256::lemma_from_nat(
        power_formula(after.matches_played@, after.total_runs@, after.highest_score@),
    );
    U256::lemma_from_nat(speed_formula(after.total_runs@));
    U256::lemma_from_nat(accuracy_formula(after.matches_played@, after.total_wickets@));
}

/// The match count and the two totals never go down as long as they stay
/// below 2^256: one more result raises the count by one and each total by
/// what the result adds.
pub proof fn lemma_totals_grow(stats: AthleteStats, runs: U256, wickets: U256, timestamp: u64)
    requires
        stats.matches_played@ + 1 < modulus(),
        stats.total_runs@ + runs@ < modulus(),
        stats.total_wickets@ + wickets@ < modulus(),
    ensures
        stats.after_match(runs, wickets, timestamp).matches_played@ == stats.matches_played@ + 1,
        stats.after_match(runs, wickets, timestamp).total_runs@ == stats.total_runs@ + runs@,
        stats.after_match(runs, wickets, timestamp).total_wickets@ == stats.total_wickets@
            + wickets@,
{
    U256::lemma_from_nat(stats.matches_played@ + 1);
    U256::lemma_from_nat(stats.total_runs@ + runs@);
    U256::lemma_from_nat(stats.total_wickets@ + wickets@);
}

/// After any sequence of certified results, each personal best is the
/// largest single-match value seen so far (counting the best the profile
/// started with), and the three scores lie between 0 and 100 if they did at
/// the start.
pub proof fn lemma_after_matches(stats: AthleteStats, results: Seq<MatchResult>)
    ensures
        after_matches(stats, results).highest_score@ == max_nat(
            stats.highest_score@,
            highest_runs(results),
        ),
        after_matches(stats, results).best_bowling@ == max_nat(
            stats.best_bowling@,
            highest_wickets(results),
        ),
        results.len() > 0 || (stats.power@ <= 100 && stats.speed@ <= 100 && stats.accuracy@
            <= 100) ==> after_matches(stats, results).power@ <= 100 && after_matches(
            stats,
            results,
        ).speed@ <= 100 && after_matches(stats, results).accuracy@ <= 100,
    decreases results.len(),
{
    if results.len() > 0 {
        lemma_after_matches(stats, results.drop_last());
        lemma_after_match(
            after_matches(stats, results.drop_last()),
            results.last().runs,
            results.last().wickets,
            results.last().timestamp,
        );
    }
}

/// For a freshly minted profile the personal bests after any sequence of
/// certified results are exactly the largest single-match values seen, and
/// the three scores lie between 0 and 100.
pub proof fn lemma_fresh_profile_bests(athlete: Address, minted_at: u64, results: Seq<MatchResult>)
    ensures
        after_matches(AthleteStats::fresh(athlete, minted_at), results).highest_score@
            == highest_runs(results),
        after_matches(AthleteStats::fresh(athlete, minted_at), results).best_bowling@
            == highest_wickets(results),
        after_matches(AthleteStats::fresh(athlete, minted_at), results).power@ <= 100,
        after_matches(AthleteStats::fresh(athlete, minted_at), results).speed@ <= 100,
        after_matches(AthleteStats::fresh(athlete, minted_at), results).accuracy@ <= 100,
{
    lemma_after_matches(AthleteStats::fresh(athlete, minted_at), results);
}

/// Personal bests never go down: the best after a longer sequence of
/// results is at least the best after any of its prefixes.
pub proof fn lemma_bests_monotonic(stats: AthleteStats, results: Seq<MatchResult>, shorter: int)
    requires
        0 <= shorter <= results.len(),
    ensures
        after_matches(stats, results.subrange(0, shorter)).highest_score@ <= after_matches(
            stats,
            results,
        ).highest_score@,
        after_matches(stats, results.subrange(0, shorter)).best_bowling@ <= after_matches(
            stats,
            results,
        ).best_bowling@,
    decreases results.len(),
{
    if shorter == results.len() {
        assert(results.subrange(0, shorter) =~= results);
    } else {
        assert(results.drop_last().subrange(0, shorter) =~= results.subrange(0, shorter));
        lemma_bests_monotonic(stats, results.drop_last(), shorter);
        lemma_after_match(
            after_matches(stats, results.drop_last()),
            results.last().runs,
            results.last().wickets,
            results.last().timestamp,
        );
    }
}

/// An audit record of the registry.
#[allow(inconsistent_fields)]
#[derive(Debug, PartialEq, Eq)]
pub enum NftEvent {
    Transfer { from: Address, to: Address, token_id: U256 },
    Approval { owner: Address, approved: Address, token_id: U256 },
    ApprovalForAll { owner: Address, operator: Address, approved: bool },
    AthleteProfileMinted { token_id: U256, athlete: Address, name: String },
    StatsUpdated {
        token_id: U256,
        power: U256,
        speed: U256,
        accuracy: U256,
        matches_played: U256,
    },
    MatchPerformanceRecorded {
        token_id: U256,
        match_id: FixedBytes<32>,
        runs: U256,
        wickets: U256,
    },
}

/// The registry as a mathematical value.
pub struct NftView {
    /// The administrator.
    pub owner: Address,
    pub oracle_contract: Address,
    pub name: Seq<char>,
    pub symbol: Seq<char>,
    pub next_token_id: U256,
    /// Token to owner.
    pub owners: Map<U256, Address>,
    /// Owner to number of tokens held.
    pub balances: Map<Address, U256>,
    /// Token to the address approved for it.
    pub token_approvals: Map<U256, Address>,
    /// (owner, operator) to whether the operator may move the owner's
    /// tokens.
    pub operator_approvals: Map<(Address, Address), bool>,
    /// Token to the numbers of its profile.
    pub athlete_stats: Map<U256, AthleteStats>,
    /// Token to the athlete's name.
    pub athlete_names: Map<U256, String>,
    /// Athlete to token; zero stands for none.
    pub athlete_to_token: Map<Address, U256>,
    pub total_minted: U256,
    /// The audit log, oldest first.
    pub events: Seq<NftEvent>,
}

impl NftView {
    /// The owner a token reads as; the null identity where it has none.
    pub open spec fn owner_at(self, token_id: U256) -> Address {
        read(self.owners, token_id, Address::zero())
    }

    /// The number of tokens an address reads as holding.
    pub open spec fn balance_at(self, holder: Address) -> U256 {
        read(self.balances, holder, U256::zero())
    }

    /// The address approved for a token; the null identity where none is.
    pub open spec fn approved_at(self, token_id: U256) -> Address {
        read(self.token_approvals, token_id, Address::zero())
    }

    /// Whether `operator` may move all tokens of `holder`.
    pub open spec fn operator_at(self, holder: Address, operator: Address) -> bool {
        read(self.operator_approvals, (holder, operator), false)
    }

    /// The profile numbers a token reads as; all zero and inactive where
    /// none were written.
    pub open spec fn stats_at(self, token_id: U256) -> AthleteStats {
        read(self.athlete_stats, token_id, AthleteStats::zero())
    }

    /// The athlete's name under a token; empty where none was written.
    pub open spec fn name_at(self, token_id: U256) -> Seq<char> {
        if self.athlete_names.contains_key(token_id) {
            self.athlete_names[token_id]@
        } else {
            Seq::empty()
        }
    }

    /// The token an athlete reads as having; zero stands for none.
    pub open spec fn token_of(self, athlete: Address) -> U256 {
        read(self.athlete_to_token, athlete, U256::zero())
    }

    /// What `balance_of` answers.
    pub open spec fn balance_result(self, holder: Address) -> Result<U256, NftError> {
        if holder == Address::zero() {
            Err(NftError::InvalidAddress)
        } else {
            Ok(self.balance_at(holder))
        }
    }

    /// What `owner_of` answers.
    pub open spec fn owner_result(self, token_id: U256) -> Result<Address, NftError> {
        if self.owner_at(token_id) == Address::zero() {
            Err(NftError::TokenDoesNotExist)
        } else {
            Ok(self.owner_at(token_id))
        }
    }

    /// What `get_approved` answers.
    pub open spec fn approved_result(self, token_id: U256) -> Result<Address, NftError> {
        if self.owner_at(token_id) == Address::zero() {
            Err(NftError::TokenDoesNotExist)
        } else {
            Ok(self.approved_at(token_id))
        }
    }

    /// What `approve` answers: the token must exist, and the caller must be
    /// its owner or an operator of its owner.
    pub open spec fn approve_result(self, token_id: U256, caller: Address) -> Result<
        (),
        NftError,
    > {
        if self.owner_at(token_id) == Address::zero() {
            Err(NftError::TokenDoesNotExist)
        } else if caller != self.owner_at(token_id) && !self.operator_at(
            self.owner_at(token_id),
            caller,
        ) {
            Err(NftError::NotAuthorized)
        } else {
            Ok(())
        }
    }

    /// The registry after `approve`.
    pub open spec fn after_approve(self, to: Address, token_id: U256, caller: Address) -> NftView {
        if self.approve_result(token_id, caller) is Err {
            self
        } else {
            NftView {
                token_approvals: self.token_approvals.insert(token_id, to),
                events: self.events.push(
                    NftEvent::Approval { owner: self.owner_at(token_id), approved: to, token_id },
                ),
                ..self
            }
        }
    }

    /// What `set_approval_for_all` answers: nobody is their own operator.
    pub open spec fn operator_result(self, operator: Address, caller: Address) -> Result<
        (),
        NftError,
    > {
        if caller == operator {
            Err(NftError::InvalidAddress)
        } else {
            Ok(())
        }
    }

    /// The registry after `set_approval_for_all`.
    pub open spec fn after_set_approval_for_all(
        self,
        operator: Address,
        approved: bool,
        caller: Address,
    ) -> NftView {
        if self.operator_result(operator, caller) is Err {
            self
        } else {
            NftView {
                operator_approvals: self.operator_approvals.insert((caller, operator), approved),
                events: self.events.push(
                    NftEvent::ApprovalForAll { owner: caller, operator, approved },
                ),
                ..self
            }
        }
    }

    /// Whether `caller` may move a token: as its owner, as the address
    /// approved for it, or as an operator of its owner.
    pub open spec fn may_move(self, token_id: U256, caller: Address) -> bool {
        ||| caller == self.owner_at(token_id)
        ||| self.approved_at(token_id) == caller
        ||| self.operator_at(self.owner_at(token_id), caller)
    }

    /// What `transfer_from` answers; the checks come in this order.
    pub open spec fn transfer_result(
        self,
        from: Address,
        to: Address,
        token_id: U256,
        caller: Address,
    ) -> Result<(), NftError> {
        if self.owner_at(token_id) == Address::zero() {
            Err(NftError::TokenDoesNotExist)
        } else if self.owner_at(token_id) != from {
            Err(NftError::NotTokenOwner)
        } else if !self.may_move(token_id, caller) {
            Err(NftError::NotAuthorized)
        } else if to == Address::zero() {
            Err(NftError::InvalidAddress)
        } else {
            Ok(())
        }
    }

    /// The registry after a token moved from `from` to `to`: its approval
    /// is cleared, `from` holds one less and then `to` one more (modulo
    /// 2^256), `to` owns it, and the transfer is logged.
    pub open spec fn after_move(self, from: Address, to: Address, token_id: U256) -> NftView {
        let reduced = self.balances.insert(
            from,
            U256::from_nat(wrapped_difference(self.balance_at(from)@, 1)),
        );
        NftView {
            token_approvals: self.token_approvals.insert(token_id, Address::zero()),
            balances: reduced.insert(
                to,
                U256::from_nat(read(reduced, to, U256::zero())@ + 1),
            ),
            owners: self.owners.insert(token_id, to),
            events: self.events.push(NftEvent::Transfer { from, to, token_id }),
            ..self
        }
    }

    /// The registry after `transfer_from`.
    pub open spec fn after_transfer(
        self,
        from: Address,
        to: Address,
        token_id: U256,
        caller: Address,
    ) -> NftView {
        if self.transfer_result(from, to, token_id, caller) is Err {
            self
        } else {
            self.after_move(from, to, token_id)
        }
    }

    /// What `mint_athlete_profile` answers: the new token, unless the
    /// athlete already has one.
    pub open spec fn mint_result(self, athlete: Address) -> Result<U256, NftError> {
        if self.token_of(athlete)@ > 0 {
            Err(NftError::AlreadyHasProfile)
        } else {
            Ok(self.next_token_id)
        }
    }

    /// The registry after `mint_athlete_profile`: the next token is owned
    /// by the athlete and carries a fresh profile and the name; the two
    /// counters are one higher; the transfer from nobody and the minting
    /// are logged.
    pub open spec fn after_mint(self, athlete: Address, athlete_name: String, timestamp: u64) -> NftView {
        if self.mint_result(athlete) is Err {
            self
        } else {
            let token_id = self.next_token_id;
            NftView {
                owners: self.owners.insert(token_id, athlete),
                balances: self.balances.insert(
                    athlete,
                    U256::from_nat(self.balance_at(athlete)@ + 1),
                ),
                athlete_stats: self.athlete_stats.insert(
                    token_id,
                    AthleteStats::fresh(athlete, timestamp),
                ),
                athlete_names: self.athlete_names.insert(token_id, athlete_name),
                athlete_to_token: self.athlete_to_token.insert(athlete, token_id),
                next_token_id: U256::from_nat(token_id@ + 1),
                total_minted: U256::from_nat(self.total_minted@ + 1),
                events: self.events.push(
                    NftEvent::Transfer { from: Address::zero(), to: athlete, token_id },
                ).push(NftEvent::AthleteProfileMinted { token_id, athlete, name: athlete_name }),
                ..self
            }
        }
    }

    /// What `update_stats_from_match` answers: only the oracle and the
    /// administrator may report results.
    pub open spec fn update_result(self, caller: Address) -> Result<(), NftError> {
        if caller != self.oracle_contract && caller != self.owner {
            Err(NftError::Unauthorized)
        } else {
            Ok(())
        }
    }

    /// The registry after `update_stats_from_match`: the token's profile
    /// takes in the result, and the result and the new scores are logged.
    pub open spec fn after_update(
        self,
        token_id: U256,
        match_id: FixedBytes<32>,
        runs: U256,
        wickets: U256,
        caller: Address,
        timestamp: u64,
    ) -> NftView {
        if self.update_result(caller) is Err {
            self
        } else {
            let stats = self.stats_at(token_id).after_match(runs, wickets, timestamp);
            NftView {
                athlete_stats: self.athlete_stats.insert(token_id, stats),
                events: self.events.push(
                    NftEvent::MatchPerformanceRecorded { token_id, match_id, runs, wickets },
                ).push(
                    NftEvent::StatsUpdated {
                        token_id,
                        power: stats.power,
                        speed: stats.speed,
                        accuracy: stats.accuracy,
                        matches_played: stats.matches_played,
                    },
                ),
                ..self
            }
        }
    }

    /// What `get_athlete_stats` answers: power, speed, accuracy, matches
    /// played, total runs and total wickets of an active profile.
    pub open spec fn stats_result(self, token_id: U256) -> Result<
        (U256, U256, U256, U256, U256, U256),
        NftError,
    > {
        let s = self.stats_at(token_id);
        if !s.is_active {
            Err(NftError::TokenDoesNotExist)
        } else {
            Ok((s.power, s.speed, s.accuracy, s.matches_played, s.total_runs, s.total_wickets))
        }
    }

    /// Whether `r` is what `get_athlete_profile` answers: athlete, name,
    /// highest score and best bowling of an active profile.
    pub open spec fn is_profile_result(
        self,
        token_id: U256,
        r: Result<(Address, String, U256, U256), NftError>,
    ) -> bool {
        let s = self.stats_at(token_id);
        match r {
            Ok((athlete, name, highest_score, best_bowling)) => {
                &&& s.is_active
                &&& athlete == s.athlete
                &&& name@ == self.name_at(token_id)
                &&& highest_score == s.highest_score
                &&& best_bowling == s.best_bowling
            },
            Err(e) => !s.is_active && e == NftError::TokenDoesNotExist,
        }
    }
}

/// A match result reported by the oracle or the administrator is taken into
/// the profile of its token by `after_match`, and into no other profile.
pub proof fn lemma_update_applies_result(
    s: NftView,
    token_id: U256,
    match_id: FixedBytes<32>,
    runs: U256,
    wickets: U256,
    caller: Address,
    timestamp: u64,
    other_token: U256,
)
    requires
        s.update_result(caller) is Ok,
        other_token != token_id,
    ensures
        s.after_update(token_id, match_id, runs, wickets, caller, timestamp).stats_at(token_id)
            == s.stats_at(token_id).after_match(runs, wickets, timestamp),
        s.after_update(token_id, match_id, runs, wickets, caller, timestamp).stats_at(other_token)
            == s.stats_at(other_token),
{
}

/// A refused call changes nothing, and an accepted one only adds to the
/// audit log.
pub proof fn lemma_registry_calls_are_atomic(
    s: NftView,
    from: Address,
    to: Address,
    token_id: U256,
    match_id: FixedBytes<32>,
    runs: U256,
    wickets: U256,
    operator: Address,
    approved: bool,
    athlete: Address,
    athlete_name: String,
    caller: Address,
    timestamp: u64,
)
    ensures
        s.approve_result(token_id, caller) is Err ==> s.after_approve(to, token_id, caller) == s,
        s.operator_result(operator, caller) is Err ==> s.after_set_approval_for_all(
            operator,
            approved,
            caller,
        ) == s,
        s.transfer_result(from, to, token_id, caller) is Err ==> s.after_transfer(
            from,
            to,
            token_id,
            caller,
        ) == s,
        s.mint_result(athlete) is Err ==> s.after_mint(athlete, athlete_name, timestamp) == s,
        s.update_result(caller) is Err ==> s.after_update(
            token_id,
            match_id,
            runs,
            wickets,
            caller,
            timestamp,
        ) == s,
        s.events.is_prefix_of(s.after_approve(to, token_id, caller).events),
        s.events.is_prefix_of(s.after_set_approval_for_all(operator, approved, caller).events),
        s.events.is_prefix_of(s.after_transfer(from, to, token_id, caller).events),
        s.events.is_prefix_of(s.after_mint(athlete, athlete_name, timestamp).events),
        s.events.is_prefix_of(
            s.after_update(token_id, match_id, runs, wickets, caller, timestamp).events,
        ),
{
}

/// The athlete profile registry.
pub struct AthleteNFT {
    owner: Address,
    oracle_contract: Address,
    name: String,
    symbol: String,
    next_token_id: U256,
    owners: Table<U256, Address>,
    balances: Table<Address, U256>,
    token_approvals: Table<U256, Address>,
    operator_approvals: Table<(Address, Address), bool>,
    athlete_stats: Table<U256, AthleteStats>,
    athlete_names: Table<U256, String>,
    athlete_to_token: Table<Address, U256>,
    total_minted: U256,
    events: Vec<NftEvent>,
}

impl View for AthleteNFT {
    type V = NftView;

    closed spec fn view(&self) -> NftView {
        NftView {
            owner: self.owner,
            oracle_contract: self.oracle_contract,
            name: self.name@,
            symbol: self.symbol@,
            next_token_id: self.next_token_id,
            owners: self.owners@,
            balances: self.balances@,
            token_approvals: self.token_approvals@,
            operator_approvals: self.operator_approvals@,
            athlete_stats: self.athlete_stats@,
            athlete_names: self.athlete_names@,
            athlete_to_token: self.athlete_to_token@,
            total_minted: self.total_minted,
            events: self.events@,
        }
    }
}

impl AthleteNFT {
    /// The registry before initialisation: everything zero or empty.
    pub fn new() -> (n: AthleteNFT)
        ensures
            n@.owner == Address::zero(),
            n@.oracle_contract == Address::zero(),
            n@.name == Seq::<char>::empty(),
            n@.symbol == Seq::<char>::empty(),
            n@.next_token_id == U256::zero(),
            n@.owners == Map::<U256, Address>::empty(),
            n@.balances == Map::<Address, U256>::empty(),
            n@.token_approvals == Map::<U256, Address>::empty(),
            n@.operator_approvals == Map::<(Address, Address), bool>::empty(),
            n@.athlete_stats == Map::<U256, AthleteStats>::empty(),
            n@.athlete_names == Map::<U256, String>::empty(),
            n@.athlete_to_token == Map::<Address, U256>::empty(),
            n@.total_minted == U256::zero(),
            n@.events == Seq::<NftEvent>::empty(),
    {
        AthleteNFT {
            owner: Address::zero(),
            oracle_contract: Address::zero(),
            name: String::new(),
            symbol: String::new(),
            next_token_id: U256::zero(),
            owners: Table::new(),
            balances: Table::new(),
            token_approvals: Table::new(),
            operator_approvals: Table::new(),
            athlete_stats: Table::new(),
            athlete_names: Table::new(),
            athlete_to_token: Table::new(),
            total_minted: U256::zero(),
            events: Vec::new(),
        }
    }

    /// The registry that holds the given values and tables, with an empty
    /// log.
    pub fn restore(
        owner: Address,
        oracle_contract: Address,
        name: String,
        symbol: String,
        next_token_id: U256,
        total_minted: U256,
        owners: Table<U256, Address>,
        balances: Table<Address, U256>,
        token_approvals: Table<U256, Address>,
        operator_approvals: Table<(Address, Address), bool>,
        athlete_stats: Table<U256, AthleteStats>,
        athlete_names: Table<U256, String>,
        athlete_to_token: Table<Address, U256>,
    ) -> (n: AthleteNFT)
        ensures
            n@ == (NftView {
                owner,
                oracle_contract,
                name: name@,
                symbol: symbol@,
                next_token_id,
                owners: owners@,
                balances: balances@,
                token_approvals: token_approvals@,
                operator_approvals: operator_approvals@,
                athlete_stats: athlete_stats@,
                athlete_names: athlete_names@,
                athlete_to_token: athlete_to_token@,
                total_minted,
                events: Seq::<NftEvent>::empty(),
            }),
    {
        AthleteNFT {
            owner,
            oracle_contract,
            name,
            symbol,
            next_token_id,
            owners,
            balances,
            token_approvals,
            operator_approvals,
            athlete_stats,
            athlete_names,
            athlete_to_token,
            total_minted,
            events: Vec::new(),
        }
    }

    /// Makes `caller` the administrator, records the oracle, names the
    /// collection, and starts token ids at 1 and the minted count at 0.
    pub fn init(&mut self, oracle_contract: Address, caller: Address) -> (r: Result<(), NftError>)
        ensures
            r is Ok,
            final(self)@ == (NftView {
                owner: caller,
                oracle_contract,
                name: "Sports Performance Athlete Profile"@,
                symbol: "ATHLETE"@,
                next_token_id: U256::from_u64(1),
                total_minted: U256::zero(),
                ..old(self)@
            }),
    {
        self.owner = caller;
        self.oracle_contract = oracle_contract;
        self.name = "Sports Performance Athlete Profile".to_string();
        self.symbol = "ATHLETE".to_string();
        self.next_token_id = U256::from_u64(1);
        self.total_minted = U256::zero();
        Ok(())
    }

    /// Number of tokens held by an address.
    pub fn balance_of(&self, owner: Address) -> (r: Result<U256, NftError>)
        ensures
            r == self@.balance_result(owner),
    {
        if owner.is_zero() {
            return Err(NftError::InvalidAddress);
        }
        Ok(self.balances.get_or(&owner, U256::zero()))
    }

    /// The owner of a token.
    pub fn owner_of(&self, token_id: U256) -> (r: Result<Address, NftError>)
        ensures
            r == self@.owner_result(token_id),
    {
        let owner = self.owners.get_or(&token_id, Address::zero());
        if owner.is_zero() {
            return Err(NftError::TokenDoesNotExist);
        }
        Ok(owner)
    }

    /// The collection's name.
    pub fn name(&self) -> (r: Result<String, NftError>)
        ensures
            r matches Ok(s) && s@ == self@.name,
    {
        Ok(self.name.clone())
    }

    /// The collection's symbol.
    pub fn symbol(&self) -> (r: Result<String, NftError>)
        ensures
            r matches Ok(s) && s@ == self@.symbol,
    {
        Ok(self.symbol.clone())
    }

    /// Approves `to` for one token; by its owner or an operator of its
    /// owner.
    pub fn approve(&mut self, to: Address, token_id: U256, caller: Address) -> (r: Result<
        (),
        NftError,
    >)
        ensures
            r == old(self)@.approve_result(token_id, caller),
            final(self)@ == old(self)@.after_approve(to, token_id, caller),
    {
        let owner = match self.owner_of(token_id) {
            Err(e) => {
                return Err(e);
            },
            Ok(owner) => owner,
        };
        if !caller.same(&owner) && !self.operator_approvals.get_or(&(owner, caller), false) {
            return Err(NftError::NotAuthorized);
        }
        self.token_approvals.set(token_id, to);
        self.events.push(NftEvent::Approval { owner, approved: to, token_id });
        Ok(())
    }

    /// The address approved for a token.
    pub fn get_approved(&self, token_id: U256) -> (r: Result<Address, NftError>)
        ensures
            r == self@.approved_result(token_id),
    {
        if self.owners.get_or(&token_id, Address::zero()).is_zero() {
            return Err(NftError::TokenDoesNotExist);
        }
        Ok(self.token_approvals.get_or(&token_id, Address::zero()))
    }

    /// Lets or stops `operator` moving all of the caller's tokens.
    pub fn set_approval_for_all(&mut self, operator: Address, approved: bool, caller: Address) -> (r:
        Result<(), NftError>)
        ensures
            r == old(self)@.operator_result(operator, caller),
            final(self)@ == old(self)@.after_set_approval_for_all(operator, approved, caller),
    {
        if caller.same(&operator) {
            return Err(NftError::InvalidAddress);
        }
        self.operator_approvals.set((caller, operator), approved);
        self.events.push(NftEvent::ApprovalForAll { owner: caller, operator, approved });
        Ok(())
    }

    /// Whether `operator` may move all of `owner`'s tokens.
    pub fn is_approved_for_all(&self, owner: Address, operator: Address) -> (r: Result<
        bool,
        NftError,
    >)
        ensures
            r == Ok::<bool, NftError>(self@.operator_at(owner, operator)),
    {
        Ok(self.operator_approvals.get_or(&(owner, operator), false))
    }

    /// Moves a token from its owner to another address.
    pub fn transfer_from(&mut self, from: Address, to: Address, token_id: U256, caller: Address) -> (r:
        Result<(), NftError>)
        ensures
            r == old(self)@.transfer_result(from, to, token_id, caller),
            final(self)@ == old(self)@.after_transfer(from, to, token_id, caller),
    {
        let owner = match self.owner_of(token_id) {
            Err(e) => {
                return Err(e);
            },
            Ok(owner) => owner,
        };
        if !owner.same(&from) {
            return Err(NftError::NotTokenOwner);
        }
        let approved = self.token_approvals.get_or(&token_id, Address::zero());
        let is_authorized = caller.same(&owner) || approved.same(&caller)
            || self.operator_approvals.get_or(&(owner, caller), false);
        if !is_authorized {
            return Err(NftError::NotAuthorized);
        }
        self.transfer(from, to, token_id)
    }

    /// Mints the profile token of an athlete who has none.
    pub fn mint_athlete_profile(
        &mut self,
        athlete: Address,
        athlete_name: String,
        timestamp: u64,
    ) -> (r: Result<U256, NftError>)
        ensures
            r == old(self)@.mint_result(athlete),
            final(self)@ == old(self)@.after_mint(athlete, athlete_name, timestamp),
    {
        let existing_token = self.athlete_to_token.get_or(&athlete, U256::zero());
        if existing_token.gt(&U256::zero()) {
            return Err(NftError::AlreadyHasProfile);
        }
        let token_id = self.next_token_id;
        let one = U256::from_u64(1);
        self.owners.set(token_id, athlete);
        let balance = self.balances.get_or(&athlete, U256::zero());
        self.balances.set(athlete, balance.wrapping_add(&one));
        self.athlete_stats.set(token_id, AthleteStats::fresh(athlete, timestamp));
        self.athlete_names.set(token_id, athlete_name.clone());
        self.athlete_to_token.set(athlete, token_id);
        self.next_token_id = token_id.wrapping_add(&one);
        self.total_minted = self.total_minted.wrapping_add(&one);
        self.events.push(NftEvent::Transfer { from: Address::zero(), to: athlete, token_id });
        self.events.push(NftEvent::AthleteProfileMinted { token_id, athlete, name: athlete_name });
        Ok(token_id)
    }

    /// Takes one certified match result into a token's profile; oracle or
    /// administrator only.
    pub fn update_stats_from_match(
        &mut self,
        token_id: U256,
        match_id: FixedBytes<32>,
        runs: U256,
        wickets: U256,
        caller: Address,
        timestamp: u64,
    ) -> (r: Result<(), NftError>)
        ensures
            r == old(self)@.update_result(caller),
            final(self)@ == old(self)@.after_update(
                token_id,
                match_id,
                runs,
                wickets,
                caller,
                timestamp,
            ),
    {
        if !caller.same(&self.oracle_contract) && !caller.same(&self.owner) {
            return Err(NftError::Unauthorized);
        }
        let before = self.athlete_stats.get_or(&token_id, AthleteStats::zero());
        let stats = before.record_match(runs, wickets, timestamp);
        self.athlete_stats.set(token_id, stats);
        self.events.push(NftEvent::MatchPerformanceRecorded { token_id, match_id, runs, wickets });
        self.events.push(
            NftEvent::StatsUpdated {
                token_id,
                power: stats.power,
                speed: stats.speed,
                accuracy: stats.accuracy,
                matches_played: stats.matches_played,
            },
        );
        Ok(())
    }

    /// Power, speed, accuracy, matches played, total runs and total wickets
    /// of an active profile.
    pub fn get_athlete_stats(&self, token_id: U256) -> (r: Result<
        (U256, U256, U256, U256, U256, U256),
        NftError,
    >)
        ensures
            r == self@.stats_result(token_id),
    {
        let s = self.athlete_stats.get_or(&token_id, AthleteStats::zero());
        if !s.is_active {
            return Err(NftError::TokenDoesNotExist);
        }
        Ok((s.power, s.speed, s.accuracy, s.matches_played, s.total_runs, s.total_wickets))
    }

    /// Athlete, name, highest score and best bowling of an active profile.
    pub fn get_athlete_profile(&self, token_id: U256) -> (r: Result<
        (Address, String, U256, U256),
        NftError,
    >)
        ensures
            self@.is_profile_result(token_id, r),
    {
        let s = self.athlete_stats.get_or(&token_id, AthleteStats::zero());
        if !s.is_active {
            return Err(NftError::TokenDoesNotExist);
        }
        Ok((s.athlete, self.athlete_name(token_id), s.highest_score, s.best_bowling))
    }

    /// What the ownership table reads as for a token; the null identity
    /// where the token has no owner.
    pub fn token_owner(&self, token_id: U256) -> (a: Address)
        ensures
            a == self@.owner_at(token_id),
    {
        self.owners.get_or(&token_id, Address::zero())
    }

    /// What the approval table reads as for a token.
    pub fn token_approval(&self, token_id: U256) -> (a: Address)
        ensures
            a == self@.approved_at(token_id),
    {
        self.token_approvals.get_or(&token_id, Address::zero())
    }

    /// What the balance table reads as for an address, the null identity
    /// included.
    pub fn token_balance(&self, holder: Address) -> (b: U256)
        ensures
            b == self@.balance_at(holder),
    {
        self.balances.get_or(&holder, U256::zero())
    }

    /// The athlete's name under a token; empty where none was written.
    pub fn athlete_name(&self, token_id: U256) -> (name: String)
        ensures
            name@ == self@.name_at(token_id),
    {
        match self.athlete_names.get(&token_id) {
            Some(name) => name.clone(),
            None => String::new(),
        }
    }

    /// The oracle, which may report match results.
    pub fn oracle_contract(&self) -> (a: Address)
        ensures
            a == self@.oracle_contract,
    {
        self.oracle_contract
    }

    /// The numbers of the profile under a token.
    pub fn get_stats_record(&self, token_id: U256) -> (s: AthleteStats)
        ensures
            s == self@.stats_at(token_id),
    {
        self.athlete_stats.get_or(&token_id, AthleteStats::zero())
    }

    /// The next token id to be minted.
    pub fn next_token_id(&self) -> (id: U256)
        ensures
            id == self@.next_token_id,
    {
        self.next_token_id
    }

    /// The token of an athlete; zero stands for none.
    pub fn get_athlete_token_id(&self, athlete: Address) -> (r: Result<U256, NftError>)
        ensures
            r == Ok::<U256, NftError>(self@.token_of(athlete)),
    {
        Ok(self.athlete_to_token.get_or(&athlete, U256::zero()))
    }

    /// Number of profiles minted.
    pub fn total_supply(&self) -> (r: Result<U256, NftError>)
        ensures
            r == Ok::<U256, NftError>(self@.total_minted),
    {
        Ok(self.total_minted)
    }

    /// The administrator.
    pub fn owner(&self) -> (a: Address)
        ensures
            a == self@.owner,
    {
        self.owner
    }

    /// The audit log, oldest record first.
    pub fn events(&self) -> (log: &Vec<NftEvent>)
        ensures
            log@ == self@.events,
    {
        &self.events
    }

    /// Moves a token without asking who calls; only the null recipient is
    /// refused.
    fn transfer(&mut self, from: Address, to: Address, token_id: U256) -> (r: Result<(), NftError>)
        ensures
            to == Address::zero() ==> r == Err::<(), NftError>(NftError::InvalidAddress)
                && final(self)@ == old(self)@,
            to != Address::zero() ==> r == Ok::<(), NftError>(()) && final(self)@ == old(
                self,
            )@.after_move(from, to, token_id),
    {
        if to.is_zero() {
            return Err(NftError::InvalidAddress);
        }
        let one = U256::from_u64(1);
        self.token_approvals.set(token_id, Address::zero());
        let from_balance = self.balances.get_or(&from, U256::zero());
        self.balances.set(from, from_balance.wrapping_sub(&one));
        let to_balance = self.balances.get_or(&to, U256::zero());
        self.balances.set(to, to_balance.wrapping_add(&one));
        self.owners.set(token_id, to);
        self.events.push(NftEvent::Transfer { from, to, token_id });
        Ok(())
    }
}

} // verus!
