//! The match ledger: a match is registered by its organizer, collects
//! certified per-player performances while it is open, and is finalized
//! once, after which nothing about it changes.

use crate::primitives::{Address, FixedBytes};
use crate::table::{read, Table};
use crate::u256::{modulus, U256};
use vstd::prelude::*;

verus! {

/// Why a ledger operation was refused.
#[derive(Clone, Copy, Debug, PartialEq, Eq, Structural)]
pub enum OracleError {
    /// Registration of a match that is already finalized.
    DuplicateMatch,
    /// The match is finalized: it takes no performance and cannot be
    /// finalized again.
    AlreadyFinalized,
    /// The caller is not the organizer of the match (an unregistered match
    /// has none).
    Unauthorized,
    /// No certified performance is recorded for this (match, player).
    PlayerNotFound,
}

/// Where a match stands in its life.
#[derive(Clone, Copy, Debug, PartialEq, Eq, Structural)]
pub enum MatchState {
    Unregistered,
    Open,
    Finalized,
}

/// Metadata of one match.
#[derive(Clone, Copy, Debug, PartialEq, Eq)]
pub struct Match {
    pub match_id: FixedBytes<32>,
    pub organizer: Address,
    pub registered_at: U256,
    pub finalized_at: U256,
    pub is_finalized: bool,
    pub total_players: u8,
    /// Commitment hash over the complete match data.
    pub data_hash: FixedBytes<32>,
}

impl Match {
    /// What a match identifier reads as before it is registered.
    pub open spec fn spec_zero() -> Match {
        Match {
            match_id: FixedBytes::<32>::zero(),
            organizer: Address::zero(),
            registered_at: U256::zero(),
            finalized_at: U256::zero(),
            is_finalized: false,
            total_players: 0,
            data_hash: FixedBytes::<32>::zero(),
        }
    }

    /// What a match identifier reads as before it is registered.
    #[verifier::when_used_as_spec(spec_zero)]
    pub fn zero() -> (m: Match)
        ensures
            m == Self::spec_zero(),
    {
        Match {
            match_id: FixedBytes::<32>::zero(),
            organizer: Address::zero(),
            registered_at: U256::zero(),
            finalized_at: U256::zero(),
            is_finalized: false,
            total_players: 0,
            data_hash: FixedBytes::<32>::zero(),
        }
    }

    /// The record after registration by `caller`: open, with no players,
    /// organized by the caller.  A finalized record cannot be registered.
    pub open spec fn registered(
        self,
        match_id: FixedBytes<32>,
        caller: Address,
        timestamp: u64,
    ) -> Result<Match, OracleError> {
        if self.is_finalized {
            Err(OracleError::DuplicateMatch)
        } else {
            Ok(
                Match {
                    match_id,
                    organizer: caller,
                    registered_at: U256::from_u64(timestamp),
                    is_finalized: false,
                    total_players: 0,
                    ..self
                },
            )
        }
    }

    /// Whether `caller` may change this record, held (`registered`) or not
    /// in the ledger, as its organizer while it is open.  The organizer is
    /// checked before the finalized flag.
    pub open spec fn organizer_check(self, registered: bool, caller: Address) -> Result<
        (),
        OracleError,
    > {
        if !registered || self.organizer != caller {
            Err(OracleError::Unauthorized)
        } else if self.is_finalized {
            Err(OracleError::AlreadyFinalized)
        } else {
            Ok(())
        }
    }

    /// The record after finalization: locked, with the commitment hash, the
    /// player count and the time of finalization.
    pub open spec fn finalized(
        self,
        data_hash: FixedBytes<32>,
        player_count: u8,
        timestamp: u64,
    ) -> Match {
        Match {
            finalized_at: U256::from_u64(timestamp),
            is_finalized: true,
            data_hash,
            total_players: player_count,
            ..self
        }
    }

    /// Registers this record for `caller`.
    pub fn register(&self, match_id: FixedBytes<32>, caller: Address, timestamp: u64) -> (r: Result<
        Match,
        OracleError,
    >)
        ensures
            r == self.registered(match_id, caller, timestamp),
    {
        if self.is_finalized {
            return Err(OracleError::DuplicateMatch);
        }
        Ok(
            Match {
                match_id,
                organizer: caller,
                registered_at: U256::from_u64(timestamp),
                finalized_at: self.finalized_at,
                is_finalized: false,
                total_players: 0,
                data_hash: self.data_hash,
            },
        )
    }

    /// Decides whether `caller` may change this record as its organizer.
    pub fn check_organizer(&self, registered: bool, caller: &Address) -> (r: Result<
        (),
        OracleError,
    >)
        ensures
            r == self.organizer_check(registered, *caller),
    {
        if !registered || !self.organizer.same(caller) {
            return Err(OracleError::Unauthorized);
        }
        if self.is_finalized {
            return Err(OracleError::AlreadyFinalized);
        }
        Ok(())
    }

    /// Finalizes this record.
    pub fn finalize(&self, data_hash: FixedBytes<32>, player_count: u8, timestamp: u64) -> (m:
        Match)
        ensures
            m == self.finalized(data_hash, player_count, timestamp),
    {
        Match {
            match_id: self.match_id,
            organizer: self.organizer,
            registered_at: self.registered_at,
            finalized_at: U256::from_u64(timestamp),
            is_finalized: true,
            total_players: player_count,
            data_hash,
        }
    }
}

/// One player's certified performance in one match.
#[derive(Clone, Copy, Debug, PartialEq, Eq)]
pub struct PlayerPerformance {
    pub player: Address,
    pub runs_scored: U256,
    pub wickets_taken: U256,
    pub balls_faced: U256,
    pub balls_bowled: U256,
    /// Runs per hundred balls faced, rounded down.
    pub strike_rate: U256,
    pub tier: u8,
    pub effort_score: U256,
    pub verified: bool,
}

/// Runs per hundred balls, rounded down; zero when no ball was faced.  The
/// product is taken modulo 2^256, as 256-bit arithmetic does.
pub open spec fn strike_rate_formula(runs_scored: nat, balls_faced: nat) -> nat {
    if balls_faced > 0 {
        ((runs_scored * 100) % modulus()) / balls_faced
    } else {
        0
    }
}

/// Runs per hundred balls, rounded down; zero when no ball was faced.
pub fn compute_strike_rate(runs_scored: &U256, balls_faced: &U256) -> (r: U256)
    ensures
        r == U256::from_nat(strike_rate_formula(runs_scored@, balls_faced@)),
        r@ == strike_rate_formula(runs_scored@, balls_faced@),
{
    if balls_faced.is_zero() {
        U256::zero()
    } else {
        let hundred = U256::from_u64(100);
        let r = runs_scored.wrapping_mul(&hundred).wrapping_div(balls_faced);
        proof {
            U256::lemma_from_nat_view(r);
        }
        r
    }
}

impl PlayerPerformance {
    /// What a (match, player) pair reads as before a performance is
    /// recorded for it.
    pub open spec fn spec_zero() -> PlayerPerformance {
        PlayerPerformance {
            player: Address::zero(),
            runs_scored: U256::zero(),
            wickets_taken: U256::zero(),
            balls_faced: U256::zero(),
            balls_bowled: U256::zero(),
            strike_rate: U256::zero(),
            tier: 0,
            effort_score: U256::zero(),
            verified: false,
        }
    }

    /// What a (match, player) pair reads as before a performance is
    /// recorded for it.
    #[verifier::when_used_as_spec(spec_zero)]
    pub fn zero() -> (p: PlayerPerformance)
        ensures
            p == Self::spec_zero(),
    {
        PlayerPerformance {
            player: Address::zero(),
            runs_scored: U256::zero(),
            wickets_taken: U256::zero(),
            balls_faced: U256::zero(),
            balls_bowled: U256::zero(),
            strike_rate: U256::zero(),
            tier: 0,
            effort_score: U256::zero(),
            verified: false,
        }
    }

    /// The certified record of the given metrics.
    pub open spec fn spec_certified(
        player: Address,
        runs_scored: U256,
        wickets_taken: U256,
        balls_faced: U256,
        balls_bowled: U256,
        tier: u8,
        effort_score: U256,
    ) -> PlayerPerformance {
        PlayerPerformance {
            player,
            runs_scored,
            wickets_taken,
            balls_faced,
            balls_bowled,
            strike_rate: U256::from_nat(strike_rate_formula(runs_scored@, balls_faced@)),
            tier,
            effort_score,
            verified: true,
        }
    }

    /// The certified record of the given metrics, with its strike rate.
    #[verifier::when_used_as_spec(spec_certified)]
    pub fn certified(
        player: Address,
        runs_scored: U256,
        wickets_taken: U256,
        balls_faced: U256,
        balls_bowled: U256,
        tier: u8,
        effort_score: U256,
    ) -> (p: PlayerPerformance)
        ensures
            p == Self::spec_certified(
                player,
                runs_scored,
                wickets_taken,
                balls_faced,
                balls_bowled,
                tier,
                effort_score,
            ),
    {
        PlayerPerformance {
            player,
            runs_scored,
            wickets_taken,
            balls_faced,
            balls_bowled,
            strike_rate: compute_strike_rate(&runs_scored, &balls_faced),
            tier,
            effort_score,
            verified: true,
        }
    }
}

/// One line of the players' match history: `player` had a performance
/// recorded in `match_id`.
#[derive(Clone, Copy, Debug, PartialEq, Eq)]
pub struct HistoryEntry {
    pub player: Address,
    pub match_id: FixedBytes<32>,
}

/// The matches of one player, in the order their performances were
/// recorded.
pub open spec fn history_of(log: Seq<HistoryEntry>, player: Address) -> Seq<FixedBytes<32>>
    decreases log.len(),
{
    if log.len() == 0 {
        Seq::empty()
    } else if log.last().player == player {
        history_of(log.drop_last(), player).push(log.last().match_id)
    } else {
        history_of(log.drop_last(), player)
    }
}

/// Recording an entry appends its match to that player's history and
/// leaves every other player's history as it was.
pub proof fn lemma_history_push(log: Seq<HistoryEntry>, entry: HistoryEntry, player: Address)
    ensures
        history_of(log.push(entry), player) == if entry.player == player {
            history_of(log, player).push(entry.match_id)
        } else {
            history_of(log, player)
        },
{
    assert(log.push(entry).drop_last() =~= log);
}

/// An audit record of the ledger.
#[derive(Clone, Copy, Debug, PartialEq, Eq)]
pub enum OracleEvent {
    MatchRegistered { match_id: FixedBytes<32>, organizer: Address, timestamp: U256 },
    MatchFinalized { match_id: FixedBytes<32>, total_players: U256, timestamp: U256 },
    PerformanceRecorded {
        match_id: FixedBytes<32>,
        player: Address,
        tier: u8,
        effort_score: U256,
    },
}

/// The ledger as a mathematical value.
pub struct OracleView {
    /// The administrator.
    pub owner: Address,
    /// The matches registered so far.
    pub matches: Map<FixedBytes<32>, Match>,
    /// The performances recorded so far, by (match, player).
    pub performances: Map<(FixedBytes<32>, Address), PlayerPerformance>,
    /// Number of successful registrations, modulo 2^256.
    pub total_matches: U256,
    /// Every recorded performance as (player, match), oldest first.
    pub history: Seq<HistoryEntry>,
    /// The audit log, oldest first.
    pub events: Seq<OracleEvent>,
}

impl OracleView {
    /// The record that a match identifier reads as.
    pub open spec fn match_at(self, match_id: FixedBytes<32>) -> Match {
        read(self.matches, match_id, Match::zero())
    }

    /// The performance that a (match, player) pair reads as.
    pub open spec fn performance_at(
        self,
        match_id: FixedBytes<32>,
        player: Address,
    ) -> PlayerPerformance {
        read(self.performances, (match_id, player), PlayerPerformance::zero())
    }

    /// Where a match stands in its life.
    pub open spec fn state_of(self, match_id: FixedBytes<32>) -> MatchState {
        if self.match_at(match_id).is_finalized {
            MatchState::Finalized
        } else if self.matches.contains_key(match_id) {
            MatchState::Open
        } else {
            MatchState::Unregistered
        }
    }

    /// The ledger after `init`: `caller` administers and the registration
    /// count starts again at zero.
    pub open spec fn after_init(self, caller: Address) -> OracleView {
        OracleView { owner: caller, total_matches: U256::zero(), ..self }
    }

    /// What `register_match` answers.
    pub open spec fn register_result(
        self,
        match_id: FixedBytes<32>,
        caller: Address,
        timestamp: u64,
    ) -> Result<(), OracleError> {
        match self.match_at(match_id).registered(match_id, caller, timestamp) {
            Ok(_) => Ok(()),
            Err(e) => Err(e),
        }
    }

    /// The ledger after `register_match`: unchanged if refused; else the
    /// match is open under `caller`, the registration count is one higher
    /// and the registration is logged.
    pub open spec fn after_register(
        self,
        match_id: FixedBytes<32>,
        caller: Address,
        timestamp: u64,
    ) -> OracleView {
        match self.match_at(match_id).registered(match_id, caller, timestamp) {
            Err(_) => self,
            Ok(record) => OracleView {
                matches: self.matches.insert(match_id, record),
                total_matches: U256::from_nat(self.total_matches@ + 1),
                events: self.events.push(
                    OracleEvent::MatchRegistered {
                        match_id,
                        organizer: caller,
                        timestamp: U256::from_u64(timestamp),
                    },
                ),
                ..self
            },
        }
    }

    /// What `finalize_match` and `record_performance` answer: whether
    /// `caller` may change the match as its organizer while it is open.
    pub open spec fn organizer_result(self, match_id: FixedBytes<32>, caller: Address) -> Result<
        (),
        OracleError,
    > {
        self.match_at(match_id).organizer_check(self.matches.contains_key(match_id), caller)
    }

    /// The ledger after `finalize_match`: unchanged if refused; else the
    /// match is locked with its commitment hash and player count, and the
    /// finalization is logged.
    pub open spec fn after_finalize(
        self,
        match_id: FixedBytes<32>,
        data_hash: FixedBytes<32>,
        player_count: u8,
        caller: Address,
        timestamp: u64,
    ) -> OracleView {
        if self.organizer_result(match_id, caller) is Err {
            self
        } else {
            OracleView {
                matches: self.matches.insert(
                    match_id,
                    self.match_at(match_id).finalized(data_hash, player_count, timestamp),
                ),
                events: self.events.push(
                    OracleEvent::MatchFinalized {
                        match_id,
                        total_players: U256::from_u64(player_count as u64),
                        timestamp: U256::from_u64(timestamp),
                    },
                ),
                ..self
            }
        }
    }

    /// The ledger after `record_performance`: unchanged if refused; else
    /// the player's record for the match is replaced by the certified one,
    /// the match is appended to the player's history and the recording is
    /// logged.
    pub open spec fn after_record(
        self,
        match_id: FixedBytes<32>,
        player: Address,
        runs_scored: U256,
        wickets_taken: U256,
        balls_faced: U256,
        balls_bowled: U256,
        tier: u8,
        effort_score: U256,
        caller: Address,
    ) -> OracleView {
        if self.organizer_result(match_id, caller) is Err {
            self
        } else {
            OracleView {
                performances: self.performances.insert(
                    (match_id, player),
                    PlayerPerformance::certified(
                        player,
                        runs_scored,
                        wickets_taken,
                        balls_faced,
                        balls_bowled,
                        tier,
                        effort_score,
                    ),
                ),
                history: self.history.push(HistoryEntry { player, match_id }),
                events: self.events.push(
                    OracleEvent::PerformanceRecorded { match_id, player, tier, effort_score },
                ),
                ..self
            }
        }
    }

    /// What `get_player_performance` answers: runs, wickets, tier and
    /// effort score of a certified performance.
    pub open spec fn player_performance_of(
        self,
        match_id: FixedBytes<32>,
        player: Address,
    ) -> Result<(U256, U256, u8, U256), OracleError> {
        let p = self.performance_at(match_id, player);
        if !p.verified {
            Err(OracleError::PlayerNotFound)
        } else {
            Ok((p.runs_scored, p.wickets_taken, p.tier, p.effort_score))
        }
    }
}

/// One call that changes the ledger, with its arguments.
pub enum OracleCall {
    Init { caller: Address },
    Register { match_id: FixedBytes<32>, caller: Address, timestamp: u64 },
    Finalize {
        match_id: FixedBytes<32>,
        data_hash: FixedBytes<32>,
        player_count: u8,
        caller: Address,
        timestamp: u64,
    },
    Record {
        match_id: FixedBytes<32>,
        player: Address,
        runs_scored: U256,
        wickets_taken: U256,
        balls_faced: U256,
        balls_bowled: U256,
        tier: u8,
        effort_score: U256,
        caller: Address,
    },
}

impl OracleView {
    /// The ledger after one call.
    pub open spec fn after_call(self, call: OracleCall) -> OracleView {
        match call {
            OracleCall::Init { caller } => self.after_init(caller),
            OracleCall::Register { match_id, caller, timestamp } => self.after_register(
                match_id,
                caller,
                timestamp,
            ),
            OracleCall::Finalize {
                match_id,
                data_hash,
                player_count,
                caller,
                timestamp,
            } => self.after_finalize(match_id, data_hash, player_count, caller, timestamp),
            OracleCall::Record {
                match_id,
                player,
                runs_scored,
                wickets_taken,
                balls_faced,
                balls_bowled,
                tier,
                effort_score,
                caller,
            } => self.after_record(
                match_id,
                player,
                runs_scored,
                wickets_taken,
                balls_faced,
                balls_bowled,
                tier,
                effort_score,
                caller,
            ),
        }
    }

    /// The ledger after a sequence of calls, first call first.
    pub open spec fn after_calls(self, calls: Seq<OracleCall>) -> OracleView
        decreases calls.len(),
    {
        if calls.len() == 0 {
            self
        } else {
            self.after_calls(calls.drop_last()).after_call(calls.last())
        }
    }
}

/// A refused call changes nothing.
pub proof fn lemma_refused_calls_change_nothing(
    s: OracleView,
    match_id: FixedBytes<32>,
    data_hash: FixedBytes<32>,
    player_count: u8,
    player: Address,
    runs_scored: U256,
    wickets_taken: U256,
    balls_faced: U256,
    balls_bowled: U256,
    tier: u8,
    effort_score: U256,
    caller: Address,
    timestamp: u64,
)
    ensures
        s.register_result(match_id, caller, timestamp) is Err ==> s.after_register(
            match_id,
            caller,
            timestamp,
        ) == s,
        s.organizer_result(match_id, caller) is Err ==> s.after_finalize(
            match_id,
            data_hash,
            player_count,
            caller,
            timestamp,
        ) == s && s.after_record(
            match_id,
            player,
            runs_scored,
            wickets_taken,
            balls_faced,
            balls_bowled,
            tier,
            effort_score,
            caller,
        ) == s,
{
}

/// An accepted recording certifies the player's performance in the match,
/// appends the match to that player's history and leaves every other
/// player's history as it was.
pub proof fn lemma_record_extends_history(
    s: OracleView,
    match_id: FixedBytes<32>,
    player: Address,
    runs_scored: U256,
    wickets_taken: U256,
    balls_faced: U256,
    balls_bowled: U256,
    tier: u8,
    effort_score: U256,
    caller: Address,
    other_player: Address,
)
    requires
        s.organizer_result(match_id, caller) is Ok,
        other_player != player,
    ensures
        ({
            let after = s.after_record(
                match_id,
                player,
                runs_scored,
                wickets_taken,
                balls_faced,
                balls_bowled,
                tier,
                effort_score,
                caller,
            );
            &&& after.performance_at(match_id, player).verified
            &&& after.player_performance_of(match_id, player) == Ok::<
                (U256, U256, u8, U256),
                OracleError,
            >((runs_scored, wickets_taken, tier, effort_score))
            &&& history_of(after.history, player) == history_of(s.history, player).push(match_id)
            &&& history_of(after.history, other_player) == history_of(s.history, other_player)
        }),
{
    lemma_history_push(s.history, HistoryEntry { player, match_id }, player);
    lemma_history_push(s.history, HistoryEntry { player, match_id }, other_player);
}

/// How far a match has come in its life: 0 unregistered, 1 open, 2
/// finalized.
pub open spec fn progress(state: MatchState) -> nat {
    match state {
        MatchState::Unregistered => 0,
        MatchState::Open => 1,
        MatchState::Finalized => 2,
    }
}

/// A match only moves forward, one step at a time: a call leaves it where
/// it is, opens an unregistered match, or finalizes an open one.
pub proof fn lemma_state_advances_by_steps(
    s: OracleView,
    match_id: FixedBytes<32>,
    call: OracleCall,
)
    ensures
        progress(s.state_of(match_id)) <= progress(s.after_call(call).state_of(match_id))
            <= progress(s.state_of(match_id)) + 1,
{
}

/// A match never moves backward, whatever calls are made.
pub proof fn lemma_state_never_goes_back(
    s: OracleView,
    match_id: FixedBytes<32>,
    calls: Seq<OracleCall>,
)
    ensures
        progress(s.state_of(match_id)) <= progress(s.after_calls(calls).state_of(match_id)),
    decreases calls.len(),
{
    if calls.len() > 0 {
        lemma_state_never_goes_back(s, match_id, calls.drop_last());
        lemma_state_advances_by_steps(s.after_calls(calls.drop_last()), match_id, calls.last());
    }
}

/// A successful finalization locks the match: it is finalized under the
/// data given; from then on registering it again is refused as a duplicate,
/// and recording a performance in it or finalizing it again is refused, as
/// already finalized where the caller is its organizer and as unauthorized
/// where not.
pub proof fn lemma_finalize_locks(
    s: OracleView,
    match_id: FixedBytes<32>,
    data_hash: FixedBytes<32>,
    player_count: u8,
    caller: Address,
    timestamp: u64,
    later_caller: Address,
    later_timestamp: u64,
)
    requires
        s.organizer_result(match_id, caller) is Ok,
    ensures
        ({
            let locked = s.after_finalize(match_id, data_hash, player_count, caller, timestamp);
            &&& s.state_of(match_id) == MatchState::Open
            &&& locked.state_of(match_id) == MatchState::Finalized
            &&& locked.match_at(match_id).data_hash == data_hash
            &&& locked.match_at(match_id).total_players == player_count
            &&& locked.organizer_result(match_id, caller) == Err::<(), OracleError>(
                OracleError::AlreadyFinalized,
            )
            &&& locked.organizer_result(match_id, later_caller) == if later_caller == caller {
                Err::<(), OracleError>(OracleError::AlreadyFinalized)
            } else {
                Err::<(), OracleError>(OracleError::Unauthorized)
            }
            &&& locked.register_result(match_id, later_caller, later_timestamp) == Err::<
                (),
                OracleError,
            >(OracleError::DuplicateMatch)
        }),
{
}

/// No call changes a finalized match: its record and every performance
/// recorded in it read the same after the call, and no performance is added
/// to it.
pub proof fn lemma_finalized_survives_call(
    s: OracleView,
    match_id: FixedBytes<32>,
    call: OracleCall,
)
    requires
        s.match_at(match_id).is_finalized,
    ensures
        s.after_call(call).match_at(match_id) == s.match_at(match_id),
        forall|player: Address|
            s.after_call(call).performance_at(match_id, player) == s.performance_at(
                match_id,
                player,
            ),
        forall|player: Address|
            s.after_call(call).performances.contains_key((match_id, player))
                == s.performances.contains_key((match_id, player)),
{
}

/// Finalization is permanent: after any sequence of calls a finalized match
/// is still finalized, with the same record and the same performances.
pub proof fn lemma_finalized_is_permanent(
    s: OracleView,
    match_id: FixedBytes<32>,
    calls: Seq<OracleCall>,
)
    requires
        s.match_at(match_id).is_finalized,
    ensures
        s.after_calls(calls).state_of(match_id) == MatchState::Finalized,
        s.after_calls(calls).match_at(match_id) == s.match_at(match_id),
        forall|player: Address|
            s.after_calls(calls).performance_at(match_id, player) == s.performance_at(
                match_id,
                player,
            ),
        forall|player: Address|
            s.after_calls(calls).performances.contains_key((match_id, player))
                == s.performances.contains_key((match_id, player)),
    decreases calls.len(),
{
    if calls.len() > 0 {
        lemma_finalized_is_permanent(s, match_id, calls.drop_last());
        lemma_finalized_survives_call(s.after_calls(calls.drop_last()), match_id, calls.last());
    }
}

/// A certified performance stays certified: once a (match, player) pair
/// is verified it is verified after every further call.
pub proof fn lemma_verified_is_permanent(
    s: OracleView,
    match_id: FixedBytes<32>,
    player: Address,
    calls: Seq<OracleCall>,
)
    requires
        s.performance_at(match_id, player).verified,
    ensures
        s.after_calls(calls).performance_at(match_id, player).verified,
    decreases calls.len(),
{
    if calls.len() > 0 {
        lemma_verified_is_permanent(s, match_id, player, calls.drop_last());
    }
}

/// The audit log only grows: what was logged before a call is the
/// beginning of what is logged after it.
pub proof fn lemma_log_is_append_only(s: OracleView, calls: Seq<OracleCall>)
    ensures
        s.events.is_prefix_of(s.after_calls(calls).events),
    decreases calls.len(),
{
    if calls.len() > 0 {
        lemma_log_is_append_only(s, calls.drop_last());
    }
}

/// The match ledger.
pub struct PerformanceOracle {
    owner: Address,
    matches: Table<FixedBytes<32>, Match>,
    performances: Table<(FixedBytes<32>, Address), PlayerPerformance>,
    total_matches: U256,
    history: Vec<HistoryEntry>,
    events: Vec<OracleEvent>,
}

impl View for PerformanceOracle {
    type V = OracleView;

    closed spec fn view(&self) -> OracleView {
        OracleView {
            owner: self.owner,
            matches: self.matches@,
            performances: self.performances@,
            total_matches: self.total_matches,
            history: self.history@,
            events: self.events@,
        }
    }
}

impl PerformanceOracle {
    /// The ledger before initialisation: no administrator, no match, no
    /// performance, nothing logged.
    pub fn new() -> (o: PerformanceOracle)
        ensures
            o@.owner == Address::zero(),
            o@.matches == Map::<FixedBytes<32>, Match>::empty(),
            o@.performances == Map::<(FixedBytes<32>, Address), PlayerPerformance>::empty(),
            o@.total_matches == U256::zero(),
            o@.history == Seq::<HistoryEntry>::empty(),
            o@.events == Seq::<OracleEvent>::empty(),
    {
        PerformanceOracle {
            owner: Address::zero(),
            matches: Table::new(),
            performances: Table::new(),
            total_matches: U256::zero(),
            history: Vec::new(),
            events: Vec::new(),
        }
    }

    /// The ledger that holds the given administrator, registration count,
    /// matches and performances, with an empty history and an empty log.
    pub fn restore(
        owner: Address,
        total_matches: U256,
        matches: Table<FixedBytes<32>, Match>,
        performances: Table<(FixedBytes<32>, Address), PlayerPerformance>,
    ) -> (o: PerformanceOracle)
        ensures
            o@ == (OracleView {
                owner,
                matches: matches@,
                performances: performances@,
                total_matches,
                history: Seq::<HistoryEntry>::empty(),
                events: Seq::<OracleEvent>::empty(),
            }),
    {
        PerformanceOracle {
            owner,
            matches,
            performances,
            total_matches,
            history: Vec::new(),
            events: Vec::new(),
        }
    }

    /// Makes `caller` the administrator and zeroes the registration count.
    pub fn init(&mut self, caller: Address) -> (r: Result<(), OracleError>)
        ensures
            r is Ok,
            final(self)@ == old(self)@.after_init(caller),
    {
        self.owner = caller;
        self.total_matches = U256::zero();
        Ok(())
    }

    /// Registers a match for `caller`, who becomes its organizer.
    pub fn register_match(&mut self, match_id: FixedBytes<32>, caller: Address, timestamp: u64) -> (r:
        Result<(), OracleError>)
        ensures
            r == old(self)@.register_result(match_id, caller, timestamp),
            final(self)@ == old(self)@.after_register(match_id, caller, timestamp),
    {
        let existing = self.matches.get_or(&match_id, Match::zero());
        let record = match existing.register(match_id, caller, timestamp) {
            Err(e) => {
                return Err(e);
            },
            Ok(record) => record,
        };
        self.matches.set(match_id, record);
        let one = U256::from_u64(1);
        self.total_matches = self.total_matches.wrapping_add(&one);
        self.events.push(
            OracleEvent::MatchRegistered {
                match_id,
                organizer: caller,
                timestamp: U256::from_u64(timestamp),
            },
        );
        Ok(())
    }

    /// Locks a match with the commitment hash of its data and its player
    /// count; organizer only, once.
    pub fn finalize_match(
        &mut self,
        match_id: FixedBytes<32>,
        data_hash: FixedBytes<32>,
        player_count: u8,
        caller: Address,
        timestamp: u64,
    ) -> (r: Result<(), OracleError>)
        ensures
            r == old(self)@.organizer_result(match_id, caller),
            final(self)@ == old(self)@.after_finalize(
                match_id,
                data_hash,
                player_count,
                caller,
                timestamp,
            ),
    {
        let registered = self.matches.contains(&match_id);
        let existing = self.matches.get_or(&match_id, Match::zero());
        match existing.check_organizer(registered, &caller) {
            Err(e) => {
                return Err(e);
            },
            Ok(()) => {},
        }
        self.matches.set(match_id, existing.finalize(data_hash, player_count, timestamp));
        self.events.push(
            OracleEvent::MatchFinalized {
                match_id,
                total_players: U256::from_u64(player_count as u64),
                timestamp: U256::from_u64(timestamp),
            },
        );
        Ok(())
    }

    /// Records a player's certified performance in an open match; organizer
    /// only.
    pub fn record_performance(
        &mut self,
        match_id: FixedBytes<32>,
        player: Address,
        runs_scored: U256,
        wickets_taken: U256,
        balls_faced: U256,
        balls_bowled: U256,
        tier: u8,
        effort_score: U256,
        caller: Address,
    ) -> (r: Result<(), OracleError>)
        ensures
            r == old(self)@.organizer_result(match_id, caller),
            final(self)@ == old(self)@.after_record(
                match_id,
                player,
                runs_scored,
                wickets_taken,
                balls_faced,
                balls_bowled,
                tier,
                effort_score,
                caller,
            ),
    {
        let registered = self.matches.contains(&match_id);
        let existing = self.matches.get_or(&match_id, Match::zero());
        match existing.check_organizer(registered, &caller) {
            Err(e) => {
                return Err(e);
            },
            Ok(()) => {},
        }
        let record = PlayerPerformance::certified(
            player,
            runs_scored,
            wickets_taken,
            balls_faced,
            balls_bowled,
            tier,
            effort_score,
        );
        self.performances.set((match_id, player), record);
        self.history.push(HistoryEntry { player, match_id });
        self.events.push(
            OracleEvent::PerformanceRecorded { match_id, player, tier, effort_score },
        );
        Ok(())
    }

    /// Commitment hash, finalized flag and time of finalization of a match.
    pub fn get_match_proof(&self, match_id: FixedBytes<32>) -> (r: Result<
        (FixedBytes<32>, bool, U256),
        OracleError,
    >)
        ensures
            r == Ok::<(FixedBytes<32>, bool, U256), OracleError>(
                (
                    self@.match_at(match_id).data_hash,
                    self@.match_at(match_id).is_finalized,
                    self@.match_at(match_id).finalized_at,
                ),
            ),
    {
        let m = self.matches.get_or(&match_id, Match::zero());
        Ok((m.data_hash, m.is_finalized, m.finalized_at))
    }

    /// Whether a certified performance is recorded for a (match, player).
    pub fn verify_performance(&self, match_id: FixedBytes<32>, player: Address) -> (r: Result<
        bool,
        OracleError,
    >)
        ensures
            r == Ok::<bool, OracleError>(self@.performance_at(match_id, player).verified),
    {
        let p = self.performances.get_or(&(match_id, player), PlayerPerformance::zero());
        Ok(p.verified)
    }

    /// Runs, wickets, tier and effort score of a certified performance.
    pub fn get_player_performance(&self, match_id: FixedBytes<32>, player: Address) -> (r: Result<
        (U256, U256, u8, U256),
        OracleError,
    >)
        ensures
            r == self@.player_performance_of(match_id, player),
    {
        let p = self.performances.get_or(&(match_id, player), PlayerPerformance::zero());
        if !p.verified {
            return Err(OracleError::PlayerNotFound);
        }
        Ok((p.runs_scored, p.wickets_taken, p.tier, p.effort_score))
    }

    /// The whole record of a match.
    pub fn get_match(&self, match_id: FixedBytes<32>) -> (m: Match)
        ensures
            m == self@.match_at(match_id),
    {
        self.matches.get_or(&match_id, Match::zero())
    }

    /// The whole certified performance record of a (match, player).
    pub fn get_performance_record(&self, match_id: FixedBytes<32>, player: Address) -> (p:
        PlayerPerformance)
        ensures
            p == self@.performance_at(match_id, player),
    {
        self.performances.get_or(&(match_id, player), PlayerPerformance::zero())
    }

    /// Number of successful registrations.
    pub fn get_total_matches(&self) -> (r: Result<U256, OracleError>)
        ensures
            r == Ok::<U256, OracleError>(self@.total_matches),
    {
        Ok(self.total_matches)
    }

    /// Organizer, time of registration, finalized flag and player count of
    /// a match.
    pub fn get_match_details(&self, match_id: FixedBytes<32>) -> (r: Result<
        (Address, U256, bool, u8),
        OracleError,
    >)
        ensures
            r == Ok::<(Address, U256, bool, u8), OracleError>(
                (
                    self@.match_at(match_id).organizer,
                    self@.match_at(match_id).registered_at,
                    self@.match_at(match_id).is_finalized,
                    self@.match_at(match_id).total_players,
                ),
            ),
    {
        let m = self.matches.get_or(&match_id, Match::zero());
        Ok((m.organizer, m.registered_at, m.is_finalized, m.total_players))
    }

    /// Where a match stands in its life.
    pub fn get_match_state(&self, match_id: FixedBytes<32>) -> (s: MatchState)
        ensures
            s == self@.state_of(match_id),
    {
        let registered = self.matches.contains(&match_id);
        let m = self.matches.get_or(&match_id, Match::zero());
        if m.is_finalized {
            MatchState::Finalized
        } else if registered {
            MatchState::Open
        } else {
            MatchState::Unregistered
        }
    }

    /// Whether `caller` is the administrator.
    pub fn is_owner(&self, caller: Address) -> (r: Result<bool, OracleError>)
        ensures
            r == Ok::<bool, OracleError>(self@.owner == caller),
    {
        Ok(self.owner.same(&caller))
    }

    /// The matches in which a player had a performance recorded, oldest
    /// first, one entry per recording.
    pub fn get_player_history(&self, player: Address) -> (h: Vec<FixedBytes<32>>)
        ensures
            h@ == history_of(self@.history, player),
    {
        let mut h: Vec<FixedBytes<32>> = Vec::new();
        let n = self.history.len();
        let mut i: usize = 0;
        while i < n
            invariant
                n == self.history@.len(),
                i <= n,
                h@ == history_of(self.history@.subrange(0, i as int), player),
            decreases n - i,
        {
            proof {
                assert(self.history@.subrange(0, i + 1) =~= self.history@.subrange(
                    0,
                    i as int,
                ).push(self.history@[i as int]));
                lemma_history_push(
                    self.history@.subrange(0, i as int),
                    self.history@[i as int],
                    player,
                );
            }
            if self.history[i].player.same(&player) {
                h.push(self.history[i].match_id);
            }
            i = i + 1;
        }
        assert(self.history@.subrange(0, n as int) =~= self.history@);
        h
    }

    /// The administrator.
    pub fn owner(&self) -> (a: Address)
        ensures
            a == self@.owner,
    {
        self.owner
    }

    /// Every recorded performance as (player, match), oldest first.
    pub fn history(&self) -> (log: &Vec<HistoryEntry>)
        ensures
            log@ == self@.history,
    {
        &self.history
    }

    /// The audit log, oldest record first.
    pub fn events(&self) -> (log: &Vec<OracleEvent>)
        ensures
            log@ == self@.events,
    {
        &self.events
    }
}

} // verus!
