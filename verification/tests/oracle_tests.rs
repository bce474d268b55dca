use spp_oracle::performance_oracle::{
    compute_strike_rate, HistoryEntry, Match, MatchState, OracleError, OracleEvent,
    PlayerPerformance,
};
use spp_oracle::table::Table;
use spp_oracle::{Address, FixedBytes, PerformanceOracle, U256};

const TOP: u64 = u64::MAX;

fn organizer() -> Address {
    Address::new([0x01; 20])
}

fn rival() -> Address {
    Address::new([0x02; 20])
}

fn athlete(tag: u8) -> Address {
    Address::new([tag; 20])
}

fn game(tag: u8) -> FixedBytes<32> {
    FixedBytes::<32>::new([tag; 32])
}

fn q(x: u64) -> U256 {
    U256::from_u64(x)
}

fn open_match() -> PerformanceOracle {
    let mut o = PerformanceOracle::new();
    assert_eq!(o.init(organizer()), Ok(()));
    assert_eq!(o.register_match(game(1), organizer(), 100), Ok(()));
    o
}

fn record(o: &mut PerformanceOracle, id: FixedBytes<32>, who: Address, caller: Address) -> Result<(), OracleError> {
    o.record_performance(id, who, q(75), q(2), q(50), q(24), 0, q(80), caller)
}

#[test]
fn test_oracle_register_match() {
    let mut o = PerformanceOracle::new();
    assert_eq!(o.get_match_state(game(1)), MatchState::Unregistered);
    assert_eq!(o.register_match(game(1), organizer(), 100), Ok(()));
    assert_eq!(o.get_match_state(game(1)), MatchState::Open);
    assert_eq!(o.get_match_details(game(1)), Ok((organizer(), q(100), false, 0)));
    assert_eq!(o.get_total_matches(), Ok(q(1)));
    assert_eq!(
        o.events().as_slice(),
        &[OracleEvent::MatchRegistered { match_id: game(1), organizer: organizer(), timestamp: q(100) }]
    );
}

#[test]
fn an_unregistered_match_reads_as_zero() {
    let o = PerformanceOracle::new();
    assert_eq!(o.get_match_proof(game(9)), Ok((FixedBytes::<32>::zero(), false, q(0))));
    assert_eq!(o.get_match_details(game(9)), Ok((Address::zero(), q(0), false, 0)));
    assert_eq!(o.get_match(game(9)), Match::zero());
    assert_eq!(o.get_total_matches(), Ok(q(0)));
    assert_eq!(o.verify_performance(game(9), athlete(5)), Ok(false));
    assert_eq!(o.get_performance_record(game(9), athlete(5)), PlayerPerformance::zero());
}

#[test]
fn registering_an_open_match_again_hands_it_over() {
    let mut o = open_match();
    assert_eq!(o.register_match(game(1), rival(), 200), Ok(()));
    assert_eq!(o.get_match_details(game(1)), Ok((rival(), q(200), false, 0)));
    assert_eq!(o.get_total_matches(), Ok(q(2)));
    assert_eq!(record(&mut o, game(1), athlete(5), organizer()), Err(OracleError::Unauthorized));
    assert_eq!(record(&mut o, game(1), athlete(5), rival()), Ok(()));
}

#[test]
fn finalize_locks_the_match() {
    let mut o = open_match();
    assert_eq!(o.finalize_match(game(1), game(0xDD), 22, organizer(), 300), Ok(()));
    assert_eq!(o.get_match_state(game(1)), MatchState::Finalized);
    assert_eq!(o.get_match_proof(game(1)), Ok((game(0xDD), true, q(300))));
    assert_eq!(o.get_match_details(game(1)), Ok((organizer(), q(100), true, 22)));
    assert_eq!(
        o.events().last(),
        Some(&OracleEvent::MatchFinalized { match_id: game(1), total_players: q(22), timestamp: q(300) })
    );
    assert_eq!(o.get_total_matches(), Ok(q(1)));
}

#[test]
fn only_the_organizer_finalizes() {
    let mut o = open_match();
    assert_eq!(o.finalize_match(game(1), game(0xDD), 22, rival(), 300), Err(OracleError::Unauthorized));
    assert_eq!(o.finalize_match(game(1), game(0xDD), 22, Address::zero(), 300), Err(OracleError::Unauthorized));
    assert_eq!(o.get_match_state(game(1)), MatchState::Open);
    assert_eq!(o.get_match_proof(game(1)), Ok((FixedBytes::<32>::zero(), false, q(0))));
    assert_eq!(o.events().len(), 1);
}

#[test]
fn an_unregistered_match_has_no_organizer() {
    let mut o = PerformanceOracle::new();
    assert_eq!(o.finalize_match(game(1), game(0xDD), 22, organizer(), 300), Err(OracleError::Unauthorized));
    assert_eq!(o.finalize_match(game(1), game(0xDD), 22, Address::zero(), 300), Err(OracleError::Unauthorized));
    assert_eq!(record(&mut o, game(1), athlete(5), organizer()), Err(OracleError::Unauthorized));
    assert_eq!(record(&mut o, game(1), athlete(5), Address::zero()), Err(OracleError::Unauthorized));
    assert_eq!(o.get_match_state(game(1)), MatchState::Unregistered);
    assert!(o.events().is_empty());
    assert!(o.history().is_empty());
}

#[test]
fn a_finalized_match_takes_no_performance() {
    let mut o = open_match();
    assert_eq!(record(&mut o, game(1), athlete(5), organizer()), Ok(()));
    assert_eq!(o.finalize_match(game(1), game(0xDD), 22, organizer(), 300), Ok(()));
    let logged = o.events().len();
    assert_eq!(record(&mut o, game(1), athlete(6), organizer()), Err(OracleError::AlreadyFinalized));
    assert_eq!(record(&mut o, game(1), athlete(5), organizer()), Err(OracleError::AlreadyFinalized));
    assert_eq!(record(&mut o, game(1), athlete(6), rival()), Err(OracleError::Unauthorized));
    assert_eq!(o.verify_performance(game(1), athlete(6)), Ok(false));
    assert_eq!(o.verify_performance(game(1), athlete(5)), Ok(true));
    assert_eq!(o.events().len(), logged);
    assert_eq!(o.history().len(), 1);
}

#[test]
fn a_finalized_match_is_not_finalized_again() {
    let mut o = open_match();
    assert_eq!(o.finalize_match(game(1), game(0xDD), 22, organizer(), 300), Ok(()));
    assert_eq!(
        o.finalize_match(game(1), game(0xEE), 11, organizer(), 400),
        Err(OracleError::AlreadyFinalized)
    );
    assert_eq!(o.finalize_match(game(1), game(0xEE), 11, rival(), 400), Err(OracleError::Unauthorized));
    assert_eq!(o.get_match_proof(game(1)), Ok((game(0xDD), true, q(300))));
    assert_eq!(o.get_match_details(game(1)), Ok((organizer(), q(100), true, 22)));
}

#[test]
fn a_finalized_match_is_not_registered_again() {
    let mut o = open_match();
    assert_eq!(o.finalize_match(game(1), game(0xDD), 22, organizer(), 300), Ok(()));
    assert_eq!(o.register_match(game(1), organizer(), 500), Err(OracleError::DuplicateMatch));
    assert_eq!(o.register_match(game(1), rival(), 500), Err(OracleError::DuplicateMatch));
    assert_eq!(o.get_total_matches(), Ok(q(1)));
    assert_eq!(o.get_match_details(game(1)), Ok((organizer(), q(100), true, 22)));
    assert_eq!(o.events().len(), 2);
}

#[test]
fn a_finalized_match_stays_as_it_is_while_others_move_on() {
    let mut o = open_match();
    assert_eq!(record(&mut o, game(1), athlete(5), organizer()), Ok(()));
    assert_eq!(o.finalize_match(game(1), game(0xDD), 22, organizer(), 300), Ok(()));
    let locked = o.get_match(game(1));
    let certified = o.get_performance_record(game(1), athlete(5));

    assert_eq!(o.register_match(game(2), rival(), 400), Ok(()));
    assert_eq!(record(&mut o, game(2), athlete(5), rival()), Ok(()));
    assert_eq!(o.finalize_match(game(2), game(0xCC), 2, rival(), 500), Ok(()));
    assert_eq!(o.init(rival()), Ok(()));
    assert_eq!(o.register_match(game(1), rival(), 600), Err(OracleError::DuplicateMatch));

    assert_eq!(o.get_match(game(1)), locked);
    assert_eq!(o.get_performance_record(game(1), athlete(5)), certified);
    assert_eq!(o.get_match_state(game(1)), MatchState::Finalized);
}

#[test]
fn a_recorded_performance_can_be_read_back() {
    let mut o = open_match();
    assert_eq!(
        o.record_performance(game(1), athlete(5), q(75), q(2), q(50), q(24), 3, q(80), organizer()),
        Ok(())
    );
    assert_eq!(o.verify_performance(game(1), athlete(5)), Ok(true));
    assert_eq!(o.get_player_performance(game(1), athlete(5)), Ok((q(75), q(2), 3, q(80))));
    assert_eq!(
        o.get_performance_record(game(1), athlete(5)),
        PlayerPerformance {
            player: athlete(5),
            runs_scored: q(75),
            wickets_taken: q(2),
            balls_faced: q(50),
            balls_bowled: q(24),
            strike_rate: q(150),
            tier: 3,
            effort_score: q(80),
            verified: true,
        }
    );
    assert_eq!(
        o.events().last(),
        Some(&OracleEvent::PerformanceRecorded {
            match_id: game(1),
            player: athlete(5),
            tier: 3,
            effort_score: q(80)
        })
    );
}

#[test]
fn a_performance_that_was_never_recorded_is_not_found() {
    let mut o = open_match();
    assert_eq!(o.get_player_performance(game(1), athlete(5)), Err(OracleError::PlayerNotFound));
    assert_eq!(record(&mut o, game(1), athlete(5), organizer()), Ok(()));
    assert_eq!(o.get_player_performance(game(1), athlete(6)), Err(OracleError::PlayerNotFound));
    assert_eq!(o.get_player_performance(game(2), athlete(5)), Err(OracleError::PlayerNotFound));
    assert_eq!(o.verify_performance(game(2), athlete(5)), Ok(false));
}

#[test]
fn only_the_organizer_records() {
    let mut o = open_match();
    assert_eq!(record(&mut o, game(1), athlete(5), rival()), Err(OracleError::Unauthorized));
    assert_eq!(o.verify_performance(game(1), athlete(5)), Ok(false));
    assert!(o.history().is_empty());
    assert_eq!(o.events().len(), 1);
}

#[test]
fn recording_again_overwrites_and_extends_the_history() {
    let mut o = open_match();
    assert_eq!(
        o.record_performance(game(1), athlete(5), q(10), q(0), q(20), q(0), 0, q(50), organizer()),
        Ok(())
    );
    assert_eq!(
        o.record_performance(game(1), athlete(5), q(99), q(4), q(60), q(12), 7, q(90), organizer()),
        Ok(())
    );
    assert_eq!(o.get_player_performance(game(1), athlete(5)), Ok((q(99), q(4), 7, q(90))));
    assert_eq!(o.get_performance_record(game(1), athlete(5)).strike_rate, q(165));
    assert_eq!(o.get_player_history(athlete(5)), vec![game(1), game(1)]);
}

#[test]
fn tier_and_effort_are_recorded_as_given() {
    let mut o = open_match();
    assert_eq!(
        o.record_performance(game(1), athlete(5), q(1), q(1), q(1), q(1), 200, q(5000), organizer()),
        Ok(())
    );
    assert_eq!(o.get_player_performance(game(1), athlete(5)), Ok((q(1), q(1), 200, q(5000))));
}

#[test]
fn strike_rate_is_runs_per_hundred_balls_rounded_down() {
    assert_eq!(compute_strike_rate(&q(75), &q(50)), q(150));
    assert_eq!(compute_strike_rate(&q(1), &q(3)), q(33));
    assert_eq!(compute_strike_rate(&q(2), &q(3)), q(66));
    assert_eq!(compute_strike_rate(&q(0), &q(3)), q(0));
    assert_eq!(compute_strike_rate(&q(36), &q(6)), q(600));
}

#[test]
fn strike_rate_without_balls_is_zero() {
    assert_eq!(compute_strike_rate(&q(75), &q(0)), q(0));
    assert_eq!(compute_strike_rate(&q(0), &q(0)), q(0));
    let mut o = open_match();
    assert_eq!(
        o.record_performance(game(1), athlete(5), q(75), q(2), q(0), q(24), 0, q(80), organizer()),
        Ok(())
    );
    assert_eq!(o.get_performance_record(game(1), athlete(5)).strike_rate, q(0));
}

#[test]
fn strike_rate_product_wraps_at_two_to_the_256() {
    let runs = U256::from_limbs([5, 0, 0, 1 << 63]);
    assert_eq!(compute_strike_rate(&runs, &q(3)), q(166));
    let max = U256::from_limbs([TOP, TOP, TOP, TOP]);
    assert_eq!(compute_strike_rate(&q(1), &max), q(0));
}

#[test]
fn history_lists_each_players_matches_in_order() {
    let mut o = open_match();
    assert_eq!(o.register_match(game(2), organizer(), 101), Ok(()));
    assert_eq!(o.register_match(game(3), organizer(), 102), Ok(()));
    assert_eq!(record(&mut o, game(2), athlete(5), organizer()), Ok(()));
    assert_eq!(record(&mut o, game(1), athlete(6), organizer()), Ok(()));
    assert_eq!(record(&mut o, game(1), athlete(5), organizer()), Ok(()));
    assert_eq!(record(&mut o, game(3), athlete(5), organizer()), Ok(()));
    assert_eq!(o.get_player_history(athlete(5)), vec![game(2), game(1), game(3)]);
    assert_eq!(o.get_player_history(athlete(6)), vec![game(1)]);
    assert_eq!(o.get_player_history(athlete(7)), Vec::<FixedBytes<32>>::new());
    assert_eq!(
        o.history().as_slice(),
        &[
            HistoryEntry { player: athlete(5), match_id: game(2) },
            HistoryEntry { player: athlete(6), match_id: game(1) },
            HistoryEntry { player: athlete(5), match_id: game(1) },
            HistoryEntry { player: athlete(5), match_id: game(3) },
        ]
    );
}

#[test]
fn init_names_the_administrator_and_zeroes_the_count() {
    let mut o = open_match();
    assert_eq!(o.is_owner(organizer()), Ok(true));
    assert_eq!(o.is_owner(rival()), Ok(false));
    assert_eq!(o.get_total_matches(), Ok(q(1)));
    assert_eq!(o.init(rival()), Ok(()));
    assert_eq!(o.owner(), rival());
    assert_eq!(o.is_owner(rival()), Ok(true));
    assert_eq!(o.is_owner(organizer()), Ok(false));
    assert_eq!(o.get_total_matches(), Ok(q(0)));
    assert_eq!(o.get_match_state(game(1)), MatchState::Open);
}

#[test]
fn the_null_caller_can_organize_a_match_it_registered() {
    let mut o = PerformanceOracle::new();
    assert_eq!(o.is_owner(Address::zero()), Ok(true));
    assert_eq!(o.register_match(game(1), Address::zero(), 0), Ok(()));
    assert_eq!(o.get_match_state(game(1)), MatchState::Open);
    assert_eq!(o.finalize_match(game(1), game(2), 1, Address::zero(), 0), Ok(()));
    assert_eq!(o.get_match_state(game(1)), MatchState::Finalized);
}

#[test]
fn the_registration_count_wraps() {
    let max = U256::from_limbs([TOP, TOP, TOP, TOP]);
    let mut o = PerformanceOracle::restore(organizer(), max, Table::new(), Table::new());
    assert_eq!(o.register_match(game(1), organizer(), 1), Ok(()));
    assert_eq!(o.get_total_matches(), Ok(q(0)));
}

#[test]
fn restore_takes_the_tables_as_given() {
    let mut matches: Table<FixedBytes<32>, Match> = Table::new();
    let mut locked = Match::zero();
    locked.match_id = game(1);
    locked.organizer = organizer();
    locked.is_finalized = true;
    locked.data_hash = game(0xDD);
    matches.set(game(1), locked);
    let mut performances: Table<(FixedBytes<32>, Address), PlayerPerformance> = Table::new();
    performances.set(
        (game(1), athlete(5)),
        PlayerPerformance::certified(athlete(5), q(75), q(2), q(50), q(24), 3, q(80)),
    );
    let mut o = PerformanceOracle::restore(rival(), q(41), matches, performances);
    assert_eq!(o.owner(), rival());
    assert_eq!(o.get_total_matches(), Ok(q(41)));
    assert_eq!(o.get_match_state(game(1)), MatchState::Finalized);
    assert_eq!(o.get_player_performance(game(1), athlete(5)), Ok((q(75), q(2), 3, q(80))));
    assert_eq!(o.register_match(game(1), organizer(), 1), Err(OracleError::DuplicateMatch));
    assert_eq!(o.register_match(game(2), organizer(), 1), Ok(()));
    assert_eq!(o.get_total_matches(), Ok(q(42)));
    assert_eq!(o.events().len(), 1);
}

#[test]
fn a_record_decides_its_own_transitions() {
    let blank = Match::zero();
    let open = blank.register(game(1), organizer(), 100).unwrap();
    assert_eq!(open.match_id, game(1));
    assert_eq!(open.organizer, organizer());
    assert_eq!(open.registered_at, q(100));
    assert!(!open.is_finalized);
    assert_eq!(open.check_organizer(true, &organizer()), Ok(()));
    assert_eq!(open.check_organizer(true, &rival()), Err(OracleError::Unauthorized));
    assert_eq!(open.check_organizer(false, &organizer()), Err(OracleError::Unauthorized));

    let locked = open.finalize(game(0xDD), 11, 300);
    assert_eq!(locked.data_hash, game(0xDD));
    assert_eq!(locked.total_players, 11);
    assert_eq!(locked.finalized_at, q(300));
    assert_eq!(locked.organizer, organizer());
    assert_eq!(locked.registered_at, q(100));
    assert!(locked.is_finalized);
    assert_eq!(locked.check_organizer(true, &organizer()), Err(OracleError::AlreadyFinalized));
    assert_eq!(locked.check_organizer(true, &rival()), Err(OracleError::Unauthorized));
    assert_eq!(locked.register(game(1), organizer(), 400), Err(OracleError::DuplicateMatch));
}

#[test]
fn registering_resets_the_player_count_and_keeps_the_rest() {
    let mut stale = Match::zero();
    stale.total_players = 9;
    stale.finalized_at = q(5);
    stale.data_hash = game(3);
    let open = stale.register(game(1), organizer(), 100).unwrap();
    assert_eq!(open.total_players, 0);
    assert_eq!(open.finalized_at, q(5));
    assert_eq!(open.data_hash, game(3));
}
