use spp_oracle::athlete_nft::{AthleteStats, NftError, NftEvent};
use spp_oracle::table::Table;
use spp_oracle::{Address, AthleteNFT, FixedBytes, U256};

const TOP: u64 = u64::MAX;

fn chief() -> Address {
    Address::new([0xC1; 20])
}

fn feed() -> Address {
    Address::new([0xC2; 20])
}

fn outsider() -> Address {
    Address::new([0xC3; 20])
}

fn person(tag: u8) -> Address {
    Address::new([tag; 20])
}

fn fixture(tag: u8) -> FixedBytes<32> {
    FixedBytes::<32>::new([tag; 32])
}

fn v(x: u64) -> U256 {
    U256::from_u64(x)
}

fn huge() -> U256 {
    U256::from_limbs([TOP, TOP, TOP, TOP])
}

fn totals(matches: u64, runs: u64, highest: u64, wickets: u64) -> AthleteStats {
    let mut s = AthleteStats::zero();
    s.matches_played = v(matches);
    s.total_runs = v(runs);
    s.highest_score = v(highest);
    s.total_wickets = v(wickets);
    s
}

fn registry() -> AthleteNFT {
    let mut r = AthleteNFT::new();
    assert_eq!(r.init(feed(), chief()), Ok(()));
    r
}

fn registry_with_profile() -> AthleteNFT {
    let mut r = registry();
    assert_eq!(r.mint_athlete_profile(person(1), "Asha".to_string(), 10), Ok(v(1)));
    r
}

#[test]
fn without_matches_power_and_accuracy_are_fifty() {
    assert_eq!(AthleteStats::zero().calculate_power(), v(50));
    assert_eq!(AthleteStats::zero().calculate_accuracy(), v(50));
    assert_eq!(totals(0, 900, 400, 70).calculate_power(), v(50));
    assert_eq!(totals(0, 900, 400, 70).calculate_accuracy(), v(50));
    let mut s = AthleteStats::zero();
    s.total_runs = huge();
    s.highest_score = huge();
    s.total_wickets = huge();
    assert_eq!(s.calculate_power(), v(50));
    assert_eq!(s.calculate_accuracy(), v(50));
}

#[test]
fn power_is_average_plus_half_the_best_capped_at_one_hundred() {
    assert_eq!(totals(4, 100, 30, 0).calculate_power(), v(40));
    assert_eq!(totals(5, 300, 120, 0).calculate_power(), v(100));
    assert_eq!(totals(3, 100, 31, 0).calculate_power(), v(48));
    assert_eq!(totals(1, 50, 100, 0).calculate_power(), v(100));
    assert_eq!(totals(1, 50, 98, 0).calculate_power(), v(99));
    assert_eq!(totals(1, 50, 102, 0).calculate_power(), v(100));
    assert_eq!(totals(1, 0, 0, 0).calculate_power(), v(0));
    assert_eq!(totals(1, 101, 0, 0).calculate_power(), v(100));
    assert_eq!(totals(1, 0, 202, 0).calculate_power(), v(100));
    assert_eq!(totals(1, 100, 200, 0).calculate_power(), v(100));
}

#[test]
fn speed_is_a_tenth_of_the_runs_between_floor_and_ceiling() {
    assert_eq!(totals(0, 0, 0, 0).calculate_speed(), v(50));
    assert_eq!(totals(0, 199, 0, 0).calculate_speed(), v(50));
    assert_eq!(totals(0, 200, 0, 0).calculate_speed(), v(20));
    assert_eq!(totals(0, 209, 0, 0).calculate_speed(), v(20));
    assert_eq!(totals(0, 555, 0, 0).calculate_speed(), v(55));
    assert_eq!(totals(0, 999, 0, 0).calculate_speed(), v(99));
    assert_eq!(totals(0, 1000, 0, 0).calculate_speed(), v(100));
    assert_eq!(totals(0, 1009, 0, 0).calculate_speed(), v(100));
    assert_eq!(totals(0, 1010, 0, 0).calculate_speed(), v(100));
    assert_eq!(totals(0, 5_000_000, 0, 0).calculate_speed(), v(100));
}

#[test]
fn accuracy_is_fifty_plus_ten_per_average_wicket_capped_at_one_hundred() {
    assert_eq!(totals(2, 0, 0, 3).calculate_accuracy(), v(60));
    assert_eq!(totals(1, 0, 0, 0).calculate_accuracy(), v(50));
    assert_eq!(totals(1, 0, 0, 4).calculate_accuracy(), v(90));
    assert_eq!(totals(1, 0, 0, 5).calculate_accuracy(), v(100));
    assert_eq!(totals(1, 0, 0, 6).calculate_accuracy(), v(100));
    assert_eq!(totals(3, 0, 0, 14).calculate_accuracy(), v(90));
    assert_eq!(totals(3, 0, 0, 15).calculate_accuracy(), v(100));
    assert_eq!(totals(7, 0, 0, 6).calculate_accuracy(), v(50));
}

#[test]
fn scores_stay_within_one_hundred_for_the_largest_totals() {
    let mut s = AthleteStats::zero();
    s.matches_played = v(1);
    s.total_runs = huge();
    s.highest_score = huge();
    s.total_wickets = huge();
    assert_eq!(s.calculate_power(), v(100));
    assert_eq!(s.calculate_speed(), v(100));
    assert_eq!(s.calculate_accuracy(), v(100));

    s.matches_played = huge();
    assert_eq!(s.calculate_power(), v(100));
    assert_eq!(s.calculate_accuracy(), v(60));

    s.total_runs = v(0);
    s.highest_score = U256::from_limbs([0, 0, 0, 1 << 63]);
    assert_eq!(s.calculate_power(), v(100));
}

#[test]
fn scores_stay_within_one_hundred_after_every_result() {
    let mut s = AthleteStats::fresh(person(1), 0);
    let results: Vec<(U256, U256)> = vec![
        (v(0), v(0)),
        (v(250), v(10)),
        (huge(), v(3)),
        (v(7), huge()),
        (huge(), huge()),
        (v(1), v(1)),
    ];
    for (runs, wickets) in results {
        s = s.record_match(runs, wickets, 1);
        assert!(s.power.le(&v(100)));
        assert!(s.speed.le(&v(100)));
        assert!(s.accuracy.le(&v(100)));
    }
}

#[test]
fn bests_are_the_largest_single_results_so_far() {
    let mut s = AthleteStats::fresh(person(1), 0);
    let runs = [30u64, 10, 75, 75, 0, 120, 119];
    let wickets = [1u64, 4, 0, 2, 4, 3, 5];
    let mut best_runs = 0u64;
    let mut best_wickets = 0u64;
    for i in 0..runs.len() {
        let before = s;
        s = s.record_match(v(runs[i]), v(wickets[i]), i as u64);
        best_runs = best_runs.max(runs[i]);
        best_wickets = best_wickets.max(wickets[i]);
        assert_eq!(s.highest_score, v(best_runs));
        assert_eq!(s.best_bowling, v(best_wickets));
        assert!(s.highest_score.ge(&before.highest_score));
        assert!(s.best_bowling.ge(&before.best_bowling));
    }
    assert_eq!(s.highest_score, v(120));
    assert_eq!(s.best_bowling, v(5));
}

#[test]
fn a_result_updates_totals_bests_and_scores_together() {
    let s = AthleteStats::fresh(person(1), 10).record_match(v(60), v(2), 20);
    assert_eq!(s.athlete, person(1));
    assert_eq!(s.matches_played, v(1));
    assert_eq!(s.total_runs, v(60));
    assert_eq!(s.total_wickets, v(2));
    assert_eq!(s.highest_score, v(60));
    assert_eq!(s.best_bowling, v(2));
    assert_eq!(s.power, v(90));
    assert_eq!(s.speed, v(50));
    assert_eq!(s.accuracy, v(70));
    assert_eq!(s.last_updated, v(20));
    assert!(s.is_active);

    let t = s.record_match(v(150), v(0), 30);
    assert_eq!(t.matches_played, v(2));
    assert_eq!(t.total_runs, v(210));
    assert_eq!(t.total_wickets, v(2));
    assert_eq!(t.highest_score, v(150));
    assert_eq!(t.best_bowling, v(2));
    assert_eq!(t.power, v(100));
    assert_eq!(t.speed, v(21));
    assert_eq!(t.accuracy, v(60));
    assert_eq!(t.last_updated, v(30));
}

#[test]
fn profile_totals_wrap_at_two_to_the_256() {
    let mut s = AthleteStats::fresh(person(1), 0);
    s.matches_played = huge();
    s.total_runs = huge();
    s.total_wickets = huge();
    let t = s.record_match(v(3), v(2), 1);
    assert_eq!(t.matches_played, v(0));
    assert_eq!(t.total_runs, v(2));
    assert_eq!(t.total_wickets, v(1));
    assert_eq!(t.power, v(50));
    assert_eq!(t.accuracy, v(50));
    assert_eq!(t.speed, v(50));
}

#[test]
fn a_fresh_profile_starts_at_fifty() {
    let s = AthleteStats::fresh(person(9), 77);
    assert_eq!(s.power, v(50));
    assert_eq!(s.speed, v(50));
    assert_eq!(s.accuracy, v(50));
    assert_eq!(s.matches_played, v(0));
    assert_eq!(s.total_runs, v(0));
    assert_eq!(s.total_wickets, v(0));
    assert_eq!(s.highest_score, v(0));
    assert_eq!(s.best_bowling, v(0));
    assert_eq!(s.last_updated, v(77));
    assert_eq!(s.athlete, person(9));
    assert!(s.is_active);
    assert!(!AthleteStats::zero().is_active);
}

#[test]
fn test_nft_mint_and_update() {
    let mut r = registry();
    assert_eq!(r.mint_athlete_profile(person(1), "Asha".to_string(), 10), Ok(v(1)));
    assert_eq!(r.get_athlete_stats(v(1)), Ok((v(50), v(50), v(50), v(0), v(0), v(0))));
    assert_eq!(r.update_stats_from_match(v(1), fixture(1), v(60), v(2), feed(), 20), Ok(()));
    assert_eq!(r.get_athlete_stats(v(1)), Ok((v(90), v(50), v(70), v(1), v(60), v(2))));
    assert_eq!(r.get_athlete_profile(v(1)), Ok((person(1), "Asha".to_string(), v(60), v(2))));
    assert_eq!(r.get_stats_record(v(1)).last_updated, v(20));
}

#[test]
fn init_names_the_collection() {
    let r = registry();
    assert_eq!(r.name(), Ok("Sports Performance Athlete Profile".to_string()));
    assert_eq!(r.symbol(), Ok("ATHLETE".to_string()));
    assert_eq!(r.owner(), chief());
    assert_eq!(r.next_token_id(), v(1));
    assert_eq!(r.total_supply(), Ok(v(0)));
    let blank = AthleteNFT::new();
    assert_eq!(blank.name(), Ok(String::new()));
    assert_eq!(blank.symbol(), Ok(String::new()));
    assert_eq!(blank.next_token_id(), v(0));
}

#[test]
fn minting_gives_the_athlete_the_next_token() {
    let mut r = registry_with_profile();
    assert_eq!(r.owner_of(v(1)), Ok(person(1)));
    assert_eq!(r.balance_of(person(1)), Ok(v(1)));
    assert_eq!(r.get_athlete_token_id(person(1)), Ok(v(1)));
    assert_eq!(r.total_supply(), Ok(v(1)));
    assert_eq!(r.next_token_id(), v(2));
    assert_eq!(r.get_athlete_profile(v(1)), Ok((person(1), "Asha".to_string(), v(0), v(0))));
    assert_eq!(
        r.events().as_slice(),
        &[
            NftEvent::Transfer { from: Address::zero(), to: person(1), token_id: v(1) },
            NftEvent::AthleteProfileMinted { token_id: v(1), athlete: person(1), name: "Asha".to_string() },
        ]
    );
    assert_eq!(r.mint_athlete_profile(person(2), "Bo".to_string(), 11), Ok(v(2)));
    assert_eq!(r.owner_of(v(2)), Ok(person(2)));
    assert_eq!(r.total_supply(), Ok(v(2)));
    assert_eq!(r.get_athlete_profile(v(2)), Ok((person(2), "Bo".to_string(), v(0), v(0))));
}

#[test]
fn an_athlete_has_one_profile() {
    let mut r = registry_with_profile();
    assert_eq!(r.mint_athlete_profile(person(1), "Again".to_string(), 11), Err(NftError::AlreadyHasProfile));
    assert_eq!(r.total_supply(), Ok(v(1)));
    assert_eq!(r.next_token_id(), v(2));
    assert_eq!(r.balance_of(person(1)), Ok(v(1)));
    assert_eq!(r.get_athlete_profile(v(1)), Ok((person(1), "Asha".to_string(), v(0), v(0))));
    assert_eq!(r.events().len(), 2);
}

#[test]
fn before_init_token_zero_is_minted_and_does_not_count_as_a_profile() {
    let mut r = AthleteNFT::new();
    assert_eq!(r.mint_athlete_profile(person(1), "Asha".to_string(), 10), Ok(v(0)));
    assert_eq!(r.get_athlete_token_id(person(1)), Ok(v(0)));
    assert_eq!(r.mint_athlete_profile(person(1), "Asha".to_string(), 10), Ok(v(1)));
    assert_eq!(r.mint_athlete_profile(person(1), "Asha".to_string(), 10), Err(NftError::AlreadyHasProfile));
    assert_eq!(r.balance_of(person(1)), Ok(v(2)));
}

#[test]
fn only_oracle_and_administrator_report_results() {
    let mut r = registry_with_profile();
    assert_eq!(
        r.update_stats_from_match(v(1), fixture(1), v(60), v(2), outsider(), 20),
        Err(NftError::Unauthorized)
    );
    assert_eq!(
        r.update_stats_from_match(v(1), fixture(1), v(60), v(2), person(1), 20),
        Err(NftError::Unauthorized)
    );
    assert_eq!(r.get_athlete_stats(v(1)), Ok((v(50), v(50), v(50), v(0), v(0), v(0))));
    assert_eq!(r.events().len(), 2);
    assert_eq!(r.update_stats_from_match(v(1), fixture(1), v(60), v(2), chief(), 20), Ok(()));
    assert_eq!(r.update_stats_from_match(v(1), fixture(2), v(10), v(0), feed(), 21), Ok(()));
    assert_eq!(r.get_athlete_stats(v(1)), Ok((v(65), v(50), v(60), v(2), v(70), v(2))));
}

#[test]
fn a_result_is_logged_with_the_new_scores() {
    let mut r = registry_with_profile();
    assert_eq!(r.update_stats_from_match(v(1), fixture(7), v(60), v(2), feed(), 20), Ok(()));
    assert_eq!(
        &r.events()[2..],
        &[
            NftEvent::MatchPerformanceRecorded { token_id: v(1), match_id: fixture(7), runs: v(60), wickets: v(2) },
            NftEvent::StatsUpdated { token_id: v(1), power: v(90), speed: v(50), accuracy: v(70), matches_played: v(1) },
        ]
    );
}

#[test]
fn a_result_for_a_token_without_profile_is_kept_but_the_profile_stays_absent() {
    let mut r = registry();
    assert_eq!(r.update_stats_from_match(v(9), fixture(1), v(60), v(2), feed(), 20), Ok(()));
    assert_eq!(r.get_athlete_stats(v(9)), Err(NftError::TokenDoesNotExist));
    assert_eq!(r.get_athlete_profile(v(9)), Err(NftError::TokenDoesNotExist));
    let s = r.get_stats_record(v(9));
    assert_eq!(s.matches_played, v(1));
    assert_eq!(s.total_runs, v(60));
    assert!(!s.is_active);
    assert_eq!(r.owner_of(v(9)), Err(NftError::TokenDoesNotExist));
}

#[test]
fn lookups_of_absent_tokens_fail() {
    let r = registry();
    assert_eq!(r.owner_of(v(1)), Err(NftError::TokenDoesNotExist));
    assert_eq!(r.get_approved(v(1)), Err(NftError::TokenDoesNotExist));
    assert_eq!(r.get_athlete_stats(v(1)), Err(NftError::TokenDoesNotExist));
    assert_eq!(r.get_athlete_profile(v(1)), Err(NftError::TokenDoesNotExist));
    assert_eq!(r.get_athlete_token_id(person(1)), Ok(v(0)));
    assert_eq!(r.balance_of(person(1)), Ok(v(0)));
    assert_eq!(r.balance_of(Address::zero()), Err(NftError::InvalidAddress));
    assert_eq!(r.is_approved_for_all(person(1), person(2)), Ok(false));
}

#[test]
fn the_owner_approves_an_address_for_a_token() {
    let mut r = registry_with_profile();
    assert_eq!(r.get_approved(v(1)), Ok(Address::zero()));
    assert_eq!(r.approve(person(2), v(1), person(1)), Ok(()));
    assert_eq!(r.get_approved(v(1)), Ok(person(2)));
    assert_eq!(
        r.events().last(),
        Some(&NftEvent::Approval { owner: person(1), approved: person(2), token_id: v(1) })
    );
}

#[test]
fn others_cannot_approve() {
    let mut r = registry_with_profile();
    assert_eq!(r.approve(person(2), v(1), person(2)), Err(NftError::NotAuthorized));
    assert_eq!(r.approve(person(2), v(1), chief()), Err(NftError::NotAuthorized));
    assert_eq!(r.approve(person(2), v(5), person(1)), Err(NftError::TokenDoesNotExist));
    assert_eq!(r.get_approved(v(1)), Ok(Address::zero()));
    assert_eq!(r.events().len(), 2);
}

#[test]
fn an_operator_acts_for_the_owner() {
    let mut r = registry_with_profile();
    assert_eq!(r.set_approval_for_all(person(3), true, person(1)), Ok(()));
    assert_eq!(r.is_approved_for_all(person(1), person(3)), Ok(true));
    assert_eq!(r.is_approved_for_all(person(3), person(1)), Ok(false));
    assert_eq!(
        r.events().last(),
        Some(&NftEvent::ApprovalForAll { owner: person(1), operator: person(3), approved: true })
    );
    assert_eq!(r.approve(person(4), v(1), person(3)), Ok(()));
    assert_eq!(r.get_approved(v(1)), Ok(person(4)));
    assert_eq!(r.transfer_from(person(1), person(5), v(1), person(3)), Ok(()));
    assert_eq!(r.owner_of(v(1)), Ok(person(5)));

    assert_eq!(r.set_approval_for_all(person(3), false, person(1)), Ok(()));
    assert_eq!(r.is_approved_for_all(person(1), person(3)), Ok(false));
}

#[test]
fn nobody_is_their_own_operator() {
    let mut r = registry_with_profile();
    assert_eq!(r.set_approval_for_all(person(1), true, person(1)), Err(NftError::InvalidAddress));
    assert_eq!(r.is_approved_for_all(person(1), person(1)), Ok(false));
    assert_eq!(r.events().len(), 2);
}

#[test]
fn a_transfer_moves_token_and_balances_and_clears_the_approval() {
    let mut r = registry_with_profile();
    assert_eq!(r.approve(person(2), v(1), person(1)), Ok(()));
    assert_eq!(r.transfer_from(person(1), person(6), v(1), person(2)), Ok(()));
    assert_eq!(r.owner_of(v(1)), Ok(person(6)));
    assert_eq!(r.balance_of(person(1)), Ok(v(0)));
    assert_eq!(r.balance_of(person(6)), Ok(v(1)));
    assert_eq!(r.get_approved(v(1)), Ok(Address::zero()));
    assert_eq!(
        r.events().last(),
        Some(&NftEvent::Transfer { from: person(1), to: person(6), token_id: v(1) })
    );
    assert_eq!(r.get_athlete_token_id(person(1)), Ok(v(1)));
    assert_eq!(r.transfer_from(person(1), person(7), v(1), person(2)), Err(NftError::NotTokenOwner));
    assert_eq!(r.transfer_from(person(6), person(7), v(1), person(2)), Err(NftError::NotAuthorized));
}

#[test]
fn a_transfer_to_oneself_changes_no_balance() {
    let mut r = registry_with_profile();
    assert_eq!(r.transfer_from(person(1), person(1), v(1), person(1)), Ok(()));
    assert_eq!(r.owner_of(v(1)), Ok(person(1)));
    assert_eq!(r.balance_of(person(1)), Ok(v(1)));
}

#[test]
fn transfer_checks_come_in_order() {
    let mut r = registry_with_profile();
    assert_eq!(
        r.transfer_from(person(2), Address::zero(), v(5), outsider()),
        Err(NftError::TokenDoesNotExist)
    );
    assert_eq!(
        r.transfer_from(person(2), Address::zero(), v(1), outsider()),
        Err(NftError::NotTokenOwner)
    );
    assert_eq!(
        r.transfer_from(person(1), Address::zero(), v(1), outsider()),
        Err(NftError::NotAuthorized)
    );
    assert_eq!(
        r.transfer_from(person(1), Address::zero(), v(1), person(1)),
        Err(NftError::InvalidAddress)
    );
    assert_eq!(r.owner_of(v(1)), Ok(person(1)));
    assert_eq!(r.balance_of(person(1)), Ok(v(1)));
    assert_eq!(r.events().len(), 2);
}

#[test]
fn registry_restore_takes_the_tables_as_given() {
    let mut owners: Table<U256, Address> = Table::new();
    owners.set(v(4), person(4));
    let mut balances: Table<Address, U256> = Table::new();
    balances.set(person(4), v(0));
    let mut stats: Table<U256, AthleteStats> = Table::new();
    stats.set(v(4), AthleteStats::fresh(person(4), 1).record_match(v(10), v(1), 2));
    let mut names: Table<U256, String> = Table::new();
    names.set(v(4), "Dee".to_string());
    let mut r = AthleteNFT::restore(
        chief(),
        feed(),
        "Profiles".to_string(),
        "P".to_string(),
        v(5),
        v(4),
        owners,
        balances,
        Table::new(),
        Table::new(),
        stats,
        names,
        Table::new(),
    );
    assert_eq!(r.name(), Ok("Profiles".to_string()));
    assert_eq!(r.symbol(), Ok("P".to_string()));
    assert_eq!(r.total_supply(), Ok(v(4)));
    assert_eq!(r.get_athlete_profile(v(4)), Ok((person(4), "Dee".to_string(), v(10), v(1))));
    assert_eq!(r.transfer_from(person(4), person(5), v(4), person(4)), Ok(()));
    assert_eq!(r.balance_of(person(4)), Ok(huge()));
    assert_eq!(r.balance_of(person(5)), Ok(v(1)));
    assert_eq!(r.mint_athlete_profile(person(6), "Eve".to_string(), 3), Ok(v(5)));
    assert_eq!(r.total_supply(), Ok(v(5)));
}
