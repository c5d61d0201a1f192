use club_core::club::{
    cap_to_budget, club_standing, deliver_message, handle_unresolved_salary, make_proposal,
    negotiate_contract_years, negotiation_skills, offered_salary, part_with, prepare_offer,
    process_player_contract_interaction, record_offer, settle_years, wage_budget_headroom,
    ClubResult, ClubStep, ContractSignals, ContractStep, OfferStep, OfferValuation,
    PlayerContractAsk, PlayerResult,
    RenewalLabels, RenewalStaff, TeamResult, UnresolvedSalaryDecision, UnresolvedSalaryTrigger,
};
use club_core::player::{FreeAgentReleaseReason, PlayerClubContract, PlayerSquadStatus};
use club_core::status::PlayerStatusType;
use club_core::talks::{
    advance, open_talk, sums_stay_in_range, TalkAction, TalkEvent, TalkPhase, Terms, Worth,
};
use club_core::date::Date;
use club_core::decisions::PlayerDecisionHistory;
use club_core::happiness::PlayerHappiness;
use club_core::ledger::{PlayerFieldPositionGroup, PlayerStatistics};
use club_core::measure::Measure;
use club_core::player::{PersonAttributes, Player, PlayerAttributes, PositionSlot};
use club_core::status::PlayerStatus;

/// The order key of a single-precision number.
fn m(x: f32) -> Measure {
    Measure::from_bits(x.to_bits()).unwrap()
}

fn d(year: i32, month: u32, day: u32) -> Date {
    Date::from_ymd_opt(year, month, day).unwrap()
}

fn plain_player() -> Player {
    let ten = m(10.0);
    Player {
        id: 1,
        country_id: 1,
        position: PositionSlot { position: 14, group: PlayerFieldPositionGroup::Forward },
        attributes: PersonAttributes {
            adaptability: ten,
            ambition: ten,
            controversy: ten,
            loyalty: ten,
            pressure: ten,
            professionalism: ten,
        },
        player_attributes: PlayerAttributes {
            current_ability: 100,
            potential_ability: 100,
            current_reputation: 0,
            world_reputation: 0,
            international_apps: 0,
        },
        languages: Vec::new(),
        favorite_clubs: Vec::new(),
        happiness: PlayerHappiness::new(m(50.0)),
        statuses: PlayerStatus::new(),
        statistics: PlayerStatistics::new(),
        decision_history: PlayerDecisionHistory::new(),
        plan: None,
        last_transfer_date: None,
        pending_signing: None,
        contract: None,
        is_on_loan: false,
        loan_from_club_id: None,
        is_force_match_selection: false,
        release_reason: None,
        free_agent_state: None,
        pending_pre_contract: None,
    }
}

fn labels() -> RenewalLabels {
    RenewalLabels { offered: "renewal_offered".to_string(), rejected: "renewal_rejected".to_string() }
}

fn contract(salary: u32, squad_status: PlayerSquadStatus, expiration: Date) -> PlayerClubContract {
    PlayerClubContract {
        salary,
        expiration,
        squad_status,
        shirt_number: None,
        is_transfer_listed: false,
    }
}

fn signals() -> ContractSignals {
    ContractSignals {
        contract_rejected: false,
        no_contract: false,
        want_improve_contract: false,
        want_extend_contract: false,
    }
}

fn rejected() -> ContractSignals {
    ContractSignals { contract_rejected: true, ..signals() }
}

/// A backup player who refused three times in four months.
fn stubborn(ability: u8, salary: u32, expiration: Date) -> Player {
    let mut p = plain_player();
    p.id = 101;
    p.player_attributes.current_ability = ability;
    p.contract = Some(contract(salary, PlayerSquadStatus::MainBackupPlayer, expiration));
    for (date, decision) in [
        (d(2026, 1, 10), "renewal_offered"),
        (d(2026, 1, 25), "renewal_rejected"),
        (d(2026, 3, 1), "renewal_offered"),
        (d(2026, 3, 18), "renewal_rejected"),
        (d(2026, 4, 1), "renewal_offered"),
        (d(2026, 4, 25), "renewal_rejected"),
    ] {
        p.decision_history.add(date, String::new(), decision.to_string(), String::new());
    }
    p
}

fn step(p: &Player, s: ContractSignals, today: Date) -> ContractStep {
    process_player_contract_interaction(Some(p), s, 100, &labels(), today)
}

#[test]
fn three_unaffordable_rejections_list_into_market_and_team() {
    let today = d(2026, 5, 1);
    let mut p = stubborn(75, 50_000, d(2027, 7, 1));
    assert_eq!(step(&p, rejected(), today), ContractStep::AssessStalemate);
    assert!(handle_unresolved_salary(&p, 100, 31, false, false));
    let listed = part_with(
        &mut p,
        UnresolvedSalaryDecision::TransferList,
        UnresolvedSalaryTrigger::FailedRenewal,
        today,
        "",
        "released",
    );
    assert!(listed);
    assert!(p.statuses.has(PlayerStatusType::Lst));
    let entry = p.decision_history.items.iter().find(|d| d.movement == "dec_transfer_listed").unwrap();
    assert_eq!(entry.decision, "dec_reason_contract_stalemate");
    assert_eq!(entry.decided_by, "dec_decided_board");
    assert!(p.contract.unwrap().is_transfer_listed);
    // He is listed once.
    assert!(!handle_unresolved_salary(&p, 100, 31, false, false));
}

/// A refusal, and the answer that the talks have not failed for good.
fn refused_without_end(p: &Player, today: Date) {
    let (phase, action) = open_talk(Some(p), rejected(), 100, &labels(), today);
    assert_eq!((phase, action), (TalkPhase::Stalemate, TalkAction::AskStalemate));
    assert_eq!(
        advance(Some(p), rejected(), None, today, phase, TalkEvent::Final(false)),
        (TalkPhase::Closed, TalkAction::Nothing)
    );
    assert!(!p.statuses.has(PlayerStatusType::Lst));
    assert!(!p.contract.as_ref().unwrap().is_transfer_listed);
}

#[test]
fn first_rejection_does_not_list_useful_player() {
    let mut p = plain_player();
    p.id = 101;
    p.player_attributes.current_ability = 120;
    p.contract =
        Some(contract(50_000, PlayerSquadStatus::FirstTeamRegular, d(2027, 7, 1)));
    for (date, decision) in
        [(d(2026, 4, 1), "renewal_offered"), (d(2026, 4, 15), "renewal_rejected")]
    {
        p.decision_history.add(date, String::new(), decision.to_string(), String::new());
    }
    refused_without_end(&p, d(2026, 5, 1));
    // Nor would the club let him go: he is its average.
    assert!(!handle_unresolved_salary(&p, 120, 31, false, false));
}

#[test]
fn affordable_pending_ask_does_not_list_protected_player() {
    let mut p = stubborn(120, 50_000, d(2027, 7, 1));
    p.contract =
        Some(contract(50_000, PlayerSquadStatus::FirstTeamRegular, d(2027, 7, 1)));
    // The demand of 70 000 fits into the 200 000 that the budget leaves.
    assert_eq!(wage_budget_headroom(Some(250_000), &vec![50_000]), Some(200_000));
    refused_without_end(&p, d(2026, 5, 1));
    assert!(!handle_unresolved_salary(&p, 120, 31, false, false));
}

#[test]
fn force_selected_player_is_not_listed() {
    let mut p = stubborn(75, 50_000, d(2027, 7, 1));
    p.is_force_match_selection = true;
    assert!(!handle_unresolved_salary(&p, 100, 31, false, false));
}

#[test]
fn loaned_player_is_not_listed_by_borrower() {
    let mut p = stubborn(75, 50_000, d(2027, 7, 1));
    p.is_on_loan = true;
    p.loan_from_club_id = Some(999);
    assert_eq!(step(&p, rejected(), d(2026, 5, 1)), ContractStep::Nothing);
    assert!(!handle_unresolved_salary(&p, 100, 31, false, false));
}

#[test]
fn unresolved_salary_releases_cheap_fringe_player() {
    let today = d(2026, 5, 1);
    let mut p = stubborn(40, 30_000, d(2026, 8, 1));
    assert!(handle_unresolved_salary(&p, 82, 33, false, false));
    let listed = part_with(
        &mut p,
        UnresolvedSalaryDecision::FreeTransfer,
        UnresolvedSalaryTrigger::FailedRenewal,
        today,
        "A. Coach",
        "released",
    );
    assert!(!listed);
    assert!(p.statuses.has(PlayerStatusType::Frt));
    assert!(p.contract.is_none());
    assert_eq!(p.release_reason, Some(FreeAgentReleaseReason::FailedRenewalRelease));
    let entry =
        p.decision_history.items.iter().find(|d| d.movement == "dec_free_transfer_listed").unwrap();
    assert_eq!(entry.decision, "released");
    assert_eq!(entry.decided_by, "A. Coach");
}

#[test]
fn unresolved_salary_lists_when_compensation_too_high() {
    let mut p = stubborn(40, 2_000_000, d(2028, 7, 1));
    assert_eq!(step(&p, rejected(), d(2026, 5, 1)), ContractStep::AssessStalemate);
    assert!(handle_unresolved_salary(&p, 82, 31, false, false));
    let listed = part_with(
        &mut p,
        UnresolvedSalaryDecision::TransferList,
        UnresolvedSalaryTrigger::FailedRenewal,
        d(2026, 5, 1),
        "",
        "released",
    );
    assert!(listed);
    assert!(!p.statuses.has(PlayerStatusType::Frt));
    assert!(p.statuses.has(PlayerStatusType::Lst));
    assert!(p.contract.as_ref().unwrap().is_transfer_listed);
    assert_eq!(p.decision_history.items.last().unwrap().decision, "dec_reason_contract_stalemate");
}

#[test]
fn a_surplus_player_is_listed_as_such() {
    let mut p = plain_player();
    p.contract = Some(contract(40_000, PlayerSquadStatus::NotNeeded, d(2027, 7, 31)));
    part_with(
        &mut p,
        UnresolvedSalaryDecision::TransferList,
        UnresolvedSalaryTrigger::NotNeededWantsRaise,
        d(2026, 5, 1),
        "",
        "released",
    );
    assert!(p.statuses.has(PlayerStatusType::Lst));
    assert_eq!(p.decision_history.items.last().unwrap().decision, "dec_reason_surplus_squad");
}

#[test]
fn a_club_keeps_whom_it_can_use() {
    let p = stubborn(75, 50_000, d(2027, 7, 1));
    // Fifteen points below the squad are close enough before the age of 35.
    assert!(!handle_unresolved_salary(&p, 90, 34, false, false));
    assert!(handle_unresolved_salary(&p, 90, 35, false, false));
    assert!(handle_unresolved_salary(&p, 91, 34, false, false));
    // A key player is kept to ten points below at any age.
    assert!(!handle_unresolved_salary(&p, 85, 36, true, false));
    assert!(!handle_unresolved_salary(&p, 85, 36, false, true));
    assert!(handle_unresolved_salary(&p, 85, 36, false, false));
    let mut loyal = stubborn(75, 50_000, d(2027, 7, 1));
    loyal.attributes.loyalty = m(14.5);
    assert!(!handle_unresolved_salary(&loyal, 85, 36, false, false));
}

#[test]
fn offers_wait_for_their_time() {
    let wants = ContractSignals { want_improve_contract: true, ..signals() };
    let mut p = plain_player();
    assert_eq!(step(&p, wants, d(2026, 5, 1)), ContractStep::Negotiate { contract_club_id: 100 });
    assert_eq!(step(&p, signals(), d(2026, 5, 1)), ContractStep::Nothing);

    record_offer(&mut p, &labels(), d(2026, 5, 1), "3 years".to_string());
    assert_eq!(p.decision_history.items[0].decision, "renewal_offered");
    assert_eq!(step(&p, wants, d(2026, 6, 29)), ContractStep::Nothing);
    assert_ne!(step(&p, wants, d(2026, 6, 30)), ContractStep::Nothing);

    p.decision_history.add(d(2026, 7, 1), String::new(), "renewal_rejected".into(), String::new());
    assert_eq!(step(&p, wants, d(2026, 10, 28)), ContractStep::Nothing);
    assert_ne!(step(&p, wants, d(2026, 10, 29)), ContractStep::Nothing);

    // Three offers a year.
    record_offer(&mut p, &labels(), d(2026, 11, 1), String::new());
    record_offer(&mut p, &labels(), d(2027, 1, 1), String::new());
    assert_eq!(step(&p, wants, d(2027, 4, 30)), ContractStep::Nothing);
    assert_ne!(step(&p, wants, d(2027, 5, 1)), ContractStep::Nothing);
}

#[test]
fn a_loaned_player_talks_to_his_parent_club() {
    let mut p = plain_player();
    p.is_on_loan = true;
    p.loan_from_club_id = Some(77);
    let extend = ContractSignals { want_extend_contract: true, ..signals() };
    let raise = ContractSignals { want_improve_contract: true, ..signals() };
    assert_eq!(step(&p, extend, d(2026, 5, 1)), ContractStep::Negotiate { contract_club_id: 77 });
    assert_eq!(step(&p, raise, d(2026, 5, 1)), ContractStep::Nothing);
    p.loan_from_club_id = None;
    assert_eq!(step(&p, extend, d(2026, 5, 1)), ContractStep::Nothing);
}

#[test]
fn offers_start_from_the_contract() {
    let today = d(2026, 5, 1);
    let raise = ContractSignals { want_improve_contract: true, ..signals() };
    let mut p = plain_player();
    p.contract = Some(contract(40_000, PlayerSquadStatus::KeyPlayer, d(2026, 7, 31)));
    p.statuses.add(today, PlayerStatusType::Enq);
    match prepare_offer(Some(&p), raise, today) {
        OfferStep::Evaluate(x) => {
            assert_eq!((x.current_salary, x.months_remaining), (40_000, 3));
            assert_eq!(x.squad_status, PlayerSquadStatus::KeyPlayer);
            assert!(x.has_market_interest);
        }
        other => panic!("unexpected {:?}", other),
    }
    p.contract = Some(contract(40_000, PlayerSquadStatus::NotNeeded, d(2026, 7, 31)));
    assert_eq!(prepare_offer(Some(&p), raise, today), OfferStep::Unresolved);
    assert_eq!(prepare_offer(None, raise, today), OfferStep::Nothing);
    let active = RenewalStaff { is_active: true, man_management: 15, judging_player_ability: 12 };
    assert_eq!(negotiation_skills(Some(active)), (15, 12));
    assert_eq!(negotiation_skills(Some(RenewalStaff { is_active: false, ..active })), (3, 3));
    assert_eq!(negotiation_skills(None), (5, 5));
}

#[test]
fn salaries_meet_demand_and_budget() {
    // At least five percent more than now.
    assert_eq!(offered_salary(100_000, 90_000, 0, false, None, false), 105_000);
    assert_eq!(offered_salary(100_000, 120_000, 150_000, true, None, false), 150_000);
    assert_eq!(offered_salary(100_000, 120_000, 0, false, Some(140_000), false), 130_000);
    assert_eq!(offered_salary(100_000, 120_000, 0, false, Some(140_000), true), 140_000);
    assert_eq!(offered_salary(10, 0, 0, false, None, false), 11);

    assert_eq!(cap_to_budget(130_000, 100_000, 1_000_000, 980_000, true), Some(120_000));
    assert_eq!(cap_to_budget(130_000, 100_000, 1_000_000, 1_000_000, true), None);
    assert_eq!(cap_to_budget(130_000, 100_000, 1_000_000, 1_000_000, false), Some(100_000));
    assert_eq!(cap_to_budget(130_000, 100_000, 0, 1_000_000, true), Some(130_000));

    assert_eq!(wage_budget_headroom(Some(250_000), &vec![50_000, 20_000]), Some(180_000));
    assert_eq!(wage_budget_headroom(Some(50_000), &vec![50_000, 20_000]), Some(0));
    assert_eq!(wage_budget_headroom(None, &vec![50_000]), None);
}

#[test]
fn lengths_and_extras_follow_the_demands() {
    let mut p = plain_player();
    p.player_attributes.current_reputation = 7500;
    p.player_attributes.current_ability = 130;
    p.attributes.ambition = m(16.0);
    let wanted = negotiate_contract_years(&p, 22, true);
    // Six, and four for the name, one for the quality, two each for promise and ambition.
    assert_eq!(wanted.player_halves, 15);
    // Six, and two each for youth and quality.
    assert_eq!(wanted.club_halves, 10);
    let ask = PlayerContractAsk {
        desired_salary: 1,
        desired_years: 4,
        refused_for_length: true,
        demanded_release_clause: Some(9_000_000),
        demanded_status: Some(PlayerSquadStatus::KeyPlayer),
        demanded_status_is_higher: true,
        demanded_signing_bonus: Some(5_000),
    };
    assert_eq!(settle_years(0, 1, None), 1);
    assert_eq!(settle_years(9, 1, None), 5);
    assert_eq!(settle_years(2, 3, None), 3);
    assert_eq!(settle_years(2, 3, Some(ask)), 4);
    let offer = make_proposal(100, 3, 12, 30, 700, Some(ask), valuation());
    assert_eq!((offer.signing_bonus, offer.loyalty_bonus), (5_000, 700));
    assert_eq!(offer.release_clause, Some(9_000_000));
    assert_eq!(offer.squad_status_promise, Some(PlayerSquadStatus::KeyPlayer));
    let offer = make_proposal(100, 3, 12, 29, 700, None, valuation());
    assert_eq!((offer.signing_bonus, offer.loyalty_bonus), (0, 0));
    assert_eq!(offer.valuation_club_reputation, Some(m(0.7)));
    assert_eq!(offer.valuation_league_reputation, Some(6_500));
    assert_eq!(offer.valuation_expected_wage, Some(60_000));
    assert_eq!(offer.valuation_min_acceptable, Some(48_000));
}

fn valuation() -> OfferValuation {
    OfferValuation {
        club_reputation: m(0.7),
        league_reputation: 6_500,
        expected_wage: 60_000,
        min_acceptable: 48_000,
    }
}

#[test]
fn a_club_of_unknown_standing_is_average() {
    assert_eq!(club_standing(None, None), (m(0.5), 5_000));
    assert_eq!(club_standing(Some(m(0.7)), Some(6_500)), (m(0.7), 6_500));
}

#[test]
fn a_day_is_worked_off_in_order() {
    let quiet = PlayerResult { player_id: 1, contract: signals() };
    let loud = PlayerResult { player_id: 2, contract: rejected() };
    let teams = vec![
        TeamResult { players: vec![quiet, loud] },
        TeamResult { players: vec![loud] },
    ];
    let day: ClubResult<u8, u8, u8, u8, u8> = ClubResult::new(100, 1, teams, 2, 3);
    assert_eq!(
        day.process(),
        vec![
            ClubStep::Finance,
            ClubStep::Contract { team: 0, player: 1 },
            ClubStep::Team { team: 0 },
            ClubStep::Contract { team: 1, player: 0 },
            ClubStep::Team { team: 1 },
            ClubStep::Board,
            ClubStep::Academy,
        ]
    );
    assert_eq!(deliver_message(&vec![vec![1, 2], vec![3, 2]], 2), Some((0, 1)));
    assert_eq!(deliver_message(&vec![vec![1], vec![3, 2]], 2), Some((1, 1)));
    assert_eq!(deliver_message(&vec![vec![1]], 2), None);
}

fn worth(improve: bool, wage_bill: u32) -> Worth {
    Worth {
        target: 45_000,
        valuation: valuation(),
        improve,
        wage_budget: 1_000_000,
        wage_bill,
    }
}

fn agreed() -> TalkEvent {
    TalkEvent::Agreed(Terms {
        compromise: 3,
        minimum: 2,
        negotiation_skill: 12,
        age: 31,
        loyalty_bonus: 6_000,
    })
}

#[test]
fn a_talk_leads_to_an_offer() {
    let today = d(2026, 5, 1);
    let raise = ContractSignals { want_improve_contract: true, ..signals() };
    let mut p = plain_player();
    p.contract = Some(contract(40_000, PlayerSquadStatus::KeyPlayer, d(2027, 7, 31)));
    let (phase, action) = open_talk(Some(&p), raise, 100, &labels(), today);
    assert_eq!(action, TalkAction::AskDeferral { contract_club_id: 100 });

    // An answer to another question changes nothing.
    assert_eq!(
        advance(Some(&p), raise, None, today, phase, agreed()),
        (TalkPhase::Deferral, TalkAction::Nothing)
    );
    assert_eq!(
        advance(Some(&p), raise, None, today, phase, TalkEvent::Waits(true)),
        (TalkPhase::Closed, TalkAction::Nothing)
    );
    let (phase, action) = advance(Some(&p), raise, None, today, phase, TalkEvent::Waits(false));
    assert!(matches!(action, TalkAction::AskWorth { .. }));

    // No room for the raise that was asked for.
    let full = TalkEvent::Valued(worth(false, 1_000_000));
    assert_eq!(
        advance(Some(&p), raise, None, today, phase, full),
        (TalkPhase::Closed, TalkAction::Nothing)
    );
    let valued = TalkEvent::Valued(worth(false, 990_000));
    let (phase, action) = advance(Some(&p), raise, None, today, phase, valued);
    assert_eq!(action, TalkAction::AskLength { salary: 50_000 });
    let (phase, action) = advance(Some(&p), raise, None, today, phase, agreed());
    assert_eq!(phase, TalkPhase::Closed);
    match action {
        TalkAction::Propose(offer) => {
            assert_eq!((offer.salary, offer.years, offer.loyalty_bonus), (50_000, 3, 6_000));
            assert_eq!(offer.valuation_expected_wage, Some(60_000));
        }
        other => panic!("unexpected {:?}", other),
    }
}

#[test]
fn an_offer_stands_where_no_sum_is_formed() {
    let today = d(2026, 5, 1);
    let mut p = plain_player();
    p.contract = Some(contract(40_000, PlayerSquadStatus::KeyPlayer, d(2027, 7, 31)));
    let extend = ContractSignals { want_extend_contract: true, ..signals() };
    let (phase, _) = open_talk(Some(&p), extend, 100, &labels(), today);
    let (phase, action) = advance(Some(&p), extend, None, today, phase, TalkEvent::Waits(false));
    let inputs = match action {
        TalkAction::AskWorth { inputs } => inputs,
        other => panic!("unexpected {:?}", other),
    };
    let high = |wage_budget: u32| Worth {
        target: u32::MAX,
        wage_budget,
        wage_bill: u32::MAX,
        ..worth(false, 0)
    };
    // Without a budget the wage bill is not added to; a demand below the opening is not either.
    let modest = PlayerContractAsk {
        desired_salary: 50_000,
        desired_years: 3,
        refused_for_length: false,
        demanded_release_clause: None,
        demanded_status: None,
        demanded_status_is_higher: false,
        demanded_signing_bonus: None,
    };
    assert!(sums_stay_in_range(Some(&p), extend, Some(modest), inputs, high(0)));
    assert!(!sums_stay_in_range(Some(&p), extend, Some(modest), inputs, high(1)));
    let keen = PlayerContractAsk { desired_salary: 4_000_000_000, ..modest };
    let halfway = Worth { target: 3_000_000_000, ..high(0) };
    assert!(!sums_stay_in_range(Some(&p), extend, Some(keen), inputs, halfway));
    let met = Worth { improve: true, ..halfway };
    assert!(sums_stay_in_range(Some(&p), extend, Some(keen), inputs, met));
    let (_, action) =
        advance(Some(&p), extend, Some(modest), today, phase, TalkEvent::Valued(high(0)));
    assert_eq!(action, TalkAction::AskLength { salary: u32::MAX });
    assert_eq!(wage_budget_headroom(None, &vec![u32::MAX, u32::MAX]), None);
}

#[test]
fn a_talk_leads_to_a_parting() {
    let today = d(2026, 5, 1);
    let p = stubborn(75, 50_000, d(2027, 7, 1));
    let (phase, action) = open_talk(Some(&p), rejected(), 100, &labels(), today);
    assert_eq!((phase, action), (TalkPhase::Stalemate, TalkAction::AskStalemate));
    assert_eq!(
        advance(Some(&p), rejected(), None, today, phase, TalkEvent::Final(true)),
        (TalkPhase::Closed, TalkAction::Part(UnresolvedSalaryTrigger::FailedRenewal))
    );
    assert_eq!(
        advance(Some(&p), rejected(), None, today, phase, TalkEvent::Final(false)),
        (TalkPhase::Closed, TalkAction::Nothing)
    );
    let raise = ContractSignals { want_improve_contract: true, ..signals() };
    let mut q = plain_player();
    q.contract = Some(contract(40_000, PlayerSquadStatus::NotNeeded, d(2027, 7, 31)));
    let (phase, _) = open_talk(Some(&q), raise, 100, &labels(), today);
    assert_eq!(
        advance(Some(&q), raise, None, today, phase, TalkEvent::Waits(false)),
        (TalkPhase::Closed, TalkAction::Part(UnresolvedSalaryTrigger::NotNeededWantsRaise))
    );
    q.is_on_loan = true;
    q.loan_from_club_id = Some(7);
    let extend = ContractSignals { want_extend_contract: true, ..raise };
    let (phase, action) = open_talk(Some(&q), extend, 100, &labels(), today);
    assert_eq!(action, TalkAction::AskDeferral { contract_club_id: 7 });
    let (_, action) = advance(Some(&q), extend, None, today, phase, TalkEvent::Waits(false));
    assert!(matches!(action, TalkAction::AskWorth { .. }));
}
