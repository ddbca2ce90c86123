use text_duel::actions::ActionChoice;
use text_duel::game::{mode_from_choice, Game, GameMode, InitError, Match, MatchState};
use text_duel::player::Player;

fn names(list: &[&str]) -> Vec<String> {
    list.iter().map(|s| s.to_string()).collect()
}

fn human() -> Player {
    Player::new(String::from("Hero"), String::from("Jett"), 200)
}

fn opponent() -> Player {
    Player::new(String::from("Opponent"), String::from("Sage"), 200)
}

#[test]
fn game_new_rejects_empty_agent_list() {
    let r = Game::new(GameMode::Unrated, names(&[]), names(&["Pistol"]));
    assert!(matches!(r, Err(InitError::NoAgents)));
}

#[test]
fn game_new_rejects_empty_weapon_list() {
    let r = Game::new(GameMode::Unrated, names(&["Jett"]), names(&[]));
    assert!(matches!(r, Err(InitError::NoWeapons)));
}

#[test]
fn game_new_keeps_supplied_lists() {
    let g = Game::new(
        GameMode::Competitive,
        names(&["Jett", "Sage"]),
        names(&["Pistol", "Rifle", "Shotgun"]),
    )
    .unwrap();
    assert_eq!(g.mode, GameMode::Competitive);
    assert_eq!(g.agents, names(&["Jett", "Sage"]));
    assert_eq!(g.weapons, names(&["Pistol", "Rifle", "Shotgun"]));
}

#[test]
fn mode_menu_mapping() {
    assert_eq!(mode_from_choice(1), Some(GameMode::Unrated));
    assert_eq!(mode_from_choice(2), Some(GameMode::Competitive));
    assert_eq!(mode_from_choice(3), Some(GameMode::TeamDeathMatch));
    assert_eq!(mode_from_choice(0), None);
    assert_eq!(mode_from_choice(4), None);
}

#[test]
fn starting_credits_per_mode() {
    assert_eq!(GameMode::Unrated.starting_credits(), 200);
    assert_eq!(GameMode::Competitive.starting_credits(), 0);
    assert_eq!(GameMode::TeamDeathMatch.starting_credits(), 0);
}

#[test]
fn choose_agent_by_menu_selection() {
    let g = Game::new(GameMode::Unrated, names(&["Jett", "Sage"]), names(&["Pistol"])).unwrap();
    assert_eq!(g.choose_agent(1), Some(String::from("Jett")));
    assert_eq!(g.choose_agent(2), Some(String::from("Sage")));
    assert_eq!(g.choose_agent(0), None);
    assert_eq!(g.choose_agent(3), None);
}

#[test]
fn random_agent_comes_from_the_list() {
    let g = Game::new(
        GameMode::Unrated,
        names(&["Jett", "Sage", "Omen"]),
        names(&["Pistol"]),
    )
    .unwrap();
    for _ in 0..100 {
        let a = g.random_agent();
        assert!(g.agents.contains(&a));
    }
}

#[test]
fn random_agent_single_entry() {
    let g = Game::new(GameMode::Unrated, names(&["Jett"]), names(&["Pistol"])).unwrap();
    assert_eq!(g.random_agent(), String::from("Jett"));
}

#[test]
fn match_starts_in_progress() {
    let m = Match::new(human(), opponent());
    assert_eq!(m.state, MatchState::InProgress);
    assert!(!m.is_over());
}

#[test]
fn human_kill_ends_match_before_opponent_acts() {
    let mut o = opponent();
    o.take_damage(95);
    assert_eq!(o.health, 5);
    let mut m = Match::new(human(), o);
    m.human_turn(ActionChoice::Shoot);
    assert_eq!(m.opponent.health, 0);
    assert_eq!(m.state, MatchState::HumanWins);
    assert!(m.is_over());
    assert_eq!(m.human.health, 100, "no retaliation may reach the human");
}

#[test]
fn non_lethal_round_keeps_match_running() {
    let mut m = Match::new(human(), opponent());
    m.human_turn(ActionChoice::Move(1, 0));
    assert_eq!(m.state, MatchState::InProgress);
    assert_eq!(m.human.position, (1, 0));
    let before = m.human.health;
    m.opponent_turn(ActionChoice::Shoot);
    assert_eq!(m.state, MatchState::InProgress);
    assert!(m.human.health < before);
    assert!(m.human.health >= before - 20);
}

#[test]
fn opponent_kill_is_checked_after_its_action() {
    let mut h = human();
    h.take_damage(99);
    assert_eq!(h.health, 1);
    let mut m = Match::new(h, opponent());
    m.human_turn(ActionChoice::Move(0, 1));
    assert_eq!(m.state, MatchState::InProgress);
    m.opponent_turn(ActionChoice::Shoot);
    assert_eq!(m.human.health, 0);
    assert_eq!(m.state, MatchState::OpponentWins);
    assert!(m.is_over());
}

#[test]
fn purchase_turn_consumes_no_health() {
    let mut m = Match::new(human(), opponent());
    m.human_turn(ActionChoice::Purchase(2));
    assert_eq!(m.human.credits, 100);
    assert_eq!(m.human.health, 100);
    assert_eq!(m.opponent.health, 100);
    assert_eq!(m.state, MatchState::InProgress);
}
