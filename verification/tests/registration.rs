//! Team registration: one immutable record per participant and round.

use pixel_wars::errors::PixelError;
use pixel_wars::ops::end_round;
use pixel_wars::ops::commit_canvas;
use pixel_wars::ops::initialize;
use pixel_wars::ops::register_agent;
use pixel_wars::ops::start_round;
use pixel_wars::state::GameConfig;
use pixel_wars::state::RegistrationBook;
use pixel_wars::state::MAX_TEAMS;

const ADMIN: u64 = 7;
const AGENT: u64 = 21;

fn open_round() -> GameConfig {
    let mut config = initialize(ADMIN, 255);
    let (_round, _acct) = start_round(ADMIN, &mut config, 100, 1, 2).unwrap();
    config
}

#[test]
fn registration_creates_stamped_record() {
    let config = open_round();
    let mut book = RegistrationBook::new();
    let reg = register_agent(AGENT, &config, &mut book, 3, 1700000000, 9).unwrap();
    assert_eq!(reg.agent, AGENT);
    assert_eq!(reg.round, 1);
    assert_eq!(reg.team_id, 3);
    assert_eq!(reg.registered_at, 1700000000);
    assert_eq!(reg.bump, 9);
    assert!(book.contains(AGENT, 1));
}

#[test]
fn duplicate_registration_fails() {
    let config = open_round();
    let mut book = RegistrationBook::new();
    register_agent(AGENT, &config, &mut book, 3, 1700000000, 9).unwrap();
    // Even with a different team id, the second attempt by the same
    // participant in the same round hits the existing record.
    let result = register_agent(AGENT, &config, &mut book, 4, 1700000100, 9);
    assert_eq!(result.unwrap_err(), PixelError::AgentAlreadyRegistered);
    assert_eq!(book.entries.len(), 1);
    assert_eq!(book.entries[0].team_id, 3);
}

#[test]
fn different_participant_registers_independently() {
    let config = open_round();
    let mut book = RegistrationBook::new();
    register_agent(AGENT, &config, &mut book, 3, 1700000000, 9).unwrap();
    let other = register_agent(AGENT + 1, &config, &mut book, 3, 1700000050, 9).unwrap();
    assert_eq!(other.agent, AGENT + 1);
    assert_eq!(book.entries.len(), 2);
}

#[test]
fn same_participant_registers_in_next_round() {
    let mut config = initialize(ADMIN, 255);
    let (mut round, mut acct) = start_round(ADMIN, &mut config, 100, 1, 2).unwrap();
    let mut book = RegistrationBook::new();
    register_agent(AGENT, &config, &mut book, 3, 1700000000, 9).unwrap();

    let record = commit_canvas(&mut acct);
    end_round(ADMIN, &mut config, &mut round, &record, 900).unwrap();
    let (_round2, _acct2) = start_round(ADMIN, &mut config, 1000, 1, 2).unwrap();

    let reg2 = register_agent(AGENT, &config, &mut book, 5, 1700009999, 9).unwrap();
    assert_eq!(reg2.round, 2);
    assert_eq!(book.entries.len(), 2);
    assert!(book.contains(AGENT, 1));
    assert!(book.contains(AGENT, 2));
}

#[test]
fn team_id_out_of_range_fails() {
    let config = open_round();
    let mut book = RegistrationBook::new();
    let result = register_agent(AGENT, &config, &mut book, MAX_TEAMS, 1700000000, 9);
    assert_eq!(result.unwrap_err(), PixelError::InvalidTeamId);
    assert_eq!(book.entries.len(), 0);
    // The largest valid team id passes.
    let reg = register_agent(AGENT, &config, &mut book, MAX_TEAMS - 1, 1700000000, 9).unwrap();
    assert_eq!(reg.team_id, MAX_TEAMS - 1);
}

#[test]
fn registration_requires_active_round() {
    let config = initialize(ADMIN, 255);
    let mut book = RegistrationBook::new();
    let result = register_agent(AGENT, &config, &mut book, 3, 1700000000, 9);
    assert_eq!(result.unwrap_err(), PixelError::NoActiveRound);
}
