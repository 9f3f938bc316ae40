//! Round lifecycle: initialization, opening, closing, and the frozen
//! snapshot.

use pixel_wars::errors::PixelError;
use pixel_wars::ops::commit_canvas;
use pixel_wars::ops::end_round;
use pixel_wars::ops::initialize;
use pixel_wars::ops::place_pixel;
use pixel_wars::ops::start_round;
use pixel_wars::state::CanvasAccount;
use pixel_wars::state::DomainOwner;
use pixel_wars::state::GameConfig;
use pixel_wars::state::PlayerStats;
use pixel_wars::state::Round;
use pixel_wars::state::CANVAS_DATA_SIZE;

const ADMIN: u64 = 7;

fn open_round() -> (GameConfig, Round, CanvasAccount) {
    let mut config = initialize(ADMIN, 255);
    let (round, acct) = start_round(ADMIN, &mut config, 100, 1, 2).unwrap();
    (config, round, acct)
}

#[test]
fn initialize_creates_idle_config() {
    let config = initialize(ADMIN, 254);
    assert_eq!(config.authority, ADMIN);
    assert_eq!(config.current_round, 0);
    assert!(!config.round_active);
    assert_eq!(config.bump, 254);
}

#[test]
fn start_round_opens_and_zeroes() {
    let (config, round, acct) = open_round();
    assert_eq!(config.current_round, 1);
    assert!(config.round_active);
    assert_eq!(round.round_number, 1);
    assert_eq!(round.start_slot, 100);
    assert_eq!(round.end_slot, 0);
    assert_eq!(round.total_placements, 0);
    assert!(!round.ended);
    assert_eq!(acct.owner, DomainOwner::Durable);
    assert_eq!(acct.canvas.round, 1);
    assert_eq!(acct.canvas.total_placements, 0);
    assert_eq!(acct.canvas.pixels.len(), CANVAS_DATA_SIZE);
    assert!(acct.canvas.pixels.iter().all(|&p| p == 0));
}

#[test]
fn start_round_rejects_wrong_caller() {
    let mut config = initialize(ADMIN, 255);
    let result = start_round(ADMIN + 1, &mut config, 100, 1, 2);
    assert_eq!(result.unwrap_err(), PixelError::Unauthorized);
    assert_eq!(config.current_round, 0);
    assert!(!config.round_active);
}

#[test]
fn start_round_rejects_second_open() {
    let (mut config, _round, _acct) = open_round();
    let result = start_round(ADMIN, &mut config, 200, 1, 2);
    assert_eq!(result.unwrap_err(), PixelError::RoundAlreadyActive);
    assert_eq!(config.current_round, 1);
}

#[test]
fn start_round_rejects_round_counter_overflow() {
    let mut config = initialize(ADMIN, 255);
    config.current_round = u32::MAX;
    let result = start_round(ADMIN, &mut config, 100, 1, 2);
    assert_eq!(result.unwrap_err(), PixelError::ArithmeticOverflow);
    assert_eq!(config.current_round, u32::MAX);
    assert!(!config.round_active);
}

#[test]
fn end_round_freezes_snapshot_from_raw_bytes() {
    let (mut config, mut round, mut acct) = open_round();
    // Drive the counter to 42 without going through placements: the
    // close operation must read whatever the committed bytes say.
    acct.canvas.total_placements = 42;
    let record = commit_canvas(&mut acct);
    let result = end_round(ADMIN, &mut config, &mut round, &record, 900);
    assert_eq!(result, Ok(()));
    assert_eq!(round.total_placements, 42);
    assert_eq!(round.end_slot, 900);
    assert!(round.ended);
    assert!(!config.round_active);
    assert_eq!(round.round_number, 1);
    assert_eq!(round.start_slot, 100);
}

#[test]
fn end_round_reads_bytes_not_cached_counter() {
    let (mut config, mut round, mut acct) = open_round();
    acct.canvas.total_placements = 42;
    let record = commit_canvas(&mut acct);
    // The in-memory counter moves after the commit; the snapshot must
    // still be what the committed record bytes hold.
    acct.canvas.total_placements = 1000;
    let result = end_round(ADMIN, &mut config, &mut round, &record, 900);
    assert_eq!(result, Ok(()));
    assert_eq!(round.total_placements, 42);
}

#[test]
fn end_round_rejects_wrong_caller() {
    let (mut config, mut round, mut acct) = open_round();
    let record = commit_canvas(&mut acct);
    let result = end_round(ADMIN + 3, &mut config, &mut round, &record, 900);
    assert_eq!(result.unwrap_err(), PixelError::Unauthorized);
    assert!(!round.ended);
    assert!(config.round_active);
}

#[test]
fn end_round_rejects_second_close() {
    let (mut config, mut round, mut acct) = open_round();
    let record = commit_canvas(&mut acct);
    end_round(ADMIN, &mut config, &mut round, &record, 900).unwrap();
    // Closing again while the config says active-for-another-round
    // cannot happen for the same round record: reopening bumps the
    // counter. Re-close of the same record trips the ended flag first
    // when the active flag is forced back on.
    config.round_active = true;
    let result = end_round(ADMIN, &mut config, &mut round, &record, 901);
    assert_eq!(result.unwrap_err(), PixelError::RoundEnded);
}

#[test]
fn end_round_rejects_when_no_round_active() {
    let (mut config, mut round, mut acct) = open_round();
    let record = commit_canvas(&mut acct);
    end_round(ADMIN, &mut config, &mut round, &record, 900).unwrap();
    let result = end_round(ADMIN, &mut config, &mut round, &record, 901);
    assert_eq!(result.unwrap_err(), PixelError::NoActiveRound);
}

#[test]
fn ended_round_blocks_further_placements() {
    let (mut config, mut round, mut acct) = open_round();
    let record = commit_canvas(&mut acct);
    end_round(ADMIN, &mut config, &mut round, &record, 900).unwrap();
    let mut stats = PlayerStats::fresh();
    let result = place_pixel(
        9,
        &config,
        &mut acct,
        &mut stats,
        0,
        0,
        1,
        2,
        3,
        1000,
        5,
        DomainOwner::Durable,
    );
    assert_eq!(result.unwrap_err(), PixelError::NoActiveRound);
    assert_eq!(acct.canvas.total_placements, 0);
    // Only a new round reopens the game.
    let (round2, mut acct2) = start_round(ADMIN, &mut config, 1100, 1, 2).unwrap();
    assert_eq!(round2.round_number, 2);
    let result2 = place_pixel(
        9,
        &config,
        &mut acct2,
        &mut stats,
        0,
        0,
        1,
        2,
        3,
        1200,
        5,
        DomainOwner::Durable,
    );
    assert_eq!(result2, Ok(()));
}
