//! The game's operations.
//!
//! Each operation corresponds to one entry point of the on-ledger
//! program. The host ledger verifies the caller's signature, resolves
//! the referenced records by deterministic address derivation, and
//! supplies the current ledger time; the functions here take those
//! resolved records and plain values and apply the game rules. Every
//! operation either succeeds in full or returns an error having changed
//! nothing.

use vstd::prelude::*;

use vstd::bytes::spec_u64_from_le_bytes;

use crate::codec::encode_canvas_record;
use crate::codec::read_total_placements;
use crate::codec::spec_canvas_record;
use crate::codec::CANVAS_RECORD_SIZE;
use crate::codec::TOTAL_PLACEMENTS_OFFSET;
use crate::errors::PixelError;
use crate::state::lifecycle_consistent;
use crate::state::AgentRegistration;
use crate::state::Canvas;
use crate::state::CanvasAccount;
use crate::state::DomainOwner;
use crate::state::GameConfig;
use crate::state::PlayerStats;
use crate::state::RegistrationBook;
use crate::state::Round;
use crate::state::BYTES_PER_PIXEL;
use crate::state::CANVAS_DATA_SIZE;
use crate::state::CANVAS_HEIGHT;
use crate::state::CANVAS_WIDTH;
use crate::state::COMMIT_FREQUENCY_MS;
use crate::state::MAX_TEAMS;
use crate::state::PLACEMENT_COOLDOWN_SLOTS;
use crate::state::REALLOC_STEP;

verus! {

/// The admin gate shared by the round-lifecycle operations: the caller
/// must be the configured authority and a round must be active.
pub open spec fn spec_admin_gate(caller: u64, config: GameConfig) -> Result<(), PixelError> {
    if caller != config.authority {
        Err(PixelError::Unauthorized)
    } else if !config.round_active {
        Err(PixelError::NoActiveRound)
    } else {
        Ok(())
    }
}

/// Whether `start_round` accepts, and with which error it rejects.
pub open spec fn spec_start_round_outcome(caller: u64, config: GameConfig) -> Result<
    (),
    PixelError,
> {
    if caller != config.authority {
        Err(PixelError::Unauthorized)
    } else if config.round_active {
        Err(PixelError::RoundAlreadyActive)
    } else if config.current_round == u32::MAX {
        Err(PixelError::ArithmeticOverflow)
    } else {
        Ok(())
    }
}

/// A fully zeroed pixel buffer: the black canvas.
fn zeroed_pixels() -> (v: Vec<u8>)
    ensures
        v@ == Seq::new(CANVAS_DATA_SIZE as nat, |i: int| 0u8),
{
    let mut v: Vec<u8> = Vec::new();
    while v.len() < CANVAS_DATA_SIZE
        invariant
            v@.len() <= CANVAS_DATA_SIZE,
            forall|k: int| 0 <= k < v@.len() ==> v@[k] == 0u8,
        decreases CANVAS_DATA_SIZE - v@.len(),
    {
        v.push(0);
    }
    proof {
        assert(v@ =~= Seq::new(CANVAS_DATA_SIZE as nat, |i: int| 0u8));
    }
    v
}

/// Open a new round: increment the round counter, mark the round
/// active, and create the round record and the zero-filled canvas on
/// the durable ledger.
///
/// Admin-only. Fails if the caller is not the authority, if a round is
/// already active, or if the round counter would overflow.
pub fn start_round(
    caller: u64,
    config: &mut GameConfig,
    now_slot: u64,
    round_bump: u8,
    canvas_bump: u8,
) -> (result: Result<(Round, CanvasAccount), PixelError>)
    ensures
        result is Ok <==> spec_start_round_outcome(caller, *old(config)) is Ok,
        result matches Err(e) ==> spec_start_round_outcome(caller, *old(config)) == Err::<
            (),
            PixelError,
        >(e) && *final(config) == *old(config),
        result is Ok ==> *final(config) == (GameConfig {
            authority: old(config).authority,
            current_round: (old(config).current_round + 1) as u32,
            round_active: true,
            bump: old(config).bump,
        }),
        result matches Ok(created) ==> created.0 == (Round {
            round_number: (old(config).current_round + 1) as u32,
            start_slot: now_slot,
            end_slot: 0u64,
            total_placements: 0u64,
            ended: false,
            bump: round_bump,
        }),
        result matches Ok(created) ==> lifecycle_consistent(*final(config), created.0),
        result matches Ok(created) ==> created.1@.owner == DomainOwner::Durable
            && created.1@.storage_len == CANVAS_RECORD_SIZE
            && created.1@.canvas.total_placements == 0
            && created.1@.canvas.round == old(config).current_round + 1
            && created.1@.canvas.bump == canvas_bump
            && created.1@.canvas.pixels == Seq::new(CANVAS_DATA_SIZE as nat, |i: int| 0u8)
            && created.1.wf(),
{
    if caller != config.authority {
        return Err(PixelError::Unauthorized);
    }
    if config.round_active {
        return Err(PixelError::RoundAlreadyActive);
    }
    if config.current_round == u32::MAX {
        return Err(PixelError::ArithmeticOverflow);
    }
    let new_round_num = config.current_round + 1;
    config.current_round = new_round_num;
    config.round_active = true;
    let round = Round {
        round_number: new_round_num,
        start_slot: now_slot,
        end_slot: 0,
        total_placements: 0,
        ended: false,
        bump: round_bump,
    };
    let canvas = Canvas { total_placements: 0, round: new_round_num, bump: canvas_bump, pixels: zeroed_pixels() };
    let acct = CanvasAccount {
        owner: DomainOwner::Durable,
        storage_len: CANVAS_RECORD_SIZE,
        canvas,
    };
    Ok((round, acct))
}

/// How far one growth step takes a record of `len` bytes toward the
/// full canvas record size: the allocator caps one step at
/// `REALLOC_STEP` bytes, and a record already at or past the target is
/// left alone.
pub open spec fn spec_grown_len(len: usize) -> int {
    if len >= CANVAS_RECORD_SIZE {
        len as int
    } else if len + REALLOC_STEP <= CANVAS_RECORD_SIZE {
        len + REALLOC_STEP
    } else {
        CANVAS_RECORD_SIZE as int
    }
}

/// Grow the canvas record's storage footprint one bounded step toward
/// its full size. Safe to call any number of times: it never shrinks
/// the record, and at full size it succeeds as a no-op.
///
/// Admin-only; a round must be active; the record must be under durable
/// ownership, which the durable ledger checks before any write. This
/// operation exists purely to work around the allocator's per-call
/// growth ceiling and has no effect on game state.
pub fn resize_canvas(caller: u64, config: &GameConfig, acct: &mut CanvasAccount) -> (result:
    Result<(), PixelError>)
    requires
        old(acct).wf(),
        old(acct).owner == DomainOwner::Durable,
    ensures
        result == spec_admin_gate(caller, *config),
        final(acct).wf(),
        final(acct)@.owner == old(acct)@.owner,
        final(acct)@.canvas == old(acct)@.canvas,
        result is Err ==> final(acct)@ == old(acct)@,
        result is Ok ==> final(acct)@.storage_len == spec_grown_len(old(acct)@.storage_len),
        final(acct)@.storage_len >= old(acct)@.storage_len,
{
    if caller != config.authority {
        return Err(PixelError::Unauthorized);
    }
    if !config.round_active {
        return Err(PixelError::NoActiveRound);
    }
    let current_len = acct.storage_len;
    if current_len >= CANVAS_RECORD_SIZE {
        return Ok(());
    }
    let grown = if current_len + REALLOC_STEP <= CANVAS_RECORD_SIZE {
        current_len + REALLOC_STEP
    } else {
        CANVAS_RECORD_SIZE
    };
    acct.storage_len = grown;
    Ok(())
}

/// How much the caller must add to a record's balance so that it holds
/// the required storage deposit; zero when the record already holds
/// enough. The required deposit itself comes from the host ledger's
/// rent schedule.
pub fn rent_top_up(required_balance: u64, current_balance: u64) -> (r: u64)
    ensures
        r == (if required_balance > current_balance {
            required_balance - current_balance
        } else {
            0
        }),
{
    if required_balance > current_balance {
        required_balance - current_balance
    } else {
        0
    }
}

/// Create the global configuration record. Run once at deployment by
/// whoever will administer the game; the host ledger guarantees the
/// singleton exists only once.
pub fn initialize(authority: u64, bump: u8) -> (config: GameConfig)
    ensures
        config == (GameConfig { authority, current_round: 0u32, round_active: false, bump }),
{
    GameConfig { authority, current_round: 0, round_active: false, bump }
}

/// What the delegation operation registers with the satellite domain:
/// the re-commit cadence and, optionally, a chosen validator identity.
#[derive(Clone, Copy, Debug)]
pub struct DelegateDirective {
    /// Maximum staleness interval, in milliseconds, after which the
    /// satellite domain must checkpoint the record back.
    pub commit_frequency_ms: u32,
    /// Validator identity to delegate to, when the caller names one.
    pub validator: Option<u64>,
}

/// Hand write-authority over the canvas record to the satellite
/// domain, registering the fixed re-commit cadence and the validator
/// the caller named.
///
/// Admin-only; a round must be active. The record must currently be
/// under durable ownership: the durable ledger refuses to touch a
/// record it does not own before the operation runs.
pub fn delegate_canvas(
    caller: u64,
    config: &GameConfig,
    acct: &mut CanvasAccount,
    validator: Option<u64>,
) -> (result: Result<DelegateDirective, PixelError>)
    requires
        old(acct).wf(),
        old(acct).owner == DomainOwner::Durable,
    ensures
        result is Ok <==> spec_admin_gate(caller, *config) is Ok,
        result matches Err(e) ==> spec_admin_gate(caller, *config) == Err::<(), PixelError>(e)
            && final(acct)@ == old(acct)@,
        result matches Ok(directive) ==> directive.commit_frequency_ms == COMMIT_FREQUENCY_MS
            && directive.validator == validator,
        result is Ok ==> final(acct)@.owner == DomainOwner::Satellite,
        final(acct)@.storage_len == old(acct)@.storage_len,
        final(acct)@.canvas == old(acct)@.canvas,
        final(acct).wf(),
{
    if caller != config.authority {
        return Err(PixelError::Unauthorized);
    }
    if !config.round_active {
        return Err(PixelError::NoActiveRound);
    }
    acct.owner = DomainOwner::Satellite;
    Ok(DelegateDirective { commit_frequency_ms: COMMIT_FREQUENCY_MS, validator })
}

/// Flush the canvas back to the durable ledger and return
/// write-authority to it, producing the durable record image.
///
/// Idempotent from the caller's perspective: when the record is
/// already durable-ledger-owned this is a no-op success that alters
/// nothing, so retries are harmless.
pub fn commit_canvas(acct: &mut CanvasAccount) -> (record: Vec<u8>)
    requires
        old(acct).wf(),
    ensures
        final(acct)@.owner == DomainOwner::Durable,
        final(acct)@.storage_len == old(acct)@.storage_len,
        final(acct)@.canvas == old(acct)@.canvas,
        old(acct)@.owner == DomainOwner::Durable ==> final(acct)@ == old(acct)@,
        record@ == spec_canvas_record(old(acct)@.canvas),
        record@.len() == CANVAS_RECORD_SIZE,
        final(acct).wf(),
{
    acct.owner = DomainOwner::Durable;
    encode_canvas_record(&acct.canvas)
}

/// Whether `end_round` accepts, and with which error it rejects.
pub open spec fn spec_end_round_outcome(caller: u64, config: GameConfig, round: Round) -> Result<
    (),
    PixelError,
> {
    if caller != config.authority {
        Err(PixelError::Unauthorized)
    } else if !config.round_active {
        Err(PixelError::NoActiveRound)
    } else if round.ended {
        Err(PixelError::RoundEnded)
    } else {
        Ok(())
    }
}

/// Close the round: freeze the round record and clear the active flag.
///
/// `canvas_data` is the canvas's durable record image, readable only
/// once the canvas has been committed back to the durable ledger (the
/// return value of `commit_canvas`). The placement-counter snapshot is
/// read from those raw bytes at the layout's fixed offset, never from
/// any cached in-memory value.
///
/// Admin-only; a round must be active; a round can be closed only
/// once.
pub fn end_round(
    caller: u64,
    config: &mut GameConfig,
    round: &mut Round,
    canvas_data: &Vec<u8>,
    now_slot: u64,
) -> (result: Result<(), PixelError>)
    requires
        canvas_data@.len() >= TOTAL_PLACEMENTS_OFFSET + 8,
    ensures
        result == spec_end_round_outcome(caller, *old(config), *old(round)),
        result is Err ==> *final(config) == *old(config) && *final(round) == *old(round),
        result is Ok ==> *final(config) == (GameConfig {
            authority: old(config).authority,
            current_round: old(config).current_round,
            round_active: false,
            bump: old(config).bump,
        }),
        result is Ok ==> *final(round) == (Round {
            round_number: old(round).round_number,
            start_slot: old(round).start_slot,
            end_slot: now_slot,
            total_placements: spec_u64_from_le_bytes(
                canvas_data@.subrange(TOTAL_PLACEMENTS_OFFSET as int, TOTAL_PLACEMENTS_OFFSET + 8),
            ),
            ended: true,
            bump: old(round).bump,
        }),
        result is Ok ==> lifecycle_consistent(*final(config), *final(round)),
{
    if caller != config.authority {
        return Err(PixelError::Unauthorized);
    }
    if !config.round_active {
        return Err(PixelError::NoActiveRound);
    }
    if round.ended {
        return Err(PixelError::RoundEnded);
    }
    let total_placements = read_total_placements(canvas_data);
    round.end_slot = now_slot;
    round.total_placements = total_placements;
    round.ended = true;
    config.round_active = false;
    Ok(())
}

/// Whether `(x, y)` lies on the canvas raster.
pub open spec fn spec_in_bounds(x: u16, y: u16) -> bool {
    x < CANVAS_WIDTH && y < CANVAS_HEIGHT
}

/// Slots elapsed since `last`, saturating at zero when the clock reads
/// earlier than the recorded slot.
pub open spec fn spec_elapsed_slots(last: u64, now: u64) -> int {
    if now >= last {
        now - last
    } else {
        0
    }
}

/// Whether a participant with these stats may place at `now_slot`: the
/// very first placement in a round is exempt from the cooldown; every
/// later one must come at least `PLACEMENT_COOLDOWN_SLOTS` after the
/// participant's previous placement.
pub open spec fn spec_cooldown_ok(stats: PlayerStats, now_slot: u64) -> bool {
    stats.pixels_placed == 0 || spec_elapsed_slots(stats.last_placement_slot, now_slot)
        >= PLACEMENT_COOLDOWN_SLOTS
}

/// Linear byte offset of cell `(x, y)` in the row-major pixel buffer.
pub open spec fn spec_pixel_offset(x: u16, y: u16) -> int {
    ((y as int) * (CANVAS_WIDTH as int) + (x as int)) * (BYTES_PER_PIXEL as int)
}

/// Whether a placement is accepted, and with which error it is
/// rejected, in the order the checks are made: round activity, raster
/// bounds, cooldown, then the two counter overflows.
pub open spec fn spec_place_outcome(
    config: GameConfig,
    total_placements: u64,
    stats: PlayerStats,
    x: u16,
    y: u16,
    now_slot: u64,
) -> Result<(), PixelError> {
    if !config.round_active {
        Err(PixelError::NoActiveRound)
    } else if !spec_in_bounds(x, y) {
        Err(PixelError::OutOfBounds)
    } else if !spec_cooldown_ok(stats, now_slot) {
        Err(PixelError::CooldownNotElapsed)
    } else if total_placements == u64::MAX {
        Err(PixelError::ArithmeticOverflow)
    } else if stats.pixels_placed == u32::MAX {
        Err(PixelError::ArithmeticOverflow)
    } else {
        Ok(())
    }
}

/// The pixel buffer after one placement: the three bytes of cell
/// `(x, y)` overwritten with the new color, last writer wins.
pub open spec fn spec_pixels_after_placement(
    pixels: Seq<u8>,
    x: u16,
    y: u16,
    r: u8,
    g: u8,
    b: u8,
) -> Seq<u8> {
    pixels.update(spec_pixel_offset(x, y), r).update(spec_pixel_offset(x, y) + 1, g).update(
        spec_pixel_offset(x, y) + 2,
        b,
    )
}

/// The participant's stats after one accepted placement: identity
/// fields are filled on the first placement of the round and kept
/// thereafter; the counter and the last-placement slot always advance.
pub open spec fn spec_stats_after_placement(
    stats: PlayerStats,
    player: u64,
    config: GameConfig,
    now_slot: u64,
    stats_bump: u8,
) -> PlayerStats {
    PlayerStats {
        player: if stats.pixels_placed == 0 {
            player
        } else {
            stats.player
        },
        round: if stats.pixels_placed == 0 {
            config.current_round
        } else {
            stats.round
        },
        pixels_placed: (stats.pixels_placed + 1) as u32,
        last_placement_slot: now_slot,
        bump: if stats.pixels_placed == 0 {
            stats_bump
        } else {
            stats.bump
        },
    }
}

/// Place one pixel: overwrite the three color bytes of cell `(x, y)`
/// and advance the placement counters, all atomically.
///
/// Any participant may call this while a round is active, subject to
/// the raster bounds and the per-participant cooldown; this full
/// bookkeeping policy is the canonical one, and no lighter bounds-only
/// variant exists. Team attribution is `register_agent`'s business and
/// plays no part in placement. `stats` is the participant's record for
/// the current round, or `PlayerStats::fresh()` when the host just
/// created it for the participant's first placement.
/// `domain` is the execution domain the operation arrived through: the
/// host routes an operation to the record's owning domain and refuses
/// the other path before the operation runs.
pub fn place_pixel(
    player: u64,
    config: &GameConfig,
    acct: &mut CanvasAccount,
    stats: &mut PlayerStats,
    x: u16,
    y: u16,
    r: u8,
    g: u8,
    b: u8,
    now_slot: u64,
    stats_bump: u8,
    domain: DomainOwner,
) -> (result: Result<(), PixelError>)
    requires
        old(acct).wf(),
        domain == old(acct).owner,
    ensures
        result == spec_place_outcome(
            *config,
            old(acct)@.canvas.total_placements,
            *old(stats),
            x,
            y,
            now_slot,
        ),
        result is Err ==> final(acct)@ == old(acct)@ && *final(stats) == *old(stats),
        result is Ok ==> final(acct)@.owner == old(acct)@.owner
            && final(acct)@.storage_len == old(acct)@.storage_len
            && final(acct)@.canvas.round == old(acct)@.canvas.round
            && final(acct)@.canvas.bump == old(acct)@.canvas.bump
            && final(acct)@.canvas.total_placements == old(acct)@.canvas.total_placements + 1
            && final(acct)@.canvas.pixels == spec_pixels_after_placement(
            old(acct)@.canvas.pixels,
            x,
            y,
            r,
            g,
            b,
        ),
        result is Ok ==> *final(stats) == spec_stats_after_placement(
            *old(stats),
            player,
            *config,
            now_slot,
            stats_bump,
        ),
        final(acct).wf(),
{
    if !config.round_active {
        return Err(PixelError::NoActiveRound);
    }
    if !(x < CANVAS_WIDTH && y < CANVAS_HEIGHT) {
        return Err(PixelError::OutOfBounds);
    }
    if stats.pixels_placed > 0 {
        let elapsed = if now_slot >= stats.last_placement_slot {
            now_slot - stats.last_placement_slot
        } else {
            0
        };
        if elapsed < PLACEMENT_COOLDOWN_SLOTS {
            return Err(PixelError::CooldownNotElapsed);
        }
    }
    if acct.canvas.total_placements == u64::MAX {
        return Err(PixelError::ArithmeticOverflow);
    }
    if stats.pixels_placed == u32::MAX {
        return Err(PixelError::ArithmeticOverflow);
    }
    let yy: usize = y as usize;
    let xx: usize = x as usize;
    proof {
        assert(CANVAS_WIDTH as usize == 50 && CANVAS_HEIGHT as usize == 50);
        assert(yy * 50 + xx < 2500) by (nonlinear_arith)
            requires
                yy < 50,
                xx < 50,
        ;
    }
    let cell = yy * (CANVAS_WIDTH as usize) + xx;
    let base = cell * BYTES_PER_PIXEL;
    proof {
        assert(base as int == spec_pixel_offset(x, y));
        assert(base + 2 < CANVAS_DATA_SIZE);
    }
    acct.canvas.pixels[base] = r;
    acct.canvas.pixels[base + 1] = g;
    acct.canvas.pixels[base + 2] = b;
    acct.canvas.total_placements = acct.canvas.total_placements + 1;
    if stats.pixels_placed == 0 {
        stats.player = player;
        stats.round = config.current_round;
        stats.bump = stats_bump;
    }
    stats.pixels_placed = stats.pixels_placed + 1;
    stats.last_placement_slot = now_slot;
    Ok(())
}

/// Whether a registration is accepted, and with which error it is
/// rejected: round activity first, then the presence check at the
/// derived record address, then the team-id range.
pub open spec fn spec_register_outcome(
    config: GameConfig,
    book: RegistrationBook,
    agent: u64,
    team_id: u8,
) -> Result<(), PixelError> {
    if !config.round_active {
        Err(PixelError::NoActiveRound)
    } else if book.spec_contains(agent, config.current_round) {
        Err(PixelError::AgentAlreadyRegistered)
    } else if team_id >= MAX_TEAMS {
        Err(PixelError::InvalidTeamId)
    } else {
        Ok(())
    }
}

/// Register a participant for the current round on a team, once.
///
/// Creates an immutable registration record stamped with the current
/// timestamp. A second registration by the same participant in the
/// same round fails, because a record already exists at the derived
/// (agent, round) address.
pub fn register_agent(
    agent: u64,
    config: &GameConfig,
    book: &mut RegistrationBook,
    team_id: u8,
    now_ts: i64,
    bump: u8,
) -> (result: Result<AgentRegistration, PixelError>)
    requires
        old(book).wf(),
    ensures
        final(book).wf(),
        result is Ok <==> spec_register_outcome(*config, *old(book), agent, team_id) is Ok,
        result matches Err(e) ==> spec_register_outcome(*config, *old(book), agent, team_id)
            == Err::<(), PixelError>(e) && final(book)@ == old(book)@,
        result matches Ok(reg) ==> reg == (AgentRegistration {
            agent,
            round: config.current_round,
            team_id,
            registered_at: now_ts,
            bump,
        }) && final(book)@ == old(book)@.push(reg),
        result is Ok ==> final(book).spec_contains(agent, config.current_round),
{
    if !config.round_active {
        return Err(PixelError::NoActiveRound);
    }
    if book.contains(agent, config.current_round) {
        return Err(PixelError::AgentAlreadyRegistered);
    }
    if team_id >= MAX_TEAMS {
        return Err(PixelError::InvalidTeamId);
    }
    let reg = AgentRegistration {
        agent,
        round: config.current_round,
        team_id,
        registered_at: now_ts,
        bump,
    };
    let ghost pre = book@;
    book.entries.push(reg);
    proof {
        assert(book@ =~= pre.push(reg));
        assert(book@[pre.len() as int] == reg);
        assert forall|i: int, j: int|
            0 <= i < j < book@.len() implies !((#[trigger] book@[i]).agent
            == (#[trigger] book@[j]).agent && book@[i].round == book@[j].round) by {
            if j < pre.len() {
                assert(book@[i] == pre[i]);
                assert(book@[j] == pre[j]);
            } else {
                assert(book@[j] == reg);
                assert(book@[i] == pre[i]);
            }
        }
        assert(book@[pre.len() as int].agent == agent && book@[pre.len() as int].round
            == config.current_round);
    }
    Ok(reg)
}

} // verus!
