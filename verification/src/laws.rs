//! Laws the game guarantees across operations.
//!
//! Each proof function here states a guarantee that relates several
//! operations or a whole sequence of them, over the same spec functions
//! that the operations' own contracts use.

use vstd::prelude::*;

use crate::errors::PixelError;
use crate::ops::spec_cooldown_ok;
use crate::ops::spec_grown_len;
use crate::ops::spec_place_outcome;
use crate::ops::spec_register_outcome;
use crate::codec::CANVAS_RECORD_SIZE;
use crate::state::lifecycle_consistent;
use crate::state::CanvasAccountView;
use crate::state::GameConfig;
use crate::state::PlayerStats;
use crate::state::RegistrationBook;
use crate::state::Round;
use crate::state::CANVAS_HEIGHT;
use crate::state::CANVAS_WIDTH;
use crate::state::MAX_TEAMS;
use crate::state::PLACEMENT_COOLDOWN_SLOTS;
use crate::state::REALLOC_STEP;

verus! {

/// An ended round stays closed: once the current round record has
/// `ended == true`, the active flag is clear, and every placement
/// attempt is rejected with the no-active-round error — no placement
/// can succeed against that round's canvas until a new round is
/// opened.
pub proof fn lemma_ended_round_blocks_placement(
    config: GameConfig,
    round: Round,
    total_placements: u64,
    stats: PlayerStats,
    x: u16,
    y: u16,
    now_slot: u64,
)
    requires
        lifecycle_consistent(config, round),
        round.round_number == config.current_round,
        round.ended,
    ensures
        !config.round_active,
        spec_place_outcome(config, total_placements, stats, x, y, now_slot) == Err::<
            (),
            PixelError,
        >(PixelError::NoActiveRound),
{
}

/// The relation between canvas states across one accepted placement,
/// as `place_pixel` ensures it: the counter advances by exactly one.
pub open spec fn placement_step(pre: CanvasAccountView, post: CanvasAccountView) -> bool {
    post.canvas.total_placements == pre.canvas.total_placements + 1
}

/// The placement counter counts placements exactly: across any
/// sequence of canvas states linked by accepted placements, the
/// counter at each state equals the starting counter plus the number
/// of placements so far — so it never decreases, and starting from the
/// zeroed canvas that `start_round` creates it equals the exact count
/// of accepted placements since the round opened.
pub proof fn lemma_counter_counts_placements(trace: Seq<CanvasAccountView>)
    requires
        trace.len() >= 1,
        forall|i: int|
            0 <= i < trace.len() - 1 ==> #[trigger] placement_step(trace[i], trace[i + 1]),
    ensures
        forall|i: int|
            0 <= i < trace.len() ==> (#[trigger] trace[i].canvas.total_placements)
                == trace[0].canvas.total_placements + i,
        forall|i: int, j: int|
            0 <= i <= j < trace.len() ==> (#[trigger] trace[i].canvas.total_placements)
                <= (#[trigger] trace[j].canvas.total_placements),
    decreases trace.len(),
{
    if trace.len() > 1 {
        let head = trace.subrange(0, trace.len() - 1);
        assert forall|i: int| 0 <= i < head.len() - 1 implies #[trigger] placement_step(
            head[i],
            head[i + 1],
        ) by {
            assert(placement_step(trace[i], trace[i + 1]));
        }
        lemma_counter_counts_placements(head);
        assert forall|i: int| 0 <= i < trace.len() implies (
        #[trigger] trace[i].canvas.total_placements) == trace[0].canvas.total_placements + i by {
            if i < trace.len() - 1 {
                assert(trace[i] == head[i]);
                assert(head[i].canvas.total_placements == head[0].canvas.total_placements + i);
            } else {
                assert(trace[i - 1] == head[i - 1]);
                assert(head[i - 1].canvas.total_placements == head[0].canvas.total_placements + (i
                    - 1));
                assert(placement_step(trace[i - 1], trace[i - 1 + 1]));
            }
        }
    }
}

/// The cooldown window, exactly: once a participant has placed at
/// least once, a further placement is allowed if and only if the clock
/// has reached the last placement's slot plus the cooldown — an
/// attempt inside the window is rejected, one at or past the window's
/// end passes the cooldown check.
pub proof fn lemma_cooldown_window(stats: PlayerStats, now_slot: u64)
    requires
        stats.pixels_placed > 0,
    ensures
        spec_cooldown_ok(stats, now_slot) <==> now_slot >= stats.last_placement_slot
            + PLACEMENT_COOLDOWN_SLOTS,
{
}

/// Placements outside the raster are rejected with the out-of-bounds
/// error, whatever else holds: in particular `x == CANVAS_WIDTH` or
/// `y == CANVAS_HEIGHT` is already out.
pub proof fn lemma_out_of_bounds_rejected(
    config: GameConfig,
    total_placements: u64,
    stats: PlayerStats,
    x: u16,
    y: u16,
    now_slot: u64,
)
    requires
        config.round_active,
        x >= CANVAS_WIDTH || y >= CANVAS_HEIGHT,
    ensures
        spec_place_outcome(config, total_placements, stats, x, y, now_slot) == Err::<
            (),
            PixelError,
        >(PixelError::OutOfBounds),
{
}

/// Storage growth makes strict, bounded progress and converges: a
/// record under the full size grows by at most one allocator step but
/// always grows, never past the full size; a record at (or past) the
/// full size is left exactly as it is. Repeated growth steps therefore
/// reach exactly the full record size and are no-ops from then on.
pub proof fn lemma_growth_converges(len: usize)
    ensures
        len < CANVAS_RECORD_SIZE ==> len < spec_grown_len(len) <= CANVAS_RECORD_SIZE,
        len < CANVAS_RECORD_SIZE ==> spec_grown_len(len) - len <= REALLOC_STEP,
        len >= CANVAS_RECORD_SIZE ==> spec_grown_len(len) == len,
        len + REALLOC_STEP >= CANVAS_RECORD_SIZE && len < CANVAS_RECORD_SIZE ==> spec_grown_len(
            len,
        ) == CANVAS_RECORD_SIZE,
{
}

/// Registration is unique per participant and round: while a
/// registration for `agent` in the current round exists, any further
/// attempt by the same participant fails with the duplicate error.
pub proof fn lemma_duplicate_registration_rejected(
    config: GameConfig,
    book: RegistrationBook,
    agent: u64,
    team_id: u8,
)
    requires
        config.round_active,
        book.spec_contains(agent, config.current_round),
    ensures
        spec_register_outcome(config, book, agent, team_id) == Err::<(), PixelError>(
            PixelError::AgentAlreadyRegistered,
        ),
{
}

/// The duplicate check is per (participant, round) pair only: a
/// participant not yet registered in the current round — another
/// participant, or the same one in a different round — registers
/// successfully, given a valid team id.
pub proof fn lemma_fresh_registration_accepted(
    config: GameConfig,
    book: RegistrationBook,
    agent: u64,
    team_id: u8,
)
    requires
        config.round_active,
        !book.spec_contains(agent, config.current_round),
        team_id < MAX_TEAMS,
    ensures
        spec_register_outcome(config, book, agent, team_id) is Ok,
{
}

} // verus!
