//! Record types and game constants.
//!
//! Participant and authority addresses are opaque identities assigned by
//! the host ledger; the game logic only ever compares them for equality,
//! so they appear here as plain `u64` values. Ledger time is a `u64` slot
//! number; registration timestamps are `i64` seconds.

use vstd::prelude::*;

verus! {

/// Canvas width in pixels.
pub const CANVAS_WIDTH: u16 = 50;

/// Canvas height in pixels.
pub const CANVAS_HEIGHT: u16 = 50;

/// Bytes per pixel cell: red, green, blue.
pub const BYTES_PER_PIXEL: usize = 3;

/// Total pixel data size in bytes: width * height * 3.
pub const CANVAS_DATA_SIZE: usize = 50 * 50 * 3;

/// Number of teams a participant may register for.
pub const MAX_TEAMS: u8 = 10;

/// Minimum number of slots between two placements by one participant.
pub const PLACEMENT_COOLDOWN_SLOTS: u64 = 10;

/// Re-commit cadence registered at delegation time: the satellite domain
/// must checkpoint the canvas back at least this often, in milliseconds.
pub const COMMIT_FREQUENCY_MS: u32 = 30000;

/// Upper bound on how many bytes a single storage-growth operation may
/// add to a record: the allocator's per-call ceiling.
pub const REALLOC_STEP: usize = 10240;

/// Game configuration: the global singleton record.
///
/// Created once at initialization, mutated only by admin-gated
/// operations, never destroyed.
#[derive(Clone, Copy, Debug, PartialEq, Eq, Structural)]
pub struct GameConfig {
    /// Admin authority address.
    pub authority: u64,
    /// Current round number; 0 means no round has ever started.
    pub current_round: u32,
    /// Whether a round is currently active.
    pub round_active: bool,
    /// Derivation index of this record's address.
    pub bump: u8,
}

/// Round metadata: one record per round number.
///
/// Created by `start_round` with `ended == false`; mutated exactly once,
/// by `end_round`, and terminal thereafter.
#[derive(Clone, Copy, Debug, PartialEq, Eq, Structural)]
pub struct Round {
    /// Round number.
    pub round_number: u32,
    /// Slot at which the round started.
    pub start_slot: u64,
    /// Slot at which the round ended; 0 while still active.
    pub end_slot: u64,
    /// Frozen snapshot of the canvas placement counter, set at close.
    pub total_placements: u64,
    /// Whether the round has ended.
    pub ended: bool,
    /// Derivation index of this record's address.
    pub bump: u8,
}

/// The lifecycle invariant tying the singleton configuration to the
/// round record its counter points at: while that round has not ended
/// the active flag is set, and once it has ended the flag is clear.
///
/// `start_round` establishes this for the round it creates, and
/// `end_round` re-establishes it when it freezes the round, since it
/// sets `ended` and clears `round_active` together; no other operation
/// touches either record.
pub open spec fn lifecycle_consistent(config: GameConfig, round: Round) -> bool {
    round.round_number == config.current_round ==> (config.round_active <==> !round.ended)
}

/// The pixel canvas contents: one instance per round.
#[derive(Debug)]
pub struct Canvas {
    /// Total pixels placed this round; monotonic, overflow-checked.
    pub total_placements: u64,
    /// Number of the round this canvas belongs to.
    pub round: u32,
    /// Derivation index of this record's address.
    pub bump: u8,
    /// Raw pixel data, row-major, 3 bytes per cell: r0, g0, b0, r1, ...
    pub pixels: Vec<u8>,
}

/// Mathematical model of a canvas: the same fields with the pixel buffer
/// as a byte sequence.
#[verifier::ext_equal]
pub ghost struct CanvasView {
    /// Total pixels placed this round.
    pub total_placements: u64,
    /// Number of the round this canvas belongs to.
    pub round: u32,
    /// Derivation index of the record's address.
    pub bump: u8,
    /// The pixel bytes.
    pub pixels: Seq<u8>,
}

impl View for Canvas {
    type V = CanvasView;

    open spec fn view(&self) -> CanvasView {
        CanvasView {
            total_placements: self.total_placements,
            round: self.round,
            bump: self.bump,
            pixels: self.pixels@,
        }
    }
}

impl Canvas {
    /// A canvas is well formed when its pixel buffer has exactly the
    /// fixed raster size.
    pub open spec fn wf(self) -> bool {
        self@.pixels.len() == CANVAS_DATA_SIZE
    }
}

/// Which execution domain currently holds write-authority over a record.
#[derive(Clone, Copy, Debug, PartialEq, Eq, Structural)]
pub enum DomainOwner {
    /// The globally ordered, persistent ledger.
    Durable,
    /// The auxiliary low-latency execution domain.
    Satellite,
}

/// The canvas record as the ledger holds it: its contents together with
/// its current write-authority owner and its allocated storage footprint.
///
/// Exactly one domain owns the record at a time; every mutating entry
/// point is gated on the owner tag, and `delegate_canvas` /
/// `commit_canvas` are the only legal ownership transitions.
#[derive(Debug)]
pub struct CanvasAccount {
    /// The domain holding write-authority right now.
    pub owner: DomainOwner,
    /// Allocated storage footprint of the record, in bytes. Grown
    /// incrementally by `resize_canvas` up to the full record size.
    pub storage_len: usize,
    /// The canvas contents.
    pub canvas: Canvas,
}

/// Mathematical model of the ledger's canvas record.
#[verifier::ext_equal]
pub ghost struct CanvasAccountView {
    /// The domain holding write-authority.
    pub owner: DomainOwner,
    /// Allocated storage footprint, in bytes.
    pub storage_len: usize,
    /// The canvas contents.
    pub canvas: CanvasView,
}

impl View for CanvasAccount {
    type V = CanvasAccountView;

    open spec fn view(&self) -> CanvasAccountView {
        CanvasAccountView { owner: self.owner, storage_len: self.storage_len, canvas: self.canvas@ }
    }
}

impl CanvasAccount {
    /// Well-formedness: the contents are well formed and the storage
    /// footprint never exceeds the full record size.
    pub open spec fn wf(self) -> bool {
        &&& self.canvas.wf()
        &&& self.storage_len <= crate::codec::CANVAS_RECORD_SIZE
    }
}

/// Per-participant, per-round statistics, used for rate limiting.
///
/// Created lazily (zeroed) by the host on a participant's first placement
/// in a round; `place_pixel` fills the identity fields on that first
/// placement and updates the counters on every placement.
#[derive(Clone, Copy, Debug, PartialEq, Eq, Structural)]
pub struct PlayerStats {
    /// Participant address.
    pub player: u64,
    /// Round number.
    pub round: u32,
    /// Pixels placed by this participant this round; monotonic.
    pub pixels_placed: u32,
    /// Slot of this participant's most recent placement.
    pub last_placement_slot: u64,
    /// Derivation index of this record's address.
    pub bump: u8,
}

impl PlayerStats {
    /// The zeroed record the host hands to `place_pixel` when no stats
    /// record exists yet for this participant and round.
    pub fn fresh() -> (s: PlayerStats)
        ensures
            s == (PlayerStats {
                player: 0u64,
                round: 0u32,
                pixels_placed: 0u32,
                last_placement_slot: 0u64,
                bump: 0u8,
            }),
    {
        PlayerStats { player: 0, round: 0, pixels_placed: 0, last_placement_slot: 0, bump: 0 }
    }
}

/// A participant's team registration for one round: immutable once
/// created; at most one per (agent, round) pair.
#[derive(Clone, Copy, Debug, PartialEq, Eq, Structural)]
pub struct AgentRegistration {
    /// Participant address.
    pub agent: u64,
    /// Round registered for.
    pub round: u32,
    /// Team id, 0-indexed, below `MAX_TEAMS`.
    pub team_id: u8,
    /// Registration timestamp, seconds.
    pub registered_at: i64,
    /// Derivation index of this record's address.
    pub bump: u8,
}

/// The set of registration records the ledger holds, one per
/// (agent, round) pair.
///
/// The host ledger stores each registration at an address derived from
/// the participant address and the round number, which is what makes the
/// pair unique; this type models that store directly so uniqueness is a
/// stated invariant.
#[derive(Debug)]
pub struct RegistrationBook {
    /// All registrations created so far, in creation order.
    pub entries: Vec<AgentRegistration>,
}

impl View for RegistrationBook {
    type V = Seq<AgentRegistration>;

    open spec fn view(&self) -> Seq<AgentRegistration> {
        self.entries@
    }
}

impl RegistrationBook {
    /// No two entries share an (agent, round) pair.
    pub open spec fn wf(self) -> bool {
        forall|i: int, j: int|
            0 <= i < j < self.entries@.len() ==> !(#[trigger] self.entries@[i].agent
                == #[trigger] self.entries@[j].agent && self.entries@[i].round
                == self.entries@[j].round)
    }

    /// Whether some entry registers `agent` for `round`.
    pub open spec fn spec_contains(self, agent: u64, round: u32) -> bool {
        exists|i: int|
            0 <= i < self.entries@.len() && (#[trigger] self.entries@[i]).agent == agent
                && self.entries@[i].round == round
    }

    /// An empty book.
    pub fn new() -> (b: RegistrationBook)
        ensures
            b.entries@.len() == 0,
            b.wf(),
    {
        RegistrationBook { entries: Vec::new() }
    }

    /// Whether a registration for `agent` in `round` already exists.
    pub fn contains(&self, agent: u64, round: u32) -> (r: bool)
        ensures
            r == self.spec_contains(agent, round),
    {
        let mut i: usize = 0;
        while i < self.entries.len()
            invariant
                0 <= i <= self.entries@.len(),
                forall|k: int|
                    0 <= k < i ==> !((#[trigger] self.entries@[k]).agent == agent
                        && self.entries@[k].round == round),
            decreases self.entries@.len() - i,
        {
            if self.entries[i].agent == agent && self.entries[i].round == round {
                return true;
            }
            i = i + 1;
        }
        false
    }
}

} // verus!
