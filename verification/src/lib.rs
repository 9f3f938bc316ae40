//! On-ledger logic for a multiplayer collaborative pixel-canvas game.
//!
//! Many participants write individual pixels into a shared raster image
//! during timed rounds, with per-participant rate limiting and optional
//! team affiliation. The canvas record is delegated to a low-latency
//! satellite execution domain for the duration of a round and committed
//! back to the durable ledger before the round is closed.
//!
//! This crate holds the game rules themselves: the round lifecycle state
//! machine, the canvas storage model and its incremental growth, the
//! placement operation with its bounds, cooldown and overflow checks, and
//! team registration. The host ledger resolves record addresses, checks
//! signatures and supplies the clock; operations here take those resolved
//! records and plain clock values as arguments.

pub mod codec;
pub mod errors;
pub mod laws;
pub mod ops;
pub mod state;
