//! The persisted byte layout of the canvas record.
//!
//! The durable ledger stores the canvas as one versioned record with a
//! fixed, little-endian header layout: an 8-byte record-kind tag, the
//! placement counter, the round number, the derivation index, padding,
//! then the raster bytes. `end_round` depends on this exact layout to
//! read the placement counter straight out of the raw bytes without
//! deserializing the whole record, so the offsets here are a contract.

use vstd::bytes::lemma_auto_spec_u64_to_from_le_bytes;
use vstd::bytes::spec_u32_to_le_bytes;
use vstd::bytes::spec_u64_from_le_bytes;
use vstd::bytes::spec_u64_to_le_bytes;
use vstd::bytes::u32_to_le_bytes;
use vstd::bytes::u64_from_le_bytes;
use vstd::bytes::u64_to_le_bytes;
use vstd::prelude::*;
use vstd::slice::slice_subrange;

use crate::state::Canvas;
use crate::state::CanvasView;
use crate::state::CANVAS_DATA_SIZE;

verus! {

/// Length of the record-kind tag that opens the record.
pub const RECORD_TAG_SIZE: usize = 8;

/// Byte offset of the placement counter (8 bytes, little-endian).
pub const TOTAL_PLACEMENTS_OFFSET: usize = 8;

/// Byte offset of the round back-reference (4 bytes, little-endian).
pub const ROUND_OFFSET: usize = 16;

/// Byte offset of the derivation index (1 byte).
pub const BUMP_OFFSET: usize = 20;

/// Padding bytes after the derivation index, for alignment.
pub const HEADER_PAD_SIZE: usize = 3;

/// Byte offset of the raster data.
pub const PIXELS_OFFSET: usize = 24;

/// Padding bytes after the raster data, for alignment.
pub const TAIL_PAD_SIZE: usize = 4;

/// Full size of the canvas record in bytes.
pub const CANVAS_RECORD_SIZE: usize = PIXELS_OFFSET + CANVAS_DATA_SIZE + TAIL_PAD_SIZE;

/// The record-kind tag marking a canvas record.
pub open spec fn spec_canvas_tag() -> Seq<u8> {
    seq![0x43u8, 0x41u8, 0x4eu8, 0x56u8, 0x41u8, 0x53u8, 0x00u8, 0x01u8]
}

/// The full record image of a canvas, byte for byte.
pub open spec fn spec_canvas_record(c: CanvasView) -> Seq<u8> {
    spec_canvas_tag() + spec_u64_to_le_bytes(c.total_placements) + spec_u32_to_le_bytes(c.round)
        + seq![c.bump, 0u8, 0u8, 0u8] + c.pixels + seq![0u8, 0u8, 0u8, 0u8]
}

/// The record-kind tag as bytes.
pub fn canvas_tag() -> (r: Vec<u8>)
    ensures
        r@ == spec_canvas_tag(),
{
    let mut r: Vec<u8> = Vec::new();
    r.push(0x43);
    r.push(0x41);
    r.push(0x4e);
    r.push(0x56);
    r.push(0x41);
    r.push(0x53);
    r.push(0x00);
    r.push(0x01);
    proof {
        assert(r@ =~= spec_canvas_tag());
    }
    r
}

/// Serialize a canvas into its durable record image.
pub fn encode_canvas_record(c: &Canvas) -> (r: Vec<u8>)
    requires
        c.wf(),
    ensures
        r@ == spec_canvas_record(c@),
        r@.len() == CANVAS_RECORD_SIZE,
{
    let mut r: Vec<u8> = canvas_tag();
    let mut counter_bytes = u64_to_le_bytes(c.total_placements);
    r.append(&mut counter_bytes);
    let mut round_bytes = u32_to_le_bytes(c.round);
    r.append(&mut round_bytes);
    r.push(c.bump);
    r.push(0);
    r.push(0);
    r.push(0);
    r.extend_from_slice(c.pixels.as_slice());
    r.push(0);
    r.push(0);
    r.push(0);
    r.push(0);
    proof {
        assert(r@ =~= spec_canvas_record(c@));
    }
    r
}

/// Read the placement counter out of a record image at its fixed offset.
pub fn read_total_placements(data: &Vec<u8>) -> (r: u64)
    requires
        data@.len() >= TOTAL_PLACEMENTS_OFFSET + 8,
    ensures
        r == spec_u64_from_le_bytes(
            data@.subrange(TOTAL_PLACEMENTS_OFFSET as int, TOTAL_PLACEMENTS_OFFSET + 8),
        ),
{
    let counter_bytes = slice_subrange(
        data.as_slice(),
        TOTAL_PLACEMENTS_OFFSET,
        TOTAL_PLACEMENTS_OFFSET + 8,
    );
    u64_from_le_bytes(counter_bytes)
}

/// The snapshot law of the layout: reading the counter field back out of
/// a canvas's record image yields exactly the canvas's placement
/// counter.
pub proof fn lemma_record_snapshot(c: CanvasView)
    ensures
        spec_u64_from_le_bytes(
            spec_canvas_record(c).subrange(TOTAL_PLACEMENTS_OFFSET as int, TOTAL_PLACEMENTS_OFFSET + 8),
        ) == c.total_placements,
{
    lemma_auto_spec_u64_to_from_le_bytes();
    assert(spec_canvas_record(c).subrange(
        TOTAL_PLACEMENTS_OFFSET as int,
        TOTAL_PLACEMENTS_OFFSET + 8,
    ) =~= spec_u64_to_le_bytes(c.total_placements));
}

} // verus!
