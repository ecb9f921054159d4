//! How the frame of a whole wall divides among its six tiles.
//!
//! The wall is two rows of three tiles. Its frame is one run of 7200 bytes:
//! 2400 for each column of tiles, and within a column lines of 120 bytes,
//! of which the first 60 belong to the tile of the top row and the last 60
//! to the tile below it. The tiles are numbered along the top row, then
//! along the bottom row.

use vstd::prelude::*;

verus! {

/// The tile that receives the byte at `offset` of the frame of a wall.
pub open spec fn tile_slot(offset: int) -> int {
    let column = offset / 2400;
    let row: int = if offset % 120 > 59 {
        1
    } else {
        0
    };
    column + 3 * row
}

/// The bytes of `framebuffer` that go to the tile `slot`, in the order in
/// which the frame holds them.
pub open spec fn slot_bytes(framebuffer: Seq<u8>, slot: int) -> Seq<u8>
    decreases framebuffer.len(),
{
    if framebuffer.len() == 0 {
        Seq::empty()
    } else {
        let earlier = slot_bytes(framebuffer.drop_last(), slot);
        if tile_slot(framebuffer.len() - 1) == slot {
            earlier.push(framebuffer.last())
        } else {
            earlier
        }
    }
}

/// The offset in the frame of a wall of byte `k` of the tile `slot`.
pub open spec fn wall_offset(slot: int, k: int) -> int {
    (slot % 3) * 2400 + (k / 60) * 120 + (slot / 3) * 60 + k % 60
}

/// How many of the first `len` bytes of the frame of a wall go to the tile
/// `slot`.
pub open spec fn slot_len(len: int, slot: int) -> int {
    let column = len / 2400;
    let line = (len % 2400) / 120;
    let within = len % 120;
    if slot % 3 < column {
        1200
    } else if slot % 3 > column {
        0
    } else if slot / 3 == 0 {
        line * 60 + if within < 60 {
            within
        } else {
            60
        }
    } else {
        line * 60 + if within < 60 {
            0
        } else {
            within - 60
        }
    }
}

/// An offset of the frame of a wall, taken apart: the column of tiles, the
/// line within the column, and the place within the line.
proof fn lemma_offset_parts(offset: int)
    requires
        0 <= offset < 7200,
    ensures
        offset == 2400 * (offset / 2400) + 120 * ((offset % 2400) / 120) + offset % 120,
        0 <= offset / 2400 < 3,
        0 <= (offset % 2400) / 120 < 20,
        0 <= offset % 120 < 120,
{
    let rest = offset % 2400;
    assert(rest == 120 * (rest / 120) + rest % 120);
    assert(rest % 120 == offset % 120) by {
        assert(offset == 120 * (20 * (offset / 2400) + rest / 120) + rest % 120);
    }
}

/// The parts of the offset that follows `offset`.
proof fn lemma_offset_parts_next(offset: int)
    requires
        0 <= offset < 7199,
    ensures
        offset % 120 < 119 ==> {
            &&& (offset + 1) / 2400 == offset / 2400
            &&& ((offset + 1) % 2400) / 120 == (offset % 2400) / 120
            &&& (offset + 1) % 120 == offset % 120 + 1
        },
        offset % 120 == 119 && (offset % 2400) / 120 < 19 ==> {
            &&& (offset + 1) / 2400 == offset / 2400
            &&& ((offset + 1) % 2400) / 120 == (offset % 2400) / 120 + 1
            &&& (offset + 1) % 120 == 0
        },
        offset % 120 == 119 && (offset % 2400) / 120 == 19 ==> {
            &&& (offset + 1) / 2400 == offset / 2400 + 1
            &&& ((offset + 1) % 2400) / 120 == 0
            &&& (offset + 1) % 120 == 0
        },
{
    lemma_offset_parts(offset);
    lemma_offset_parts(offset + 1);
}

/// One more byte of the frame is one more byte for the tile that the byte
/// goes to, at the end of what the tile has, and no more for any other.
proof fn lemma_slot_len_next(len: int, slot: int)
    requires
        0 <= len < 7200,
        0 <= slot < 6,
    ensures
        tile_slot(len) == slot ==> slot_len(len + 1, slot) == slot_len(len, slot) + 1
            && wall_offset(slot, slot_len(len, slot)) == len,
        tile_slot(len) != slot ==> slot_len(len + 1, slot) == slot_len(len, slot),
        0 <= slot_len(len, slot) <= 1200,
{
    lemma_offset_parts(len);
    if len < 7199 {
        lemma_offset_parts_next(len);
    } else {
        assert((len + 1) / 2400 == 3);
        assert((len + 1) % 2400 == 0);
        assert((len + 1) % 120 == 0);
    }
    let line = (len % 2400) / 120;
    let within = len % 120;
    if tile_slot(len) == slot {
        let k = slot_len(len, slot);
        assert(k == line * 60 + within % 60);
        assert(k / 60 == line && k % 60 == within % 60) by {
            assert(k == 60 * line + within % 60);
        }
    }
}

/// Byte `k` of a tile comes from an offset of the wall's frame that the
/// frame assigns to that tile, and the offsets rise with `k`.
pub proof fn lemma_wall_offset_slot(slot: int, k: int)
    requires
        0 <= slot < 6,
        0 <= k < 1200,
    ensures
        0 <= wall_offset(slot, k) < 7200,
        tile_slot(wall_offset(slot, k)) == slot,
        slot_len(wall_offset(slot, k), slot) == k,
{
    let offset = wall_offset(slot, k);
    let line = k / 60;
    let within = (slot / 3) * 60 + k % 60;
    assert(offset == 2400 * (slot % 3) + 120 * line + within);
    assert(0 <= 120 * line + within < 2400);
    assert(offset / 2400 == slot % 3 && offset % 2400 == 120 * line + within);
    assert((120 * line + within) / 120 == line && (120 * line + within) % 120 == within);
    lemma_offset_parts(offset);
}

/// The part of a tile, byte by byte: it has `slot_len` bytes, and byte `k`
/// is the byte at `wall_offset(slot, k)` of the frame.
pub proof fn lemma_slot_bytes_offsets(framebuffer: Seq<u8>, slot: int)
    requires
        framebuffer.len() <= 7200,
        0 <= slot < 6,
    ensures
        slot_bytes(framebuffer, slot).len() == slot_len(framebuffer.len() as int, slot),
        forall|k: int|
            0 <= k < slot_bytes(framebuffer, slot).len() ==> {
                &&& 0 <= wall_offset(slot, k) < framebuffer.len()
                &&& #[trigger] slot_bytes(framebuffer, slot)[k] == framebuffer[wall_offset(
                    slot,
                    k,
                )]
            },
    decreases framebuffer.len(),
{
    let part = slot_bytes(framebuffer, slot);
    if framebuffer.len() == 0 {
        assert(slot_len(0, slot) == 0);
    } else {
        let last = framebuffer.len() - 1;
        let shorter = framebuffer.drop_last();
        let earlier = slot_bytes(shorter, slot);
        lemma_slot_bytes_offsets(shorter, slot);
        lemma_slot_len_next(last, slot);
        assert forall|k: int| 0 <= k < part.len() implies {
            &&& 0 <= wall_offset(slot, k) < framebuffer.len()
            &&& #[trigger] part[k] == framebuffer[wall_offset(slot, k)]
        } by {
            if k < earlier.len() {
                assert(earlier[k] == shorter[wall_offset(slot, k)]);
                assert(part[k] == earlier[k]);
            } else {
                assert(tile_slot(last) == slot);
                assert(k == earlier.len());
                assert(wall_offset(slot, k) == last);
                assert(part[k] == framebuffer[last]);
            }
        }
    }
}

/// A full frame of a wall gives each of the six tiles a frame of its own:
/// 1200 bytes, byte `k` taken from `wall_offset(slot, k)`.
pub proof fn lemma_split_full_wall(framebuffer: Seq<u8>, slot: int)
    requires
        framebuffer.len() == 7200,
        0 <= slot < 6,
    ensures
        slot_bytes(framebuffer, slot).len() == 1200,
        forall|k: int|
            0 <= k < 1200 ==> #[trigger] slot_bytes(framebuffer, slot)[k] == framebuffer[wall_offset(
                slot,
                k,
            )],
{
    lemma_slot_bytes_offsets(framebuffer, slot);
}

/// Divides the frame of a wall among the six tiles.
pub fn split_framebuffer(framebuffer: &[u8]) -> (framebuffers: Vec<Vec<u8>>)
    requires
        framebuffer@.len() <= 7200,
    ensures
        framebuffers@.len() == 6,
        forall|slot: int|
            0 <= slot < 6 ==> (#[trigger] framebuffers@[slot])@ == slot_bytes(framebuffer@, slot),
{
    let mut framebuffers: Vec<Vec<u8>> = Vec::new();
    let mut slot: usize = 0;
    while slot < 6
        invariant
            slot <= 6,
            framebuffers@.len() == slot,
            forall|s: int| 0 <= s < slot ==> (#[trigger] framebuffers@[s])@.len() == 0,
        decreases 6 - slot,
    {
        framebuffers.push(Vec::with_capacity(1200));
        slot += 1;
    }
    let mut i: usize = 0;
    while i < framebuffer.len()
        invariant
            i <= framebuffer@.len() <= 7200,
            framebuffers@.len() == 6,
            forall|s: int|
                0 <= s < 6 ==> (#[trigger] framebuffers@[s])@ == slot_bytes(
                    framebuffer@.take(i as int),
                    s,
                ),
        decreases framebuffer@.len() - i,
    {
        let column: usize = i / 2400;
        let row: usize = if i % 120 > 59 {
            3
        } else {
            0
        };
        proof {
            let next = framebuffer@.take(i + 1);
            assert(next.drop_last() =~= framebuffer@.take(i as int));
            assert(next.last() == framebuffer@[i as int]);
        }
        framebuffers[column + row].push(framebuffer[i]);
        i += 1;
    }
    assert(framebuffer@.take(i as int) =~= framebuffer@);
    framebuffers
}

} // verus!
