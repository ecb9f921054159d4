//! The order in which the pixels of a tile are wired.
//!
//! A frame lists the 400 pixels of a tile column by column, three bytes per
//! pixel. The LED strip inside a tile runs differently: the twenty columns
//! form four bands of five, each band owns a hundred consecutive places on
//! the strip, and inside a band one step along a column moves five places
//! on. The table built here sends each byte offset of a frame to the offset
//! of the same byte on the strip.

use vstd::prelude::*;
use crate::checksum::{checksum_of, lemma_byte_sum_rearranged};

verus! {

/// Bytes of one frame of a tile: three per pixel.
pub const FRAME_BYTES: usize = 1200;

/// The place on the strip of the pixel that a frame lists at `pixel`.
pub open spec fn wired_pixel(pixel: int) -> int {
    let column = pixel / 20;
    let step = pixel % 20;
    (column / 5) * 100 + column % 5 + 5 * step
}

/// The place in a frame of the pixel that sits at `place` on the strip.
pub open spec fn listed_pixel(place: int) -> int {
    let band = place / 100;
    let step = (place % 100) / 5;
    (band * 5 + place % 5) * 20 + step
}

/// The offset on the strip of the byte that a frame holds at `offset`.
pub open spec fn wired_offset(offset: int) -> int {
    3 * wired_pixel(offset / 3) + offset % 3
}

/// The offset in a frame of the byte that the strip holds at `offset`.
pub open spec fn listed_offset(offset: int) -> int {
    3 * listed_pixel(offset / 3) + offset % 3
}

/// The whole table, as a sequence: entry `i` is `wired_offset(i)`.
pub open spec fn index_table() -> Seq<usize> {
    Seq::new(1200, |i: int| wired_offset(i) as usize)
}

/// A frame in the order of the strip: the byte at each offset of the result
/// is the byte that `frame` lists for the pixel wired there.
pub open spec fn wired_frame(frame: Seq<u8>) -> Seq<u8> {
    Seq::new(1200, |offset: int| frame[listed_offset(offset)])
}

/// Every pixel has a place on the strip, and `listed_pixel` leads back from
/// that place to the pixel.
pub proof fn lemma_wired_pixel_inverse(pixel: int)
    requires
        0 <= pixel < 400,
    ensures
        0 <= wired_pixel(pixel) < 400,
        listed_pixel(wired_pixel(pixel)) == pixel,
{
}

/// Every place on the strip holds a pixel of the frame, and `wired_pixel`
/// leads back from that pixel to the place.
pub proof fn lemma_listed_pixel_inverse(place: int)
    requires
        0 <= place < 400,
    ensures
        0 <= listed_pixel(place) < 400,
        wired_pixel(listed_pixel(place)) == place,
{
}

/// The table is a permutation of the offsets of a frame: it stays inside
/// the frame, and `listed_offset` undoes it.
pub proof fn lemma_wired_offset_inverse(offset: int)
    requires
        0 <= offset < 1200,
    ensures
        0 <= wired_offset(offset) < 1200,
        listed_offset(wired_offset(offset)) == offset,
        wired_offset(offset) % 3 == offset % 3,
{
    lemma_wired_pixel_inverse(offset / 3);
}

/// Each offset on the strip is reached from exactly the offset that
/// `listed_offset` names.
pub proof fn lemma_listed_offset_inverse(offset: int)
    requires
        0 <= offset < 1200,
    ensures
        0 <= listed_offset(offset) < 1200,
        wired_offset(listed_offset(offset)) == offset,
{
    lemma_listed_pixel_inverse(offset / 3);
}

/// No two offsets of a frame share an offset on the strip.
pub proof fn lemma_wired_offset_injective(a: int, b: int)
    requires
        0 <= a < 1200,
        0 <= b < 1200,
        wired_offset(a) == wired_offset(b),
    ensures
        a == b,
{
    lemma_wired_offset_inverse(a);
    lemma_wired_offset_inverse(b);
}

/// The table holds each offset of a frame exactly once.
pub proof fn lemma_index_table_is_permutation()
    ensures
        index_table().len() == 1200,
        forall|i: int| 0 <= i < 1200 ==> 0 <= #[trigger] index_table()[i] < 1200,
        forall|i: int, k: int|
            0 <= i < k < 1200 ==> #[trigger] index_table()[i] != #[trigger] index_table()[k],
        forall|offset: int|
            0 <= offset < 1200 ==> index_table()[#[trigger] listed_offset(offset)] == offset,
{
    assert forall|i: int| 0 <= i < 1200 implies 0 <= #[trigger] index_table()[i] < 1200 by {
        lemma_wired_offset_inverse(i);
    }
    assert forall|i: int, k: int| 0 <= i < k < 1200 implies #[trigger] index_table()[i]
        != #[trigger] index_table()[k] by {
        lemma_wired_offset_inverse(i);
        lemma_wired_offset_inverse(k);
        if wired_offset(i) == wired_offset(k) {
            lemma_wired_offset_injective(i, k);
        }
    }
    assert forall|offset: int| 0 <= offset < 1200 implies index_table()[#[trigger] listed_offset(
        offset,
    )] == offset by {
        lemma_listed_offset_inverse(offset);
    }
}

/// The three bytes of a pixel stay together and keep their order.
pub proof fn lemma_wired_offset_keeps_pixels(pixel: int, channel: int)
    requires
        0 <= pixel < 400,
        0 <= channel < 3,
    ensures
        wired_offset(3 * pixel + channel) == 3 * wired_pixel(pixel) + channel,
{
}

/// In a rewired frame each byte of the frame sits at the offset that the
/// table gives for it.
pub proof fn lemma_wired_frame_places(frame: Seq<u8>, offset: int)
    requires
        frame.len() == 1200,
        0 <= offset < 1200,
    ensures
        wired_frame(frame)[wired_offset(offset)] == frame[offset],
{
    lemma_wired_offset_inverse(offset);
}

/// A frame has the same checksum in the order of the strip as in its own:
/// the bytes are the same, only their places differ.
pub proof fn lemma_wired_frame_checksum(frame: Seq<u8>)
    requires
        frame.len() == 1200,
    ensures
        checksum_of(wired_frame(frame)) == checksum_of(frame),
{
    let wired = wired_frame(frame);
    let place = |offset: int| wired_offset(offset);
    assert forall|i: int| 0 <= i < 1200 implies 0 <= #[trigger] place(i) < 1200 && wired[place(i)]
        == frame[i] by {
        lemma_wired_offset_inverse(i);
    }
    assert forall|i: int, k: int|
        0 <= i < 1200 && 0 <= k < 1200 && #[trigger] place(i) == #[trigger] place(k) implies i
        == k by {
        lemma_wired_offset_injective(i, k);
    }
    lemma_byte_sum_rearranged(frame, wired, place);
}

/// Builds the table that sends each byte offset of a frame to its offset on
/// the strip.
pub fn generate_index_conversion_vector() -> (table: [usize; 1200])
    ensures
        table@ == index_table(),
{
    let mut table: [usize; 1200] = [0usize; 1200];
    let mut column: usize = 0;
    while column < 20
        invariant
            column <= 20,
            forall|i: int| 0 <= i < 60 * column ==> table@[i] == wired_offset(i),
        decreases 20 - column,
    {
        let band_start: usize = (column / 5) * 100 + column % 5;
        let mut step: usize = 0;
        while step < 20
            invariant
                column < 20,
                step <= 20,
                band_start == (column / 5) * 100 + column % 5,
                forall|i: int| 0 <= i < 60 * column + 3 * step ==> table@[i] == wired_offset(i),
            decreases 20 - step,
        {
            let place: usize = band_start + 5 * step;
            let pixel: usize = column * 20 + step;
            proof {
                lemma_wired_offset_keeps_pixels(pixel as int, 0);
                lemma_wired_offset_keeps_pixels(pixel as int, 1);
                lemma_wired_offset_keeps_pixels(pixel as int, 2);
                assert(wired_pixel(pixel as int) == place);
            }
            table[3 * pixel] = 3 * place;
            table[3 * pixel + 1] = 3 * place + 1;
            table[3 * pixel + 2] = 3 * place + 2;
            step += 1;
        }
        column += 1;
    }
    assert(table@ =~= index_table());
    table
}

/// Puts a frame into the order of the strip: byte `i` of `frame` goes to
/// offset `table[i]` of the result.
pub fn rewire(table: &[usize; 1200], frame: &[u8]) -> (wired: [u8; 1200])
    requires
        table@ == index_table(),
        frame@.len() == 1200,
    ensures
        wired@ == wired_frame(frame@),
{
    let mut wired: [u8; 1200] = [0u8; 1200];
    let mut i: usize = 0;
    while i < 1200
        invariant
            i <= 1200,
            table@ == index_table(),
            frame@.len() == 1200,
            forall|k: int| 0 <= k < i ==> wired@[wired_offset(k)] == frame@[k],
        decreases 1200 - i,
    {
        proof {
            lemma_wired_offset_inverse(i as int);
            assert forall|k: int| 0 <= k < i implies wired_offset(k) != wired_offset(i as int) by {
                if wired_offset(k) == wired_offset(i as int) {
                    lemma_wired_offset_injective(k, i as int);
                }
            }
        }
        wired[table[i]] = frame[i];
        i += 1;
    }
    proof {
        assert forall|offset: int| 0 <= offset < 1200 implies wired@[offset] == wired_frame(
            frame@,
        )[offset] by {
            lemma_listed_offset_inverse(offset);
        }
        assert(wired@ =~= wired_frame(frame@));
    }
    wired
}

/// The table of a tile, kept as built: whoever holds one holds the order
/// of the strip.
#[derive(Debug)]
pub struct IndexTable {
    entries: [usize; 1200],
}

impl View for IndexTable {
    type V = Seq<usize>;

    /// The entries of the table: entry `i` is where byte `i` of a frame
    /// goes on the strip.
    closed spec fn view(&self) -> Seq<usize> {
        self.entries@
    }
}

impl IndexTable {
    #[verifier::type_invariant]
    spec fn is_table(&self) -> bool {
        self.entries@ == index_table()
    }

    /// Builds the table: entry `i` is `wired_offset(i)`, for each of the
    /// 1200 offsets of a frame.
    pub fn new() -> (table: IndexTable)
        ensures
            table@ == index_table(),
    {
        IndexTable { entries: generate_index_conversion_vector() }
    }

    /// Puts a frame into the order of the strip.
    pub fn rewire(&self, frame: &[u8]) -> (wired: [u8; 1200])
        requires
            frame@.len() == 1200,
        ensures
            wired@ == wired_frame(frame@),
    {
        proof {
            use_type_invariant(self);
        }
        rewire(&self.entries, frame)
    }
}

} // verus!
