//! Delta frames: the pixels of a new frame that differ from the frame a
//! tile was last sent, each as a two-byte pixel index and three colour
//! bytes.

use vstd::prelude::*;

verus! {

/// A number below 65536 as two bytes, the high byte first.
pub open spec fn big_endian_u16(value: int) -> Seq<u8> {
    seq![(value / 256) as u8, (value % 256) as u8]
}

/// The two index bytes of a pixel. A tile has the pixels 0 to 399; any
/// other number gives two zero bytes.
pub open spec fn pixel_index_bytes(pixel: int) -> Seq<u8> {
    if 0 <= pixel <= 399 {
        big_endian_u16(pixel)
    } else {
        seq![0u8, 0u8]
    }
}

/// Whether the three bytes of `pixel` differ between two frames.
pub open spec fn pixel_changed(previous: Seq<u8>, frame: Seq<u8>, pixel: int) -> bool {
    ||| previous[3 * pixel] != frame[3 * pixel]
    ||| previous[3 * pixel + 1] != frame[3 * pixel + 1]
    ||| previous[3 * pixel + 2] != frame[3 * pixel + 2]
}

/// The five bytes that name a pixel and give its colour in `frame`.
pub open spec fn pixel_entry(frame: Seq<u8>, pixel: int) -> Seq<u8> {
    pixel_index_bytes(pixel) + seq![frame[3 * pixel], frame[3 * pixel + 1], frame[3 * pixel + 2]]
}

/// The entries of all pixels below `pixels` that differ between `previous`
/// and `frame`, in rising order of the pixels.
pub open spec fn changes(previous: Seq<u8>, frame: Seq<u8>, pixels: nat) -> Seq<u8>
    decreases pixels,
{
    if pixels == 0 {
        Seq::empty()
    } else {
        let earlier = changes(previous, frame, (pixels - 1) as nat);
        if pixel_changed(previous, frame, pixels - 1) {
            earlier + pixel_entry(frame, pixels - 1)
        } else {
            earlier
        }
    }
}

/// How many pixels below `pixels` differ between `previous` and `frame`.
pub open spec fn changed_count(previous: Seq<u8>, frame: Seq<u8>, pixels: nat) -> nat
    decreases pixels,
{
    if pixels == 0 {
        0
    } else {
        let earlier = changed_count(previous, frame, (pixels - 1) as nat);
        if pixel_changed(previous, frame, pixels - 1) {
            earlier + 1
        } else {
            earlier
        }
    }
}

/// The two bytes of a number below 65536 give the number back: the first
/// counts 256 each, the second one each.
pub proof fn lemma_big_endian_value(value: int)
    requires
        0 <= value < 65536,
    ensures
        big_endian_u16(value).len() == 2,
        256 * big_endian_u16(value)[0] + big_endian_u16(value)[1] == value,
{
}

/// The index bytes of the pixel that starts at byte `3 * pixel` are the
/// pixel's number, high byte first.
pub proof fn lemma_pixel_index_big_endian(pixel: int)
    requires
        0 <= pixel <= 399,
    ensures
        pixel_index_bytes((3 * pixel) / 3) == big_endian_u16(pixel),
        256 * pixel_index_bytes(pixel)[0] + pixel_index_bytes(pixel)[1] == pixel,
{
}

/// The entry of a pixel of a tile has five bytes. The first two are the
/// number of the pixel, high byte first, never the two zero bytes that
/// stand for a pixel beyond the tile; the other three are its colour.
pub proof fn lemma_entry_names_pixel(frame: Seq<u8>, pixel: int)
    requires
        0 <= pixel <= 399,
    ensures
        pixel_entry(frame, pixel).len() == 5,
        256 * pixel_entry(frame, pixel)[0] + pixel_entry(frame, pixel)[1] == pixel,
        pixel_entry(frame, pixel)[2] == frame[3 * pixel],
        pixel_entry(frame, pixel)[3] == frame[3 * pixel + 1],
        pixel_entry(frame, pixel)[4] == frame[3 * pixel + 2],
{
}

/// A delta holds five bytes for each changed pixel and nothing else.
pub proof fn lemma_changes_len(previous: Seq<u8>, frame: Seq<u8>, pixels: nat)
    ensures
        changes(previous, frame, pixels).len() == 5 * changed_count(previous, frame, pixels),
        changed_count(previous, frame, pixels) <= pixels,
    decreases pixels,
{
    if pixels > 0 {
        lemma_changes_len(previous, frame, (pixels - 1) as nat);
    }
}

/// Two frames that agree on every pixel below `pixels` give an empty delta.
pub proof fn lemma_changes_none(previous: Seq<u8>, frame: Seq<u8>, pixels: nat)
    requires
        forall|pixel: int| 0 <= pixel < pixels ==> !pixel_changed(previous, frame, pixel),
    ensures
        changes(previous, frame, pixels) == Seq::<u8>::empty(),
        changed_count(previous, frame, pixels) == 0,
    decreases pixels,
{
    if pixels > 0 {
        lemma_changes_none(previous, frame, (pixels - 1) as nat);
    }
}

/// The delta of a frame against itself is empty.
pub proof fn lemma_changes_identical(frame: Seq<u8>, pixels: nat)
    ensures
        changes(frame, frame, pixels) == Seq::<u8>::empty(),
{
    lemma_changes_none(frame, frame, pixels);
}

/// Where exactly one pixel differs, the delta is that pixel's entry.
pub proof fn lemma_changes_single(previous: Seq<u8>, frame: Seq<u8>, pixels: nat, changed: int)
    requires
        0 <= changed < pixels,
        forall|pixel: int|
            0 <= pixel < pixels ==> (pixel_changed(previous, frame, pixel) <==> pixel == changed),
    ensures
        changes(previous, frame, pixels) == pixel_entry(frame, changed),
        changed_count(previous, frame, pixels) == 1,
    decreases pixels,
{
    if pixels - 1 == changed {
        lemma_changes_none(previous, frame, (pixels - 1) as nat);
        assert(Seq::<u8>::empty() + pixel_entry(frame, changed) =~= pixel_entry(frame, changed));
    } else {
        lemma_changes_single(previous, frame, (pixels - 1) as nat, changed);
    }
}

/// Where exactly two pixels differ, the delta is the entry of the lower
/// pixel followed by the entry of the higher one.
pub proof fn lemma_changes_pair(
    previous: Seq<u8>,
    frame: Seq<u8>,
    pixels: nat,
    lower: int,
    higher: int,
)
    requires
        0 <= lower < higher < pixels,
        forall|pixel: int|
            0 <= pixel < pixels ==> (pixel_changed(previous, frame, pixel) <==> (pixel == lower
                || pixel == higher)),
    ensures
        changes(previous, frame, pixels) == pixel_entry(frame, lower) + pixel_entry(frame, higher),
        changed_count(previous, frame, pixels) == 2,
    decreases pixels,
{
    if pixels - 1 == higher {
        lemma_changes_single(previous, frame, (pixels - 1) as nat, lower);
    } else {
        lemma_changes_pair(previous, frame, (pixels - 1) as nat, lower, higher);
    }
}

/// Where the entry of `pixel` starts in a delta, if the pixel changed: five
/// bytes on for each changed pixel below it.
pub open spec fn entry_offset(previous: Seq<u8>, frame: Seq<u8>, pixel: int) -> int {
    5 * (changed_count(previous, frame, pixel as nat) as int)
}

/// The entry of a changed pixel stands in the delta behind the entries of
/// all changed pixels below it, so the entries rise with the pixels.
pub proof fn lemma_changes_position(previous: Seq<u8>, frame: Seq<u8>, pixels: nat, pixel: int)
    requires
        0 <= pixel < pixels,
        pixel_changed(previous, frame, pixel),
    ensures
        entry_offset(previous, frame, pixel) + 5 <= changes(previous, frame, pixels).len(),
        changes(previous, frame, pixels).subrange(
            entry_offset(previous, frame, pixel),
            entry_offset(previous, frame, pixel) + 5,
        ) == pixel_entry(frame, pixel),
    decreases pixels,
{
    let start = entry_offset(previous, frame, pixel);
    let earlier = changes(previous, frame, (pixels - 1) as nat);
    if pixels - 1 == pixel {
        lemma_changes_len(previous, frame, pixel as nat);
        let entry = pixel_entry(frame, pixel);
        assert((earlier + entry).subrange(start, start + 5) =~= entry);
    } else {
        lemma_changes_position(previous, frame, (pixels - 1) as nat, pixel);
        let all = changes(previous, frame, pixels);
        assert(all.subrange(start, start + 5) =~= earlier.subrange(start, start + 5));
    }
}

/// The two index bytes of the pixel whose first byte is at offset `index`
/// of a frame. Offsets past the last pixel of a tile give two zero bytes.
pub fn get_pixel_index(index: usize) -> (bytes: [u8; 2])
    requires
        index % 3 == 0,
    ensures
        bytes@ == pixel_index_bytes(index as int / 3),
{
    let pixel: usize = index / 3;
    if pixel > 399 {
        let bytes: [u8; 2] = [0u8, 0u8];
        assert(bytes@ =~= pixel_index_bytes(pixel as int));
        return bytes;
    }
    let bytes: [u8; 2] = [(pixel / 256) as u8, (pixel % 256) as u8];
    assert(bytes@ =~= pixel_index_bytes(pixel as int));
    bytes
}

/// Lists the pixels of `framebuffer` that differ from `previous_framebuffer`
/// and brings `previous_framebuffer` up to the new frame.
pub fn extract_mutated_pixels(
    previous_framebuffer: &mut [u8; 1200],
    framebuffer: &[u8; 1200],
) -> (list: Vec<u8>)
    ensures
        list@ == changes(old(previous_framebuffer)@, framebuffer@, 400),
        final(previous_framebuffer)@ == framebuffer@,
{
    let mut list: Vec<u8> = Vec::new();
    let mut pixel: usize = 0;
    while pixel < 400
        invariant
            pixel <= 400,
            list@ == changes(old(previous_framebuffer)@, framebuffer@, pixel as nat),
            forall|k: int| 0 <= k < 3 * pixel ==> previous_framebuffer@[k] == framebuffer@[k],
            forall|k: int|
                3 * pixel <= k < 1200 ==> previous_framebuffer@[k] == old(
                    previous_framebuffer,
                )@[k],
        decreases 400 - pixel,
    {
        let start: usize = 3 * pixel;
        let red: u8 = framebuffer[start];
        let green: u8 = framebuffer[start + 1];
        let blue: u8 = framebuffer[start + 2];
        if previous_framebuffer[start] != red || previous_framebuffer[start + 1] != green
            || previous_framebuffer[start + 2] != blue {
            let index: [u8; 2] = get_pixel_index(start);
            let ghost earlier = list@;
            list.push(index[0]);
            list.push(index[1]);
            list.push(red);
            list.push(green);
            list.push(blue);
            previous_framebuffer[start] = red;
            previous_framebuffer[start + 1] = green;
            previous_framebuffer[start + 2] = blue;
            assert(list@ =~= earlier + pixel_entry(framebuffer@, pixel as int));
        }
        pixel += 1;
    }
    assert(previous_framebuffer@ =~= framebuffer@);
    list
}

} // verus!
