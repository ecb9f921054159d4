//! A wall: one tile, or six in two rows of three, shown as one display.
//!
//! The wall is put together from tiles that were found by asking every
//! link, or from tiles on links that the caller names. Either way it is
//! whole or it is not made. A command to the wall starts one exchange for
//! each tile; they can then be carried out side by side, one worker for each
//! tile.

use vstd::prelude::*;
use crate::exchange::Exchange;
use crate::layout::{lemma_split_full_wall, slot_bytes, split_framebuffer};
use crate::index_map::wired_frame;
use crate::status_code::StatusCode;
use crate::tile::{
    show_request, solid_color_request, starts_show, update_request, InitError, Tile,
};

verus! {

/// Why a wall could not be made.
#[derive(Debug, Clone, Copy, PartialEq, Eq, Structural)]
pub enum WallError {
    /// There are `found` tiles where `wanted` are needed.
    WrongTileCount { found: usize, wanted: usize },
}

/// What kind of device a serial link of the machine leads to.
#[derive(Debug, Clone, Copy, PartialEq, Eq, Structural)]
pub enum PortKind {
    Usb,
    Pci,
    Bluetooth,
    Unknown,
}

/// A serial link of the machine: its name, and what it leads to.
#[derive(Debug, Clone)]
pub struct PortEntry {
    pub name: String,
    pub kind: PortKind,
}

/// A tile that was found on a link, with its answer to the question for its
/// identifier.
#[derive(Debug)]
pub struct Probe<L> {
    pub tile: Tile<L>,
    pub status: StatusCode,
    pub identifier: u8,
}

/// The tiles of a display, in the order of their places.
#[derive(Debug)]
pub struct Wall<L> {
    tiles: Vec<Tile<L>>,
}

/// The names of the links that may lead to a tile: those of kind `Usb`, in
/// the order of the list.
pub open spec fn usb_names(ports: Seq<PortEntry>) -> Seq<Seq<char>>
    decreases ports.len(),
{
    if ports.len() == 0 {
        Seq::empty()
    } else if ports.last().kind == PortKind::Usb {
        usb_names(ports.drop_last()).push(ports.last().name@)
    } else {
        usb_names(ports.drop_last())
    }
}

/// Whether each of the `wanted` names is among the `available` ones.
pub open spec fn all_present(available: Seq<Seq<char>>, wanted: Seq<Seq<char>>) -> bool {
    forall|i: int| 0 <= i < wanted.len() ==> available.contains(#[trigger] wanted[i])
}

/// The place, counted from 0, that a found tile claims in a wall of six:
/// one less than its identifier, if the tile answered `Okay` and the
/// identifier is one of 1 to 6.
pub open spec fn claimed_slot<L>(probe: Probe<L>) -> Option<int> {
    if probe.status == StatusCode::Okay && 1 <= probe.identifier <= 6 {
        Some(probe.identifier - 1)
    } else {
        None
    }
}

/// Which of the found tiles gets the place `slot`: the last in the list
/// that claims it, if any does.
pub open spec fn slot_holder<L>(probes: Seq<Probe<L>>, slot: int) -> Option<int>
    decreases probes.len(),
{
    if probes.len() == 0 {
        None
    } else if claimed_slot(probes.last()) == Some(slot) {
        Some(probes.len() - 1)
    } else {
        slot_holder(probes.drop_last(), slot)
    }
}

/// How many of the places below `slots` some found tile gets.
pub open spec fn filled_slots<L>(probes: Seq<Probe<L>>, slots: nat) -> nat
    decreases slots,
{
    if slots == 0 {
        0
    } else if slot_holder(probes, slots - 1) is Some {
        filled_slots(probes, (slots - 1) as nat) + 1
    } else {
        filled_slots(probes, (slots - 1) as nat)
    }
}

/// How many of the first `count` links gave a tile.
pub open spec fn opened_tiles<L>(tiles: Seq<Result<Tile<L>, InitError>>, count: nat) -> nat
    decreases count,
{
    if count == 0 {
        0
    } else if tiles[count - 1] is Ok {
        opened_tiles(tiles, (count - 1) as nat) + 1
    } else {
        opened_tiles(tiles, (count - 1) as nat)
    }
}

/// The part of the frame of a wall that goes to the tile `slot`: all of it
/// where the wall is one tile, and the tile's share of it where the wall is
/// six.
pub open spec fn tile_part(frame_buffer: Seq<u8>, tiles: nat, slot: int) -> Seq<u8> {
    if tiles == 1 {
        frame_buffer
    } else {
        slot_bytes(frame_buffer, slot)
    }
}

/// The tile that holds a place was found with a claim to that place, and no
/// tile found after it claims the same.
pub proof fn lemma_slot_holder_is_last<L>(probes: Seq<Probe<L>>, slot: int)
    ensures
        slot_holder(probes, slot) matches Some(holder) ==> {
            &&& 0 <= holder < probes.len()
            &&& claimed_slot(probes[holder]) == Some(slot)
            &&& forall|later: int|
                holder < later < probes.len() ==> claimed_slot(#[trigger] probes[later]) != Some(
                    slot,
                )
        },
        slot_holder(probes, slot) is None ==> forall|any: int|
            0 <= any < probes.len() ==> claimed_slot(#[trigger] probes[any]) != Some(slot),
    decreases probes.len(),
{
    if probes.len() > 0 && claimed_slot(probes.last()) != Some(slot) {
        lemma_slot_holder_is_last(probes.drop_last(), slot);
        assert forall|any: int| 0 <= any < probes.len() - 1 implies #[trigger] probes[any]
            == probes.drop_last()[any] by {}
    }
}

/// All places are filled exactly when each place has a tile.
pub proof fn lemma_filled_slots<L>(probes: Seq<Probe<L>>, slots: nat)
    ensures
        filled_slots(probes, slots) <= slots,
        filled_slots(probes, slots) == slots <==> forall|slot: int|
            0 <= slot < slots ==> slot_holder(probes, slot) is Some,
    decreases slots,
{
    if slots > 0 {
        lemma_filled_slots(probes, (slots - 1) as nat);
    }
}

/// All links gave a tile exactly when each of them did.
pub proof fn lemma_opened_tiles<L>(tiles: Seq<Result<Tile<L>, InitError>>, count: nat)
    ensures
        opened_tiles(tiles, count) <= count,
        opened_tiles(tiles, count) == count <==> forall|i: int|
            0 <= i < count ==> tiles[i] is Ok,
    decreases count,
{
    if count > 0 {
        lemma_opened_tiles(tiles, (count - 1) as nat);
    }
}

/// Picks from the serial links of the machine those that may lead to a
/// tile.
pub fn usb_port_names(ports: &Vec<PortEntry>) -> (names: Vec<String>)
    ensures
        names@.map_values(|name: String| name@) == usb_names(ports@),
{
    let mut names: Vec<String> = Vec::new();
    let mut i: usize = 0;
    while i < ports.len()
        invariant
            i <= ports.len(),
            names@.map_values(|name: String| name@) == usb_names(ports@.take(i as int)),
        decreases ports.len() - i,
    {
        proof {
            let next = ports@.take(i + 1);
            assert(next.drop_last() =~= ports@.take(i as int));
            assert(next.last() == ports@[i as int]);
        }
        let ghost before = names@;
        match ports[i].kind {
            PortKind::Usb => {
                let name: String = ports[i].name.clone();
                names.push(name);
                assert(names@.map_values(|name: String| name@) =~= before.map_values(
                    |name: String| name@,
                ).push(ports@[i as int].name@));
            },
            _ => {},
        }
        i += 1;
    }
    assert(ports@.take(i as int) =~= ports@);
    names
}

/// Tells whether each of the names in `com_ports` is the name of one of the
/// `available` links.
pub fn check_comport_existence(available: &Vec<String>, com_ports: &Vec<String>) -> (found: bool)
    ensures
        found == all_present(
            available@.map_values(|name: String| name@),
            com_ports@.map_values(|name: String| name@),
        ),
{
    let ghost have = available@.map_values(|name: String| name@);
    let ghost want = com_ports@.map_values(|name: String| name@);
    let mut i: usize = 0;
    while i < com_ports.len()
        invariant
            i <= com_ports.len(),
            have == available@.map_values(|name: String| name@),
            want == com_ports@.map_values(|name: String| name@),
            forall|k: int| 0 <= k < i ==> have.contains(#[trigger] want[k]),
        decreases com_ports.len() - i,
    {
        let mut present: bool = false;
        let mut j: usize = 0;
        while j < available.len()
            invariant
                j <= available.len(),
                i < com_ports.len(),
                have == available@.map_values(|name: String| name@),
                want == com_ports@.map_values(|name: String| name@),
                present <==> exists|k: int| 0 <= k < j && have[k] == want[i as int],
            decreases available.len() - j,
        {
            if available[j] == com_ports[i] {
                assert(have[j as int] == want[i as int]);
                present = true;
            }
            j += 1;
        }
        if !present {
            assert(!have.contains(want[i as int]));
            return false;
        }
        assert(have.contains(want[i as int]));
        i += 1;
    }
    true
}

impl<L> View for Wall<L> {
    type V = Seq<Tile<L>>;

    closed spec fn view(&self) -> Seq<Tile<L>> {
        self.tiles@
    }
}

impl<L> Wall<L> {
    /// Whether the wall is whole: it has one tile or six, and the tile at
    /// each place has that place, counted from 1, as its own.
    pub open spec fn wf(&self) -> bool {
        &&& self@.len() == 1 || self@.len() == 6
        &&& forall|slot: int|
            0 <= slot < self@.len() ==> (#[trigger] self@[slot]).place() == slot + 1
    }

    /// Makes a wall of six from the tiles that were found. A tile takes the
    /// place that its identifier names, if it answered `Okay` and the
    /// identifier is one of 1 to 6; where two tiles name the same place,
    /// the one found later takes it. The wall is made only if every place
    /// is taken.
    pub fn new(probes: Vec<Probe<L>>) -> (wall: Result<Wall<L>, WallError>)
        ensures
            wall is Ok <==> forall|slot: int| 0 <= slot < 6 ==> slot_holder(probes@, slot) is Some,
            wall matches Ok(w) ==> {
                &&& w.wf()
                &&& w@.len() == 6
                &&& forall|slot: int|
                    0 <= slot < 6 ==> (#[trigger] w@[slot]).same_but_place(
                        &probes@[slot_holder(probes@, slot)->0].tile,
                    )
            },
            wall matches Err(e) ==> e == (WallError::WrongTileCount {
                found: filled_slots(probes@, 6) as usize,
                wanted: 6,
            }),
    {
        let ghost all = probes@;
        let mut probes = probes;
        let mut slots: Vec<Option<Tile<L>>> = Vec::new();
        while slots.len() < 6
            invariant
                slots@.len() <= 6,
                forall|s: int| 0 <= s < slots@.len() ==> slots@[s] is None,
            decreases 6 - slots@.len(),
        {
            slots.push(None);
        }
        let ghost mut seen: int = 0;
        while probes.len() > 0
            invariant
                0 <= seen <= all.len(),
                probes@ == all.subrange(seen, all.len() as int),
                slots@.len() == 6,
                forall|s: int|
                    0 <= s < 6 ==> match slot_holder(all.take(seen), s) {
                        Some(holder) => {
                            &&& #[trigger] slots@[s] is Some
                            &&& 0 <= holder < seen
                            &&& slots@[s]->0.same_but_place(&all[holder].tile)
                            &&& slots@[s]->0.place() == s + 1
                        },
                        None => slots@[s] is None,
                    },
            decreases probes@.len(),
        {
            let probe: Probe<L> = probes.remove(0);
            proof {
                assert(probe == all[seen]);
                let next = all.take(seen + 1);
                assert(next.drop_last() =~= all.take(seen));
                assert(next.last() == all[seen]);
                assert(probes@ =~= all.subrange(seen + 1, all.len() as int));
            }
            let Probe { tile, status, identifier } = probe;
            match status {
                StatusCode::Okay => {
                    if 1 <= identifier && identifier <= 6 {
                        let mut tile = tile;
                        tile.assign(identifier);
                        let slot: usize = (identifier - 1) as usize;
                        slots[slot] = Some(tile);
                    }
                },
                _ => {},
            }
            proof {
                seen = seen + 1;
            }
        }
        assert(all.take(seen) =~= all);
        let mut tiles: Vec<Tile<L>> = Vec::new();
        let mut found: usize = 0;
        let mut done: usize = 0;
        while done < 6
            invariant
                done <= 6,
                slots@.len() == 6,
                found == filled_slots(all, done as nat),
                found <= done,
                tiles@.len() == found,
                forall|s: int|
                    done <= s < 6 ==> match slot_holder(all, s) {
                        Some(holder) => {
                            &&& #[trigger] slots@[s] is Some
                            &&& slots@[s]->0.same_but_place(&all[holder].tile)
                            &&& slots@[s]->0.place() == s + 1
                        },
                        None => slots@[s] is None,
                    },
                found == done ==> forall|s: int|
                    0 <= s < done ==> {
                        &&& slot_holder(all, s) is Some
                        &&& (#[trigger] tiles@[s]).same_but_place(&all[slot_holder(all, s)->0].tile)
                        &&& tiles@[s].place() == s + 1
                    },
            decreases 6 - done,
        {
            let slot: Option<Tile<L>> = slots[done].take();
            proof {
                lemma_filled_slots(all, done as nat);
            }
            match slot {
                Some(tile) => {
                    tiles.push(tile);
                    found += 1;
                },
                None => {},
            }
            done += 1;
        }
        proof {
            lemma_filled_slots(all, 6);
        }
        if found == 6 {
            Ok(Wall { tiles })
        } else {
            Err(WallError::WrongTileCount { found, wanted: 6 })
        }
    }

    /// Makes a wall of six from the tiles on six links that the caller has
    /// named in the order of the places. Each entry is what came of setting
    /// a tile up on one link. The wall is made only if there are six entries
    /// and each is a tile. The tiles are taken to sit where the caller says:
    /// they are not asked for their identifiers.
    pub fn new_with_ports(tiles: Vec<Result<Tile<L>, InitError>>) -> (wall: Result<
        Wall<L>,
        WallError,
    >)
        ensures
            wall is Ok <==> tiles@.len() == 6 && forall|i: int| 0 <= i < 6 ==> tiles@[i] is Ok,
            wall matches Ok(w) ==> {
                &&& w.wf()
                &&& w@.len() == 6
                &&& forall|slot: int|
                    0 <= slot < 6 ==> (#[trigger] w@[slot]).same_but_place(&tiles@[slot]->Ok_0)
            },
            wall matches Err(e) ==> e == (WallError::WrongTileCount {
                found: opened_tiles(tiles@, tiles@.len()) as usize,
                wanted: 6,
            }),
    {
        let ghost all = tiles@;
        let mut given = tiles;
        let count: usize = given.len();
        let mut opened: Vec<Tile<L>> = Vec::new();
        let mut found: usize = 0;
        let mut done: usize = 0;
        while done < count
            invariant
                done <= count == all.len(),
                given@ == all.subrange(done as int, all.len() as int),
                found == opened_tiles(all, done as nat),
                found <= done,
                opened@.len() == found,
                found == done && done <= 6 ==> forall|s: int|
                    0 <= s < done ==> {
                        &&& all[s] is Ok
                        &&& (#[trigger] opened@[s]).same_but_place(&all[s]->Ok_0)
                        &&& opened@[s].place() == s + 1
                    },
            decreases count - done,
        {
            let entry: Result<Tile<L>, InitError> = given.remove(0);
            proof {
                assert(entry == all[done as int]);
                assert(given@ =~= all.subrange(done + 1, all.len() as int));
                lemma_opened_tiles(all, done as nat);
            }
            match entry {
                Ok(tile) => {
                    let mut tile = tile;
                    if done < 6 {
                        tile.assign((done + 1) as u8);
                    }
                    opened.push(tile);
                    found += 1;
                },
                Err(_) => {},
            }
            done += 1;
        }
        proof {
            lemma_opened_tiles(all, all.len());
        }
        if count == 6 && found == 6 {
            Ok(Wall { tiles: opened })
        } else {
            Err(WallError::WrongTileCount { found, wanted: 6 })
        }
    }

    /// Makes a wall of the one tile on the link that the caller has named.
    /// The wall is made only if a tile could be set up there.
    pub fn single_new_with_port(tile: Result<Tile<L>, InitError>) -> (wall: Result<
        Wall<L>,
        WallError,
    >)
        ensures
            wall is Ok <==> tile is Ok,
            wall matches Ok(w) ==> {
                &&& w.wf()
                &&& w@.len() == 1
                &&& w@[0].same_but_place(&tile->Ok_0)
            },
            wall matches Err(e) ==> e == (WallError::WrongTileCount { found: 0, wanted: 1 }),
    {
        match tile {
            Ok(tile) => {
                let mut tile = tile;
                tile.assign(1);
                let mut tiles: Vec<Tile<L>> = Vec::new();
                tiles.push(tile);
                Ok(Wall { tiles })
            },
            Err(_) => Err(WallError::WrongTileCount { found: 0, wanted: 1 }),
        }
    }

    /// The number of tiles, which is also the number of workers that a
    /// command to the wall can keep busy.
    pub fn tile_count(&self) -> (count: usize)
        ensures
            count == self@.len(),
    {
        self.tiles.len()
    }

    /// The tiles, for whoever carries out their exchanges.
    pub fn tiles_mut(&mut self) -> (tiles: &mut [Tile<L>])
        ensures
            tiles@ == old(self)@,
            final(self)@ == final(tiles)@,
    {
        self.tiles.as_mut_slice()
    }

    /// Starts a show on every tile at `now`.
    pub fn show_at(&self, now: u64) -> (exchanges: Vec<Exchange>)
        ensures
            exchanges@.len() == self@.len(),
            forall|slot: int|
                0 <= slot < self@.len() ==> (#[trigger] exchanges@[slot])@ == show_request(
                    now,
                    self@[slot].last_show(),
                    self@[slot].pace(),
                ),
    {
        let mut exchanges: Vec<Exchange> = Vec::new();
        let mut slot: usize = 0;
        while slot < self.tiles.len()
            invariant
                slot <= self.tiles@.len(),
                exchanges@.len() == slot,
                forall|s: int|
                    0 <= s < slot ==> (#[trigger] exchanges@[s])@ == show_request(
                        now,
                        self@[s].last_show(),
                        self@[s].pace(),
                    ),
            decreases self.tiles@.len() - slot,
        {
            exchanges.push(self.tiles[slot].show_at(now));
            slot += 1;
        }
        exchanges
    }

    /// Starts a show on every tile, each at the time that the clock of the
    /// machine gives when its turn comes.
    pub fn show(&self) -> (exchanges: Vec<Exchange>)
        ensures
            exchanges@.len() == self@.len(),
            forall|slot: int|
                0 <= slot < self@.len() ==> starts_show(
                    (#[trigger] exchanges@[slot])@,
                    self@[slot].last_show(),
                    self@[slot].pace(),
                ),
    {
        let mut exchanges: Vec<Exchange> = Vec::new();
        let mut slot: usize = 0;
        while slot < self.tiles.len()
            invariant
                slot <= self.tiles@.len(),
                exchanges@.len() == slot,
                forall|s: int|
                    0 <= s < slot ==> starts_show(
                        (#[trigger] exchanges@[s])@,
                        self@[s].last_show(),
                        self@[s].pace(),
                    ),
            decreases self.tiles@.len() - slot,
        {
            exchanges.push(self.tiles[slot].command_0_show());
            slot += 1;
        }
        exchanges
    }

    /// Starts, on every tile, the command that fills it with one colour.
    pub fn solid_color(&self, red: u8, green: u8, blue: u8) -> (exchanges: Vec<Exchange>)
        ensures
            exchanges@.len() == self@.len(),
            forall|slot: int|
                0 <= slot < self@.len() ==> (#[trigger] exchanges@[slot])@ == solid_color_request(
                    red,
                    green,
                    blue,
                ),
    {
        let mut exchanges: Vec<Exchange> = Vec::new();
        let mut slot: usize = 0;
        while slot < self.tiles.len()
            invariant
                slot <= self.tiles@.len(),
                exchanges@.len() == slot,
                forall|s: int|
                    0 <= s < slot ==> (#[trigger] exchanges@[s])@ == solid_color_request(
                        red,
                        green,
                        blue,
                    ),
            decreases self.tiles@.len() - slot,
        {
            exchanges.push(self.tiles[slot].command_1_solid_color(red, green, blue));
            slot += 1;
        }
        exchanges
    }

    /// Starts, on every tile, the command that sends it its part of a new
    /// frame of the wall. A wall of one tile takes a frame of 1200 bytes, a
    /// wall of six one of 7200.
    pub fn update_all(&mut self, frame_buffer: &[u8]) -> (exchanges: Vec<Exchange>)
        requires
            old(self).wf(),
            frame_buffer@.len() == 1200 * old(self)@.len(),
        ensures
            final(self).wf(),
            final(self)@.len() == old(self)@.len(),
            exchanges@.len() == old(self)@.len(),
            forall|slot: int|
                0 <= slot < old(self)@.len() ==> {
                    let part = tile_part(frame_buffer@, old(self)@.len(), slot);
                    &&& part.len() == 1200
                    &&& (#[trigger] exchanges@[slot])@ == update_request(
                        old(self)@[slot].sent_frame(),
                        wired_frame(part),
                    )
                    &&& final(self)@[slot].sent_frame() == wired_frame(part)
                    &&& final(self)@[slot].link() == old(self)@[slot].link()
                    &&& final(self)@[slot].pace() == old(self)@[slot].pace()
                    &&& final(self)@[slot].last_show() == old(self)@[slot].last_show()
                },
    {
        let mut exchanges: Vec<Exchange> = Vec::new();
        if self.tiles.len() == 1 {
            exchanges.push(self.tiles[0].command_2_update_all(frame_buffer));
            return exchanges;
        }
        let parts: Vec<Vec<u8>> = split_framebuffer(frame_buffer);
        let mut slot: usize = 0;
        while slot < 6
            invariant
                slot <= 6,
                old(self).wf(),
                old(self)@.len() == 6,
                self@.len() == 6,
                frame_buffer@.len() == 7200,
                parts@.len() == 6,
                forall|s: int| 0 <= s < 6 ==> (#[trigger] parts@[s])@ == slot_bytes(frame_buffer@, s),
                exchanges@.len() == slot,
                forall|s: int| slot <= s < 6 ==> self@[s] == old(self)@[s],
                forall|s: int|
                    0 <= s < slot ==> {
                        let part = slot_bytes(frame_buffer@, s);
                        &&& (#[trigger] exchanges@[s])@ == update_request(
                            old(self)@[s].sent_frame(),
                            wired_frame(part),
                        )
                        &&& self@[s].sent_frame() == wired_frame(part)
                        &&& self@[s].link() == old(self)@[s].link()
                        &&& self@[s].pace() == old(self)@[s].pace()
                        &&& self@[s].last_show() == old(self)@[s].last_show()
                        &&& self@[s].place() == old(self)@[s].place()
                    },
            decreases 6 - slot,
        {
            proof {
                lemma_split_full_wall(frame_buffer@, slot as int);
            }
            let exchange: Exchange = self.tiles[slot].command_2_update_all(parts[slot].as_slice());
            exchanges.push(exchange);
            slot += 1;
        }
        proof {
            assert forall|s: int| 0 <= s < 6 implies slot_bytes(frame_buffer@, s).len()
                == 1200 by {
                lemma_split_full_wall(frame_buffer@, s);
            }
            assert forall|s: int| 0 <= s < 6 implies (#[trigger] self@[s]).place() == s + 1 by {
                let started = exchanges@[s];
                assert(old(self)@[s].place() == s + 1);
            }
        }
        exchanges
    }
}

} // verus!
