//! One tile: its link, what is known of its state, and the commands of the
//! protocol.
//!
//! Each command starts an [`Exchange`]. The holder of the link carries out
//! what the exchange asks for and hands each [`Event`] to
//! [`Tile::advance`].

use vstd::prelude::*;
use crate::checksum::{checksum, checksum_of};
use crate::clock::{millis_since_epoch, pacing_delay, pause_before_show};
use crate::delta::{changed_count, changes, extract_mutated_pixels, lemma_changes_len};
use crate::exchange::{
    shown_at, step, Event, Exchange, ExchangeView, Expect, ExpectView, Reply, ReplyView,
};
use crate::index_map::{wired_frame, IndexTable};
use crate::status_code::StatusCode;

verus! {

/// The frame time of a new tile, in milliseconds.
pub const DEFAULT_FRAME_TIME_MS: u64 = 33;

/// A frame in which fewer pixels than this have changed is sent as an
/// update of single pixels.
pub const SPARSE_THRESHOLD: usize = 100;

/// The most pixels that one update of single pixels can carry.
pub const MAX_SPARSE_PIXELS: usize = 255;

/// Why a tile could not be set up.
#[derive(Debug, Clone, Copy, PartialEq, Eq, Structural)]
pub enum InitError {
    /// What answered on the link did not make itself known as a tile.
    NotAnEllieTile,
    /// The link could not be opened.
    FailedToOpenConnection,
}

/// A tile, with a link of type `L` to it.
#[derive(Debug)]
pub struct Tile<L> {
    frame_time: u64,
    port: L,
    last_serial_write_time: u64,
    identifier: u8,
    index_converter_vector: IndexTable,
    previous_framebuffer: [u8; 1200],
}

/// The five bytes by which a tile makes itself known: "Ellie" in ASCII.
pub open spec fn magic_numbers() -> Seq<u8> {
    seq![69u8, 108u8, 108u8, 105u8, 101u8]
}

/// A frame of 1200 zero bytes: what a new tile is taken to show.
pub open spec fn dark_frame() -> Seq<u8> {
    Seq::new(1200, |i: int| 0u8)
}

/// How a show starts at `now`, when the last one was written at `last`:
/// with a pause for what is left of the frame time, or, if nothing is left,
/// with the request itself.
pub open spec fn show_request(now: u64, last: u64, frame_time: u64) -> ExchangeView {
    if pause_before_show(now, last, frame_time) > 0 {
        ExchangeView::Pause { millis: pause_before_show(now, last, frame_time) }
    } else {
        ExchangeView::Write { bytes: seq![0u8], expect: ExpectView::Shown }
    }
}

/// Whether `exchange` is how a show starts at some time or other.
pub open spec fn starts_show(exchange: ExchangeView, last: u64, frame_time: u64) -> bool {
    exists|now: u64| exchange == show_request(now, last, frame_time)
}

/// The request that fills a tile with one colour.
pub open spec fn solid_color_request(red: u8, green: u8, blue: u8) -> ExchangeView {
    ExchangeView::Write {
        bytes: seq![1u8, red, green, blue, checksum_of(seq![red, green, blue])],
        expect: ExpectView::Status,
    }
}

/// The request that replaces the whole frame of a tile by `wired`, a frame
/// in the order of the strip.
pub open spec fn full_update_request(wired: Seq<u8>) -> ExchangeView {
    ExchangeView::Write {
        bytes: seq![2u8] + wired + seq![checksum_of(wired)],
        expect: ExpectView::Status,
    }
}

/// The request that announces an update of single pixels. It gives the
/// number of pixels twice; the entries and their checksum are held back
/// until the tile says it is ready.
pub open spec fn sparse_update_request(entries: Seq<u8>) -> ExchangeView {
    ExchangeView::Write {
        bytes: seq![3u8, (entries.len() / 5) as u8, (entries.len() / 5) as u8],
        expect: ExpectView::Ready(entries + seq![checksum_of(entries)]),
    }
}

/// How a new frame is sent to a tile that was last sent `previous`: as an
/// update of the changed pixels if fewer than a hundred have changed, and
/// whole otherwise. Both frames are in the order of the strip.
pub open spec fn update_request(previous: Seq<u8>, wired: Seq<u8>) -> ExchangeView {
    if changed_count(previous, wired, 400) < SPARSE_THRESHOLD {
        sparse_update_request(changes(previous, wired, 400))
    } else {
        full_update_request(wired)
    }
}

/// The request for the identifier of a tile.
pub open spec fn identifier_request() -> ExchangeView {
    ExchangeView::Write { bytes: seq![4u8], expect: ExpectView::Identifier }
}

/// How the identifier of a tile is set: with a request that names it twice.
/// The identifier 0 is not sent; the command ends at once with `Error`.
pub open spec fn set_identifier_request(identifier: u8) -> ExchangeView {
    if identifier == 0 {
        ExchangeView::Done(ReplyView::Status(StatusCode::Error))
    } else {
        ExchangeView::Write {
            bytes: seq![5u8, identifier, identifier],
            expect: ExpectView::Status,
        }
    }
}

/// A frame goes out as an update of single pixels, under the command byte
/// 3, exactly if fewer than a hundred of its pixels have changed; if not,
/// it goes out whole, under the command byte 2.
pub proof fn lemma_update_request_kind(previous: Seq<u8>, wired: Seq<u8>)
    ensures
        changed_count(previous, wired, 400) < 100 ==> update_request(previous, wired)
            == sparse_update_request(changes(previous, wired, 400)),
        changed_count(previous, wired, 400) >= 100 ==> update_request(previous, wired)
            == full_update_request(wired),
        update_request(previous, wired) matches ExchangeView::Write { bytes, .. } && (bytes[0] == 3
            <==> changed_count(previous, wired, 400) < 100) && (bytes[0] == 2 <==> changed_count(
            previous,
            wired,
            400,
        ) >= 100),
{
}

/// The whole frame ends with the checksum of the frame as the caller gave
/// it: putting the bytes into the order of the strip does not change their
/// sum.
pub proof fn lemma_full_update_checksum(frame: Seq<u8>)
    requires
        frame.len() == 1200,
    ensures
        full_update_request(wired_frame(frame)) == (ExchangeView::Write {
            bytes: seq![2u8] + wired_frame(frame) + seq![checksum_of(frame)],
            expect: ExpectView::Status,
        }),
{
    crate::index_map::lemma_wired_frame_checksum(frame);
}

/// A show that is asked for before the frame time has passed since the
/// last one starts with a pause that ends exactly a frame time after the
/// last show was written. One that is asked for later starts with its
/// request. So the requests of two shows are never written less than a
/// frame time apart.
pub proof fn lemma_show_request_pace(now: u64, last: u64, frame_time: u64)
    requires
        now >= last,
    ensures
        now - last < frame_time ==> show_request(now, last, frame_time) == (ExchangeView::Pause {
            millis: (last + frame_time - now) as u64,
        }),
        now - last >= frame_time ==> show_request(now, last, frame_time) == (ExchangeView::Write {
            bytes: seq![0u8],
            expect: ExpectView::Shown,
        }),
{
}

/// A frame that equals the one last sent goes out as an update of no pixel
/// at all.
pub proof fn lemma_update_request_unchanged(wired: Seq<u8>)
    ensures
        update_request(wired, wired) == sparse_update_request(Seq::<u8>::empty()),
{
    crate::delta::lemma_changes_none(wired, wired, 400);
}

impl<L> Tile<L> {
    /// The link to the tile. The tile itself never touches it.
    pub closed spec fn link(&self) -> L {
        self.port
    }

    /// The least time between two shows, in milliseconds.
    pub closed spec fn pace(&self) -> u64 {
        self.frame_time
    }

    /// The time at which the request of the last show was written, or, if
    /// there was none, at which the tile was set up.
    pub closed spec fn last_show(&self) -> u64 {
        self.last_serial_write_time
    }

    /// The place of the tile in its wall, from 1 on, or 0 while it has
    /// none.
    pub closed spec fn place(&self) -> u8 {
        self.identifier
    }

    /// The frame that the tile was last sent, in the order of the strip.
    pub closed spec fn sent_frame(&self) -> Seq<u8> {
        self.previous_framebuffer@
    }

    /// Whether two tiles have the same link, frame time, time of the last
    /// show and last frame. They may differ in their place.
    pub open spec fn same_but_place(&self, other: &Self) -> bool {
        &&& self.link() == other.link()
        &&& self.pace() == other.pace()
        &&& self.last_show() == other.last_show()
        &&& self.sent_frame() == other.sent_frame()
    }

    /// Sets a tile up on a link, if there is one. `None` stands for a link
    /// that could not be opened. The tile starts with the default frame
    /// time, a dark frame and no place; the time of its last show is `now`.
    pub fn init_at(port: Option<L>, now: u64) -> (tile: Result<Tile<L>, InitError>)
        ensures
            port is None <==> tile is Err,
            tile is Err ==> tile == Err::<Tile<L>, InitError>(InitError::FailedToOpenConnection),
            tile matches Ok(t) ==> {
                &&& t.link() == port->0
                &&& t.pace() == DEFAULT_FRAME_TIME_MS
                &&& t.last_show() == now
                &&& t.place() == 0
                &&& t.sent_frame() == dark_frame()
            },
    {
        match port {
            None => Err(InitError::FailedToOpenConnection),
            Some(port) => {
                let previous_framebuffer: [u8; 1200] = [0u8; 1200];
                assert(previous_framebuffer@ =~= dark_frame());
                Ok(
                    Tile {
                        frame_time: DEFAULT_FRAME_TIME_MS,
                        port,
                        last_serial_write_time: now,
                        identifier: 0,
                        index_converter_vector: IndexTable::new(),
                        previous_framebuffer,
                    },
                )
            },
        }
    }

    /// Sets a tile up on a link, as `init_at` does, at the time that the
    /// clock of the machine gives.
    pub fn init(port: Option<L>) -> (tile: Result<Tile<L>, InitError>)
        ensures
            port is None <==> tile is Err,
            tile is Err ==> tile == Err::<Tile<L>, InitError>(InitError::FailedToOpenConnection),
            tile matches Ok(t) ==> {
                &&& t.link() == port->0
                &&& t.pace() == DEFAULT_FRAME_TIME_MS
                &&& t.place() == 0
                &&& t.sent_frame() == dark_frame()
            },
    {
        let now: u64 = millis_since_epoch();
        Tile::init_at(port, now)
    }

    /// Accepts the tile if what was read from its link are the five bytes
    /// of a tile, and gives it up if not.
    pub fn handshake(self, reply: &Reply) -> (tile: Result<Tile<L>, InitError>)
        ensures
            tile is Ok <==> reply@ == ReplyView::MagicNumbers(magic_numbers()),
            tile matches Ok(t) ==> t == self,
            tile is Err ==> tile == Err::<Tile<L>, InitError>(InitError::NotAnEllieTile),
    {
        match reply {
            Reply::MagicNumbers(bytes) => {
                if bytes[0] == 69 && bytes[1] == 108 && bytes[2] == 108 && bytes[3] == 105
                    && bytes[4] == 101 {
                    assert(bytes@ =~= magic_numbers());
                    Ok(self)
                } else {
                    Err(InitError::NotAnEllieTile)
                }
            },
            _ => Err(InitError::NotAnEllieTile),
        }
    }

    /// The place of the tile in its wall, from 1 on, or 0 while it has
    /// none.
    pub fn identifier(&self) -> (identifier: u8)
        ensures
            identifier == self.place(),
    {
        self.identifier
    }

    /// The time at which the request of the last show was written.
    pub fn last_serial_write_time(&self) -> (time: u64)
        ensures
            time == self.last_show(),
    {
        self.last_serial_write_time
    }

    /// The frame that the tile was last sent, in the order of the strip.
    pub fn previous_framebuffer(&self) -> (frame: &[u8; 1200])
        ensures
            frame@ == self.sent_frame(),
    {
        &self.previous_framebuffer
    }

    /// The least time between two shows, in milliseconds.
    pub fn frame_time(&self) -> (millis: u64)
        ensures
            millis == self.pace(),
    {
        self.frame_time
    }

    /// Sets the least time between two shows, in milliseconds.
    pub fn set_frame_time(&mut self, millis: u64)
        ensures
            final(self).pace() == millis,
            final(self).link() == old(self).link(),
            final(self).last_show() == old(self).last_show(),
            final(self).place() == old(self).place(),
            final(self).sent_frame() == old(self).sent_frame(),
    {
        self.frame_time = millis;
    }

    /// The link to the tile, for whoever carries out an exchange on it.
    pub fn port(&mut self) -> (port: &mut L)
        ensures
            *port == old(self).link(),
            final(self).link() == *final(port),
            final(self).pace() == old(self).pace(),
            final(self).last_show() == old(self).last_show(),
            final(self).place() == old(self).place(),
            final(self).sent_frame() == old(self).sent_frame(),
    {
        &mut self.port
    }

    /// Gives the tile its place in a wall.
    pub(crate) fn assign(&mut self, identifier: u8)
        ensures
            final(self).place() == identifier,
            final(self).same_but_place(old(self)),
    {
        self.identifier = identifier;
    }

    /// Starts a show at `now`: the command that makes the tile display
    /// what it holds. Two shows are kept a frame time apart.
    pub fn show_at(&self, now: u64) -> (exchange: Exchange)
        ensures
            exchange@ == show_request(now, self.last_show(), self.pace()),
    {
        let pause: u64 = pacing_delay(now, self.last_serial_write_time, self.frame_time);
        if pause > 0 {
            Exchange::Pause { millis: pause }
        } else {
            let bytes: Vec<u8> = vec![0u8];
            assert(bytes@ =~= seq![0u8]);
            Exchange::Write { bytes, expect: Expect::Shown }
        }
    }

    /// Starts a show at the time that the clock of the machine gives.
    pub fn command_0_show(&self) -> (exchange: Exchange)
        ensures
            starts_show(exchange@, self.last_show(), self.pace()),
    {
        let now: u64 = millis_since_epoch();
        self.show_at(now)
    }

    /// Starts the command that fills the tile with one colour.
    pub fn command_1_solid_color(&self, red: u8, green: u8, blue: u8) -> (exchange: Exchange)
        ensures
            exchange@ == solid_color_request(red, green, blue),
    {
        let mut colour: Vec<u8> = Vec::new();
        colour.push(red);
        colour.push(green);
        colour.push(blue);
        assert(colour@ =~= seq![red, green, blue]);
        let crc: u8 = checksum(colour.as_slice());
        let mut bytes: Vec<u8> = Vec::new();
        bytes.push(1);
        bytes.push(red);
        bytes.push(green);
        bytes.push(blue);
        bytes.push(crc);
        assert(bytes@ =~= seq![1u8, red, green, blue, crc]);
        Exchange::Write { bytes, expect: Expect::Status }
    }

    /// Starts the command that sends a new frame. The frame lists the
    /// pixels column by column; it is put into the order of the strip and
    /// held against the frame last sent. The tile takes the new frame as
    /// sent.
    pub fn command_2_update_all(&mut self, frame_buffer_unordered: &[u8]) -> (exchange: Exchange)
        requires
            frame_buffer_unordered@.len() == 1200,
        ensures
            exchange@ == update_request(
                old(self).sent_frame(),
                wired_frame(frame_buffer_unordered@),
            ),
            final(self).sent_frame() == wired_frame(frame_buffer_unordered@),
            final(self).link() == old(self).link(),
            final(self).pace() == old(self).pace(),
            final(self).last_show() == old(self).last_show(),
            final(self).place() == old(self).place(),
    {
        let wired: [u8; 1200] = self.index_converter_vector.rewire(frame_buffer_unordered);
        let entries: Vec<u8> = extract_mutated_pixels(&mut self.previous_framebuffer, &wired);
        proof {
            lemma_changes_len(old(self).sent_frame(), wired@, 400);
        }
        if entries.len() / 5 < SPARSE_THRESHOLD {
            return self.command_3_update_specific_led(entries.as_slice());
        }
        let crc: u8 = checksum(wired.as_slice());
        let mut bytes: Vec<u8> = Vec::with_capacity(1202);
        bytes.push(2);
        let mut i: usize = 0;
        while i < 1200
            invariant
                i <= 1200,
                bytes@ == seq![2u8] + wired@.take(i as int),
            decreases 1200 - i,
        {
            bytes.push(wired[i]);
            assert(wired@.take(i + 1) =~= wired@.take(i as int).push(wired@[i as int]));
            assert(bytes@ =~= seq![2u8] + wired@.take(i + 1));
            i += 1;
        }
        bytes.push(crc);
        assert(wired@.take(1200) =~= wired@);
        assert(bytes@ =~= seq![2u8] + wired@ + seq![crc]);
        Exchange::Write { bytes, expect: Expect::Status }
    }

    /// Starts the command that updates single pixels. `frame_buffer` holds
    /// five bytes for each pixel, two for its index and three for its
    /// colour, and no more than 255 pixels.
    pub fn command_3_update_specific_led(&self, frame_buffer: &[u8]) -> (exchange: Exchange)
        requires
            frame_buffer@.len() % 5 == 0,
            frame_buffer@.len() / 5 <= MAX_SPARSE_PIXELS,
        ensures
            exchange@ == sparse_update_request(frame_buffer@),
    {
        let led_count: u8 = (frame_buffer.len() / 5) as u8;
        let crc: u8 = checksum(frame_buffer);
        let mut payload: Vec<u8> = vstd::slice::slice_to_vec(frame_buffer);
        payload.push(crc);
        assert(payload@ =~= frame_buffer@ + seq![crc]);
        let mut bytes: Vec<u8> = Vec::new();
        bytes.push(3);
        bytes.push(led_count);
        bytes.push(led_count);
        assert(bytes@ =~= seq![3u8, led_count, led_count]);
        Exchange::Write { bytes, expect: Expect::Ready(payload) }
    }

    /// Starts the command that asks the tile for its identifier.
    pub fn command_4_get_tile_identifier(&self) -> (exchange: Exchange)
        ensures
            exchange@ == identifier_request(),
    {
        let bytes: Vec<u8> = vec![4u8];
        assert(bytes@ =~= seq![4u8]);
        Exchange::Write { bytes, expect: Expect::Identifier }
    }

    /// Starts the command that gives the tile an identifier. The
    /// identifier 0 is refused here, and nothing is sent.
    pub fn command_5_set_tile_identifier(&self, identifier: u8) -> (exchange: Exchange)
        ensures
            exchange@ == set_identifier_request(identifier),
    {
        if identifier == 0 {
            return Exchange::Done(Reply::Status(StatusCode::Error));
        }
        let mut bytes: Vec<u8> = Vec::new();
        bytes.push(5);
        bytes.push(identifier);
        bytes.push(identifier);
        assert(bytes@ =~= seq![5u8, identifier, identifier]);
        Exchange::Write { bytes, expect: Expect::Status }
    }

    /// Starts the reading of the five bytes by which a tile makes itself
    /// known once its link is open. Nothing is sent for them.
    pub fn command_6_magic_numbers(&self) -> (exchange: Exchange)
        ensures
            exchange@ == (ExchangeView::Read { expect: ExpectView::MagicNumbers }),
    {
        Exchange::Read { expect: Expect::MagicNumbers }
    }

    /// Takes an exchange one step on: given what happened on the link, says
    /// what is to be done next. The tile changes in one case only: when the
    /// request of a show has been written, it takes the time of writing as
    /// that of its last show.
    pub fn advance(&mut self, exchange: Exchange, event: Event) -> (next: Exchange)
        ensures
            next@ == step(exchange@, event@),
            final(self).last_show() == match shown_at(exchange@, event@) {
                Some(at) => at,
                None => old(self).last_show(),
            },
            final(self).link() == old(self).link(),
            final(self).pace() == old(self).pace(),
            final(self).place() == old(self).place(),
            final(self).sent_frame() == old(self).sent_frame(),
    {
        match exchange {
            Exchange::Pause { millis } => match event {
                Event::Resumed => {
                    let bytes: Vec<u8> = vec![0u8];
                    assert(bytes@ =~= seq![0u8]);
                    Exchange::Write { bytes, expect: Expect::Shown }
                },
                _ => Exchange::Done(Reply::Status(StatusCode::ErrorInternal)),
            },
            Exchange::Write { bytes, expect } => match event {
                Event::Written { at } => {
                    match expect {
                        Expect::Shown => {
                            self.last_serial_write_time = at;
                        },
                        _ => {},
                    }
                    Exchange::Read { expect }
                },
                _ => Exchange::Done(expect.failure()),
            },
            Exchange::Read { expect } => match event {
                Event::Received(bytes) => {
                    if bytes.len() == expect.reply_len() {
                        expect.answer(&bytes)
                    } else {
                        Exchange::Done(expect.failure())
                    }
                },
                _ => Exchange::Done(expect.failure()),
            },
            Exchange::Done(reply) => Exchange::Done(reply),
        }
    }

    /// Gives the tile up. Its link closes when the value goes.
    pub fn drop(self) {
    }
}

} // verus!
