//! The exchange that a command runs through on the link of a tile.
//!
//! A command is a short dialogue: bytes go out, a reply of known length
//! comes back, and for one command a second round follows. This library
//! neither writes nor reads. An [`Exchange`] says what is to be done next on
//! the link; whoever holds the link does it and reports an [`Event`]; the
//! tile answers with the exchange that follows, until it is `Done`.

use vstd::prelude::*;
use crate::status_code::StatusCode;

verus! {

/// The longest that a reply may take to arrive in full, in milliseconds.
pub const READ_BUDGET_MS: u64 = 30;

/// What the reply that an exchange waits for will mean.
#[derive(Debug, Clone, PartialEq, Eq)]
pub enum Expect {
    /// One status byte, which ends the command.
    Status,
    /// The status byte of a show. Once the request is written, the tile
    /// takes the time of writing as that of its last show.
    Shown,
    /// One status byte that tells whether the tile is ready for the frame
    /// held here. On `Next` the frame is sent; any other status ends the
    /// command.
    Ready(Vec<u8>),
    /// The identifier, twice, and a status byte.
    Identifier,
    /// The five bytes by which a tile makes itself known.
    MagicNumbers,
}

/// What a finished command hands back.
#[derive(Debug, Clone, Copy, PartialEq, Eq)]
pub enum Reply {
    /// The status of the command.
    Status(StatusCode),
    /// The status of a query for the identifier, and the identifier. The
    /// identifier is 0 unless the status came from the tile.
    Identifier(StatusCode, u8),
    /// The five bytes read, or five zero bytes where none could be read.
    MagicNumbers([u8; 5]),
}

/// The next thing to do on the link of a tile, and what follows from it.
#[derive(Debug, Clone, PartialEq, Eq)]
pub enum Exchange {
    /// Wait for `millis` milliseconds, then report `Event::Resumed`.
    Pause { millis: u64 },
    /// Write `bytes`, then report `Event::Written` or `Event::WriteFailed`.
    Write { bytes: Vec<u8>, expect: Expect },
    /// Read as many bytes as `expect` asks for, then report
    /// `Event::Received` or `Event::ReadFailed`.
    Read { expect: Expect },
    /// Nothing: the command has ended with this reply.
    Done(Reply),
}

/// What happened on the link.
#[derive(Debug, Clone, PartialEq, Eq)]
pub enum Event {
    /// The pause is over.
    Resumed,
    /// All bytes were written; `at` is the time when that was done, in
    /// milliseconds.
    Written { at: u64 },
    /// The bytes could not be written.
    WriteFailed,
    /// These bytes were read.
    Received(Vec<u8>),
    /// The reply did not arrive in time, or could not be read.
    ReadFailed,
}

/// What to do about a reply that is awaited.
#[derive(Debug, Clone, Copy, PartialEq, Eq, Structural)]
pub enum ReadStep {
    /// Enough bytes are there: read them.
    Take,
    /// Too few bytes are there, and time is left: look again.
    Wait,
    /// Too few bytes are there, and the time is up: discard what has
    /// arrived and report `Event::ReadFailed`.
    GiveUp,
}

/// `Expect`, with its frame as a sequence.
pub enum ExpectView {
    Status,
    Shown,
    Ready(Seq<u8>),
    Identifier,
    MagicNumbers,
}

/// `Reply`, with its bytes as a sequence.
pub enum ReplyView {
    Status(StatusCode),
    Identifier(StatusCode, u8),
    MagicNumbers(Seq<u8>),
}

/// `Exchange`, with its bytes as sequences.
pub enum ExchangeView {
    Pause { millis: u64 },
    Write { bytes: Seq<u8>, expect: ExpectView },
    Read { expect: ExpectView },
    Done(ReplyView),
}

/// `Event`, with its bytes as a sequence.
pub enum EventView {
    Resumed,
    Written { at: u64 },
    WriteFailed,
    Received(Seq<u8>),
    ReadFailed,
}

impl View for Expect {
    type V = ExpectView;

    open spec fn view(&self) -> ExpectView {
        match self {
            Expect::Status => ExpectView::Status,
            Expect::Shown => ExpectView::Shown,
            Expect::Ready(frame) => ExpectView::Ready(frame@),
            Expect::Identifier => ExpectView::Identifier,
            Expect::MagicNumbers => ExpectView::MagicNumbers,
        }
    }
}

impl View for Reply {
    type V = ReplyView;

    open spec fn view(&self) -> ReplyView {
        match self {
            Reply::Status(status) => ReplyView::Status(*status),
            Reply::Identifier(status, identifier) => ReplyView::Identifier(*status, *identifier),
            Reply::MagicNumbers(bytes) => ReplyView::MagicNumbers(bytes@),
        }
    }
}

impl View for Exchange {
    type V = ExchangeView;

    open spec fn view(&self) -> ExchangeView {
        match self {
            Exchange::Pause { millis } => ExchangeView::Pause { millis: *millis },
            Exchange::Write { bytes, expect } => ExchangeView::Write {
                bytes: bytes@,
                expect: expect@,
            },
            Exchange::Read { expect } => ExchangeView::Read { expect: expect@ },
            Exchange::Done(reply) => ExchangeView::Done(reply@),
        }
    }
}

impl View for Event {
    type V = EventView;

    open spec fn view(&self) -> EventView {
        match self {
            Event::Resumed => EventView::Resumed,
            Event::Written { at } => EventView::Written { at: *at },
            Event::WriteFailed => EventView::WriteFailed,
            Event::Received(bytes) => EventView::Received(bytes@),
            Event::ReadFailed => EventView::ReadFailed,
        }
    }
}

/// The status that a status byte of a reply gives to a command. A byte
/// outside the encoding means that the link cannot be relied on.
pub open spec fn reply_status(byte: u8) -> StatusCode {
    match StatusCode::decode(byte) {
        Some(status) => status,
        None => StatusCode::ErrorInternal,
    }
}

/// How many bytes the awaited reply has.
pub open spec fn reply_len(expect: ExpectView) -> nat {
    match expect {
        ExpectView::Status => 1,
        ExpectView::Shown => 1,
        ExpectView::Ready(_) => 1,
        ExpectView::Identifier => 3,
        ExpectView::MagicNumbers => 5,
    }
}

/// How a command ends when the link fails while this reply is awaited.
pub open spec fn failure(expect: ExpectView) -> ReplyView {
    match expect {
        ExpectView::Identifier => ReplyView::Identifier(StatusCode::ErrorInternal, 0),
        ExpectView::MagicNumbers => ReplyView::MagicNumbers(seq![0u8, 0u8, 0u8, 0u8, 0u8]),
        _ => ReplyView::Status(StatusCode::ErrorInternal),
    }
}

/// What the three bytes of a reply to a query for the identifier say. The
/// identifier comes twice; copies that differ make the reply worthless,
/// whatever status follows them.
pub open spec fn identifier_reply(bytes: Seq<u8>) -> ReplyView {
    if bytes[0] != bytes[1] {
        ReplyView::Identifier(StatusCode::NonMatchingCRC, 0)
    } else if StatusCode::decode(bytes[2]) is None {
        ReplyView::Identifier(StatusCode::ErrorInternal, 0)
    } else {
        ReplyView::Identifier(reply_status(bytes[2]), bytes[0])
    }
}

/// What follows from a reply of the awaited length.
pub open spec fn answer(expect: ExpectView, bytes: Seq<u8>) -> ExchangeView {
    match expect {
        ExpectView::Status => ExchangeView::Done(ReplyView::Status(reply_status(bytes[0]))),
        ExpectView::Shown => ExchangeView::Done(ReplyView::Status(reply_status(bytes[0]))),
        ExpectView::Ready(frame) => if StatusCode::decode(bytes[0]) == Some(StatusCode::Next) {
            ExchangeView::Write { bytes: frame, expect: ExpectView::Status }
        } else {
            ExchangeView::Done(ReplyView::Status(reply_status(bytes[0])))
        },
        ExpectView::Identifier => ExchangeView::Done(identifier_reply(bytes)),
        ExpectView::MagicNumbers => ExchangeView::Done(ReplyView::MagicNumbers(bytes)),
    }
}

/// The exchange that follows `exchange` once `event` is reported.
///
/// A pause that is over leads to the request of a show. A request that was
/// written leads to the wait for its reply, a reply of the awaited length
/// to what it means. A failure of the link ends the command, and so does an
/// event that does not belong to what was asked for. A command that has
/// ended stays as it is.
pub open spec fn step(exchange: ExchangeView, event: EventView) -> ExchangeView {
    match exchange {
        ExchangeView::Pause { millis } => match event {
            EventView::Resumed => ExchangeView::Write {
                bytes: seq![0u8],
                expect: ExpectView::Shown,
            },
            _ => ExchangeView::Done(ReplyView::Status(StatusCode::ErrorInternal)),
        },
        ExchangeView::Write { bytes, expect } => match event {
            EventView::Written { at } => ExchangeView::Read { expect },
            _ => ExchangeView::Done(failure(expect)),
        },
        ExchangeView::Read { expect } => match event {
            EventView::Received(bytes) => if bytes.len() == reply_len(expect) {
                answer(expect, bytes)
            } else {
                ExchangeView::Done(failure(expect))
            },
            _ => ExchangeView::Done(failure(expect)),
        },
        ExchangeView::Done(reply) => ExchangeView::Done(reply),
    }
}

/// The time that a tile takes as that of its last show when `event` is
/// reported to `exchange`: the time at which the request of a show was
/// written, and in every other case none.
pub open spec fn shown_at(exchange: ExchangeView, event: EventView) -> Option<u64> {
    match (exchange, event) {
        (
            ExchangeView::Write { bytes, expect: ExpectView::Shown },
            EventView::Written { at },
        ) => Some(at),
        _ => None,
    }
}

/// What to do about an awaited reply of `wanted` bytes when `buffered`
/// bytes have arrived, the wait began at `started` and it is `now`.
pub open spec fn read_decision(buffered: int, wanted: int, started: u64, now: u64) -> ReadStep {
    if buffered >= wanted {
        ReadStep::Take
    } else if now >= started && now - started > READ_BUDGET_MS {
        ReadStep::GiveUp
    } else {
        ReadStep::Wait
    }
}

/// A command ends after at most four events: a pause, the writing of a
/// request and the reading of its reply take three, and an update of single
/// pixels takes two rounds of writing and reading. Whatever is reported,
/// after four events the exchange is `Done`.
pub proof fn lemma_exchange_ends(
    exchange: ExchangeView,
    first: EventView,
    second: EventView,
    third: EventView,
    fourth: EventView,
)
    ensures
        step(step(step(step(exchange, first), second), third), fourth) is Done,
{
}

/// A link that fails ends the command at once, with the failure that
/// belongs to the awaited reply.
pub proof fn lemma_failure_ends(bytes: Seq<u8>, expect: ExpectView)
    ensures
        step(ExchangeView::Write { bytes, expect }, EventView::WriteFailed) == ExchangeView::Done(
            failure(expect),
        ),
        step(ExchangeView::Read { expect }, EventView::ReadFailed) == ExchangeView::Done(
            failure(expect),
        ),
{
}

/// A command of one round ends with the status that the tile sent: once
/// the request is written and one byte has come back, the command is done,
/// and its status is what that byte stands for.
pub proof fn lemma_one_round(request: Seq<u8>, at: u64, byte: u8)
    ensures
        step(
            step(
                ExchangeView::Write { bytes: request, expect: ExpectView::Status },
                EventView::Written { at },
            ),
            EventView::Received(seq![byte]),
        ) == ExchangeView::Done(ReplyView::Status(reply_status(byte))),
        step(
            step(
                ExchangeView::Write { bytes: request, expect: ExpectView::Shown },
                EventView::Written { at },
            ),
            EventView::Received(seq![byte]),
        ) == ExchangeView::Done(ReplyView::Status(reply_status(byte))),
        shown_at(
            ExchangeView::Write { bytes: request, expect: ExpectView::Shown },
            EventView::Written { at },
        ) == Some(at),
        shown_at(
            ExchangeView::Write { bytes: request, expect: ExpectView::Status },
            EventView::Written { at },
        ) is None,
{
}

/// An update of single pixels has two rounds, and only `Next` opens the
/// second: on `Next` the frame that was held back is written and its
/// status awaited; any other byte ends the command with its status, and
/// the frame is never written.
pub proof fn lemma_ready_reply(frame: Seq<u8>, byte: u8)
    ensures
        byte == 101 ==> step(
            ExchangeView::Read { expect: ExpectView::Ready(frame) },
            EventView::Received(seq![byte]),
        ) == (ExchangeView::Write { bytes: frame, expect: ExpectView::Status }),
        byte != 101 ==> step(
            ExchangeView::Read { expect: ExpectView::Ready(frame) },
            EventView::Received(seq![byte]),
        ) == ExchangeView::Done(ReplyView::Status(reply_status(byte))),
{
}

impl Expect {
    /// How many bytes the awaited reply has.
    pub fn reply_len(&self) -> (len: usize)
        ensures
            len == reply_len(self@),
    {
        match self {
            Expect::Status => 1,
            Expect::Shown => 1,
            Expect::Ready(_) => 1,
            Expect::Identifier => 3,
            Expect::MagicNumbers => 5,
        }
    }

    /// How a command ends when the link fails while this reply is awaited.
    pub fn failure(&self) -> (reply: Reply)
        ensures
            reply@ == failure(self@),
    {
        match self {
            Expect::Identifier => Reply::Identifier(StatusCode::ErrorInternal, 0),
            Expect::MagicNumbers => {
                let zeros: [u8; 5] = [0u8, 0u8, 0u8, 0u8, 0u8];
                assert(zeros@ =~= seq![0u8, 0u8, 0u8, 0u8, 0u8]);
                Reply::MagicNumbers(zeros)
            },
            _ => Reply::Status(StatusCode::ErrorInternal),
        }
    }

    /// What follows from a reply of the awaited length.
    pub fn answer(self, bytes: &Vec<u8>) -> (next: Exchange)
        requires
            bytes@.len() == reply_len(self@),
        ensures
            next@ == answer(self@, bytes@),
    {
        match self {
            Expect::Status => Exchange::Done(Reply::Status(status_of_reply(bytes[0]))),
            Expect::Shown => Exchange::Done(Reply::Status(status_of_reply(bytes[0]))),
            Expect::Ready(frame) => {
                let status = status_of_reply(bytes[0]);
                if bytes[0] == 101 {
                    Exchange::Write { bytes: frame, expect: Expect::Status }
                } else {
                    Exchange::Done(Reply::Status(status))
                }
            },
            Expect::Identifier => {
                if bytes[0] != bytes[1] {
                    Exchange::Done(Reply::Identifier(StatusCode::NonMatchingCRC, 0))
                } else {
                    match StatusCode::new(bytes[2]) {
                        Some(status) => Exchange::Done(Reply::Identifier(status, bytes[0])),
                        None => Exchange::Done(Reply::Identifier(StatusCode::ErrorInternal, 0)),
                    }
                }
            },
            Expect::MagicNumbers => {
                let magic: [u8; 5] = [bytes[0], bytes[1], bytes[2], bytes[3], bytes[4]];
                assert(magic@ =~= bytes@);
                Exchange::Done(Reply::MagicNumbers(magic))
            },
        }
    }
}

/// Reads the status byte of a reply.
pub fn status_of_reply(byte: u8) -> (status: StatusCode)
    ensures
        status == reply_status(byte),
{
    match StatusCode::new(byte) {
        Some(status) => status,
        None => StatusCode::ErrorInternal,
    }
}

/// Decides what to do about an awaited reply of `wanted` bytes, given how
/// many bytes the link says have arrived, when the wait began and what time
/// it is.
pub fn read_step(buffered: u32, wanted: usize, started: u64, now: u64) -> (decision: ReadStep)
    ensures
        decision == read_decision(buffered as int, wanted as int, started, now),
{
    if buffered as u128 >= wanted as u128 {
        ReadStep::Take
    } else if now >= started && now - started > READ_BUDGET_MS {
        ReadStep::GiveUp
    } else {
        ReadStep::Wait
    }
}

} // verus!
