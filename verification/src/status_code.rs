//! The outcome of a protocol operation, and its encoding as one byte.

use vstd::prelude::*;

verus! {

/// What a tile, or this library on its behalf, reports of an operation.
#[derive(Debug, Clone, Copy, PartialEq, Eq, Structural)]
pub enum StatusCode {
    Error,
    TooSlow,
    NonMatchingCRC,
    UnknownCommand,
    ErrorInternal,
    NotACompatiblePort,
    Okay,
    Next,
    Reset,
}

impl StatusCode {
    /// The status that a byte on the wire stands for, if any.
    pub open spec fn decode(code: u8) -> Option<StatusCode> {
        if code == 0 {
            Some(StatusCode::Error)
        } else if code == 1 {
            Some(StatusCode::TooSlow)
        } else if code == 2 {
            Some(StatusCode::NonMatchingCRC)
        } else if code == 3 {
            Some(StatusCode::UnknownCommand)
        } else if code == 50 {
            Some(StatusCode::ErrorInternal)
        } else if code == 51 {
            Some(StatusCode::NotACompatiblePort)
        } else if code == 100 {
            Some(StatusCode::Okay)
        } else if code == 101 {
            Some(StatusCode::Next)
        } else if code == 255 {
            Some(StatusCode::Reset)
        } else {
            None
        }
    }

    /// The byte that stands for a status on the wire.
    pub open spec fn encode(self) -> u8 {
        match self {
            StatusCode::Error => 0,
            StatusCode::TooSlow => 1,
            StatusCode::NonMatchingCRC => 2,
            StatusCode::UnknownCommand => 3,
            StatusCode::ErrorInternal => 50,
            StatusCode::NotACompatiblePort => 51,
            StatusCode::Okay => 100,
            StatusCode::Next => 101,
            StatusCode::Reset => 255,
        }
    }

    /// The name of a status, followed by its byte in brackets.
    pub open spec fn label(self) -> Seq<char> {
        match self {
            StatusCode::Error => "StatusCode::Error (0)"@,
            StatusCode::TooSlow => "StatusCode::TooSlow (1)"@,
            StatusCode::NonMatchingCRC => "StatusCode::NonMatchingCRC (2)"@,
            StatusCode::UnknownCommand => "StatusCode::UnknownCommand (3)"@,
            StatusCode::ErrorInternal => "StatusCode::ErrorInternal (50)"@,
            StatusCode::NotACompatiblePort => "StatusCode::NotACompatiblePort (51)"@,
            StatusCode::Okay => "StatusCode::Okay (100)"@,
            StatusCode::Next => "StatusCode::Next (101)"@,
            StatusCode::Reset => "StatusCode::Reset (255)"@,
        }
    }

    /// Reads a status byte. Bytes outside the encoding give `None`.
    pub fn new(code: u8) -> (status: Option<StatusCode>)
        ensures
            status == StatusCode::decode(code),
    {
        match code {
            0 => Some(StatusCode::Error),
            1 => Some(StatusCode::TooSlow),
            2 => Some(StatusCode::NonMatchingCRC),
            3 => Some(StatusCode::UnknownCommand),
            50 => Some(StatusCode::ErrorInternal),
            51 => Some(StatusCode::NotACompatiblePort),
            100 => Some(StatusCode::Okay),
            101 => Some(StatusCode::Next),
            255 => Some(StatusCode::Reset),
            _ => None,
        }
    }

    /// The byte that is sent for this status.
    pub fn as_u8(&self) -> (code: u8)
        ensures
            code == self.encode(),
    {
        match self {
            StatusCode::Error => 0,
            StatusCode::TooSlow => 1,
            StatusCode::NonMatchingCRC => 2,
            StatusCode::UnknownCommand => 3,
            StatusCode::ErrorInternal => 50,
            StatusCode::NotACompatiblePort => 51,
            StatusCode::Okay => 100,
            StatusCode::Next => 101,
            StatusCode::Reset => 255,
        }
    }

    /// The status in words: its name, followed by its byte in brackets.
    pub fn to_string(&self) -> (text: String)
        ensures
            text@ == self.label(),
    {
        match self {
            StatusCode::Error => "StatusCode::Error (0)".to_owned(),
            StatusCode::TooSlow => "StatusCode::TooSlow (1)".to_owned(),
            StatusCode::NonMatchingCRC => "StatusCode::NonMatchingCRC (2)".to_owned(),
            StatusCode::UnknownCommand => "StatusCode::UnknownCommand (3)".to_owned(),
            StatusCode::ErrorInternal => "StatusCode::ErrorInternal (50)".to_owned(),
            StatusCode::NotACompatiblePort => "StatusCode::NotACompatiblePort (51)".to_owned(),
            StatusCode::Okay => "StatusCode::Okay (100)".to_owned(),
            StatusCode::Next => "StatusCode::Next (101)".to_owned(),
            StatusCode::Reset => "StatusCode::Reset (255)".to_owned(),
        }
    }
}

/// Every status is read back from the byte that is sent for it.
pub proof fn lemma_decode_encode(status: StatusCode)
    ensures
        StatusCode::decode(status.encode()) == Some(status),
{
}

/// A byte that stands for a status is the one sent for that status, so no
/// two bytes stand for the same status.
pub proof fn lemma_encode_decode(code: u8)
    requires
        StatusCode::decode(code) is Some,
    ensures
        StatusCode::decode(code)->0.encode() == code,
{
}

} // verus!
