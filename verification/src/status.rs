//! Replies to status queries. A query is answered with a fixed number of
//! bytes, which are read as text or tested against a bit mask.

use vstd::prelude::*;
use vstd::utf8::{decode_utf8, encode_utf8, encode_utf8_decode_utf8, valid_utf8};
use crate::consts::{
    QUERY_CUT_COUNT, QUERY_OFFLINE_STATUS, QUERY_PAPER_SENSOR, QUERY_POWER_COUNT,
    QUERY_PRINTED_LENGTH, QUERY_REMAINING_PAPER, QUERY_ROM_VERSION, QUERY_SERIAL,
};
use crate::error::PrinterError;

verus! {

/// `core::str::Utf8Error`, the error of `core::str::from_utf8`. Nothing is
/// read of it.
#[verifier::external_type_specification]
#[verifier::external_body]
pub struct ExUtf8Error(core::str::Utf8Error);

/// `core::str::from_utf8` succeeds exactly on well-formed UTF-8, and the
/// string it returns is made of the bytes it was given.
pub assume_specification<'a>[ core::str::from_utf8 ](v: &'a [u8]) -> (r: Result<
    &'a str,
    core::str::Utf8Error,
>)
    ensures
        r is Ok <==> valid_utf8(v@),
        r matches Ok(s) ==> encode_utf8(s@) == v@,
;

/// A status query.
#[derive(Clone, Copy, Debug, PartialEq, Eq, Structural)]
pub enum Query {
    Serial,
    CutCount,
    RomVersion,
    PowerCount,
    PrintedLength,
    RemainingPaper,
    PaperSensor,
    OfflineStatus,
}

impl Query {
    /// The command that asks.
    pub open spec fn command_bytes(self) -> Seq<u8> {
        match self {
            Query::Serial => QUERY_SERIAL@,
            Query::CutCount => QUERY_CUT_COUNT@,
            Query::RomVersion => QUERY_ROM_VERSION@,
            Query::PowerCount => QUERY_POWER_COUNT@,
            Query::PrintedLength => QUERY_PRINTED_LENGTH@,
            Query::RemainingPaper => QUERY_REMAINING_PAPER@,
            Query::PaperSensor => QUERY_PAPER_SENSOR@,
            Query::OfflineStatus => QUERY_OFFLINE_STATUS@,
        }
    }

    /// The size of the receive buffer in bytes.
    pub open spec fn reply_size(self) -> nat {
        match self {
            Query::Serial | Query::CutCount => 16,
            Query::RomVersion => 4,
            Query::PowerCount | Query::PrintedLength | Query::RemainingPaper => 8,
            Query::PaperSensor | Query::OfflineStatus => 1,
        }
    }

    /// The command that asks.
    pub fn command(self) -> (cmd: Vec<u8>)
        ensures
            cmd@ == self.command_bytes(),
    {
        let mut cmd: Vec<u8> = Vec::new();
        match self {
            Query::Serial => cmd.extend_from_slice(&QUERY_SERIAL),
            Query::CutCount => cmd.extend_from_slice(&QUERY_CUT_COUNT),
            Query::RomVersion => cmd.extend_from_slice(&QUERY_ROM_VERSION),
            Query::PowerCount => cmd.extend_from_slice(&QUERY_POWER_COUNT),
            Query::PrintedLength => cmd.extend_from_slice(&QUERY_PRINTED_LENGTH),
            Query::RemainingPaper => cmd.extend_from_slice(&QUERY_REMAINING_PAPER),
            Query::PaperSensor => cmd.extend_from_slice(&QUERY_PAPER_SENSOR),
            Query::OfflineStatus => cmd.extend_from_slice(&QUERY_OFFLINE_STATUS),
        }
        cmd
    }

    /// The size of the receive buffer in bytes.
    pub fn reply_len(self) -> (n: usize)
        ensures
            n == self.reply_size(),
    {
        match self {
            Query::Serial | Query::CutCount => 16,
            Query::RomVersion => 4,
            Query::PowerCount | Query::PrintedLength | Query::RemainingPaper => 8,
            Query::PaperSensor | Query::OfflineStatus => 1,
        }
    }
}

/// The receive buffer after a read: `size` bytes, which are the first bytes
/// of the reply followed by zeros where the reply is shorter.
pub open spec fn reply_buffer(reply: Seq<u8>, size: nat) -> Seq<u8> {
    Seq::new(size, |i: int| if i < reply.len() { reply[i] } else { 0u8 })
}

/// The receive buffer after a read of `reply`.
pub fn fill_buffer(reply: &[u8], size: usize) -> (buffer: Vec<u8>)
    ensures
        buffer@ == reply_buffer(reply@, size as nat),
{
    let mut buffer: Vec<u8> = Vec::new();
    let mut i: usize = 0;
    while i < size
        invariant
            i <= size,
            buffer@ == reply_buffer(reply@, i as nat),
        decreases size - i,
    {
        let b: u8 = if i < reply.len() { reply[i] } else { 0 };
        buffer.push(b);
        i += 1;
    }
    buffer
}

/// A buffer read as text: its characters where it is well-formed UTF-8, a
/// decoding error where it is not.
pub open spec fn buffer_text(buffer: Seq<u8>) -> Result<Seq<char>, PrinterError> {
    if valid_utf8(buffer) {
        Ok(decode_utf8(buffer))
    } else {
        Err(PrinterError::Decoding)
    }
}

/// Whether `r` is the text, or the error, that `expected` gives.
pub open spec fn is_text(r: Result<String, PrinterError>, expected: Result<
    Seq<char>,
    PrinterError,
>) -> bool {
    match r {
        Ok(s) => expected == Ok::<Seq<char>, PrinterError>(s@),
        Err(e) => expected == Err::<Seq<char>, PrinterError>(e),
    }
}

/// A buffer read as text.
pub fn decode_text(buffer: &[u8]) -> (r: Result<String, PrinterError>)
    ensures
        is_text(r, buffer_text(buffer@)),
{
    match core::str::from_utf8(buffer) {
        Ok(s) => {
            proof {
                encode_utf8_decode_utf8(s@);
            }
            Ok(s.to_owned())
        },
        Err(_) => Err(PrinterError::Decoding),
    }
}

/// The paper sensor reports paper with a zero byte.
pub open spec fn paper_present(status: u8) -> bool {
    status == 0
}

/// Bit 2 of the off-line status byte is set while the cover is open.
pub open spec fn cover_open(status: u8) -> bool {
    status & 0x04 != 0
}

/// The label of an off-line status byte.
pub open spec fn status_label(status: u8) -> Seq<char> {
    if cover_open(status) {
        "Cover open"@
    } else {
        "No Errors"@
    }
}

/// The label of an off-line status byte.
pub fn describe_status(status: u8) -> (label: String)
    ensures
        label@ == status_label(status),
{
    if status & 0x04 != 0 {
        "Cover open".to_owned()
    } else {
        "No Errors".to_owned()
    }
}

/// The text that answers a query: the receive buffer, read as text.
pub fn text_reply(query: Query, reply: &[u8]) -> (r: Result<String, PrinterError>)
    ensures
        is_text(r, buffer_text(reply_buffer(reply@, query.reply_size()))),
{
    let buffer = fill_buffer(reply, query.reply_len());
    decode_text(buffer.as_slice())
}

/// Whether the paper sensor's answer reports paper.
pub fn paper_reply(reply: &[u8]) -> (loaded: bool)
    ensures
        loaded == paper_present(reply_buffer(reply@, 1)[0]),
{
    let buffer = fill_buffer(reply, Query::PaperSensor.reply_len());
    buffer[0] == 0x00
}

/// The label of the off-line status that was answered.
pub fn status_reply(reply: &[u8]) -> (label: String)
    ensures
        label@ == status_label(reply_buffer(reply@, 1)[0]),
{
    let buffer = fill_buffer(reply, Query::OfflineStatus.reply_len());
    describe_status(buffer[0])
}

} // verus!
