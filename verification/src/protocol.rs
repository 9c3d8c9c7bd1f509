//! The protocol descriptor: the supported protocol revisions and, for each
//! revision, the numeric command and status code tables and the shape of the
//! streamed game payload.
//!
//! The two revisions are not wire-compatible: they differ in a command code,
//! in which status codes exist, and in how a game dump is framed. Everything
//! revision-dependent is looked up here, so the rest of the crate has a
//! single code path.

use vstd::prelude::*;

verus! {

/// A protocol revision, selected at connect time. `V1` is the current
/// revision (wire version number 1); `V0` is the earlier one (wire version
/// number 0).
#[derive(Copy, Clone, Debug, PartialEq, Eq, Structural)]
pub enum Revision {
    V0,
    V1,
}

/// An operation code the client can send.
#[derive(Copy, Clone, Debug, PartialEq, Eq, Structural)]
pub enum Command {
    Disconnect,
    ExitProgram,
    Shutdown,
    EjectDisc,
    GetDiscInfo,
    DumpBca,
    DumpGame,
}

/// A result code the server can answer with. Codes outside the closed set of
/// a revision decode to `Unrecognized` with the raw value, never to an error
/// or an unchecked cast.
#[derive(Copy, Clone, Debug, PartialEq, Eq, Structural)]
pub enum Status {
    ProtocolError,
    NoDisc,
    CouldNotEject,
    UnknownDiscType,
    Okay,
    DiscInfo,
    Bca,
    Game,
    Unrecognized(u32),
}

/// How a revision frames the streamed game payload: one up-front total
/// length, or self-framed chunks.
#[derive(Copy, Clone, Debug, PartialEq, Eq, Structural)]
pub enum TransferMode {
    SingleLength,
    Chunked,
}

/// The wire version number of a revision, sent and checked in every frame.
pub open spec fn spec_version_number(rev: Revision) -> u32 {
    match rev {
        Revision::V0 => 0,
        Revision::V1 => 1,
    }
}

/// The numeric code of a command under a revision, or `None` where the
/// revision has no such command (`ExitProgram` exists only in `V1`).
pub open spec fn spec_command_code(rev: Revision, c: Command) -> Option<u32> {
    match c {
        Command::Disconnect => Some(0xFFFF_FFFFu32),
        Command::ExitProgram => match rev {
            Revision::V0 => None,
            Revision::V1 => Some(0xFFFF_FFFEu32),
        },
        Command::Shutdown => match rev {
            Revision::V0 => Some(0xFFFF_FFFEu32),
            Revision::V1 => Some(0xFFFF_FFFDu32),
        },
        Command::EjectDisc => Some(1u32),
        Command::GetDiscInfo => Some(2u32),
        Command::DumpBca => Some(3u32),
        Command::DumpGame => Some(4u32),
    }
}

/// The command a numeric code stands for under a revision, or `None` for a
/// code that is no command there.
pub open spec fn spec_decode_command(rev: Revision, code: u32) -> Option<Command> {
    if code == 0xFFFF_FFFFu32 {
        Some(Command::Disconnect)
    } else if code == 0xFFFF_FFFEu32 {
        match rev {
            Revision::V0 => Some(Command::Shutdown),
            Revision::V1 => Some(Command::ExitProgram),
        }
    } else if code == 0xFFFF_FFFDu32 {
        match rev {
            Revision::V0 => None,
            Revision::V1 => Some(Command::Shutdown),
        }
    } else if code == 1u32 {
        Some(Command::EjectDisc)
    } else if code == 2u32 {
        Some(Command::GetDiscInfo)
    } else if code == 3u32 {
        Some(Command::DumpBca)
    } else if code == 4u32 {
        Some(Command::DumpGame)
    } else {
        None
    }
}

/// The status a numeric code stands for under a revision. Total: every code
/// maps to some variant, unknown ones to `Unrecognized`.
pub open spec fn spec_status_of_code(rev: Revision, code: u32) -> Status {
    if code == 0xFFFF_FFFFu32 {
        Status::ProtocolError
    } else if code == 0xFFFF_FFFEu32 {
        Status::NoDisc
    } else if code == 0xFFFF_FFFDu32 && rev is V1 {
        Status::CouldNotEject
    } else if code == 0xFFFF_FFFCu32 && rev is V1 {
        Status::UnknownDiscType
    } else if code == 0u32 {
        Status::Okay
    } else if code == 1u32 {
        Status::DiscInfo
    } else if code == 2u32 {
        Status::Bca
    } else if code == 3u32 {
        Status::Game
    } else {
        Status::Unrecognized(code)
    }
}

/// How the given revision frames a streamed game payload.
pub open spec fn spec_transfer_mode(rev: Revision) -> TransferMode {
    match rev {
        Revision::V0 => TransferMode::Chunked,
        Revision::V1 => TransferMode::SingleLength,
    }
}

/// The wire version number of a revision.
pub fn version_number(rev: Revision) -> (v: u32)
    ensures
        v == spec_version_number(rev),
{
    match rev {
        Revision::V0 => 0,
        Revision::V1 => 1,
    }
}

/// The numeric code of a command under a revision.
pub fn command_code(rev: Revision, c: Command) -> (code: Option<u32>)
    ensures
        code == spec_command_code(rev, c),
{
    match c {
        Command::Disconnect => Some(0xFFFF_FFFF),
        Command::ExitProgram => match rev {
            Revision::V0 => None,
            Revision::V1 => Some(0xFFFF_FFFE),
        },
        Command::Shutdown => match rev {
            Revision::V0 => Some(0xFFFF_FFFE),
            Revision::V1 => Some(0xFFFF_FFFD),
        },
        Command::EjectDisc => Some(1),
        Command::GetDiscInfo => Some(2),
        Command::DumpBca => Some(3),
        Command::DumpGame => Some(4),
    }
}

/// The command a numeric code stands for under a revision.
pub fn decode_command(rev: Revision, code: u32) -> (c: Option<Command>)
    ensures
        c == spec_decode_command(rev, code),
{
    if code == 0xFFFF_FFFF {
        Some(Command::Disconnect)
    } else if code == 0xFFFF_FFFE {
        match rev {
            Revision::V0 => Some(Command::Shutdown),
            Revision::V1 => Some(Command::ExitProgram),
        }
    } else if code == 0xFFFF_FFFD {
        match rev {
            Revision::V0 => None,
            Revision::V1 => Some(Command::Shutdown),
        }
    } else if code == 1 {
        Some(Command::EjectDisc)
    } else if code == 2 {
        Some(Command::GetDiscInfo)
    } else if code == 3 {
        Some(Command::DumpBca)
    } else if code == 4 {
        Some(Command::DumpGame)
    } else {
        None
    }
}

/// The status a numeric code stands for under a revision.
pub fn decode_status(rev: Revision, code: u32) -> (s: Status)
    ensures
        s == spec_status_of_code(rev, code),
{
    if code == 0xFFFF_FFFF {
        Status::ProtocolError
    } else if code == 0xFFFF_FFFE {
        Status::NoDisc
    } else if code == 0xFFFF_FFFD && matches!(rev, Revision::V1) {
        Status::CouldNotEject
    } else if code == 0xFFFF_FFFC && matches!(rev, Revision::V1) {
        Status::UnknownDiscType
    } else if code == 0 {
        Status::Okay
    } else if code == 1 {
        Status::DiscInfo
    } else if code == 2 {
        Status::Bca
    } else if code == 3 {
        Status::Game
    } else {
        Status::Unrecognized(code)
    }
}

/// How the given revision frames a streamed game payload.
pub fn transfer_mode(rev: Revision) -> (m: TransferMode)
    ensures
        m == spec_transfer_mode(rev),
{
    match rev {
        Revision::V0 => TransferMode::Chunked,
        Revision::V1 => TransferMode::SingleLength,
    }
}

/// Command encoding then decoding under the same revision returns the
/// original command: the code tables of each revision are mutually inverse
/// on the commands that revision has.
pub proof fn lemma_command_code_round_trip(rev: Revision, c: Command)
    requires
        spec_command_code(rev, c) is Some,
    ensures
        spec_decode_command(rev, spec_command_code(rev, c)->Some_0) == Some(c),
{
}

} // verus!
