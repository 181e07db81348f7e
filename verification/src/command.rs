//! Command frames: the three requests the transducer understands.

use crate::sample::SAMPLE_LEN;
use vstd::prelude::*;

verus! {

/// Length in bytes of every command frame.
pub const FRAME_LEN: usize = 20;

/// A request to the transducer.
#[derive(Clone, Copy, Debug, PartialEq, Eq)]
pub enum Command {
    /// Ask for the calibration record.
    ReadCalibrationInfo,
    /// Ask for one force/torque sample.
    ReadForce,
    /// Zero the sensor: the present load becomes the bias.
    ResetForce,
}

/// What the transport reads back once a request has been written.
#[derive(Clone, Copy, Debug, PartialEq, Eq)]
pub enum Reply {
    /// Nothing is read: the command is fire-and-forget.
    Nothing,
    /// Whatever a single read returns, handed on undecoded.
    Raw,
    /// A force/torque sample frame: reads are repeated until sixteen bytes
    /// have arrived or the stream ends.
    Sample,
}

/// One operation as the transport carries it out: write `request`, flush,
/// then read what `reply` says.
#[derive(Clone, Copy, Debug, PartialEq, Eq)]
pub struct Exchange {
    pub request: [u8; FRAME_LEN],
    pub reply: Reply,
}

impl Reply {
    /// Whether the transport reads from the stream at all.
    pub open spec fn is_read_spec(self) -> bool {
        self != Reply::Nothing
    }

    /// The number of bytes that must have arrived before reading stops.
    pub open spec fn min_len(self) -> nat {
        match self {
            Reply::Nothing => 0,
            Reply::Raw => 0,
            Reply::Sample => SAMPLE_LEN as nat,
        }
    }

    /// Tells whether the transport reads from the stream at all.
    pub fn is_read(self) -> (read: bool)
        ensures
            read == self.is_read_spec(),
    {
        match self {
            Reply::Nothing => false,
            Reply::Raw => true,
            Reply::Sample => true,
        }
    }

    /// Tells, after a read that returned `last_read` bytes and brought the
    /// total to `received`, whether the transport reads again. It does while
    /// the reply is short of its length and the stream has not ended: a read
    /// of no bytes is the end of the stream.
    pub fn reads_again(self, last_read: usize, received: usize) -> (again: bool)
        ensures
            again == (last_read > 0 && received < self.min_len()),
    {
        match self {
            Reply::Nothing => false,
            Reply::Raw => false,
            Reply::Sample => last_read > 0 && received < SAMPLE_LEN,
        }
    }
}

impl Command {
    /// The bytes of this command on the wire.
    ///
    /// The two read commands carry their discriminator in the first byte
    /// (0 for force/torque, 1 for calibration info); the reset command
    /// carries a 1 in the last byte. All other bytes are zero.
    pub open spec fn frame(self) -> Seq<u8> {
        match self {
            Command::ReadCalibrationInfo => Seq::new(
                20,
                |i: int|
                    if i == 0 {
                        1u8
                    } else {
                        0u8
                    },
            ),
            Command::ReadForce => Seq::new(20, |i: int| 0u8),
            Command::ResetForce => Seq::new(
                20,
                |i: int|
                    if i == 19 {
                        1u8
                    } else {
                        0u8
                    },
            ),
        }
    }

    /// The reply that follows this command.
    pub open spec fn reply_spec(self) -> Reply {
        match self {
            Command::ReadCalibrationInfo => Reply::Raw,
            Command::ReadForce => Reply::Sample,
            Command::ResetForce => Reply::Nothing,
        }
    }

    /// Builds the command frame.
    pub fn encode(self) -> (frame: [u8; FRAME_LEN])
        ensures
            frame@ == self.frame(),
    {
        let frame: [u8; FRAME_LEN] = match self {
            Command::ReadCalibrationInfo => [
                1, 0, 0, 0, 0, 0, 0, 0, 0, 0, 0, 0, 0, 0, 0, 0, 0, 0, 0, 0,
            ],
            Command::ReadForce => [0, 0, 0, 0, 0, 0, 0, 0, 0, 0, 0, 0, 0, 0, 0, 0, 0, 0, 0, 0],
            Command::ResetForce => [0, 0, 0, 0, 0, 0, 0, 0, 0, 0, 0, 0, 0, 0, 0, 0, 0, 0, 0, 1],
        };
        assert(frame@ =~= self.frame());
        frame
    }

    /// Says what is read back after this command has been written.
    pub fn reply(self) -> (reply: Reply)
        ensures
            reply == self.reply_spec(),
    {
        match self {
            Command::ReadCalibrationInfo => Reply::Raw,
            Command::ReadForce => Reply::Sample,
            Command::ResetForce => Reply::Nothing,
        }
    }

    /// Plans the exchange for this command.
    pub fn exchange(self) -> (exchange: Exchange)
        ensures
            exchange.request@ == self.frame(),
            exchange.reply == self.reply_spec(),
    {
        Exchange { request: self.encode(), reply: self.reply() }
    }
}

/// The reset command is the one command after which nothing is read; after
/// either read command the transport reads, and a sample is awaited in full
/// after the read-force command alone.
pub proof fn lemma_only_reset_reads_nothing(command: Command)
    ensures
        !command.reply_spec().is_read_spec() <==> command == Command::ResetForce,
        command.reply_spec().min_len() == (if command == Command::ReadForce {
            16nat
        } else {
            0nat
        }),
{
}

/// Every frame is twenty bytes long, and no two commands share a frame: the
/// bytes on the wire say which command was meant.
pub proof fn lemma_frames_distinct(a: Command, b: Command)
    ensures
        a.frame().len() == FRAME_LEN,
        a.frame() == b.frame() <==> a == b,
{
    if a != b {
        assert(a.frame()[0] != b.frame()[0] || a.frame()[19] != b.frame()[19]);
    }
}

} // verus!
