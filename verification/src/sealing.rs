//! Dev-mode sealing policy and the command stream it induces.

use vstd::prelude::*;

verus! {

/// A block hash, kept as an opaque identifier.
#[derive(Clone, Copy, PartialEq, Eq, Debug)]
pub struct BlockHash(pub u64);

/// The dev-mode sealing policy chosen by the operator.
#[derive(Clone, Copy, PartialEq, Eq, Debug)]
pub enum Sealing {
    /// One block per transaction-pool import; empty blocks are suppressed.
    Instant,
    /// One block per period, in milliseconds; empty blocks are produced.
    Interval(u64),
}

/// One seal-new-block command, as the manual-seal loop consumes it.
#[derive(Clone, Copy, PartialEq, Eq, Debug)]
pub struct SealCommand {
    /// Whether a block is produced even with an empty transaction pool.
    pub create_empty: bool,
    /// Whether the new block is finalized on the spot.
    pub finalize: bool,
    /// A forced parent; the chain head is used when absent.
    pub parent_hash: Option<BlockHash>,
    /// Whether a reply channel is attached to the command.
    pub reply_channel: bool,
}

/// What drives the command stream.
#[derive(Clone, Copy, PartialEq, Eq, Debug)]
pub enum StreamSource {
    /// Demand-driven: one element per transaction-pool import notification.
    PoolImportNotifications,
    /// Time-driven: one element per tick of a wall-clock timer.
    Timer { period_millis: u64 },
}

/// The lazy, possibly infinite stream of seal commands: its source and the
/// one command every element carries.
#[derive(Clone, Copy, PartialEq, Eq, Debug)]
pub struct CommandsStream {
    pub source: StreamSource,
    pub command: SealCommand,
}

/// The command each sealing policy emits: never finalizing, never forcing a
/// parent, never carrying a reply channel, and creating empty blocks exactly
/// under interval sealing.
pub open spec fn seal_command_of(sealing: Sealing) -> SealCommand {
    SealCommand {
        create_empty: sealing is Interval,
        finalize: false,
        parent_hash: None,
        reply_channel: false,
    }
}

/// The command stream each sealing policy induces: demand-driven for instant
/// sealing, time-driven with the configured period for interval sealing.
pub open spec fn commands_stream_of(sealing: Sealing) -> CommandsStream {
    CommandsStream {
        source: match sealing {
            Sealing::Instant => StreamSource::PoolImportNotifications,
            Sealing::Interval(millis) => StreamSource::Timer { period_millis: millis },
        },
        command: seal_command_of(sealing),
    }
}

/// Builds the seal command for `sealing`.
pub fn seal_command(sealing: &Sealing) -> (r: SealCommand)
    ensures
        r == seal_command_of(*sealing),
{
    SealCommand {
        create_empty: matches!(sealing, Sealing::Interval(_)),
        finalize: false,
        parent_hash: None,
        reply_channel: false,
    }
}

/// Builds the command stream for `sealing`.
pub fn commands_stream(sealing: &Sealing) -> (r: CommandsStream)
    ensures
        r == commands_stream_of(*sealing),
{
    let source = match sealing {
        Sealing::Instant => StreamSource::PoolImportNotifications,
        Sealing::Interval(millis) => StreamSource::Timer { period_millis: *millis },
    };
    CommandsStream { source, command: seal_command(sealing) }
}

} // verus!
