//! Inherent-data providers: what every authored block is injected with.

use vstd::prelude::*;
use crate::sealing::BlockHash;

verus! {

/// The synthetic relay-chain height offset used by the dev-mode mock.
pub const RELAY_OFFSET: u32 = 1000;

/// How many synthetic relay-chain blocks pass per parachain block in the
/// dev-mode mock.
pub const RELAY_BLOCKS_PER_PARA_BLOCK: u32 = 2;

/// The author identity carried into authored blocks, kept as an opaque
/// identifier standing for the session public key.
#[derive(Clone, Copy, PartialEq, Eq, Debug)]
pub struct AuthorId(pub u64);

/// A timestamp inherent drawn from the system clock at authoring time.
#[derive(Clone, Copy, PartialEq, Eq, Debug)]
pub struct SystemTimestamp;

/// The mocked parachain inherent used in dev mode, where no relay chain
/// exists: the synthetic relay-chain height advances deterministically with
/// the parachain height.
#[derive(Clone, Copy, PartialEq, Eq, Debug)]
pub struct MockParachainInherent {
    pub current_para_block: u32,
    pub relay_offset: u32,
    pub relay_blocks_per_para_block: u32,
}

/// The synthetic relay-chain height a mock reports: the offset plus the
/// per-parachain-block advance times the parachain height.
pub open spec fn synthetic_relay_height(m: MockParachainInherent) -> int {
    m.relay_offset + m.relay_blocks_per_para_block * m.current_para_block
}

impl MockParachainInherent {
    /// The synthetic relay-chain height this mock reports for its parachain
    /// height.
    pub fn relay_height(&self) -> (r: u64)
        ensures
            r == synthetic_relay_height(*self),
    {
        let advance = self.relay_blocks_per_para_block as u64;
        let height = self.current_para_block as u64;
        proof {
            assert(advance * height <= 0xFFFF_FFFFu64 * 0xFFFF_FFFFu64) by (nonlinear_arith)
                requires
                    advance <= 0xFFFF_FFFFu64,
                    height <= 0xFFFF_FFFFu64,
            ;
        }
        (self.relay_offset as u64) + advance * height
    }
}

/// The synthetic relay-chain height advances deterministically with the
/// parachain height: one more parachain block moves it by exactly the
/// per-parachain-block advance.
pub proof fn lemma_synthetic_relay_height_step(m: MockParachainInherent, next: MockParachainInherent)
    requires
        next.relay_offset == m.relay_offset,
        next.relay_blocks_per_para_block == m.relay_blocks_per_para_block,
        next.current_para_block == m.current_para_block + 1,
    ensures
        synthetic_relay_height(next) == synthetic_relay_height(m) + m.relay_blocks_per_para_block,
{
    assert(m.relay_blocks_per_para_block * (m.current_para_block + 1) == m.relay_blocks_per_para_block
        * m.current_para_block + m.relay_blocks_per_para_block) by (nonlinear_arith);
}

/// A real parachain inherent, created from relay-chain state at a relay
/// parent (collator mode only).
#[derive(Clone, Copy, PartialEq, Eq, Debug)]
pub struct ParachainInherent {
    pub relay_parent: BlockHash,
}

/// The inherent triple each dev-mode authoring round receives.
#[derive(Clone, Copy, PartialEq, Eq, Debug)]
pub struct DevInherentDataProviders {
    pub timestamp: SystemTimestamp,
    pub mock: MockParachainInherent,
    pub author: AuthorId,
}

/// The inherent triple each collator authoring round receives.
#[derive(Clone, Copy, PartialEq, Eq, Debug)]
pub struct CollatorInherentDataProviders {
    pub timestamp: SystemTimestamp,
    pub parachain: ParachainInherent,
    pub author: AuthorId,
}

/// A failure while assembling a round's inherents; it skips the round, it
/// does not bring the node down.
#[derive(Clone, Copy, PartialEq, Eq, Debug)]
pub enum InherentError {
    /// The parachain inherent could not be created from relay-chain state.
    ParachainInherentUnavailable,
}

impl InherentError {
    /// The descriptive text of this failure.
    pub fn message(&self) -> (r: &str)
        ensures
            r@ == "Failed to create parachain inherent"@,
    {
        match self {
            InherentError::ParachainInherentUnavailable => "Failed to create parachain inherent",
        }
    }
}

/// Assembles the dev-mode inherents for an authoring round whose parent
/// block has height `current_para_block`: a system-time timestamp, the
/// mocked parachain inherent at that height, and the configured author.
///
/// The parent height is looked up from the client by the caller; a failed
/// lookup there is an invariant violation of the host framework and never
/// reaches this function.
pub fn dev_inherent_data_providers(current_para_block: u32, author_id: AuthorId) -> (r:
    DevInherentDataProviders)
    ensures
        r.mock.current_para_block == current_para_block,
        r.mock.relay_offset == RELAY_OFFSET,
        r.mock.relay_blocks_per_para_block == RELAY_BLOCKS_PER_PARA_BLOCK,
        r.author == author_id,
{
    DevInherentDataProviders {
        timestamp: SystemTimestamp,
        mock: MockParachainInherent {
            current_para_block,
            relay_offset: RELAY_OFFSET,
            relay_blocks_per_para_block: RELAY_BLOCKS_PER_PARA_BLOCK,
        },
        author: author_id,
    }
}

/// Assembles the collator inherents for an authoring round from whatever
/// the relay-chain-backed creation handed back: the round proceeds exactly
/// when a parachain inherent was created, and is skipped otherwise.
pub fn collator_inherent_data_providers(
    parachain_inherent: Option<ParachainInherent>,
    author_id: AuthorId,
) -> (r: Result<CollatorInherentDataProviders, InherentError>)
    ensures
        r is Ok <==> parachain_inherent is Some,
        r matches Ok(p) ==> parachain_inherent matches Some(pi) && p.parachain == pi && p.author
            == author_id,
        r matches Err(e) ==> e is ParachainInherentUnavailable,
{
    match parachain_inherent {
        Some(pi) => Ok(
            CollatorInherentDataProviders {
                timestamp: SystemTimestamp,
                parachain: pi,
                author: author_id,
            },
        ),
        None => Err(InherentError::ParachainInherentUnavailable),
    }
}

} // verus!
