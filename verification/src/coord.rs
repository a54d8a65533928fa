//! Identifiers of blocks, hosts and replicas, and the coordinates built from
//! them that name a running operator chain and its inboxes.

use vstd::prelude::*;

verus! {

/// The integer type used for all the coordinate components.
pub type CoordUInt = u64;

/// The identifier of a block of the job graph, unique within one job.
pub type BlockId = CoordUInt;

/// The identifier of a host, a 0-based index into the host list.
pub type HostId = CoordUInt;

/// The identifier of a replica of a block, a 0-based index within the block.
pub type ReplicaId = CoordUInt;

/// The identity of a running replica: which block it belongs to, on which
/// host it runs and which of the block's replicas it is.
#[derive(Clone, Copy, PartialEq, Eq, Hash, Debug, Structural)]
pub struct Coord {
    /// The block this replica belongs to.
    pub block_id: BlockId,
    /// The host this replica runs on.
    pub host_id: HostId,
    /// The index of this replica among the replicas of the block.
    pub replica_id: ReplicaId,
}

impl Coord {
    /// Build the coordinate of a replica.
    pub fn new(block_id: BlockId, host_id: HostId, replica_id: ReplicaId) -> (r: Coord)
        ensures
            r.block_id == block_id,
            r.host_id == host_id,
            r.replica_id == replica_id,
    {
        Coord { block_id, host_id, replica_id }
    }
}

/// The address of an inbox: a downstream replica owns one endpoint per
/// distinct upstream block, so the pair (destination, source block) names a
/// single queue of messages.
#[derive(Clone, Copy, PartialEq, Eq, Hash, Debug, Structural)]
pub struct ReceiverEndpoint {
    /// The replica that owns the inbox.
    pub coord: Coord,
    /// The upstream block whose replicas feed this inbox.
    pub prev_block_id: BlockId,
}

impl ReceiverEndpoint {
    /// Build the endpoint of the inbox that `coord` owns for the upstream
    /// block `prev_block_id`.
    pub fn new(coord: Coord, prev_block_id: BlockId) -> (r: ReceiverEndpoint)
        ensures
            r.coord == coord,
            r.prev_block_id == prev_block_id,
    {
        ReceiverEndpoint { coord, prev_block_id }
    }
}

} // verus!
