//! The recorded structure of every block of a job graph, kept for
//! introspection, and the computation of the inter-block edges that a
//! rendering of the graph draws.

use vstd::prelude::*;
use indexmap::IndexMap;
use crate::coord::BlockId;
use crate::routing::ConnectionStrategy;

verus! {

/// The name of the element type flowing on an edge, as text.
pub type DataType = String;

/// What an operator of a block is, for rendering purposes.
#[derive(Clone, Copy, Debug, PartialEq, Eq, Structural)]
pub enum OperatorKind {
    /// An ordinary operator.
    Operator,
    /// A sink, the end of the graph.
    Sink,
    /// A source, the start of the graph.
    Source,
}

/// An inbox an operator owns: the block it receives from, and the type of
/// what arrives.
#[derive(Clone, Debug)]
pub struct OperatorReceiver {
    /// The upstream block this receiver listens to.
    pub previous_block_id: BlockId,
    /// The type of the elements received.
    pub data_type: DataType,
}

/// An outgoing connection of an operator to a downstream block.
#[derive(Clone, Debug)]
pub struct Connection {
    /// The block the elements go to.
    pub to_block_id: BlockId,
    /// The type of the elements sent.
    pub data_type: DataType,
    /// How elements are routed over this edge.
    pub strategy: ConnectionStrategy,
}

/// One operator of a block, as recorded for introspection.
#[derive(Clone, Debug)]
pub struct OperatorStructure {
    /// The operator's name.
    pub title: String,
    /// A line of detail under the name.
    pub subtitle: String,
    /// Whether this is a source, a sink or an ordinary operator.
    pub kind: OperatorKind,
    /// The type of the elements the operator produces.
    pub out_type: DataType,
    /// The inboxes the operator owns.
    pub receivers: Vec<OperatorReceiver>,
    /// The outgoing connections of the operator.
    pub connections: Vec<Connection>,
}

/// The recorded structure of one block: its operators in chain order.
#[derive(Clone, Debug)]
pub struct BlockStructure {
    /// The operators of the block, first to last.
    pub operators: Vec<OperatorStructure>,
}

/// An inter-block edge of the rendered graph, from one operator node to the
/// operator node that receives from it.
#[derive(Clone, Debug)]
pub struct GraphEdge {
    /// The block the edge leaves.
    pub from_block: BlockId,
    /// The position, in its block, of the operator the edge leaves.
    pub from_index: usize,
    /// The block the edge enters.
    pub to_block: BlockId,
    /// The position, in its block, of the operator the edge enters.
    pub to_index: usize,
    /// The type of the elements on the edge.
    pub data_type: DataType,
    /// How elements are routed over the edge.
    pub strategy: ConnectionStrategy,
}

/// What the registered blocks name the entries of the generator's map.
pub uninterp spec fn block_map_entries(m: &IndexMap<BlockId, BlockStructure>) -> Seq<
    (BlockId, BlockStructure),
>;

/// Whether some entry of the sequence carries the key.
pub open spec fn entries_contain_key(s: Seq<(BlockId, BlockStructure)>, key: BlockId) -> bool {
    exists|i: int| 0 <= i < s.len() && s[i].0 == key
}

/// The position of the entry carrying the key.
pub open spec fn entries_key_index(s: Seq<(BlockId, BlockStructure)>, key: BlockId) -> int {
    choose|i: int| 0 <= i < s.len() && s[i].0 == key
}

/// Whether the entries are in ascending key order.
pub open spec fn sorted_by_key(s: Seq<(BlockId, BlockStructure)>) -> bool {
    forall|i: int, j: int| 0 <= i < j < s.len() ==> s[i].0 <= s[j].0
}

/// Relies on `indexmap::IndexMap::default`: the fresh map is empty.
#[verifier::external_body]
fn block_map_new() -> (m: IndexMap<BlockId, BlockStructure>)
    ensures
        block_map_entries(&m) == Seq::<(BlockId, BlockStructure)>::empty(),
{
    IndexMap::default()
}

/// Relies on `indexmap::IndexMap::insert`: a key already present keeps its
/// position and gets the new value; a new key is appended last, in
/// insertion order.
#[verifier::external_body]
fn block_map_insert(m: &mut IndexMap<BlockId, BlockStructure>, key: BlockId, value: BlockStructure)
    ensures
        entries_contain_key(block_map_entries(old(m)), key) ==> block_map_entries(final(m))
            == block_map_entries(old(m)).update(
            entries_key_index(block_map_entries(old(m)), key),
            (key, value),
        ),
        !entries_contain_key(block_map_entries(old(m)), key) ==> block_map_entries(final(m))
            == block_map_entries(old(m)).push((key, value)),
{
    m.insert(key, value);
}

/// Relies on `indexmap::IndexMap::len`: the number of entries.
#[verifier::external_body]
fn block_map_len(m: &IndexMap<BlockId, BlockStructure>) -> (r: usize)
    ensures
        r == block_map_entries(m).len(),
{
    m.len()
}

/// Relies on `indexmap::IndexMap::get_index`: the entry at a position, in
/// the map's order.
#[verifier::external_body]
fn block_map_get_index(m: &IndexMap<BlockId, BlockStructure>, index: usize) -> (r: Option<
    (BlockId, BlockStructure),
>)
    ensures
        index < block_map_entries(m).len() ==> r == Some(block_map_entries(m)[index as int]),
        index >= block_map_entries(m).len() ==> r is None,
{
    m.get_index(index).map(|(k, v)| (*k, v.clone()))
}

/// Relies on `indexmap::IndexMap::sort_keys`: afterwards the entries stand
/// in ascending key order; none appears or disappears.
#[verifier::external_body]
fn block_map_sort_keys(m: &mut IndexMap<BlockId, BlockStructure>)
    ensures
        block_map_entries(final(m)).to_multiset() == block_map_entries(old(m)).to_multiset(),
        block_map_entries(final(m)).len() == block_map_entries(old(m)).len(),
        sorted_by_key(block_map_entries(final(m))),
{
    m.sort_keys();
}

/// Tracks the recorded structure of every block of a job graph, in order of
/// registration, for rendering the graph once the job is built.
pub struct JobGraphGenerator {
    /// The known blocks, indexed by block id.
    blocks: IndexMap<BlockId, BlockStructure>,
}

impl JobGraphGenerator {
    /// The registered blocks, in the map's order.
    pub closed spec fn entries(&self) -> Seq<(BlockId, BlockStructure)> {
        block_map_entries(&self.blocks)
    }

    /// A generator with no blocks registered.
    pub fn new() -> (r: JobGraphGenerator)
        ensures
            r.entries() == Seq::<(BlockId, BlockStructure)>::empty(),
    {
        JobGraphGenerator { blocks: block_map_new() }
    }

    /// Register a block. A block registered under the same id before keeps
    /// its position and gets the new structure; a new id is appended last.
    pub fn add_block(&mut self, block_id: BlockId, structure: BlockStructure)
        ensures
            entries_contain_key(old(self).entries(), block_id) ==> final(self).entries() == old(
                self,
            ).entries().update(
                entries_key_index(old(self).entries(), block_id),
                (block_id, structure),
            ),
            !entries_contain_key(old(self).entries(), block_id) ==> final(self).entries() == old(
                self,
            ).entries().push((block_id, structure)),
    {
        block_map_insert(&mut self.blocks, block_id, structure);
    }

    /// Close the generator: every registered block, in ascending id order.
    /// The rendering of the nodes and edges into text is the embedding
    /// binary's work.
    pub fn finalize(self) -> (r: Vec<(BlockId, BlockStructure)>)
        ensures
            r@.to_multiset() == self.entries().to_multiset(),
            r@.len() == self.entries().len(),
            sorted_by_key(r@),
    {
        let mut blocks = self.blocks;
        block_map_sort_keys(&mut blocks);
        let n = block_map_len(&blocks);
        let mut r: Vec<(BlockId, BlockStructure)> = Vec::new();
        let mut i: usize = 0;
        while i < n
            invariant
                n == block_map_entries(&blocks).len(),
                i <= n,
                r@ == block_map_entries(&blocks).take(i as int),
                block_map_entries(&blocks).to_multiset() == self.entries().to_multiset(),
                block_map_entries(&blocks).len() == self.entries().len(),
                sorted_by_key(block_map_entries(&blocks)),
            decreases n - i,
        {
            let entry = block_map_get_index(&blocks, i).unwrap();
            proof {
                assert(block_map_entries(&blocks).take(i + 1 as int) =~= block_map_entries(
                    &blocks,
                ).take(i as int).push(block_map_entries(&blocks)[i as int]));
            }
            r.push(entry);
            i += 1;
        }
        proof {
            assert(block_map_entries(&blocks).take(n as int) =~= block_map_entries(&blocks));
        }
        r
    }
}

/// Whether, in `blocks`, the block at position `bi` has id `to` and its
/// operator at position `oi` declares its receiver at position `rj` as
/// listening to the block `from`.
pub open spec fn receiver_entry_at(
    blocks: Seq<(BlockId, BlockStructure)>,
    from: BlockId,
    to: BlockId,
    bi: int,
    oi: int,
    rj: int,
) -> bool {
    &&& 0 <= bi < blocks.len()
    &&& blocks[bi].0 == to
    &&& 0 <= oi < blocks[bi].1.operators@.len()
    &&& 0 <= rj < blocks[bi].1.operators@[oi].receivers@.len()
    &&& blocks[bi].1.operators@[oi].receivers@[rj].previous_block_id == from
}

/// Whether some operator of the block `to` declares a receiver listening to
/// the block `from`.
pub open spec fn some_receiver_declared(
    blocks: Seq<(BlockId, BlockStructure)>,
    from: BlockId,
    to: BlockId,
) -> bool {
    exists|bi: int, oi: int, rj: int| receiver_entry_at(blocks, from, to, bi, oi, rj)
}

/// Whether the operator at position `oi` of the block `to` declares a
/// receiver listening to `from` whose elements have the type named `dt`.
pub open spec fn receiver_declared(
    blocks: Seq<(BlockId, BlockStructure)>,
    from: BlockId,
    to: BlockId,
    oi: int,
    dt: Seq<char>,
) -> bool {
    exists|bi: int, rj: int|
        receiver_entry_at(blocks, from, to, bi, oi, rj)
            && blocks[bi].1.operators@[oi].receivers@[rj].data_type@ == dt
}

/// Find, among the blocks, the operator of block `to` that receives from
/// block `from`: the position of that operator in its block and the type of
/// what it receives. `None` exactly when no operator of `to` declares such
/// a receiver.
pub fn resolve_receiver(
    blocks: &Vec<(BlockId, BlockStructure)>,
    from: BlockId,
    to: BlockId,
) -> (r: Option<(usize, DataType)>)
    ensures
        r matches Some(p) ==> receiver_declared(blocks@, from, to, p.0 as int, p.1@),
        r is None <==> !some_receiver_declared(blocks@, from, to),
{
    let mut bi: usize = 0;
    while bi < blocks.len()
        invariant
            bi <= blocks@.len(),
            forall|b: int, o: int, j: int|
                receiver_entry_at(blocks@, from, to, b, o, j) ==> b >= bi,
        decreases blocks@.len() - bi,
    {
        let entry = &blocks[bi];
        if entry.0 == to {
            let ops = &entry.1.operators;
            let mut oi: usize = 0;
            while oi < ops.len()
                invariant
                    bi < blocks@.len(),
                    ops == &blocks@[bi as int].1.operators,
                    blocks@[bi as int].0 == to,
                    oi <= ops@.len(),
                    forall|o: int, j: int|
                        receiver_entry_at(blocks@, from, to, bi as int, o, j) ==> o >= oi,
                decreases ops@.len() - oi,
            {
                let recs = &ops[oi].receivers;
                let mut rj: usize = 0;
                while rj < recs.len()
                    invariant
                        bi < blocks@.len(),
                        ops == &blocks@[bi as int].1.operators,
                        blocks@[bi as int].0 == to,
                        oi < ops@.len(),
                        recs == &blocks@[bi as int].1.operators@[oi as int].receivers,
                        rj <= recs@.len(),
                        forall|j: int|
                            receiver_entry_at(blocks@, from, to, bi as int, oi as int, j) ==> j
                                >= rj,
                    decreases recs@.len() - rj,
                {
                    if recs[rj].previous_block_id == from {
                        let dt = recs[rj].data_type.clone();
                        proof {
                            assert(receiver_entry_at(
                                blocks@,
                                from,
                                to,
                                bi as int,
                                oi as int,
                                rj as int,
                            ));
                        }
                        return Some((oi, dt));
                    }
                    rj += 1;
                }
                oi += 1;
            }
        }
        bi += 1;
    }
    None
}

/// Whether the edge `e` renders, with a correct receiver resolution, the
/// connection at position `ci` of the operator at position `oi` of the
/// block at position `bi`: the edge leaves that operator towards the block
/// the connection names, with its strategy; it enters the operator that
/// declared a matching receiver, or the block's first operator when none
/// did.
pub open spec fn edge_at(
    blocks: Seq<(BlockId, BlockStructure)>,
    e: GraphEdge,
    bi: int,
    oi: int,
    ci: int,
) -> bool {
    &&& 0 <= bi < blocks.len()
    &&& 0 <= oi < blocks[bi].1.operators@.len()
    &&& 0 <= ci < blocks[bi].1.operators@[oi].connections@.len()
    &&& e.from_block == blocks[bi].0
    &&& e.from_index == oi
    &&& e.to_block == blocks[bi].1.operators@[oi].connections@[ci].to_block_id
    &&& e.strategy == blocks[bi].1.operators@[oi].connections@[ci].strategy
    &&& (receiver_declared(blocks, e.from_block, e.to_block, e.to_index as int, e.data_type@) || (
    !some_receiver_declared(blocks, e.from_block, e.to_block) && e.to_index == 0 && e.data_type@
        == blocks[bi].1.operators@[oi].connections@[ci].data_type@))
}

/// Whether some connection of some block justifies the edge `e`.
pub open spec fn edge_justified(blocks: Seq<(BlockId, BlockStructure)>, e: GraphEdge) -> bool {
    exists|bi: int, oi: int, ci: int| edge_at(blocks, e, bi, oi, ci)
}

/// Whether `(b, o, c)` indexes a declared connection: block position `b`,
/// operator position `o` in it, connection position `c` of that operator.
pub open spec fn connection_index(
    blocks: Seq<(BlockId, BlockStructure)>,
    b: int,
    o: int,
    c: int,
) -> bool {
    &&& 0 <= b < blocks.len()
    &&& 0 <= o < blocks[b].1.operators@.len()
    &&& 0 <= c < blocks[b].1.operators@[o].connections@.len()
}

/// How many outgoing connections the operators declare, in all.
pub open spec fn operator_connection_count(ops: Seq<OperatorStructure>) -> int
    decreases ops.len(),
{
    if ops.len() == 0 {
        0
    } else {
        operator_connection_count(ops.drop_last()) + ops.last().connections@.len()
    }
}

/// How many outgoing connections the blocks declare, in all.
pub open spec fn total_connection_count(blocks: Seq<(BlockId, BlockStructure)>) -> int
    decreases blocks.len(),
{
    if blocks.len() == 0 {
        0
    } else {
        total_connection_count(blocks.drop_last()) + operator_connection_count(
            blocks.last().1.operators@,
        )
    }
}

/// Compute every inter-block edge of the rendered graph: one per declared
/// connection, each entering the operator that declared a matching
/// receiver, or the target block's first operator when none did.
pub fn connection_edges(blocks: &Vec<(BlockId, BlockStructure)>) -> (r: Vec<GraphEdge>)
    ensures
        r@.len() == total_connection_count(blocks@),
        forall|k: int| 0 <= k < r@.len() ==> edge_justified(blocks@, r@[k]),
        forall|b: int, o: int, c: int|
            connection_index(blocks@, b, o, c) ==> exists|k: int|
                0 <= k < r@.len() && edge_at(blocks@, r@[k], b, o, c),
{
    let mut r: Vec<GraphEdge> = Vec::new();
    let mut bi: usize = 0;
    while bi < blocks.len()
        invariant
            bi <= blocks@.len(),
            r@.len() == total_connection_count(blocks@.take(bi as int)),
            forall|k: int| 0 <= k < r@.len() ==> edge_justified(blocks@, r@[k]),
            forall|b: int, o: int, c: int|
                (connection_index(blocks@, b, o, c) && b < bi) ==> exists|k: int|
                    0 <= k < r@.len() && edge_at(blocks@, r@[k], b, o, c),
        decreases blocks@.len() - bi,
    {
        let entry = &blocks[bi];
        let ops = &entry.1.operators;
        let mut oi: usize = 0;
        while oi < ops.len()
            invariant
                bi < blocks@.len(),
                entry == &blocks@[bi as int],
                ops == &blocks@[bi as int].1.operators,
                oi <= ops@.len(),
                r@.len() == total_connection_count(blocks@.take(bi as int))
                    + operator_connection_count(ops@.take(oi as int)),
                forall|k: int| 0 <= k < r@.len() ==> edge_justified(blocks@, r@[k]),
                forall|b: int, o: int, c: int|
                    (connection_index(blocks@, b, o, c) && b < bi) ==> exists|k: int|
                        0 <= k < r@.len() && edge_at(blocks@, r@[k], b, o, c),
                forall|o: int, c: int|
                    (connection_index(blocks@, bi as int, o, c) && o < oi) ==> exists|k: int|
                        0 <= k < r@.len() && edge_at(blocks@, r@[k], bi as int, o, c),
            decreases ops@.len() - oi,
        {
            let conns = &ops[oi].connections;
            let mut ci: usize = 0;
            while ci < conns.len()
                invariant
                    bi < blocks@.len(),
                    entry == &blocks@[bi as int],
                    ops == &blocks@[bi as int].1.operators,
                    oi < ops@.len(),
                    conns == &blocks@[bi as int].1.operators@[oi as int].connections,
                    ci <= conns@.len(),
                    r@.len() == total_connection_count(blocks@.take(bi as int))
                        + operator_connection_count(ops@.take(oi as int)) + ci,
                    forall|k: int| 0 <= k < r@.len() ==> edge_justified(blocks@, r@[k]),
                    forall|b: int, o: int, c: int|
                        (connection_index(blocks@, b, o, c) && b < bi) ==> exists|k: int|
                            0 <= k < r@.len() && edge_at(blocks@, r@[k], b, o, c),
                    forall|o: int, c: int|
                        (connection_index(blocks@, bi as int, o, c) && o < oi) ==> exists|k: int|
                            0 <= k < r@.len() && edge_at(blocks@, r@[k], bi as int, o, c),
                    forall|c: int|
                        (connection_index(blocks@, bi as int, oi as int, c) && c < ci) ==> exists|k: int|
                            0 <= k < r@.len() && edge_at(blocks@, r@[k], bi as int, oi as int, c),
                decreases conns@.len() - ci,
            {
                let conn = &conns[ci];
                let edge = match resolve_receiver(blocks, entry.0, conn.to_block_id) {
                    Some((to_index, data_type)) => GraphEdge {
                        from_block: entry.0,
                        from_index: oi,
                        to_block: conn.to_block_id,
                        to_index,
                        data_type,
                        strategy: conn.strategy,
                    },
                    None => GraphEdge {
                        from_block: entry.0,
                        from_index: oi,
                        to_block: conn.to_block_id,
                        to_index: 0,
                        data_type: conn.data_type.clone(),
                        strategy: conn.strategy,
                    },
                };
                proof {
                    assert(edge_at(blocks@, edge, bi as int, oi as int, ci as int));
                }
                let ghost prev = r@;
                r.push(edge);
                proof {
                    assert forall|b: int, o: int, c: int|
                        (connection_index(blocks@, b, o, c) && b < bi) implies exists|k: int|
                        0 <= k < r@.len() && edge_at(blocks@, r@[k], b, o, c) by {
                        let k = choose|k: int|
                            0 <= k < prev.len() && edge_at(blocks@, prev[k], b, o, c);
                        assert(r@[k] == prev[k]);
                        assert(edge_at(blocks@, r@[k], b, o, c));
                    }
                    assert forall|o: int, c: int|
                        (connection_index(blocks@, bi as int, o, c) && o < oi) implies exists|
                        k: int,
                    |
                        0 <= k < r@.len() && edge_at(blocks@, r@[k], bi as int, o, c) by {
                        let k = choose|k: int|
                            0 <= k < prev.len() && edge_at(blocks@, prev[k], bi as int, o, c);
                        assert(r@[k] == prev[k]);
                        assert(edge_at(blocks@, r@[k], bi as int, o, c));
                    }
                    assert forall|c: int|
                        (connection_index(blocks@, bi as int, oi as int, c) && c < ci + 1) implies
                        exists|k: int|
                            0 <= k < r@.len() && edge_at(blocks@, r@[k], bi as int, oi as int, c)
                    by {
                        if c < ci {
                            let k = choose|k: int|
                                0 <= k < prev.len() && edge_at(
                                    blocks@,
                                    prev[k],
                                    bi as int,
                                    oi as int,
                                    c,
                                );
                            assert(r@[k] == prev[k]);
                            assert(edge_at(blocks@, r@[k], bi as int, oi as int, c));
                        } else {
                            assert(r@[prev.len() as int] == edge);
                            assert(edge_at(blocks@, r@[prev.len() as int], bi as int, oi as int, c));
                        }
                    }
                }
                ci += 1;
            }
            proof {
                assert(ops@.take(oi + 1 as int).drop_last() =~= ops@.take(oi as int));
                assert(conns@.take(conns@.len() as int) =~= conns@);
            }
            oi += 1;
        }
        proof {
            assert(blocks@.take(bi + 1 as int).drop_last() =~= blocks@.take(bi as int));
            assert(ops@.take(ops@.len() as int) =~= ops@);
        }
        bi += 1;
    }
    proof {
        assert(blocks@.take(blocks@.len() as int) =~= blocks@);
    }
    r
}

} // verus!
