//! Declarations of the outside types that the engine's structs hold, so that
//! they may stand in signatures and fields. The values are opaque: nothing
//! is assumed of what is inside them.

use vstd::prelude::*;

verus! {

/// The sending half of a `flume` channel, held by the engine's own sender
/// types.
#[verifier::external_type_specification]
#[verifier::external_body]
#[verifier::reject_recursive_types(T)]
pub struct ExFlumeSender<T>(flume::Sender<T>);

/// The receiving half of a `flume` channel, held by the engine's own
/// receiver types.
#[verifier::external_type_specification]
#[verifier::external_body]
#[verifier::reject_recursive_types(T)]
pub struct ExFlumeReceiver<T>(flume::Receiver<T>);

/// The ordered hash map of the `indexmap` crate, held by the job-graph
/// generator.
#[verifier::external_type_specification]
#[verifier::external_body]
#[verifier::reject_recursive_types(K)]
#[verifier::reject_recursive_types(V)]
#[verifier::reject_recursive_types(S)]
pub struct ExIndexMap<K, V, S>(indexmap::IndexMap<K, V, S>);

/// Relies on `flume::Sender::clone`: another handle to the same queue. The
/// handles are opaque, so nothing is claimed of the value.
pub assume_specification<T>[ <flume::Sender<T> as core::clone::Clone>::clone ](
    s: &flume::Sender<T>,
) -> flume::Sender<T>;

} // verus!
