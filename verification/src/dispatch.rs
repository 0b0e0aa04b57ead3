//! Trusted view of the dispatch queue: tokio's unbounded multi-producer
//! single-consumer channel carrying `(module id, process id)` spawn requests.
//! The consumer half is handed to the embedder, whose scheduler loop dequeues
//! requests and launches one runner task per request.

use vstd::prelude::*;

verus! {

#[verifier::external_type_specification]
#[verifier::external_body]
#[verifier::reject_recursive_types(T)]
pub struct ExUnboundedSender<T>(tokio::sync::mpsc::UnboundedSender<T>);

#[verifier::external_type_specification]
#[verifier::external_body]
#[verifier::reject_recursive_types(T)]
pub struct ExUnboundedReceiver<T>(tokio::sync::mpsc::UnboundedReceiver<T>);

/// Relies on tokio::sync::mpsc::unbounded_channel: creates a connected
/// producer/consumer pair; messages sent on the producer are delivered to the
/// consumer in the order any one producer sent them.
#[verifier::external_body]
pub(crate) fn request_channel() -> (r: (
    tokio::sync::mpsc::UnboundedSender<(u64, u64)>,
    tokio::sync::mpsc::UnboundedReceiver<(u64, u64)>,
)) {
    tokio::sync::mpsc::unbounded_channel()
}

/// Relies on tokio UnboundedSender::send: never blocks, queues the message
/// and returns Ok while the consumer half is open, and returns the error
/// exactly when the consumer has been dropped or closed.
#[verifier::external_body]
pub(crate) fn send_request(
    s: &tokio::sync::mpsc::UnboundedSender<(u64, u64)>,
    module_id: u64,
    process_id: u64,
) -> (r: Result<(), ()>) {
    match s.send((module_id, process_id)) {
        Ok(()) => Ok(()),
        Err(_) => Err(()),
    }
}

} // verus!
