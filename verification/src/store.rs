//! The operations of a key-value store, and the record of what it was asked
//! and what it answered.
use crate::error::Fault;
use vstd::prelude::*;

verus! {

/// One request to a store, with its arguments.
pub enum Call {
    Has { key: Seq<u8> },
    Get { key: Seq<u8> },
    Put { key: Seq<u8>, value: Seq<u8> },
    Delete { key: Seq<u8> },
    Close,
    HealthCheck,
    NewIterator,
    NewIteratorWithStart { start: Seq<u8> },
    NewIteratorWithPrefix { prefix: Seq<u8> },
    NewIteratorWithStartAndPrefix { start: Seq<u8>, prefix: Seq<u8> },
}

/// One request to a store together with the store's answer to it. `I` is the
/// store's iterator, `E` its failure.
#[allow(inconsistent_fields)]
pub enum Exchange<I, E> {
    Has { key: Seq<u8>, answer: Result<bool, E> },
    Get { key: Seq<u8>, answer: Result<Vec<u8>, E> },
    Put { key: Seq<u8>, value: Seq<u8>, answer: Result<(), E> },
    Delete { key: Seq<u8>, answer: Result<(), E> },
    Close { answer: Result<(), E> },
    HealthCheck { answer: Result<Vec<u8>, E> },
    NewIterator { answer: Result<I, E> },
    NewIteratorWithStart { start: Seq<u8>, answer: Result<I, E> },
    NewIteratorWithPrefix { prefix: Seq<u8>, answer: Result<I, E> },
    NewIteratorWithStartAndPrefix { start: Seq<u8>, prefix: Seq<u8>, answer: Result<I, E> },
}

impl<I, E> Exchange<I, E> {
    /// The request of this exchange.
    pub open spec fn call(self) -> Call {
        match self {
            Exchange::Has { key, .. } => Call::Has { key },
            Exchange::Get { key, .. } => Call::Get { key },
            Exchange::Put { key, value, .. } => Call::Put { key, value },
            Exchange::Delete { key, .. } => Call::Delete { key },
            Exchange::Close { .. } => Call::Close,
            Exchange::HealthCheck { .. } => Call::HealthCheck,
            Exchange::NewIterator { .. } => Call::NewIterator,
            Exchange::NewIteratorWithStart { start, .. } => Call::NewIteratorWithStart { start },
            Exchange::NewIteratorWithPrefix { prefix, .. } => Call::NewIteratorWithPrefix {
                prefix,
            },
            Exchange::NewIteratorWithStartAndPrefix {
                start,
                prefix,
                ..
            } => Call::NewIteratorWithStartAndPrefix { start, prefix },
        }
    }
}

/// A key-value store: lookup, update, removal, shutdown, health check, and
/// iterators over its entries. Every operation can fail.
///
/// `history` is the record of the store's past: each request it has received
/// with the answer it gave, oldest first. An operation adds its own exchange
/// to the record and changes nothing else in it. What the operation answers
/// is left to the store.
pub trait Store {
    /// How the store's operations fail.
    type Error: Fault;

    /// An iterator over the store's entries.
    type Iter;

    /// The requests received so far with their answers, oldest first.
    spec fn history(&self) -> Seq<Exchange<Self::Iter, Self::Error>>;

    /// Whether `key` has a value.
    fn has(&mut self, key: &[u8]) -> (answer: Result<bool, Self::Error>)
        ensures
            final(self).history() == old(self).history().push(Exchange::Has { key: key@, answer }),
    ;

    /// The value of `key`.
    fn get(&mut self, key: &[u8]) -> (answer: Result<Vec<u8>, Self::Error>)
        ensures
            final(self).history() == old(self).history().push(Exchange::Get { key: key@, answer }),
    ;

    /// Gives `key` the value `value`.
    fn put(&mut self, key: &[u8], value: &[u8]) -> (answer: Result<(), Self::Error>)
        ensures
            final(self).history() == old(self).history().push(
                Exchange::Put { key: key@, value: value@, answer },
            ),
    ;

    /// Removes `key` and its value.
    fn delete(&mut self, key: &[u8]) -> (answer: Result<(), Self::Error>)
        ensures
            final(self).history() == old(self).history().push(
                Exchange::Delete { key: key@, answer },
            ),
    ;

    /// Shuts the store down.
    fn close(&mut self) -> (answer: Result<(), Self::Error>)
        ensures
            final(self).history() == old(self).history().push(Exchange::Close { answer }),
    ;

    /// Reports on the store's health.
    fn health_check(&mut self) -> (answer: Result<Vec<u8>, Self::Error>)
        ensures
            final(self).history() == old(self).history().push(Exchange::HealthCheck { answer }),
    ;

    /// An iterator over all entries.
    fn new_iterator(&mut self) -> (answer: Result<Self::Iter, Self::Error>)
        ensures
            final(self).history() == old(self).history().push(Exchange::NewIterator { answer }),
    ;

    /// An iterator over the entries from `start` on.
    fn new_iterator_with_start(&mut self, start: &[u8]) -> (answer: Result<
        Self::Iter,
        Self::Error,
    >)
        ensures
            final(self).history() == old(self).history().push(
                Exchange::NewIteratorWithStart { start: start@, answer },
            ),
    ;

    /// An iterator over the entries whose key begins with `prefix`.
    fn new_iterator_with_prefix(&mut self, prefix: &[u8]) -> (answer: Result<
        Self::Iter,
        Self::Error,
    >)
        ensures
            final(self).history() == old(self).history().push(
                Exchange::NewIteratorWithPrefix { prefix: prefix@, answer },
            ),
    ;

    /// An iterator over the entries from `start` on whose key begins with
    /// `prefix`.
    fn new_iterator_with_start_and_prefix(&mut self, start: &[u8], prefix: &[u8]) -> (answer:
        Result<Self::Iter, Self::Error>)
        ensures
            final(self).history() == old(self).history().push(
                Exchange::NewIteratorWithStartAndPrefix { start: start@, prefix: prefix@, answer },
            ),
    ;
}

/// The requests that `store` has received so far, oldest first.
pub open spec fn calls<S: Store>(store: S) -> Seq<Call> {
    store.history().map_values(|exchange: Exchange<S::Iter, S::Error>| exchange.call())
}

/// One more exchange, one more request: the requests of a history that grew
/// by `exchange` are the earlier ones and the request of `exchange`.
pub proof fn lemma_calls_after_exchange<S: Store>(
    before: S,
    exchange: Exchange<S::Iter, S::Error>,
    after: S,
)
    requires
        after.history() == before.history().push(exchange),
    ensures
        calls(after) == calls(before).push(exchange.call()),
{
    assert(calls(after) =~= calls(before).push(exchange.call()));
}

} // verus!
