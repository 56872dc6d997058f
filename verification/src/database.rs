//! The guard: a store around a store, with a latch between them.
use crate::error::{
    classify, classify_outcome, forward, forward_spec, rejection, reply, Error,
};
use crate::latch::{settle_has_spec, settle_spec, CorruptionState};
use crate::store::{calls, lemma_calls_after_exchange, Call, Exchange, Store};
use vstd::prelude::*;

verus! {

/// The request that a healthy guard hands to the wrapped store when it is
/// asked `request`.
///
/// A presence check becomes a lookup of the same key. The three shorter ways
/// to ask for an iterator become the full one, with the empty sequence for
/// each bound that was not given. Every other request is handed on as it is.
pub open spec fn forwarded(request: Call) -> Call {
    match request {
        Call::Has { key } => Call::Get { key },
        Call::NewIterator => Call::NewIteratorWithStartAndPrefix {
            start: Seq::empty(),
            prefix: Seq::empty(),
        },
        Call::NewIteratorWithStart { start } => Call::NewIteratorWithStartAndPrefix {
            start,
            prefix: Seq::empty(),
        },
        Call::NewIteratorWithPrefix { prefix } => Call::NewIteratorWithStartAndPrefix {
            start: Seq::empty(),
            prefix,
        },
        other => other,
    }
}

/// A store that blocks every further call at the first sign of corruption in
/// the store it wraps.
pub struct Database<S: Store> {
    db: S,
    latch: CorruptionState,
    record: Ghost<Seq<Exchange<S::Iter, Error<S::Error>>>>,
}

/// One operation on a guard, seen from outside: the guard `before` it, the
/// `request`, the guard `after` it, and the message in the result if the
/// result is [`Error::CorruptionLatched`].
///
/// On a corrupted guard the operation is rejected with the recorded message,
/// the latch keeps it, and the wrapped store is left as it was. On a healthy
/// guard the wrapped store receives exactly the forwarded request, and the
/// guard ends up corrupted exactly if the result is the rejection, with the
/// message in it.
pub open spec fn transition<S: Store>(
    before: Database<S>,
    request: Call,
    after: Database<S>,
    rejected: Option<Seq<char>>,
) -> bool {
    match before.state() {
        Some(first) => {
            &&& rejected == Some(first)
            &&& after.state() == Some(first)
            &&& after.inner() == before.inner()
        },
        None => {
            &&& after.state() == rejected
            &&& calls(after.inner()) == calls(before.inner()).push(forwarded(request))
        },
    }
}

impl<S: Store> Database<S> {
    /// The wrapped store.
    pub closed spec fn inner(&self) -> S {
        self.db
    }

    /// The latch: `None` while healthy, the recorded message once corrupted.
    pub closed spec fn state(&self) -> Option<Seq<char>> {
        self.latch@
    }

    /// Wraps `db` in a healthy guard that has not been asked anything yet.
    pub fn new(db: S) -> (guard: Self)
        ensures
            guard.inner() == db,
            guard.state() is None,
            guard.history() == Seq::<Exchange<S::Iter, Error<S::Error>>>::empty(),
    {
        Database { db, latch: CorruptionState::new(), record: Ghost(Seq::empty()) }
    }

    /// Whether the guard has latched.
    pub fn is_corrupted(&self) -> (corrupted: bool)
        ensures
            corrupted == (self.state() is Some),
    {
        self.latch.is_corrupted()
    }

    /// The message recorded when the guard latched, if it has.
    pub fn message(&self) -> (message: Option<String>)
        ensures
            message.deep_view() == self.state(),
    {
        self.latch.message()
    }

    /// Classifies the wrapped store's answer and settles it on the latch.
    fn judge<T>(&mut self, answer: Result<T, S::Error>) -> (result: Result<T, Error<S::Error>>)
        requires
            old(self).state() is None,
        ensures
            final(self).inner() == old(self).inner(),
            final(self).history() == old(self).history(),
            final(self).state() == rejection(result),
            reply(result) == settle_spec(None, classify_outcome(answer)),
    {
        let classified = match answer {
            Ok(value) => Ok(value),
            Err(e) => Err(classify(e)),
        };
        self.latch.settle(classified)
    }

    /// As `judge`, for the lookup behind a presence check.
    fn judge_has<T>(&mut self, answer: Result<T, S::Error>) -> (result: Result<
        bool,
        Error<S::Error>,
    >)
        requires
            old(self).state() is None,
        ensures
            final(self).inner() == old(self).inner(),
            final(self).history() == old(self).history(),
            final(self).state() == rejection(result),
            reply(result) == settle_has_spec(None, classify_outcome(answer)),
    {
        let classified = match answer {
            Ok(value) => Ok(value),
            Err(e) => Err(classify(e)),
        };
        self.latch.settle_has(classified)
    }

    /// Asks the latch first, then the wrapped store for its iterator between
    /// the two bounds. A failure of the wrapped store is handed on as it is:
    /// it is not classified and does not latch.
    fn open(&mut self, start: &[u8], prefix: &[u8]) -> (result: Result<S::Iter, Error<S::Error>>)
        ensures
            final(self).history() == old(self).history(),
            final(self).state() == old(self).state(),
            rejection(result) == old(self).state(),
            old(self).state() is Some ==> final(self).inner() == old(self).inner(),
            old(self).state() is None ==> calls(final(self).inner()) == calls(
                old(self).inner(),
            ).push(Call::NewIteratorWithStartAndPrefix { start: start@, prefix: prefix@ }),
            old(self).state() is None ==> (exists|answer: Result<S::Iter, S::Error>|
                final(self).inner().history() == old(self).inner().history().push(
                    Exchange::NewIteratorWithStartAndPrefix {
                        start: start@,
                        prefix: prefix@,
                        answer,
                    },
                ) && reply(result) == #[trigger] forward_spec(answer)),
    {
        let ghost before = *self;
        match self.latch.gate() {
            Err(e) => Err(e),
            Ok(()) => {
                let answer = self.db.new_iterator_with_start_and_prefix(start, prefix);
                proof {
                    lemma_calls_after_exchange(
                        before.db,
                        Exchange::NewIteratorWithStartAndPrefix {
                            start: start@,
                            prefix: prefix@,
                            answer,
                        },
                        self.db,
                    );
                }
                forward(answer)
            },
        }
    }
}

impl<S: Store> Store for Database<S> {
    type Error = Error<S::Error>;

    type Iter = S::Iter;

    /// The requests that the guard itself has received, rejected ones
    /// included, with what it answered.
    closed spec fn history(&self) -> Seq<Exchange<S::Iter, Error<S::Error>>> {
        self.record@
    }

    /// Whether `key` has a value in the wrapped store, found out by looking
    /// the value up. An absent key is no failure here: it means `false`.
    fn has(&mut self, key: &[u8]) -> (result: Result<bool, Error<S::Error>>)
        ensures
            transition(*old(self), Call::Has { key: key@ }, *final(self), rejection(result)),
            old(self).state() is None ==> (exists|answer: Result<Vec<u8>, S::Error>|
                final(self).inner().history() == old(self).inner().history().push(
                    Exchange::Get { key: key@, answer },
                ) && reply(result) == settle_has_spec(None, #[trigger] classify_outcome(answer))),
    {
        let ghost before = *self;
        let result = match self.latch.gate() {
            Err(e) => Err(e),
            Ok(()) => {
                let answer = self.db.get(key);
                proof {
                    lemma_calls_after_exchange(
                        before.db,
                        Exchange::Get { key: key@, answer },
                        self.db,
                    );
                }
                self.judge_has(answer)
            },
        };
        self.record = Ghost(self.record@.push(Exchange::Has { key: key@, answer: result }));
        result
    }

    /// The value of `key` in the wrapped store.
    fn get(&mut self, key: &[u8]) -> (result: Result<Vec<u8>, Error<S::Error>>)
        ensures
            transition(*old(self), Call::Get { key: key@ }, *final(self), rejection(result)),
            old(self).state() is None ==> (exists|answer: Result<Vec<u8>, S::Error>|
                final(self).inner().history() == old(self).inner().history().push(
                    Exchange::Get { key: key@, answer },
                ) && reply(result) == settle_spec(None, #[trigger] classify_outcome(answer))),
    {
        let ghost before = *self;
        let result = match self.latch.gate() {
            Err(e) => Err(e),
            Ok(()) => {
                let answer = self.db.get(key);
                proof {
                    lemma_calls_after_exchange(
                        before.db,
                        Exchange::Get { key: key@, answer },
                        self.db,
                    );
                }
                self.judge(answer)
            },
        };
        self.record = Ghost(self.record@.push(Exchange::Get { key: key@, answer: result }));
        result
    }

    /// Gives `key` the value `value` in the wrapped store.
    fn put(&mut self, key: &[u8], value: &[u8]) -> (result: Result<(), Error<S::Error>>)
        ensures
            transition(
                *old(self),
                Call::Put { key: key@, value: value@ },
                *final(self),
                rejection(result),
            ),
            old(self).state() is None ==> (exists|answer: Result<(), S::Error>|
                final(self).inner().history() == old(self).inner().history().push(
                    Exchange::Put { key: key@, value: value@, answer },
                ) && reply(result) == settle_spec(None, #[trigger] classify_outcome(answer))),
    {
        let ghost before = *self;
        let result = match self.latch.gate() {
            Err(e) => Err(e),
            Ok(()) => {
                let answer = self.db.put(key, value);
                proof {
                    lemma_calls_after_exchange(
                        before.db,
                        Exchange::Put { key: key@, value: value@, answer },
                        self.db,
                    );
                }
                self.judge(answer)
            },
        };
        self.record = Ghost(
            self.record@.push(Exchange::Put { key: key@, value: value@, answer: result }),
        );
        result
    }

    /// Removes `key` and its value from the wrapped store.
    fn delete(&mut self, key: &[u8]) -> (result: Result<(), Error<S::Error>>)
        ensures
            transition(*old(self), Call::Delete { key: key@ }, *final(self), rejection(result)),
            old(self).state() is None ==> (exists|answer: Result<(), S::Error>|
                final(self).inner().history() == old(self).inner().history().push(
                    Exchange::Delete { key: key@, answer },
                ) && reply(result) == settle_spec(None, #[trigger] classify_outcome(answer))),
    {
        let ghost before = *self;
        let result = match self.latch.gate() {
            Err(e) => Err(e),
            Ok(()) => {
                let answer = self.db.delete(key);
                proof {
                    lemma_calls_after_exchange(
                        before.db,
                        Exchange::Delete { key: key@, answer },
                        self.db,
                    );
                }
                self.judge(answer)
            },
        };
        self.record = Ghost(self.record@.push(Exchange::Delete { key: key@, answer: result }));
        result
    }

    /// Shuts the wrapped store down. A corrupted guard stays corrupted.
    fn close(&mut self) -> (result: Result<(), Error<S::Error>>)
        ensures
            transition(*old(self), Call::Close, *final(self), rejection(result)),
            old(self).state() is None ==> (exists|answer: Result<(), S::Error>|
                final(self).inner().history() == old(self).inner().history().push(
                    Exchange::Close { answer },
                ) && reply(result) == settle_spec(None, #[trigger] classify_outcome(answer))),
    {
        let ghost before = *self;
        let result = match self.latch.gate() {
            Err(e) => Err(e),
            Ok(()) => {
                let answer = self.db.close();
                proof {
                    lemma_calls_after_exchange(before.db, Exchange::Close { answer }, self.db);
                }
                self.judge(answer)
            },
        };
        self.record = Ghost(self.record@.push(Exchange::Close { answer: result }));
        result
    }

    /// The wrapped store's report on its health.
    fn health_check(&mut self) -> (result: Result<Vec<u8>, Error<S::Error>>)
        ensures
            transition(*old(self), Call::HealthCheck, *final(self), rejection(result)),
            old(self).state() is None ==> (exists|answer: Result<Vec<u8>, S::Error>|
                final(self).inner().history() == old(self).inner().history().push(
                    Exchange::HealthCheck { answer },
                ) && reply(result) == settle_spec(None, #[trigger] classify_outcome(answer))),
    {
        let ghost before = *self;
        let result = match self.latch.gate() {
            Err(e) => Err(e),
            Ok(()) => {
                let answer = self.db.health_check();
                proof {
                    lemma_calls_after_exchange(
                        before.db,
                        Exchange::HealthCheck { answer },
                        self.db,
                    );
                }
                self.judge(answer)
            },
        };
        self.record = Ghost(self.record@.push(Exchange::HealthCheck { answer: result }));
        result
    }

    /// An iterator over all entries of the wrapped store.
    fn new_iterator(&mut self) -> (result: Result<S::Iter, Error<S::Error>>)
        ensures
            transition(*old(self), Call::NewIterator, *final(self), rejection(result)),
            old(self).state() is None ==> (exists|answer: Result<S::Iter, S::Error>|
                final(self).inner().history() == old(self).inner().history().push(
                    Exchange::NewIteratorWithStartAndPrefix {
                        start: Seq::empty(),
                        prefix: Seq::empty(),
                        answer,
                    },
                ) && reply(result) == #[trigger] forward_spec(answer)),
    {
        let ghost before = *self;
        let unbounded: Vec<u8> = Vec::new();
        let result = self.open(unbounded.as_slice(), unbounded.as_slice());
        self.record = Ghost(self.record@.push(Exchange::NewIterator { answer: result }));
        result
    }

    /// An iterator over the wrapped store's entries from `start` on.
    fn new_iterator_with_start(&mut self, start: &[u8]) -> (result: Result<
        S::Iter,
        Error<S::Error>,
    >)
        ensures
            transition(
                *old(self),
                Call::NewIteratorWithStart { start: start@ },
                *final(self),
                rejection(result),
            ),
            old(self).state() is None ==> (exists|answer: Result<S::Iter, S::Error>|
                final(self).inner().history() == old(self).inner().history().push(
                    Exchange::NewIteratorWithStartAndPrefix {
                        start: start@,
                        prefix: Seq::empty(),
                        answer,
                    },
                ) && reply(result) == #[trigger] forward_spec(answer)),
    {
        let ghost before = *self;
        let unbounded: Vec<u8> = Vec::new();
        let result = self.open(start, unbounded.as_slice());
        self.record = Ghost(
            self.record@.push(Exchange::NewIteratorWithStart { start: start@, answer: result }),
        );
        result
    }

    /// An iterator over the wrapped store's entries whose key begins with
    /// `prefix`.
    fn new_iterator_with_prefix(&mut self, prefix: &[u8]) -> (result: Result<
        S::Iter,
        Error<S::Error>,
    >)
        ensures
            transition(
                *old(self),
                Call::NewIteratorWithPrefix { prefix: prefix@ },
                *final(self),
                rejection(result),
            ),
            old(self).state() is None ==> (exists|answer: Result<S::Iter, S::Error>|
                final(self).inner().history() == old(self).inner().history().push(
                    Exchange::NewIteratorWithStartAndPrefix {
                        start: Seq::empty(),
                        prefix: prefix@,
                        answer,
                    },
                ) && reply(result) == #[trigger] forward_spec(answer)),
    {
        let ghost before = *self;
        let unbounded: Vec<u8> = Vec::new();
        let result = self.open(unbounded.as_slice(), prefix);
        self.record = Ghost(
            self.record@.push(Exchange::NewIteratorWithPrefix { prefix: prefix@, answer: result }),
        );
        result
    }

    /// An iterator over the wrapped store's entries from `start` on whose key
    /// begins with `prefix`. A failure of the wrapped store to make one is
    /// handed on as it is: it is not classified and does not latch.
    fn new_iterator_with_start_and_prefix(&mut self, start: &[u8], prefix: &[u8]) -> (result:
        Result<S::Iter, Error<S::Error>>)
        ensures
            transition(
                *old(self),
                Call::NewIteratorWithStartAndPrefix { start: start@, prefix: prefix@ },
                *final(self),
                rejection(result),
            ),
            old(self).state() is None ==> (exists|answer: Result<S::Iter, S::Error>|
                final(self).inner().history() == old(self).inner().history().push(
                    Exchange::NewIteratorWithStartAndPrefix {
                        start: start@,
                        prefix: prefix@,
                        answer,
                    },
                ) && reply(result) == #[trigger] forward_spec(answer)),
    {
        let ghost before = *self;
        let result = self.open(start, prefix);
        self.record = Ghost(
            self.record@.push(
                Exchange::NewIteratorWithStartAndPrefix {
                    start: start@,
                    prefix: prefix@,
                    answer: result,
                },
            ),
        );
        result
    }
}

} // verus!
