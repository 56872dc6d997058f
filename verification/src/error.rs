//! Failures: what a store reports, how it is classified, and what the guard
//! hands to its callers.
use vstd::prelude::*;

verus! {

/// A failure reported by a store, as far as the guard has to understand it.
///
/// The two questions are answered by whoever defines the failure type; the
/// guard adds no judgement of its own. Each answer is a function of the failure
/// alone, which is what the two spec functions say.
pub trait Fault {
    /// The normalised description of this failure if it means that the store's
    /// state can no longer be relied on, `None` if it means anything else.
    spec fn corruption_spec(&self) -> Option<Seq<char>>;

    /// Whether this failure says that a key is absent.
    spec fn not_found_spec(&self) -> bool;

    /// Decides whether this failure is corruption and, if so, describes it.
    fn corruption(&self) -> (found: Option<String>)
        ensures
            found.deep_view() == self.corruption_spec(),
    ;

    /// Decides whether this failure says that a key is absent.
    fn is_not_found(&self) -> (absent: bool)
        ensures
            absent == self.not_found_spec(),
    ;
}

/// What the guard makes of a store's failure.
#[derive(Debug, PartialEq, Eq)]
pub enum Classified<E> {
    /// The store can no longer be relied on; the message describes why.
    Corruption(String),
    /// A key is absent. The failure is kept as the store reported it.
    NotFound(E),
    /// Anything else. The failure is kept as the store reported it.
    Other(E),
}

/// The mathematical content of a [`Classified`].
pub enum ClassifiedView<E> {
    Corruption(Seq<char>),
    NotFound(E),
    Other(E),
}

impl<E> View for Classified<E> {
    type V = ClassifiedView<E>;

    open spec fn view(&self) -> ClassifiedView<E> {
        match *self {
            Classified::Corruption(message) => ClassifiedView::Corruption(message@),
            Classified::NotFound(e) => ClassifiedView::NotFound(e),
            Classified::Other(e) => ClassifiedView::Other(e),
        }
    }
}

/// The classification of a failure from the two answers about it: the
/// description of the corruption it means, if it means any, and whether it
/// says that a key is absent. Corruption goes first: a failure that means
/// corruption is classified as that whatever the second answer is.
pub open spec fn classified_spec<E>(
    err: E,
    corruption: Option<Seq<char>>,
    not_found: bool,
) -> ClassifiedView<E> {
    match corruption {
        Some(message) => ClassifiedView::Corruption(message),
        None => if not_found {
            ClassifiedView::NotFound(err)
        } else {
            ClassifiedView::Other(err)
        },
    }
}

/// The classification of `err` by its own two answers.
pub open spec fn classify_spec<E: Fault>(err: E) -> ClassifiedView<E> {
    classified_spec(err, err.corruption_spec(), err.not_found_spec())
}

/// The classification of a whole answer: a success stays as it is.
pub open spec fn classify_outcome<T, E: Fault>(answer: Result<T, E>) -> Result<
    T,
    ClassifiedView<E>,
> {
    match answer {
        Ok(value) => Ok(value),
        Err(err) => Err(classify_spec(err)),
    }
}

impl<E> Classified<E> {
    /// Classifies `err` from the two answers about it, for callers that have
    /// the answers from elsewhere than a [`Fault`].
    pub fn from_answers(err: E, corruption: Option<String>, not_found: bool) -> (classified: Self)
        ensures
            classified@ == classified_spec(err, corruption.deep_view(), not_found),
    {
        match corruption {
            Some(message) => Classified::Corruption(message),
            None => if not_found {
                Classified::NotFound(err)
            } else {
                Classified::Other(err)
            },
        }
    }
}

/// Classifies a store's failure. Whether it says that a key is absent is
/// asked only of a failure that is no corruption.
pub fn classify<E: Fault>(err: E) -> (classified: Classified<E>)
    ensures
        classified@ == classify_spec(err),
{
    let corruption = err.corruption();
    let not_found = corruption.is_none() && err.is_not_found();
    Classified::from_answers(err, corruption, not_found)
}

/// Why an operation on the guard failed.
#[derive(Debug, PartialEq, Eq)]
pub enum Error<E> {
    /// The guard has latched. The message is the one recorded when corruption
    /// was first seen.
    CorruptionLatched(String),
    /// The wrapped store failed, and the failure is no corruption. It is the
    /// store's own failure, untouched.
    Inner(E),
}

/// The mathematical content of an [`Error`].
pub enum ErrorView<E> {
    CorruptionLatched(Seq<char>),
    Inner(E),
}

impl<E> View for Error<E> {
    type V = ErrorView<E>;

    open spec fn view(&self) -> ErrorView<E> {
        match *self {
            Error::CorruptionLatched(message) => ErrorView::CorruptionLatched(message@),
            Error::Inner(e) => ErrorView::Inner(e),
        }
    }
}

/// The mathematical content of an operation's result: the error by its view,
/// a success as it is.
pub open spec fn reply<T, E>(result: Result<T, Error<E>>) -> Result<T, ErrorView<E>> {
    match result {
        Ok(value) => Ok(value),
        Err(e) => Err(e@),
    }
}

/// What the caller is told when a store's answer is handed on without being
/// classified: a failure is the store's own, whatever it means.
pub open spec fn forward_spec<T, E>(answer: Result<T, E>) -> Result<T, ErrorView<E>> {
    match answer {
        Ok(value) => Ok(value),
        Err(e) => Err(ErrorView::Inner(e)),
    }
}

/// Hands a store's answer on without classifying it.
pub fn forward<T, E>(answer: Result<T, E>) -> (result: Result<T, Error<E>>)
    ensures
        reply(result) == forward_spec(answer),
{
    match answer {
        Ok(value) => Ok(value),
        Err(e) => Err(Error::Inner(e)),
    }
}

/// The message that a result was rejected with, if it was rejected because the
/// guard has latched.
pub open spec fn rejection<T, E>(result: Result<T, Error<E>>) -> Option<Seq<char>> {
    match result {
        Err(Error::CorruptionLatched(message)) => Some(message@),
        _ => None,
    }
}

/// A guard's error is a store's failure in turn, so that guards can be
/// stacked: a latched guard reports corruption, with its frozen message.
impl<E: Fault> Fault for Error<E> {
    open spec fn corruption_spec(&self) -> Option<Seq<char>> {
        match *self {
            Error::CorruptionLatched(message) => Some(message@),
            Error::Inner(e) => e.corruption_spec(),
        }
    }

    open spec fn not_found_spec(&self) -> bool {
        match *self {
            Error::CorruptionLatched(_) => false,
            Error::Inner(e) => e.not_found_spec(),
        }
    }

    fn corruption(&self) -> (found: Option<String>) {
        match self {
            Error::CorruptionLatched(message) => Some(message.clone()),
            Error::Inner(e) => e.corruption(),
        }
    }

    fn is_not_found(&self) -> (absent: bool) {
        match self {
            Error::CorruptionLatched(_) => false,
            Error::Inner(e) => e.is_not_found(),
        }
    }
}

} // verus!
