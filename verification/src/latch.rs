//! The latch: healthy until corruption is recorded, corrupted ever after.
use crate::error::{Classified, ClassifiedView, Error, ErrorView, reply};
use vstd::prelude::*;

verus! {

/// The message a latch holds once `message` has been recorded on a latch that
/// held `state`: the one it held already, if any, else the new one.
pub open spec fn latch_spec(state: Option<Seq<char>>, message: Seq<char>) -> Seq<char> {
    match state {
        Some(first) => first,
        None => message,
    }
}

/// What a latch that holds `state` says to an operation that is about to
/// start: go ahead while healthy, the recorded message once corrupted.
pub open spec fn gate_spec<E>(state: Option<Seq<char>>) -> Result<(), ErrorView<E>> {
    match state {
        Some(first) => Err(ErrorView::CorruptionLatched(first)),
        None => Ok(()),
    }
}

/// The latch after an operation, given the latch before it and what the
/// store's answer showed: `Some` with the message if the answer was
/// classified as corruption, `None` if it was not.
pub open spec fn observe(state: Option<Seq<char>>, finding: Option<Seq<char>>) -> Option<
    Seq<char>,
> {
    match finding {
        Some(message) => Some(latch_spec(state, message)),
        None => state,
    }
}

/// What a classified answer shows about corruption.
pub open spec fn finding<T, E>(outcome: Result<T, ClassifiedView<E>>) -> Option<Seq<char>> {
    match outcome {
        Err(ClassifiedView::Corruption(message)) => Some(message),
        _ => None,
    }
}

/// What the caller of an operation is told, given the latch before the answer
/// was settled and the classified answer of the store.
///
/// A success is handed on. Corruption is answered with the message that the
/// latch retains. Every other failure is handed on as the store reported it.
pub open spec fn settle_spec<T, E>(
    state: Option<Seq<char>>,
    outcome: Result<T, ClassifiedView<E>>,
) -> Result<T, ErrorView<E>> {
    match outcome {
        Ok(value) => Ok(value),
        Err(ClassifiedView::Corruption(message)) => Err(
            ErrorView::CorruptionLatched(latch_spec(state, message)),
        ),
        Err(ClassifiedView::NotFound(e)) => Err(ErrorView::Inner(e)),
        Err(ClassifiedView::Other(e)) => Err(ErrorView::Inner(e)),
    }
}

/// What the caller of a presence check is told: as [`settle_spec`], but a
/// success of the lookup means present, and an absent key is no failure.
pub open spec fn settle_has_spec<T, E>(
    state: Option<Seq<char>>,
    outcome: Result<T, ClassifiedView<E>>,
) -> Result<bool, ErrorView<E>> {
    match outcome {
        Ok(_) => Ok(true),
        Err(ClassifiedView::Corruption(message)) => Err(
            ErrorView::CorruptionLatched(latch_spec(state, message)),
        ),
        Err(ClassifiedView::NotFound(_)) => Ok(false),
        Err(ClassifiedView::Other(e)) => Err(ErrorView::Inner(e)),
    }
}

/// The view of a classified answer.
pub open spec fn outcome_view<T, E>(outcome: Result<T, Classified<E>>) -> Result<
    T,
    ClassifiedView<E>,
> {
    match outcome {
        Ok(value) => Ok(value),
        Err(classified) => Err(classified@),
    }
}

/// A one-way latch. It starts healthy; the first message recorded on it makes
/// it corrupted, and nothing makes it healthy again or changes the message.
///
/// Flag and message are one value: the latch is corrupted exactly when it
/// holds a message.
#[derive(Debug, PartialEq, Eq)]
pub struct CorruptionState {
    message: Option<String>,
}

impl View for CorruptionState {
    type V = Option<Seq<char>>;

    /// `None` while healthy, the recorded message once corrupted.
    closed spec fn view(&self) -> Option<Seq<char>> {
        self.message.deep_view()
    }
}

impl CorruptionState {
    /// A healthy latch.
    pub fn new() -> (state: Self)
        ensures
            state@ is None,
    {
        CorruptionState { message: None }
    }

    /// Whether corruption has been recorded.
    pub fn is_corrupted(&self) -> (corrupted: bool)
        ensures
            corrupted == (self@ is Some),
    {
        self.message.is_some()
    }

    /// The recorded message, if corruption has been recorded.
    pub fn message(&self) -> (message: Option<String>)
        ensures
            message.deep_view() == self@,
    {
        match &self.message {
            Some(first) => Some(first.clone()),
            None => None,
        }
    }

    /// Asked before every operation: `Ok` while healthy, the recorded message
    /// as an error once corrupted.
    pub fn gate<E>(&self) -> (passed: Result<(), Error<E>>)
        ensures
            reply(passed) == gate_spec::<E>(self@),
    {
        match &self.message {
            Some(first) => Err(Error::CorruptionLatched(first.clone())),
            None => Ok(()),
        }
    }

    /// Records corruption. On a healthy latch `message` is kept; on a corrupted
    /// one it is discarded. Returns the message that the latch retains.
    pub fn latch(&mut self, message: String) -> (retained: String)
        ensures
            retained@ == latch_spec(old(self)@, message@),
            final(self)@ == Some(retained@),
    {
        match &self.message {
            Some(first) => first.clone(),
            None => {
                let retained = message.clone();
                self.message = Some(message);
                retained
            },
        }
    }

    /// Settles the answer of the wrapped store to any operation but a presence
    /// check: latches if it was classified as corruption, and says what the
    /// caller is told.
    pub fn settle<T, E>(&mut self, outcome: Result<T, Classified<E>>) -> (result: Result<
        T,
        Error<E>,
    >)
        ensures
            final(self)@ == observe(old(self)@, finding(outcome_view(outcome))),
            reply(result) == settle_spec(old(self)@, outcome_view(outcome)),
    {
        match outcome {
            Ok(value) => Ok(value),
            Err(Classified::Corruption(message)) => Err(
                Error::CorruptionLatched(self.latch(message)),
            ),
            Err(Classified::NotFound(e)) => Err(Error::Inner(e)),
            Err(Classified::Other(e)) => Err(Error::Inner(e)),
        }
    }

    /// Settles the answer of the wrapped store's lookup to a presence check:
    /// as [`CorruptionState::settle`], but a found value means `true` and an
    /// absent key means `false`.
    pub fn settle_has<T, E>(&mut self, outcome: Result<T, Classified<E>>) -> (result: Result<
        bool,
        Error<E>,
    >)
        ensures
            final(self)@ == observe(old(self)@, finding(outcome_view(outcome))),
            reply(result) == settle_has_spec(old(self)@, outcome_view(outcome)),
    {
        match outcome {
            Ok(_) => Ok(true),
            Err(Classified::Corruption(message)) => Err(
                Error::CorruptionLatched(self.latch(message)),
            ),
            Err(Classified::NotFound(_)) => Ok(false),
            Err(Classified::Other(e)) => Err(Error::Inner(e)),
        }
    }
}

} // verus!
