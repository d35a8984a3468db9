//! Cooperative cancellation: a source mints tokens, and cancelling the source
//! cancels every token it minted.
//!
//! A token is shared between the source and whoever polls it, possibly on other
//! threads, so its flag lives behind a lock. What a token's lock held at a given
//! moment is not something these contracts can speak of; what they state is how a
//! report follows from what the lock showed, and everything about the source's own
//! state.
use std::sync::{Arc, Mutex};
use vstd::prelude::*;

verus! {

/// std's `Mutex`, which holds a token's flag: opaque here.
#[verifier::external_type_specification]
#[verifier::external_body]
#[verifier::reject_recursive_types(T)]
pub struct ExMutex<T: ?Sized>(std::sync::Mutex<T>);

/// Relies on `Mutex::new`, which makes a lock around a value; nothing is promised of it.
pub assume_specification<T>[ std::sync::Mutex::<T>::new ](t: T) -> std::sync::Mutex<T>;

/// Why a cancellation primitive refused a request.
#[derive(Debug, PartialEq, Eq)]
pub enum CancellationTokenError {
    /// The token or source was cancelled before.
    AlreadyCancelled,
    /// A lock was poisoned: the shared state can no longer be trusted.
    PoisonError(String),
}

impl CancellationTokenError {
    /// A sentence that describes the error.
    pub fn message(&self) -> (r: String)
        ensures
            match self {
                CancellationTokenError::AlreadyCancelled => r@
                    == "The resource was already cancelled"@,
                CancellationTokenError::PoisonError(reason) => r@ == "The resource was poisoned: "@
                    + reason@,
            },
    {
        match self {
            CancellationTokenError::AlreadyCancelled => "The resource was already cancelled".to_owned(),
            CancellationTokenError::PoisonError(reason) => "The resource was poisoned: ".to_owned().concat(
                reason.as_str(),
            ),
        }
    }
}

/// Relies on `Mutex::lock` and on writing through the guard it returns: raises the
/// flag while the lock is held and returns the value it had before; a poisoned lock
/// gives the poison error's message. No lock of a token is held across a call, so
/// `lock` does not panic here.
#[verifier::external_body]
fn raise_flag(flag: &Mutex<bool>) -> (r: Result<bool, String>)
{
    match flag.lock() {
        Ok(mut guard) => Ok(std::mem::replace(&mut *guard, true)),
        Err(err) => Err(err.to_string()),
    }
}

/// Relies on `Mutex::lock`: reads the flag while the lock is held; a poisoned lock
/// gives the poison error's message.
#[verifier::external_body]
fn read_flag(flag: &Mutex<bool>) -> (r: Result<bool, String>)
{
    match flag.lock() {
        Ok(guard) => Ok(*guard),
        Err(err) => Err(err.to_string()),
    }
}

/// What a cancellation reports, given what the flag held when the lock was taken:
/// success when it was down, `AlreadyCancelled` when it was up, and the poison's
/// message when the lock was poisoned.
pub fn cancel_outcome(previous: Result<bool, String>) -> (r: Result<(), CancellationTokenError>)
    ensures
        match previous {
            Ok(false) => r is Ok,
            Ok(true) => r == Err::<(), CancellationTokenError>(
                CancellationTokenError::AlreadyCancelled,
            ),
            Err(reason) => r == Err::<(), CancellationTokenError>(
                CancellationTokenError::PoisonError(reason),
            ),
        },
{
    match previous {
        Ok(false) => Ok(()),
        Ok(true) => Err(CancellationTokenError::AlreadyCancelled),
        Err(reason) => Err(CancellationTokenError::PoisonError(reason)),
    }
}

/// What a poll of the flag reports: the flag, or the poison's message.
pub fn poll_outcome(observed: Result<bool, String>) -> (r: Result<bool, CancellationTokenError>)
    ensures
        match observed {
            Ok(b) => r == Ok::<bool, CancellationTokenError>(b),
            Err(reason) => r == Err::<bool, CancellationTokenError>(
                CancellationTokenError::PoisonError(reason),
            ),
        },
{
    match observed {
        Ok(b) => Ok(b),
        Err(reason) => Err(CancellationTokenError::PoisonError(reason)),
    }
}

/// A flag that starts down and is raised once: the signal to stop.
#[derive(Debug)]
pub struct CancellationToken {
    cancelled: Mutex<bool>,
}

impl CancellationToken {
    /// A token that is not cancelled.
    pub fn new() -> CancellationToken {
        CancellationToken { cancelled: Mutex::new(false) }
    }

    /// Raises the flag. Fails with `AlreadyCancelled` when it was up already, which
    /// leaves it up; the report follows `cancel_outcome`.
    pub fn cancel(&self) -> Result<(), CancellationTokenError> {
        cancel_outcome(raise_flag(&self.cancelled))
    }

    /// Whether the flag is up; the report follows `poll_outcome`.
    pub fn is_cancelled(&self) -> Result<bool, CancellationTokenError> {
        poll_outcome(read_flag(&self.cancelled))
    }
}

impl Default for CancellationToken {
    fn default() -> CancellationToken {
        CancellationToken::new()
    }
}

/// The decimal digit with the given value, below ten.
pub open spec fn digit_char(d: nat) -> char {
    if d == 0 {
        '0'
    } else if d == 1 {
        '1'
    } else if d == 2 {
        '2'
    } else if d == 3 {
        '3'
    } else if d == 4 {
        '4'
    } else if d == 5 {
        '5'
    } else if d == 6 {
        '6'
    } else if d == 7 {
        '7'
    } else if d == 8 {
        '8'
    } else {
        '9'
    }
}

/// A number written in decimal, most significant digit first, without leading zeros.
pub open spec fn decimal_of(n: nat) -> Seq<char>
    decreases n,
{
    if n < 10 {
        seq![digit_char(n)]
    } else {
        decimal_of(n / 10).push(digit_char(n % 10))
    }
}

/// Relies on `ToString` for `usize`, which goes through its `Display`: the number in
/// decimal, without sign, padding or leading zeros.
#[verifier::external_body]
fn decimal(n: usize) -> (r: String)
    ensures
        r@ == decimal_of(n as nat),
{
    n.to_string()
}

/// The message that reports a poisoned token: its place among the source's tokens,
/// in decimal, and its own reason.
pub open spec fn spec_poisoned_token_reason(index: nat, reason: Seq<char>) -> Seq<char> {
    "While cancelling CancellationTokenSource, the contained CancellationToken at index "@
        + decimal_of(index) + " was poisoned: "@ + reason
}

/// The error that reports the token at `index` as poisoned, for the given reason.
pub fn poisoned_token_error(index: usize, reason: String) -> (r: CancellationTokenError)
    ensures
        r matches CancellationTokenError::PoisonError(m) && m@ == spec_poisoned_token_reason(
            index as nat,
            reason@,
        ),
{
    let message = "While cancelling CancellationTokenSource, the contained CancellationToken at index ".to_owned()
        .concat(decimal(index).as_str())
        .concat(" was poisoned: ")
        .concat(reason.as_str());
    CancellationTokenError::PoisonError(message)
}

/// What minting does: refused, changing nothing, once the source is cancelled;
/// otherwise the new token is recorded after the others.
pub open spec fn new_token_ensures(
    before: CancellationTokenSource,
    after: CancellationTokenSource,
    r: Result<Arc<CancellationToken>, CancellationTokenError>,
) -> bool {
    if before.spec_cancelled() {
        &&& r == Err::<Arc<CancellationToken>, CancellationTokenError>(
            CancellationTokenError::AlreadyCancelled,
        )
        &&& after.tokens() == before.tokens()
        &&& after.spec_cancelled()
    } else {
        &&& r matches Ok(t)
        &&& after.tokens() == before.tokens().push(t)
        &&& !after.spec_cancelled()
    }
}

/// What cancelling does: refused, changing nothing, when the source was cancelled
/// before. Otherwise it succeeds and the source is cancelled, unless a token reports
/// poison: then the source stays uncancelled and the error's message is the fixed
/// text, the place of a recorded token in decimal, and a reason. Which token, and
/// what reason, come from the tokens' locks, which these contracts cannot observe.
/// The tokens recorded never change.
pub open spec fn cancel_ensures(
    before: CancellationTokenSource,
    after: CancellationTokenSource,
    r: Result<(), CancellationTokenError>,
) -> bool {
    &&& after.tokens() == before.tokens()
    &&& if before.spec_cancelled() {
        &&& r == Err::<(), CancellationTokenError>(CancellationTokenError::AlreadyCancelled)
        &&& after.spec_cancelled()
    } else {
        match r {
            Ok(_) => after.spec_cancelled(),
            Err(CancellationTokenError::AlreadyCancelled) => false,
            Err(CancellationTokenError::PoisonError(m)) => {
                &&& !after.spec_cancelled()
                &&& exists|i: nat, reason: Seq<char>|
                    i < before.tokens().len() && m@ == spec_poisoned_token_reason(i, reason)
            },
        }
    }
}

/// Once a cancellation succeeds, the source refuses every later request: minting
/// fails with `AlreadyCancelled`, and so does cancelling again, and neither changes
/// the source.
pub proof fn lemma_cancelled_source_refuses(
    s0: CancellationTokenSource,
    s1: CancellationTokenSource,
    s2: CancellationTokenSource,
    minted: Result<Arc<CancellationToken>, CancellationTokenError>,
    s3: CancellationTokenSource,
    cancelled_again: Result<(), CancellationTokenError>,
)
    requires
        cancel_ensures(s0, s1, Ok(())),
        new_token_ensures(s1, s2, minted),
        cancel_ensures(s1, s3, cancelled_again),
    ensures
        s1.spec_cancelled(),
        minted == Err::<Arc<CancellationToken>, CancellationTokenError>(
            CancellationTokenError::AlreadyCancelled,
        ),
        s2.tokens() == s1.tokens() && s2.spec_cancelled(),
        cancelled_again == Err::<(), CancellationTokenError>(
            CancellationTokenError::AlreadyCancelled,
        ),
        s3.tokens() == s1.tokens() && s3.spec_cancelled(),
{
}

/// Mints tokens and cancels all of them at once. Dropping a source that was never
/// cancelled cancels it.
#[derive(Debug)]
pub struct CancellationTokenSource {
    tokens: Vec<Arc<CancellationToken>>,
    cancelled: bool,
}

impl CancellationTokenSource {
    /// The tokens minted so far, in the order they were minted.
    pub closed spec fn tokens(&self) -> Seq<Arc<CancellationToken>> {
        self.tokens@
    }

    /// Whether the source was cancelled.
    pub closed spec fn spec_cancelled(&self) -> bool {
        self.cancelled
    }

    /// A source that has minted nothing and is not cancelled.
    pub fn new() -> (r: CancellationTokenSource)
        ensures
            r.tokens().len() == 0,
            !r.spec_cancelled(),
    {
        CancellationTokenSource { tokens: Vec::new(), cancelled: false }
    }

    /// Mints a token and records it. Fails with `AlreadyCancelled`, changing nothing,
    /// once the source is cancelled.
    pub fn new_token(&mut self) -> (r: Result<Arc<CancellationToken>, CancellationTokenError>)
        ensures
            new_token_ensures(*old(self), *final(self), r),
    {
        if self.cancelled {
            return Err(CancellationTokenError::AlreadyCancelled);
        }
        let token = Arc::new(CancellationToken::new());
        self.tokens.push(Arc::clone(&token));
        Ok(token)
    }

    /// Cancels the source, then every token it minted, in the order they were minted.
    /// Fails with `AlreadyCancelled`, changing nothing, when the source was cancelled
    /// before. A token that reports poison stops the walk: the source stays
    /// uncancelled and the error names that token's place and reason. A token that
    /// was cancelled on its own counts as cancelled.
    pub fn cancel(&mut self) -> (r: Result<(), CancellationTokenError>)
        ensures
            cancel_ensures(*old(self), *final(self), r),
    {
        if self.cancelled {
            return Err(CancellationTokenError::AlreadyCancelled);
        }
        let mut index: usize = 0;
        while index < self.tokens.len()
            invariant
                index <= self.tokens@.len(),
                !self.cancelled,
            decreases self.tokens@.len() - index,
        {
            match self.tokens[index].cancel() {
                Err(CancellationTokenError::PoisonError(reason)) => {
                    return Err(poisoned_token_error(index, reason));
                },
                _ => {},
            }
            index = index + 1;
        }
        self.cancelled = true;
        Ok(())
    }

    /// Cancels the source unless that was done before: the teardown of a source.
    /// Only a poisoned token makes it fail.
    fn cancel_at_teardown(&mut self) -> (r: Result<(), CancellationTokenError>)
        ensures
            final(self).tokens() == old(self).tokens(),
            r is Ok ==> final(self).spec_cancelled(),
            r matches Err(e) ==> e is PoisonError,
    {
        if self.cancelled {
            Ok(())
        } else {
            self.cancel()
        }
    }

    /// Whether the source was cancelled.
    pub fn is_cancelled(&self) -> (r: Result<bool, CancellationTokenError>)
        ensures
            r == Ok::<bool, CancellationTokenError>(self.spec_cancelled()),
    {
        Ok(self.cancelled)
    }
}

impl Default for CancellationTokenSource {
    fn default() -> (r: CancellationTokenSource)
        ensures
            r.tokens().len() == 0,
            !r.spec_cancelled(),
    {
        CancellationTokenSource::new()
    }
}

impl Drop for CancellationTokenSource {
    /// Relies on `Result::expect`: a source that was never cancelled is cancelled
    /// here, and a poisoned token would stop the thread with a panic rather than pass
    /// unnoticed. That case cannot occur: a token's lock is poisoned only by a panic
    /// while it is held, and the two functions that take it, `raise_flag` and
    /// `read_flag`, do not panic. So the body does not unwind, as Verus requires of
    /// every destructor. Verus does not check this body itself: a destructor may open
    /// no invariant, which the specifications of `Vec`'s methods do not promise.
    #[verifier::external_body]
    fn drop(&mut self)
        opens_invariants none
        no_unwind
    {
        self.cancel_at_teardown().expect("Unable to drop CancellationTokenSource");
    }
}

} // verus!
