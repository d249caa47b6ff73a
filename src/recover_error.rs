use vstd::prelude::*;

verus! {

/// Middleware that turns errors of the wrapped service into responses built
/// from a status, where the error converts to one.
#[derive(Clone, Debug)]
pub struct RecoverError<S> {
    inner: S,
}

impl<S> RecoverError<S> {
    pub closed spec fn spec_inner(&self) -> S {
        self.inner
    }

    /// Wraps a service.
    pub fn new(inner: S) -> (r: RecoverError<S>)
        ensures
            r.spec_inner() == inner,
    {
        RecoverError { inner }
    }

    /// The wrapped service.
    pub fn into_inner(self) -> (r: S)
        ensures
            r == self.spec_inner(),
    {
        self.inner
    }
}

/// A response body that is either a real body or explicitly empty. The empty
/// marker is distinct from a real body that happens to hold no bytes.
#[derive(Debug)]
pub struct MaybeEmptyBody<B> {
    inner: Option<B>,
}

impl<B> MaybeEmptyBody<B> {
    /// The real body, or `None` for the explicit empty marker.
    pub closed spec fn contents(&self) -> Option<B> {
        self.inner
    }

    /// Whether the body has ended, given whether the real body (if any) has.
    pub open spec fn spec_is_end_stream(&self, inner_at_end: bool) -> bool {
        match self.contents() {
            Some(_) => inner_at_end,
            None => true,
        }
    }

    /// The exact size the body announces by itself: zero for the empty marker,
    /// none for a real body, whose own hint applies.
    pub open spec fn spec_fixed_size(&self) -> Option<u64> {
        match self.contents() {
            Some(_) => None,
            None => Some(0),
        }
    }

    /// A real body.
    pub fn full(inner: B) -> (r: MaybeEmptyBody<B>)
        ensures
            r.contents() == Some(inner),
    {
        MaybeEmptyBody { inner: Some(inner) }
    }

    /// The explicit empty marker.
    pub fn empty() -> (r: MaybeEmptyBody<B>)
        ensures
            r.contents() == None::<B>,
    {
        MaybeEmptyBody { inner: None }
    }

    /// Whether this is the explicit empty marker.
    pub fn is_empty_marker(&self) -> (r: bool)
        ensures
            r == self.contents().is_none(),
    {
        self.inner.is_none()
    }

    /// The real body, if any.
    pub fn as_inner(&self) -> (r: Option<&B>)
        ensures
            r matches Some(b) ==> self.contents() == Some(*b),
            r.is_none() == self.contents().is_none(),
    {
        match &self.inner {
            Some(b) => Some(b),
            None => None,
        }
    }

    /// The real body, if any, by value.
    pub fn into_inner(self) -> (r: Option<B>)
        ensures
            r == self.contents(),
    {
        self.inner
    }

    /// Whether the body has ended: the empty marker always has; a real body
    /// has when `inner_at_end`, its own answer, says so.
    pub fn is_end_stream(&self, inner_at_end: bool) -> (r: bool)
        ensures
            r == self.spec_is_end_stream(inner_at_end),
    {
        match &self.inner {
            Some(_) => inner_at_end,
            None => true,
        }
    }

    /// The exact size the body announces by itself (see `spec_fixed_size`).
    pub fn fixed_size(&self) -> (r: Option<u64>)
        ensures
            r == self.spec_fixed_size(),
    {
        match &self.inner {
            Some(_) => None,
            None => Some(0),
        }
    }
}

/// How a finished call of the wrapped service is answered.
#[derive(Debug)]
pub enum Settled<H, B, E> {
    /// Send this head with this body.
    Respond(H, MaybeEmptyBody<B>),
    /// The call failed: try to turn the error into a status.
    Recover(E),
}

/// Settles a finished call, given as a response head and body or an error: the
/// body is passed on, unchanged, as a real body; an error is handed on for
/// conversion to a status.
pub fn settle<H, B, E>(result: Result<(H, B), E>) -> (r: Settled<H, B, E>)
    ensures
        match result {
            Ok((h, b)) => r matches Settled::Respond(h2, body) && h2 == h && body.contents() == Some(b),
            Err(e) => r == Settled::<H, B, E>::Recover(e),
        },
{
    match result {
        Ok((h, b)) => Settled::Respond(h, MaybeEmptyBody::full(b)),
        Err(e) => Settled::Recover(e),
    }
}

/// The answer after an error was offered for conversion: a status that it
/// converted to goes out with the explicit empty marker as its body; an error
/// that did not convert is passed on.
pub fn recovered<B, St, E>(converted: Result<St, E>) -> (r: Result<(St, MaybeEmptyBody<B>), E>)
    ensures
        match converted {
            Ok(st) => r matches Ok((st2, body)) && st2 == st && body.contents() == None::<B>,
            Err(e) => r == Err::<(St, MaybeEmptyBody<B>), E>(e),
        },
{
    match converted {
        Ok(st) => Ok((st, MaybeEmptyBody::empty())),
        Err(e) => Err(e),
    }
}

/// The explicit empty marker and a real body are told apart whatever the real
/// body holds: the marker always reports its end and a size of zero, while a
/// real body, even one of no bytes, reports what it says of itself. A body
/// that passes through `settle` stays a real body, and one that comes from
/// `recovered` is the marker.
pub proof fn lemma_empty_marker_distinct<B>(body: MaybeEmptyBody<B>, marker: MaybeEmptyBody<B>, inner_at_end: bool)
    requires
        body.contents().is_some(),
        marker.contents().is_none(),
    ensures
        body != marker,
        marker.spec_is_end_stream(inner_at_end),
        marker.spec_fixed_size() == Some(0u64),
        body.spec_is_end_stream(inner_at_end) == inner_at_end,
        body.spec_fixed_size().is_none(),
{
}

} // verus!
