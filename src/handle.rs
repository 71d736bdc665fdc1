//! Owned native handles: a non-zero handle is released exactly once.
//!
//! Rust ownership already makes an `OwnedHandle` non-copyable, so moving it
//! never duplicates the obligation to release. The recorded `live` flag is
//! the check-and-skip guard: the first release request hands the raw value
//! out and every later request hands out nothing.

use vstd::prelude::*;

verus! {

/// The abstract state of an owned handle.
pub struct HandleModel {
    pub raw: u32,
    pub live: bool,
}

/// What constructing a wrapper from a native creation result gives: nothing
/// for the zero sentinel, a live handle otherwise.
pub open spec fn acquire_outcome(raw: u32) -> Option<HandleModel> {
    if raw == 0 {
        None
    } else {
        Some(HandleModel { raw, live: true })
    }
}

/// One release request: the new state, and the value handed to the native
/// release call, if any.
pub open spec fn release_step(h: HandleModel) -> (HandleModel, Option<u32>) {
    if h.live {
        (HandleModel { raw: h.raw, live: false }, Some(h.raw))
    } else {
        (h, None)
    }
}

/// How many native release calls `n` successive release requests make.
pub open spec fn releases_after(h: HandleModel, n: nat) -> nat
    decreases n,
{
    if n == 0 {
        0
    } else {
        let (next, out) = release_step(h);
        (if out.is_some() {
            1nat
        } else {
            0nat
        }) + releases_after(next, (n - 1) as nat)
    }
}

/// How many native release calls a construction outcome leads to over `n`
/// release requests; a failed construction has no wrapper to release.
pub open spec fn releases_of(outcome: Option<HandleModel>, n: nat) -> nat {
    match outcome {
        Some(h) => releases_after(h, n),
        None => 0,
    }
}

/// A native resource handle that must be released exactly once.
#[derive(Debug)]
pub struct OwnedHandle {
    raw: u32,
    live: bool,
}

impl View for OwnedHandle {
    type V = HandleModel;

    closed spec fn view(&self) -> HandleModel {
        HandleModel { raw: self.raw, live: self.live }
    }
}

impl OwnedHandle {
    #[verifier::type_invariant]
    spec fn never_zero(self) -> bool {
        self.raw != 0
    }

    /// Takes ownership of the value a native creation call returned; the
    /// zero sentinel means the creation failed.
    pub fn acquire(raw: u32) -> (r: Option<OwnedHandle>)
        ensures
            r.is_some() == acquire_outcome(raw).is_some(),
            r.is_some() ==> Some(r.unwrap()@) == acquire_outcome(raw),
    {
        if raw == 0 {
            None
        } else {
            Some(OwnedHandle { raw, live: true })
        }
    }

    /// The raw value, whether or not it was already released.
    pub fn raw(&self) -> (r: u32)
        ensures
            r == self@.raw,
            r != 0,
    {
        proof {
            use_type_invariant(self);
        }
        self.raw
    }

    pub fn is_live(&self) -> (r: bool)
        ensures
            r == self@.live,
    {
        self.live
    }

    /// Hands out the raw value for the native release call the first time,
    /// and nothing afterwards.
    pub fn take_release(&mut self) -> (r: Option<u32>)
        ensures
            (final(self)@, r) == release_step(old(self)@),
            r.is_some() ==> r.unwrap() != 0,
    {
        proof {
            use_type_invariant(&*self);
        }
        if self.live {
            self.live = false;
            Some(self.raw)
        } else {
            None
        }
    }
}

/// A released handle makes no further release calls.
pub proof fn lemma_released_handle_stays_released(h: HandleModel, n: nat)
    requires
        !h.live,
    ensures
        releases_after(h, n) == 0,
    decreases n,
{
    if n > 0 {
        lemma_released_handle_stays_released(h, (n - 1) as nat);
    }
}

/// Every successfully constructed handle is released exactly once over any
/// non-empty run of release requests, however often it was moved before.
pub proof fn lemma_constructed_handle_released_once(raw: u32, n: nat)
    requires
        acquire_outcome(raw).is_some(),
        n >= 1,
    ensures
        releases_of(acquire_outcome(raw), n) == 1,
{
    let h = acquire_outcome(raw).unwrap();
    let (next, out) = release_step(h);
    lemma_released_handle_stays_released(next, (n - 1) as nat);
}

/// A failed construction never leads to a release call.
pub proof fn lemma_failed_construction_never_released(raw: u32, n: nat)
    requires
        acquire_outcome(raw).is_none(),
    ensures
        releases_of(acquire_outcome(raw), n) == 0,
{
}

} // verus!
