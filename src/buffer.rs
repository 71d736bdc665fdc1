//! The two-call buffer protocol: ask for the required size, allocate
//! exactly that much, let the native call fill it, and keep only what it
//! reports as written.

use vstd::prelude::*;

verus! {

/// A failure of the protocol, kept apart by the step it happened in.
#[derive(Debug, Clone, Copy, PartialEq, Eq)]
pub enum TwoCallError<E> {
    /// The size query failed; nothing was allocated.
    Query(E),
    /// The fill call failed; the size may have changed since the query.
    Fill(E),
    /// The fill call reported more elements than the buffer holds.
    SizeMismatch { capacity: usize, written: usize },
    /// No buffer of the queried size could be allocated.
    Allocation { capacity: usize },
}

/// The elements a fill of `written` elements leaves valid in `buf`, or
/// nothing when it claims more than the buffer holds.
pub open spec fn filled_prefix<T>(buf: Seq<T>, written: int) -> Option<Seq<T>> {
    if 0 <= written <= buf.len() {
        Some(buf.subrange(0, written))
    } else {
        None
    }
}

/// Step 1: the capacity to allocate, from the size query's outcome.
pub fn required_capacity<E>(query: Result<usize, E>) -> (r: Result<usize, TwoCallError<E>>)
    ensures
        match query {
            Ok(n) => r == Ok::<usize, TwoCallError<E>>(n),
            Err(e) => r == Err::<usize, TwoCallError<E>>(TwoCallError::Query(e)),
        },
{
    match query {
        Ok(n) => Ok(n),
        Err(e) => Err(TwoCallError::Query(e)),
    }
}

/// Step 2: a buffer of exactly `capacity` copies of `blank`.
pub fn allocate<T: Copy>(capacity: usize, blank: T) -> (r: Vec<T>)
    ensures
        r@.len() == capacity,
        forall|i: int| 0 <= i < capacity ==> r@[i] == blank,
{
    let mut v: Vec<T> = Vec::with_capacity(capacity);
    let mut i: usize = 0;
    while i < capacity
        invariant
            i <= capacity,
            v@.len() == i,
            forall|j: int| 0 <= j < i ==> v@[j] == blank,
        decreases capacity - i,
    {
        v.push(blank);
        i = i + 1;
    }
    v
}

/// Step 2 where running out of memory is a failure of this one operation
/// rather than of the program: a buffer of exactly `capacity` copies of
/// `blank`, or `Allocation` when the memory could not be reserved.
pub fn try_allocate<T: Copy, E>(capacity: usize, blank: T) -> (r: Result<Vec<T>, TwoCallError<E>>)
    ensures
        r matches Ok(v) ==> (v@.len() == capacity && forall|i: int| 0 <= i < capacity ==> v@[i] == blank),
        r is Err ==> r == Err::<Vec<T>, TwoCallError<E>>(TwoCallError::Allocation { capacity }),
{
    let mut v: Vec<T> = Vec::new();
    if v.try_reserve(capacity).is_err() {
        return Err(TwoCallError::Allocation { capacity });
    }
    let mut i: usize = 0;
    while i < capacity
        invariant
            i <= capacity,
            v@.len() == i,
            forall|j: int| 0 <= j < i ==> v@[j] == blank,
        decreases capacity - i,
    {
        v.push(blank);
        i = i + 1;
    }
    Ok(v)
}

/// Steps 3 and 4: the filled buffer cut down to the elements the fill call
/// reports as written.
pub fn trim_filled<T, E>(buf: Vec<T>, fill: Result<usize, E>) -> (r: Result<
    Vec<T>,
    TwoCallError<E>,
>)
    ensures
        match fill {
            Err(e) => r == Err::<Vec<T>, TwoCallError<E>>(TwoCallError::Fill(e)),
            Ok(w) => match filled_prefix(buf@, w as int) {
                Some(valid) => r matches Ok(v) && v@ == valid,
                None => r == Err::<Vec<T>, TwoCallError<E>>(
                    TwoCallError::SizeMismatch { capacity: buf.len(), written: w },
                ),
            },
        },
{
    match fill {
        Err(e) => Err(TwoCallError::Fill(e)),
        Ok(w) => {
            if w <= buf.len() {
                let mut kept = buf;
                kept.truncate(w);
                Ok(kept)
            } else {
                Err(TwoCallError::SizeMismatch { capacity: buf.len(), written: w })
            }
        },
    }
}

/// Whenever the fill reports no more than the queried size, and the buffer
/// was allocated at that size, exactly the first `written` elements remain
/// and nothing past them can be reached.
pub proof fn lemma_fill_within_query_keeps_written_prefix<T>(
    buf: Seq<T>,
    reported: nat,
    written: nat,
)
    requires
        buf.len() == reported,
        written <= reported,
    ensures
        filled_prefix(buf, written as int).is_some(),
        filled_prefix(buf, written as int).unwrap().len() == written,
        forall|i: int|
            0 <= i < written ==> #[trigger] filled_prefix(buf, written as int).unwrap()[i]
                == buf[i],
{
}

} // verus!
