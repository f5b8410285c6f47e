use vstd::prelude::*;

use crate::error::SystemError;

verus! {

/// The capacity that the probe carries: no buffer at all. The probe only
/// asks for the array's current length.
pub const PROBE_CAPACITY: u32 = 0;

/// What to do after the probe has been answered.
#[derive(Debug, PartialEq, Eq)]
pub enum FetchStep {
    /// The fetch is over, with this outcome; no further query is made.
    Finished(Result<Vec<u32>, SystemError>),
    /// Query again, handing a buffer with room for this many entries.
    Fetch(u32),
}

/// A fetched array of the length `count` that the kernel reported when it
/// wrote the buffer: the entries that it wrote, in order, and 0, the id of no
/// object, where the array had grown beyond the room the buffer had.
pub open spec fn fetched(buffer: Seq<u32>, count: u32) -> Seq<u32> {
    Seq::new(count as nat, |i: int| if i < buffer.len() { buffer[i] } else { 0 })
}

/// The decision after the probe. A failed probe ends the fetch with its
/// error, unchanged and not retried. An empty array ends it with no entries
/// and no second query, since a zero-sized buffer may be refused. Otherwise
/// the array is fetched with a buffer of the reported size.
pub fn after_probe(reply: Result<u32, SystemError>) -> (r: FetchStep)
    ensures
        reply matches Err(e) ==> r == FetchStep::Finished(Err(e)),
        reply == Ok::<u32, SystemError>(0) ==> (r matches FetchStep::Finished(Ok(v)) && v@.len() == 0),
        forall|n: u32| n != 0 && reply == Ok::<u32, SystemError>(n) ==> r == FetchStep::Fetch(n),
{
    match reply {
        Err(e) => FetchStep::Finished(Err(e)),
        Ok(n) => {
            if n == 0 {
                FetchStep::Finished(Ok(Vec::new()))
            } else {
                FetchStep::Fetch(n)
            }
        },
    }
}

/// The outcome of the second query, which ends the fetch. A failure is passed
/// on unchanged and not retried. Otherwise the array has the length reported
/// by this query, which may differ from the probe's: the entries that were
/// written come first, in order, and where the array grew beyond the buffer,
/// the entries that did not fit are 0, the id of no object.
pub fn after_fetch(reply: Result<u32, SystemError>, buffer: Vec<u32>) -> (r: Result<Vec<u32>, SystemError>)
    ensures
        reply matches Err(e) ==> r == Err::<Vec<u32>, SystemError>(e),
        forall|n: u32| reply == Ok::<u32, SystemError>(n) ==> (r matches Ok(v) && v@ == fetched(buffer@, n)),
{
    match reply {
        Err(e) => Err(e),
        Ok(count) => {
            let ghost written = buffer@;
            let mut buffer = buffer;
            let n = count as usize;
            if n < buffer.len() {
                buffer.truncate(n);
            }
            while buffer.len() < n
                invariant
                    n < written.len() || written.len() <= buffer@.len() <= n,
                    n == count as usize,
                    forall|i: int|
                        0 <= i < buffer@.len() ==> buffer@[i] == (if i < written.len() { written[i] } else { 0u32 }),
                    n < written.len() ==> buffer@.len() == n,
                decreases n - buffer@.len(),
            {
                buffer.push(0);
            }
            assert(buffer@ =~= fetched(written, count));
            Ok(buffer)
        },
    }
}

} // verus!
