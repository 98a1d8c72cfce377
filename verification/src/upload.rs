//! Taking in an upload piece by piece, up to a fixed size.

use vstd::prelude::*;

verus! {

/// The largest upload that is taken in, in bytes.
pub const MAX_SIZE: usize = 262144;

/// The upload would grow beyond `MAX_SIZE`.
#[derive(Clone, Copy, Debug, PartialEq, Eq, Structural)]
pub struct Overflow;

/// Adds a piece to what was taken in so far, unless the two together would
/// be larger than `MAX_SIZE`; then nothing is added.
pub fn append_chunk(body: &mut Vec<u8>, chunk: &[u8]) -> (r: Result<(), Overflow>)
    ensures
        r is Ok == (old(body)@.len() + chunk@.len() <= MAX_SIZE),
        r is Ok ==> final(body)@ == old(body)@ + chunk@,
        r is Err ==> final(body)@ == old(body)@,
{
    if chunk.len() > MAX_SIZE || body.len() > MAX_SIZE - chunk.len() {
        return Err(Overflow);
    }
    let mut i: usize = 0;
    while i < chunk.len()
        invariant
            i <= chunk.len(),
            body@ == old(body)@ + chunk@.take(i as int),
        decreases chunk.len() - i,
    {
        body.push(chunk[i]);
        proof {
            assert(chunk@.take(i + 1) =~= chunk@.take(i as int).push(chunk@[i as int]));
        }
        i += 1;
    }
    proof {
        assert(chunk@.take(i as int) =~= chunk@);
    }
    Ok(())
}

} // verus!
