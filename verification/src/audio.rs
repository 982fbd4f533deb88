//! Audio register file stub over $FF10-$FF26: writes are accepted and
//! discarded, reads return zero. The synthesis pipeline is out of scope.
use vstd::prelude::*;

use crate::system::ExecutionError;

verus! {

/// The stubbed audio register file: it holds no state.
#[derive(Clone, Copy, PartialEq, Eq, Structural, Debug)]
pub struct Audio {}

impl Audio {
    /// Reads from the audio stub: `len` zero bytes.
    pub fn read(&self, address: u16, len: usize) -> (r: Result<Vec<u8>, ExecutionError>)
        ensures
            r matches Ok(v) && v@.len() == len && (forall|i: int| 0 <= i < len ==> v@[i] == 0),
    {
        let _ = address;
        let mut v: Vec<u8> = Vec::new();
        let mut i: usize = 0;
        while i < len
            invariant
                i <= len,
                v@.len() == i,
                forall|j: int| 0 <= j < i ==> v@[j] == 0,
            decreases len - i,
        {
            v.push(0);
            i += 1;
        }
        Ok(v)
    }

    /// Writes to the audio stub: accepted, discarded, reported done whole.
    pub fn write(&mut self, address: u16, data: &[u8]) -> (r: Result<usize, ExecutionError>)
        ensures
            *final(self) == *old(self),
            r == Ok::<usize, ExecutionError>(data@.len() as usize),
    {
        let _ = address;
        Ok(data.len())
    }
}

} // verus!
