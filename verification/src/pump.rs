//! The output pump: what to do with the outcome of one read.
//!
//! The pump reads the program's output in a loop of blocking reads and
//! forwards every chunk, unchanged, to whoever consumes the output. Chunks
//! are neither split nor merged: their boundaries are those of the reads.

use vstd::prelude::*;
use vstd::slice::slice_to_vec;

verus! {

/// The most bytes asked for in one read.
pub const CHUNK_SIZE: usize = 4096;

/// What the pump does after a read.
#[derive(Clone, Debug)]
pub enum PumpStep {
    /// Forward these bytes, then read again.
    Forward(Vec<u8>),
    /// Stop reading: the output has ended or the read has failed.
    Stop,
}

/// The chunk to forward after a read into `buffer`, where `read` is the
/// number of bytes the read returned, or nothing for a failed read. A read
/// of no bytes is the end of the output.
pub open spec fn chunk_of(buffer: Seq<u8>, read: Option<usize>) -> Option<Seq<u8>> {
    match read {
        Some(n) => if 0 < n <= buffer.len() {
            Some(buffer.take(n as int))
        } else {
            None
        },
        None => None,
    }
}

/// Decides what the pump does after a read into `buffer` that returned
/// `read` bytes, or failed.
pub fn pump_step(buffer: &[u8], read: Option<usize>) -> (step: PumpStep)
    ensures
        match chunk_of(buffer@, read) {
            Some(chunk) => step matches PumpStep::Forward(bytes) && bytes@ == chunk,
            None => step is Stop,
        },
{
    match read {
        Some(n) => {
            if 0 < n && n <= buffer.len() {
                let chunk = slice_to_vec(&buffer[0..n]);
                proof {
                    assert(buffer@.subrange(0, n as int) =~= buffer@.take(n as int));
                }
                PumpStep::Forward(chunk)
            } else {
                PumpStep::Stop
            }
        },
        None => PumpStep::Stop,
    }
}

} // verus!
