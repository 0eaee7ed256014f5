//! Reading the target's memory: the order in which the read strategies are
//! tried, and what a read of the playback field yields.

use vstd::prelude::*;
use crate::bytes::{le_u64, read_le_u64};

verus! {

/// Ways of reading another process's memory, from the cheapest.
#[derive(Clone, Copy, Debug, PartialEq, Eq, Structural)]
pub enum ReadStrategy {
    /// One vectored cross-process read call.
    VectorRead,
    /// Seek and read in the process's memory pseudo-file.
    MemFile,
    /// One word at a time through the debugging interface.
    WordRead,
}

/// Reads shorter than this go word by word instead of through the memory file.
pub const WORD_READ_LIMIT: usize = 3;

/// Length of the playback field.
pub const PLAYBACK_FIELD_LEN: usize = 8;

/// The strategies tried for a read of `len` bytes, in order; the first that
/// succeeds gives the bytes.
pub open spec fn strategies_for(len: usize) -> Seq<ReadStrategy> {
    if len < WORD_READ_LIMIT {
        seq![ReadStrategy::VectorRead, ReadStrategy::WordRead]
    } else {
        seq![ReadStrategy::VectorRead, ReadStrategy::MemFile]
    }
}

/// Lists the strategies to try, in order, for a read of `len` bytes.
pub fn read_strategies(len: usize) -> (r: Vec<ReadStrategy>)
    ensures
        r@ == strategies_for(len),
{
    if len < WORD_READ_LIMIT {
        vec![ReadStrategy::VectorRead, ReadStrategy::WordRead]
    } else {
        vec![ReadStrategy::VectorRead, ReadStrategy::MemFile]
    }
}

/// The bytes of a word-by-word read: word `i` was read at the `i`-th address,
/// and on a little-endian machine its lowest byte is the byte stored there.
pub fn bytes_from_words(words: &[i64]) -> (r: Vec<u8>)
    ensures
        r@.len() == words@.len(),
        forall|i: int| 0 <= i < words@.len() ==> #[trigger] r@[i] == (words@[i] & 0xFF) as u8,
{
    let mut r: Vec<u8> = Vec::new();
    let mut i: usize = 0;
    while i < words.len()
        invariant
            i <= words@.len(),
            r@.len() == i,
            forall|j: int| 0 <= j < i ==> #[trigger] r@[j] == (words@[j] & 0xFF) as u8,
        decreases words@.len() - i,
    {
        r.push((words[i] & 0xFF) as u8);
        i = i + 1;
    }
    r
}

/// The raw word of the playback field from the bytes read at its address, or
/// `None` when the read did not return exactly the field's eight bytes.
pub fn decode_playback_bits(bytes: &[u8]) -> (r: Option<u64>)
    ensures
        match r {
            Some(bits) => bytes@.len() == PLAYBACK_FIELD_LEN && bits == le_u64(bytes@, 0),
            None => bytes@.len() != PLAYBACK_FIELD_LEN,
        },
{
    if bytes.len() != PLAYBACK_FIELD_LEN {
        return None;
    }
    Some(read_le_u64(bytes, 0))
}

} // verus!
