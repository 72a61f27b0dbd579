//! Token accounting of a batch.

use vstd::prelude::*;

verus! {

/// Token accounting attached to one encoded batch.
#[derive(Debug, Clone, Copy, PartialEq, Eq, Structural)]
pub struct Usage {
    /// The number of sequences in the batch. This counts sequences, not the
    /// tokens they hold.
    pub prompt_tokens: u32,
    /// `prompt_tokens` plus the length every sequence was padded to.
    pub total_tokens: u32,
}

/// The accounting of a batch of `sequences` rows padded to `padded_len`
/// tokens, where both numbers fit the record.
pub open spec fn usage_of(sequences: nat, padded_len: nat) -> Option<Usage> {
    if sequences + padded_len <= u32::MAX {
        Some(
            Usage {
                prompt_tokens: sequences as u32,
                total_tokens: (sequences + padded_len) as u32,
            },
        )
    } else {
        None
    }
}

impl Usage {
    /// Accounts for a batch of `sequences` rows padded to `padded_len` tokens.
    /// Returns `None` when the total does not fit in 32 bits.
    pub fn for_batch(sequences: usize, padded_len: usize) -> (usage: Option<Usage>)
        ensures
            usage == usage_of(sequences as nat, padded_len as nat),
    {
        if sequences > u32::MAX as usize {
            return None;
        }
        if padded_len > u32::MAX as usize {
            return None;
        }
        let prompt_tokens: u32 = sequences as u32;
        match prompt_tokens.checked_add(padded_len as u32) {
            Some(total_tokens) => Some(Usage { prompt_tokens, total_tokens }),
            None => None,
        }
    }
}

} // verus!
