//! The tokenizer, as far as the encoder relies on it.

use vstd::prelude::*;
use tokenizers::PostProcessor;
use tokenizers::Tokenizer;

verus! {

/// `tokenizers::Tokenizer`: maps text to sequences of token ids.
#[verifier::external_type_specification]
#[verifier::external_body]
pub struct ExTokenizer(Tokenizer);

/// The limit and the stride of a tokenizer's truncation, if it truncates:
/// the fields `max_length` and `stride` of what `Tokenizer::get_truncation`
/// returns.
pub uninterp spec fn tokenizer_truncation(tokenizer: Tokenizer) -> Option<(usize, usize)>;

/// The number of special tokens that a tokenizer's post-processor adds to a
/// single sequence, if it has a post-processor: what
/// `PostProcessor::added_tokens(false)` says of
/// `Tokenizer::get_post_processor`.
pub uninterp spec fn tokenizer_added_tokens(tokenizer: Tokenizer) -> Option<usize>;

/// Whether a truncation with this limit and stride can be carried out on any
/// sequence, where `added` special tokens come on top of each sequence.
///
/// The special tokens have to find room below the limit, and unless nothing
/// is left of the limit after them, the stride has to be smaller than what
/// is left.
pub open spec fn truncation_is_sound(truncation: Option<(usize, usize)>, added: nat) -> bool {
    match truncation {
        Some((max_length, stride)) => added <= max_length && (max_length - added == 0 || stride
            < max_length - added),
        None => true,
    }
}

/// How many special tokens come on top of a sequence.
pub open spec fn added_on_top(added_tokens: Option<usize>, add_special_tokens: bool) -> nat {
    match added_tokens {
        Some(added) if add_special_tokens => added as nat,
        _ => 0,
    }
}

/// Whether the truncation a tokenizer is set to do can be carried out on any
/// sequence.
pub open spec fn truncates_soundly(tokenizer: Tokenizer, add_special_tokens: bool) -> bool {
    truncation_is_sound(
        tokenizer_truncation(tokenizer),
        added_on_top(tokenizer_added_tokens(tokenizer), add_special_tokens),
    )
}

/// `Tokenizer::get_truncation`, of which the limit and the stride are taken.
#[verifier::external_body]
fn truncation_of(tokenizer: &Tokenizer) -> (r: Option<(usize, usize)>)
    ensures
        r == tokenizer_truncation(*tokenizer),
{
    tokenizer.get_truncation().map(|truncation| (truncation.max_length, truncation.stride))
}

/// `Tokenizer::get_post_processor`, of which `PostProcessor::added_tokens`
/// for a single sequence is taken.
#[verifier::external_body]
fn added_tokens_of(tokenizer: &Tokenizer) -> (r: Option<usize>)
    ensures
        r == tokenizer_added_tokens(*tokenizer),
{
    tokenizer.get_post_processor().map(|processor| processor.added_tokens(false))
}

/// Whether a truncation with this limit and stride can be carried out.
pub fn sound_truncation(truncation: Option<(usize, usize)>, added: usize) -> (sound: bool)
    ensures
        sound == truncation_is_sound(truncation, added as nat),
{
    match truncation {
        Some((max_length, stride)) => {
            if added > max_length {
                false
            } else {
                let left = max_length - added;
                left == 0 || stride < left
            }
        },
        None => true,
    }
}

/// Whether the truncation a tokenizer is set to do can be carried out on any
/// sequence. A tokenizer read from a description may be set to a stride that
/// its limit has no room for.
pub fn can_truncate(tokenizer: &Tokenizer, add_special_tokens: bool) -> (sound: bool)
    ensures
        sound == truncates_soundly(*tokenizer, add_special_tokens),
{
    let added = match added_tokens_of(tokenizer) {
        Some(added) => if add_special_tokens {
            added
        } else {
            0
        },
        None => 0,
    };
    sound_truncation(truncation_of(tokenizer), added)
}

/// `Tokenizer::encode_batch`, each encoding reduced to its ids
/// (`Encoding::get_ids`). There is one row per sentence, in the order of the
/// sentences. Whether the rows are padded to a common length is up to the
/// tokenizer's own padding settings. Truncating a sequence panics where the
/// stride has no room below the limit.
#[verifier::external_body]
pub(crate) fn encode_batch_ids(
    tokenizer: &Tokenizer,
    sentences: Vec<String>,
    add_special_tokens: bool,
) -> (r: Option<Vec<Vec<u32>>>)
    requires
        truncates_soundly(*tokenizer, add_special_tokens),
    ensures
        r matches Some(rows) ==> rows.len() == sentences.len(),
{
    let encodings = tokenizer.encode_batch(sentences, add_special_tokens).ok()?;
    Some(encodings.iter().map(|encoding| encoding.get_ids().to_vec()).collect())
}

/// Whether `Tokenizer::from_str` reads a tokenizer from the text. The
/// tokenizer itself has no name: it holds hash maps, which every process
/// seeds for itself.
pub uninterp spec fn describes_tokenizer(json: Seq<char>) -> bool;

/// `Tokenizer::from_str`: reads a tokenizer from its JSON description.
#[verifier::external_body]
pub(crate) fn tokenizer_from_json(json: &str) -> (r: Option<Tokenizer>)
    ensures
        r is Some <==> describes_tokenizer(json@),
{
    json.parse::<Tokenizer>().ok()
}

} // verus!
