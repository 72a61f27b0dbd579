//! The batch encoder: from sentences to one embedding per sentence.
//!
//! The numbers inside a tensor are out of reach of the contracts here. What
//! they state is how many embeddings come back, what shape they have, what
//! the accounting says, and which error stands for which failure.

use vstd::prelude::*;
use candle_core::Device;
use candle_core::Tensor;
use tokenizers::Tokenizer;
use crate::error::EmbedError;
use crate::model::EmbedderModel;
use crate::tensor::broadcast_div;
use crate::tensor::byte_rows;
use crate::tensor::dims3;
use crate::tensor::equals_zero;
use crate::tensor::ids_tensor;
use crate::tensor::is_float;
use crate::tensor::mean_over;
use crate::tensor::sqr;
use crate::tensor::sqrt;
use crate::tensor::stack_rows;
use crate::tensor::sum_keepdim_over;
use crate::tensor::tensor_dims;
use crate::tensor::tensor_ids;
use crate::tensor::tensor_is_float;
use crate::tokenize::can_truncate;
use crate::tokenize::encode_batch_ids;
use crate::tokenize::truncates_soundly;
use crate::usage::usage_of;
use crate::usage::Usage;

verus! {

/// The axis of hidden states along which the tokens of a sequence lie.
pub const TOKENS: usize = 1;

/// The axis of a matrix along which the numbers of a row lie.
pub const COLUMNS: usize = 1;

/// Every row holds `width` ids.
pub open spec fn rectangular(rows: Seq<Vec<u32>>, width: nat) -> bool {
    forall|i: int| 0 <= i < rows.len() ==> (#[trigger] rows[i]).len() == width
}

/// The ids of all rows, one row after the other.
pub open spec fn row_major(rows: Seq<Vec<u32>>) -> Seq<u32> {
    rows.map_values(|row: Vec<u32>| row@).flatten()
}

/// Some flag is set.
pub open spec fn any_flag(flags: Seq<Vec<u8>>) -> bool {
    exists|i: int, j: int|
        0 <= i < flags.len() && 0 <= j < flags[i].len() && #[trigger] flags[i][j] != 0
}

/// Stacks rows of token ids into one matrix of shape `[rows, width]` whose
/// row `i` holds the ids of `rows[i]`.
///
/// An empty batch and rows of different lengths are compute errors, as is any
/// failure of the backend.
pub fn token_matrix(rows: &Vec<Vec<u32>>, device: &Device) -> (r: Result<Tensor, EmbedError>)
    ensures
        match r {
            Ok(matrix) => {
                &&& rows.len() > 0
                &&& rectangular(rows@, rows[0].len() as nat)
                &&& tensor_dims(matrix) == seq![rows.len(), rows[0].len()]
                &&& tensor_ids(matrix) == row_major(rows@)
            },
            Err(e) => e == EmbedError::Compute,
        },
{
    let mut tensors: Vec<Tensor> = Vec::new();
    let mut i: usize = 0;
    while i < rows.len()
        invariant
            i <= rows.len(),
            tensors.len() == i,
            forall|k: int|
                0 <= k < i ==> tensor_dims(#[trigger] tensors[k]) == seq![rows[k].len()]
                    && tensor_ids(tensors[k]) == rows[k]@,
        decreases rows.len() - i,
    {
        match ids_tensor(&rows[i], device) {
            Ok(row) => tensors.push(row),
            Err(_) => {
                return Err(EmbedError::Compute);
            },
        }
        i += 1;
    }
    match stack_rows(&tensors) {
        Ok(matrix) => {
            proof {
                // Rows of one shape are rows of one length.
                assert forall|k: int| 0 <= k < rows.len() implies (#[trigger] rows@[k]).len()
                    == rows[0].len() by {
                    assert(tensor_dims(tensors[k]) == tensor_dims(tensors[0]));
                    assert(seq![rows[k].len()][0] == seq![rows[0].len()][0]);
                }
                assert(tensor_dims(matrix) =~= seq![rows.len(), rows[0].len()]);
                // Every row's tensor holds the row's ids.
                assert(tensors@.map_values(|row: Tensor| tensor_ids(row)) =~= rows@.map_values(
                    |row: Vec<u32>| row@,
                ));
            }
            Ok(matrix)
        },
        Err(_) => Err(EmbedError::Compute),
    }
}

/// Whether some flag is set.
pub fn has_flag(flags: &Vec<Vec<u8>>) -> (found: bool)
    ensures
        found == any_flag(flags@),
{
    let mut i: usize = 0;
    while i < flags.len()
        invariant
            i <= flags.len(),
            forall|a: int, b: int| 0 <= a < i && 0 <= b < flags[a].len() ==> flags[a][b] == 0,
        decreases flags.len() - i,
    {
        let row = &flags[i];
        let mut j: usize = 0;
        while j < row.len()
            invariant
                i < flags.len(),
                row == flags[i as int],
                j <= row.len(),
                forall|a: int, b: int| 0 <= a < i && 0 <= b < flags[a].len() ==> flags[a][b] == 0,
                forall|b: int| 0 <= b < j ==> row[b] == 0,
            decreases row.len() - j,
        {
            if row[j] != 0 {
                return true;
            }
            j += 1;
        }
        i += 1;
    }
    false
}

/// Divides the rows of `v` by their norms, given the norms as a column and,
/// per norm, the flag that says whether it is zero.
///
/// A row whose norm is zero cannot be scaled to unit length. Wherever a flag
/// is set, the whole batch is refused with a compute error, rather than
/// handing out a row of undefined numbers.
pub fn unit_rows(v: &Tensor, norms: &Tensor, zero_norms: &Vec<Vec<u8>>) -> (r: Result<
    Tensor,
    EmbedError,
>)
    ensures
        any_flag(zero_norms@) ==> r is Err,
        !tensor_is_float(*v) || !tensor_is_float(*norms) ==> r is Err,
        r matches Err(e) ==> e == EmbedError::Compute,
        r matches Ok(unit) ==> tensor_is_float(unit),
        r matches Ok(unit) ==> (tensor_dims(*v).len() == 2 && tensor_dims(*norms) == seq![
            tensor_dims(*v)[0],
            1,
        ] ==> tensor_dims(unit) == tensor_dims(*v)),
{
    if has_flag(zero_norms) {
        return Err(EmbedError::Compute);
    }
    if !is_float(v) || !is_float(norms) {
        return Err(EmbedError::Compute);
    }
    match broadcast_div(v, norms) {
        Ok(unit) => Ok(unit),
        Err(_) => Err(EmbedError::Compute),
    }
}

/// Divides every row of a matrix of floating-point numbers by its Euclidean
/// norm.
///
/// A row whose norm comes out as zero is a compute error for the whole
/// batch, as [`unit_rows`] has it; so is a tensor of integers.
pub fn normalize_l2(v: &Tensor) -> (r: Result<Tensor, EmbedError>)
    ensures
        match r {
            Ok(unit) => {
                &&& tensor_is_float(*v)
                &&& tensor_is_float(unit)
                &&& tensor_dims(*v).len() == 2
                &&& tensor_dims(unit) == tensor_dims(*v)
            },
            Err(e) => e == EmbedError::Compute,
        },
{
    if !is_float(v) {
        return Err(EmbedError::Compute);
    }
    let squares = match sqr(v) {
        Ok(t) => t,
        Err(_) => {
            return Err(EmbedError::Compute);
        },
    };
    let sums = match sum_keepdim_over(&squares, COLUMNS) {
        Ok(t) => t,
        Err(_) => {
            return Err(EmbedError::Compute);
        },
    };
    let norms = match sqrt(&sums) {
        Ok(t) => t,
        Err(_) => {
            return Err(EmbedError::Compute);
        },
    };
    let zero_norms = match equals_zero(&norms) {
        Ok(t) => t,
        Err(_) => {
            return Err(EmbedError::Compute);
        },
    };
    let flags = match byte_rows(&zero_norms) {
        Ok(rows) => rows,
        Err(_) => {
            return Err(EmbedError::Compute);
        },
    };
    proof {
        assert(tensor_dims(norms) =~= seq![tensor_dims(*v)[0], 1]);
    }
    unit_rows(v, &norms, &flags)
}

/// Finishes pooled embeddings: hands them out as they are, or, if asked to
/// normalize, with every row scaled to unit length as [`normalize_l2`] has
/// it.
pub fn finish(mean: Tensor, normalize: bool) -> (r: Result<Tensor, EmbedError>)
    ensures
        !normalize ==> r == Ok::<Tensor, EmbedError>(mean),
        normalize ==> match r {
            Ok(unit) => {
                &&& tensor_is_float(mean)
                &&& tensor_is_float(unit)
                &&& tensor_dims(mean).len() == 2
                &&& tensor_dims(unit) == tensor_dims(mean)
            },
            Err(e) => e == EmbedError::Compute,
        },
{
    if normalize {
        normalize_l2(&mean)
    } else {
        Ok(mean)
    }
}

/// Reduces hidden states of shape `[sequences, padded_len, hidden]` to one
/// vector per sequence: the mean over the token axis, padding positions
/// included, and after that, if asked for, scaled to unit length.
///
/// Hidden states of any other shape, and hidden states that are not
/// floating-point numbers, are a compute error.
pub fn pool(hidden_states: &Tensor, sequences: usize, padded_len: usize, normalize: bool) -> (r:
    Result<Tensor, EmbedError>)
    ensures
        match r {
            Ok(embeddings) => {
                &&& tensor_is_float(*hidden_states)
                &&& tensor_is_float(embeddings)
                &&& tensor_dims(*hidden_states).len() == 3
                &&& tensor_dims(*hidden_states)[0] == sequences
                &&& tensor_dims(*hidden_states)[1] == padded_len
                &&& tensor_dims(embeddings) == seq![sequences, tensor_dims(*hidden_states)[2]]
            },
            Err(e) => e == EmbedError::Compute,
        },
{
    let (n, tokens, _hidden) = match dims3(hidden_states) {
        Ok(dims) => dims,
        Err(_) => {
            return Err(EmbedError::Compute);
        },
    };
    if n != sequences || tokens != padded_len || !is_float(hidden_states) {
        return Err(EmbedError::Compute);
    }
    let mean = match mean_over(hidden_states, TOKENS) {
        Ok(t) => t,
        Err(_) => {
            return Err(EmbedError::Compute);
        },
    };
    finish(mean, normalize)
}

/// Encodes rows of token ids that a tokenizer produced: stacks them, runs the
/// model, pools, and accounts for the batch.
///
/// The batch has to hold at least one row and all rows the same number of
/// ids; the model has to answer with hidden states of shape
/// `[rows, width, hidden]`; the accounting has to fit in 32 bits. Anything
/// else is a compute error.
pub fn encode_rows<M: EmbedderModel + ?Sized>(
    model: &M,
    rows: &Vec<Vec<u32>>,
    normalize: bool,
    device: &Device,
) -> (r: Result<(Tensor, Usage), EmbedError>)
    ensures
        match r {
            Ok((embeddings, usage)) => {
                &&& rows.len() > 0
                &&& rectangular(rows@, rows[0].len() as nat)
                &&& tensor_is_float(embeddings)
                &&& tensor_dims(embeddings).len() == 2
                &&& tensor_dims(embeddings)[0] == rows.len()
                &&& model.hidden_size() matches Some(hidden) ==> tensor_dims(embeddings)[1]
                    == hidden
                &&& usage_of(rows.len() as nat, rows[0].len() as nat) == Some(usage)
            },
            Err(e) => e == EmbedError::Compute,
        },
{
    let token_ids = token_matrix(rows, device)?;
    let padded_len = rows[0].len();
    let hidden_states = match model.inner_forward(&token_ids) {
        Ok(t) => t,
        Err(_) => {
            return Err(EmbedError::Compute);
        },
    };
    let embeddings = pool(&hidden_states, rows.len(), padded_len, normalize)?;
    match Usage::for_batch(rows.len(), padded_len) {
        Some(usage) => Ok((embeddings, usage)),
        None => Err(EmbedError::Compute),
    }
}

/// Encodes what a tokenizer made of a batch: its rows of token ids, or
/// nothing where it failed.
///
/// A failure of the tokenizer is a tokenization error, and the model is not
/// run. Rows are encoded as [`encode_rows`] has it, and whatever fails there
/// is a compute error.
pub fn encode_tokenized<M: EmbedderModel + ?Sized>(
    model: &M,
    tokenized: Option<Vec<Vec<u32>>>,
    normalize: bool,
    device: &Device,
) -> (r: Result<(Tensor, Usage), EmbedError>)
    ensures
        tokenized is None ==> r == Err::<(Tensor, Usage), EmbedError>(EmbedError::Tokenization),
        tokenized matches Some(rows) ==> match r {
            Ok((embeddings, usage)) => {
                &&& rows.len() > 0
                &&& rectangular(rows@, rows[0].len() as nat)
                &&& tensor_is_float(embeddings)
                &&& tensor_dims(embeddings).len() == 2
                &&& tensor_dims(embeddings)[0] == rows.len()
                &&& model.hidden_size() matches Some(hidden) ==> tensor_dims(embeddings)[1]
                    == hidden
                &&& usage_of(rows.len() as nat, rows[0].len() as nat) == Some(usage)
            },
            Err(e) => e == EmbedError::Compute,
        },
{
    match tokenized {
        Some(rows) => encode_rows(model, &rows, normalize, device),
        None => Err(EmbedError::Tokenization),
    }
}

/// Turns a batch of sentences into one embedding per sentence, in the order
/// of the sentences, together with the batch's accounting.
///
/// On success the result is a matrix with one row per sentence.
/// `prompt_tokens` is the number of sentences, and `total_tokens` adds to it
/// the length the tokenizer padded the batch to. An empty batch is a compute
/// error. A tokenizer whose truncation cannot be carried out is a
/// tokenization error, as is a failure of the tokenizer on the batch.
pub fn encode_batch_with_usage<M: EmbedderModel + ?Sized>(
    model: &M,
    tokenizer: &Tokenizer,
    sentences: Vec<String>,
    normalize: bool,
    device: &Device,
) -> (r: Result<(Tensor, Usage), EmbedError>)
    ensures
        match r {
            Ok((embeddings, usage)) => {
                &&& sentences.len() > 0
                &&& truncates_soundly(*tokenizer, true)
                &&& tensor_is_float(embeddings)
                &&& tensor_dims(embeddings).len() == 2
                &&& tensor_dims(embeddings)[0] == sentences.len()
                &&& model.hidden_size() matches Some(hidden) ==> tensor_dims(embeddings)[1]
                    == hidden
                &&& exists|padded_len: nat|
                    usage_of(sentences.len() as nat, padded_len) == Some(usage)
            },
            Err(e) => e == EmbedError::Tokenization || e == EmbedError::Compute,
        },
        !truncates_soundly(*tokenizer, true) ==> r == Err::<(Tensor, Usage), EmbedError>(
            EmbedError::Tokenization,
        ),
{
    if !can_truncate(tokenizer, true) {
        return Err(EmbedError::Tokenization);
    }
    let tokenized = encode_batch_ids(tokenizer, sentences, true);
    match encode_tokenized(model, tokenized, normalize, device) {
        Ok((embeddings, usage)) => {
            proof {
                let rows = tokenized->0;
                assert(usage_of(sentences.len() as nat, rows[0].len() as nat) == Some(usage));
            }
            Ok((embeddings, usage))
        },
        Err(e) => Err(e),
    }
}

/// The embeddings of [`encode_batch_with_usage`], without the accounting.
pub fn encode_batch<M: EmbedderModel + ?Sized>(
    model: &M,
    tokenizer: &Tokenizer,
    sentences: Vec<String>,
    normalize: bool,
    device: &Device,
) -> (r: Result<Tensor, EmbedError>)
    ensures
        match r {
            Ok(embeddings) => {
                &&& sentences.len() > 0
                &&& truncates_soundly(*tokenizer, true)
                &&& tensor_is_float(embeddings)
                &&& tensor_dims(embeddings).len() == 2
                &&& tensor_dims(embeddings)[0] == sentences.len()
                &&& model.hidden_size() matches Some(hidden) ==> tensor_dims(embeddings)[1]
                    == hidden
            },
            Err(e) => e == EmbedError::Tokenization || e == EmbedError::Compute,
        },
        !truncates_soundly(*tokenizer, true) ==> r == Err::<Tensor, EmbedError>(
            EmbedError::Tokenization,
        ),
{
    match encode_batch_with_usage(model, tokenizer, sentences, normalize, device) {
        Ok((embeddings, _)) => Ok(embeddings),
        Err(e) => Err(e),
    }
}

} // verus!
