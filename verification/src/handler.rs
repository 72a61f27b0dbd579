//! What a worker runs on the requests of its queue.

use vstd::prelude::*;
use candle_core::Device;
use candle_core::Tensor;
use tokenizers::Tokenizer;
use crate::encode::encode_batch_with_usage;
use crate::error::EmbedError;
use crate::model::EmbedderModel;
use crate::tensor::tensor_dims;
use crate::tensor::tensor_is_float;
use crate::tokenize::truncates_soundly;
use crate::usage::usage_of;
use crate::usage::Usage;

verus! {

/// What a worker runs on the requests of its queue. The worker is the only
/// one that ever calls it, one request at a time.
pub trait RequestHandler {
    type TReq;

    type TResp;

    fn handle(&mut self, request: Self::TReq) -> Result<Self::TResp, EmbedError>;
}

/// A batch of sentences to embed.
pub struct EmbeddingsRequest {
    pub sentences: Vec<String>,
    /// Whether every embedding is to be scaled to unit length.
    pub normalize: bool,
}

/// The embeddings of a batch, one row per sentence, and its accounting.
pub struct EmbeddingsResponse {
    pub embeddings: Tensor,
    pub usage: Usage,
}

/// The handler that embeds sentences. It owns the model and its tokenizer,
/// which nobody else gets to touch.
pub struct EmbeddingsHandler {
    model: Box<dyn EmbedderModel>,
    tokenizer: Tokenizer,
    device: Device,
}

impl EmbeddingsHandler {
    /// The size of the vectors that the handler's model makes, where the
    /// model vouches for one.
    pub closed spec fn hidden_size(&self) -> Option<usize> {
        self.model.hidden_size()
    }

    /// The tokenizer the handler encodes sentences with.
    pub closed spec fn tokenizer(&self) -> Tokenizer {
        self.tokenizer
    }

    /// The device on which the handler puts its batches together.
    pub closed spec fn device(&self) -> Device {
        self.device
    }

    /// A handler for a model, the tokenizer that goes with it, and the device
    /// on which the batches are put together.
    pub fn new(model: Box<dyn EmbedderModel>, tokenizer: Tokenizer, device: Device) -> (handler:
        Self)
        ensures
            handler.tokenizer() == tokenizer,
            handler.device() == device,
    {
        EmbeddingsHandler { model, tokenizer, device }
    }
}

impl RequestHandler for EmbeddingsHandler {
    type TReq = EmbeddingsRequest;

    type TResp = EmbeddingsResponse;

    /// Encodes the request's sentences. The handler itself stays as it is.
    fn handle(&mut self, request: EmbeddingsRequest) -> (r: Result<EmbeddingsResponse, EmbedError>)
        ensures
            final(self).hidden_size() == old(self).hidden_size(),
            final(self).tokenizer() == old(self).tokenizer(),
            final(self).device() == old(self).device(),
            !truncates_soundly(old(self).tokenizer(), true) ==> r == Err::<
                EmbeddingsResponse,
                EmbedError,
            >(EmbedError::Tokenization),
            match r {
                Ok(response) => {
                    &&& request.sentences.len() > 0
                    &&& truncates_soundly(old(self).tokenizer(), true)
                    &&& tensor_is_float(response.embeddings)
                    &&& old(self).hidden_size() matches Some(hidden) ==> tensor_dims(
                        response.embeddings,
                    )[1] == hidden
                    &&& tensor_dims(response.embeddings).len() == 2
                    &&& tensor_dims(response.embeddings)[0] == request.sentences.len()
                    &&& exists|padded_len: nat|
                        usage_of(request.sentences.len() as nat, padded_len) == Some(
                            response.usage,
                        )
                },
                Err(e) => e == EmbedError::Tokenization || e == EmbedError::Compute,
            },
    {
        let EmbeddingsRequest { sentences, normalize } = request;
        match encode_batch_with_usage(
            &*self.model,
            &self.tokenizer,
            sentences,
            normalize,
            &self.device,
        ) {
            Ok((embeddings, usage)) => Ok(EmbeddingsResponse { embeddings, usage }),
            Err(e) => Err(e),
        }
    }
}

} // verus!
