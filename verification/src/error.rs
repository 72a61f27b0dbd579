//! The failures of loading, encoding and serving.

use vstd::prelude::*;

verus! {

/// One of the three files a model repository has to provide.
#[derive(Debug, Clone, Copy, PartialEq, Eq, Structural)]
pub enum Artifact {
    /// The tensors of the model.
    Weights,
    /// The architecture's hyper-parameters.
    Config,
    /// The description of the tokenizer.
    Tokenizer,
}

/// Why a load, a batch or a delivery failed.
#[derive(Debug, Clone, Copy, PartialEq, Eq, Structural)]
pub enum EmbedError {
    /// The named artifact is missing from the repository or cannot be read.
    Repository(Artifact),
    /// The configuration does not fit the schema of the chosen architecture.
    Config,
    /// The weights do not have the names or shapes the configuration implies.
    WeightLoad,
    /// The tokenizer rejected the batch.
    Tokenization,
    /// A tensor had an unexpected shape, or the backend failed.
    Compute,
    /// The other end of a channel is gone.
    Delivery,
}

impl Artifact {
    /// The name under which the repository stores this artifact.
    pub open spec fn spec_file_name(self) -> Seq<char> {
        match self {
            Artifact::Weights => "model.safetensors"@,
            Artifact::Config => "config.json"@,
            Artifact::Tokenizer => "tokenizer.json"@,
        }
    }

    /// The name under which the repository stores this artifact.
    pub fn file_name(self) -> (name: &'static str)
        ensures
            name@ == self.spec_file_name(),
    {
        match self {
            Artifact::Weights => "model.safetensors",
            Artifact::Config => "config.json",
            Artifact::Tokenizer => "tokenizer.json",
        }
    }
}

impl EmbedError {
    /// The sentence that describes this failure to an operator.
    pub open spec fn spec_message(self) -> Seq<char> {
        match self {
            EmbedError::Repository(Artifact::Weights) =>
                "Model repository is not available or doesn't contain `model.safetensors`."@,
            EmbedError::Repository(Artifact::Config) =>
                "Model repository doesn't contain `config.json`."@,
            EmbedError::Repository(Artifact::Tokenizer) =>
                "Model repository doesn't contain `tokenizer.json`."@,
            EmbedError::Config =>
                "Failed to deserialize config.json. Make sure you have the right EmbedderModel implementation."@,
            EmbedError::WeightLoad => "Something went wrong while loading the model."@,
            EmbedError::Tokenization => "Failed to encode batch."@,
            EmbedError::Compute => "Tensor computation failed."@,
            EmbedError::Delivery => "The other end of the channel is gone."@,
        }
    }

    /// The sentence that describes this failure to an operator.
    pub fn message(self) -> (text: &'static str)
        ensures
            text@ == self.spec_message(),
    {
        match self {
            EmbedError::Repository(Artifact::Weights) =>
                "Model repository is not available or doesn't contain `model.safetensors`.",
            EmbedError::Repository(Artifact::Config) =>
                "Model repository doesn't contain `config.json`.",
            EmbedError::Repository(Artifact::Tokenizer) =>
                "Model repository doesn't contain `tokenizer.json`.",
            EmbedError::Config =>
                "Failed to deserialize config.json. Make sure you have the right EmbedderModel implementation.",
            EmbedError::WeightLoad => "Something went wrong while loading the model.",
            EmbedError::Tokenization => "Failed to encode batch.",
            EmbedError::Compute => "Tensor computation failed.",
            EmbedError::Delivery => "The other end of the channel is gone.",
        }
    }
}

} // verus!
