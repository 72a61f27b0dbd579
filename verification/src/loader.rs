//! The course of loading a model and its tokenizer from a repository.
//!
//! Fetching, reading and mapping files is the caller's work. What is decided
//! here is the order of the stages, which error a failure at each stage
//! stands for, and how the text of an artifact becomes a value.

use vstd::prelude::*;
use candle_core::Device;
use candle_transformers::models::bert::BertModel;
use candle_transformers::models::jina_bert::BertModel as JinaBertModel;
use tokenizers::Tokenizer;
use crate::error::Artifact;
use crate::error::EmbedError;
use crate::model::EmbedderModel;
use crate::model::EmbedderType;
use crate::model::LoadableModel;
use crate::tokenize::describes_tokenizer;
use crate::tokenize::tokenizer_from_json;

verus! {

/// The stages of a load, in the order in which they are gone through.
#[derive(Debug, Clone, Copy, PartialEq, Eq, Structural)]
pub enum LoadStage {
    /// Retrieve the weights from the repository.
    FetchWeights,
    /// Retrieve the configuration from the repository.
    FetchConfig,
    /// Retrieve the tokenizer's description from the repository.
    FetchTokenizer,
    /// Read the tokenizer's description and build the tokenizer.
    ParseTokenizer,
    /// Read the configuration's text.
    ReadConfig,
    /// Parse the configuration into the architecture's schema.
    ParseConfig,
    /// Map the weights into memory, as 32-bit floating point.
    MapWeights,
    /// Build the model from the configuration and the mapped weights.
    BuildModel,
    /// Model and tokenizer are there.
    Ready,
}

impl LoadStage {
    /// How many stages lie before this one.
    pub open spec fn position(self) -> nat {
        match self {
            LoadStage::FetchWeights => 0,
            LoadStage::FetchConfig => 1,
            LoadStage::FetchTokenizer => 2,
            LoadStage::ParseTokenizer => 3,
            LoadStage::ReadConfig => 4,
            LoadStage::ParseConfig => 5,
            LoadStage::MapWeights => 6,
            LoadStage::BuildModel => 7,
            LoadStage::Ready => 8,
        }
    }

    /// The stage that follows this one; `Ready` is followed by itself.
    pub open spec fn spec_next(self) -> LoadStage {
        match self {
            LoadStage::FetchWeights => LoadStage::FetchConfig,
            LoadStage::FetchConfig => LoadStage::FetchTokenizer,
            LoadStage::FetchTokenizer => LoadStage::ParseTokenizer,
            LoadStage::ParseTokenizer => LoadStage::ReadConfig,
            LoadStage::ReadConfig => LoadStage::ParseConfig,
            LoadStage::ParseConfig => LoadStage::MapWeights,
            LoadStage::MapWeights => LoadStage::BuildModel,
            LoadStage::BuildModel => LoadStage::Ready,
            LoadStage::Ready => LoadStage::Ready,
        }
    }

    /// The artifact this stage works on. Building the model works on what
    /// earlier stages made of the artifacts, and `Ready` on nothing.
    pub open spec fn spec_artifact(self) -> Option<Artifact> {
        match self {
            LoadStage::FetchWeights | LoadStage::MapWeights => Some(Artifact::Weights),
            LoadStage::FetchConfig | LoadStage::ReadConfig | LoadStage::ParseConfig => Some(
                Artifact::Config,
            ),
            LoadStage::FetchTokenizer | LoadStage::ParseTokenizer => Some(Artifact::Tokenizer),
            LoadStage::BuildModel | LoadStage::Ready => None,
        }
    }

    /// The error that ends the load when this stage fails. A file that is
    /// missing or cannot be read or mapped is a repository error that names
    /// the artifact; a configuration that does not fit the schema is a
    /// configuration error; weights that do not fit the configuration are a
    /// weight-load error. `Ready` has nothing left that could fail.
    pub open spec fn spec_failure(self) -> Option<EmbedError> {
        match self {
            LoadStage::ParseConfig => Some(EmbedError::Config),
            LoadStage::BuildModel => Some(EmbedError::WeightLoad),
            LoadStage::Ready => None,
            _ => Some(EmbedError::Repository(self.spec_artifact().unwrap())),
        }
    }

    /// Where the load stands after this stage ended: at the next stage if it
    /// succeeded, at its end with the stage's error if it failed.
    pub open spec fn spec_after(self, succeeded: bool) -> Result<LoadStage, EmbedError> {
        if succeeded || self == LoadStage::Ready {
            Ok(self.spec_next())
        } else {
            Err(self.spec_failure().unwrap())
        }
    }

    /// The stage a load begins with.
    pub fn first() -> (stage: LoadStage)
        ensures
            stage == LoadStage::FetchWeights,
            stage.position() == 0,
    {
        LoadStage::FetchWeights
    }

    /// The artifact this stage works on.
    pub fn artifact(self) -> (artifact: Option<Artifact>)
        ensures
            artifact == self.spec_artifact(),
    {
        match self {
            LoadStage::FetchWeights | LoadStage::MapWeights => Some(Artifact::Weights),
            LoadStage::FetchConfig | LoadStage::ReadConfig | LoadStage::ParseConfig => Some(
                Artifact::Config,
            ),
            LoadStage::FetchTokenizer | LoadStage::ParseTokenizer => Some(Artifact::Tokenizer),
            LoadStage::BuildModel | LoadStage::Ready => None,
        }
    }

    /// The error that ends the load when this stage fails.
    pub fn failure(self) -> (error: Option<EmbedError>)
        ensures
            error == self.spec_failure(),
    {
        match self {
            LoadStage::ParseConfig => Some(EmbedError::Config),
            LoadStage::BuildModel => Some(EmbedError::WeightLoad),
            LoadStage::Ready => None,
            _ => match self.artifact() {
                Some(artifact) => Some(EmbedError::Repository(artifact)),
                None => None,
            },
        }
    }

    /// Where the load stands after this stage ended.
    pub fn after(self, succeeded: bool) -> (r: Result<LoadStage, EmbedError>)
        ensures
            r == self.spec_after(succeeded),
    {
        if !succeeded {
            match self.failure() {
                Some(error) => {
                    return Err(error);
                },
                None => {},
            }
        }
        Ok(
            match self {
                LoadStage::FetchWeights => LoadStage::FetchConfig,
                LoadStage::FetchConfig => LoadStage::FetchTokenizer,
                LoadStage::FetchTokenizer => LoadStage::ParseTokenizer,
                LoadStage::ParseTokenizer => LoadStage::ReadConfig,
                LoadStage::ReadConfig => LoadStage::ParseConfig,
                LoadStage::ParseConfig => LoadStage::MapWeights,
                LoadStage::MapWeights => LoadStage::BuildModel,
                LoadStage::BuildModel => LoadStage::Ready,
                LoadStage::Ready => LoadStage::Ready,
            },
        )
    }
}

/// Builds the tokenizer from the text of a `tokenizer.json`. It succeeds on
/// every text that describes a tokenizer; any other text is a repository
/// error that names the tokenizer.
pub fn parse_tokenizer(json: &str) -> (r: Result<Tokenizer, EmbedError>)
    ensures
        r is Ok <==> describes_tokenizer(json@),
        r matches Err(e) ==> Some(e) == LoadStage::ParseTokenizer.spec_failure(),
{
    match tokenizer_from_json(json) {
        Some(tokenizer) => Ok(tokenizer),
        None => Err(EmbedError::Repository(Artifact::Tokenizer)),
    }
}

/// A zero-weighted model of the given architecture, in the architecture's
/// default preset: `bert-base-uncased` for BERT, `jina-embeddings-v2-base-en`
/// for the Jina variant.
pub fn empty_model(embedder_type: EmbedderType, device: &Device) -> (r: Result<
    Box<dyn EmbedderModel>,
    EmbedError,
>)
    ensures
        r matches Err(e) ==> e == EmbedError::WeightLoad,
{
    match embedder_type {
        EmbedderType::Bert => BertModel::empty_model(device),
        EmbedderType::JinaBert => JinaBertModel::empty_model(device),
    }
}

/// Every stage but the last leads to the next one, one place further on;
/// only `Ready` stands at the eighth place, so a load that begins at the
/// first stage and never fails is ready after eight stages, and not before.
pub proof fn law_stages_in_order(stage: LoadStage)
    ensures
        stage.spec_after(true) == Ok::<LoadStage, EmbedError>(stage.spec_next()),
        stage != LoadStage::Ready ==> stage.spec_next().position() == stage.position() + 1,
        stage.position() <= 8,
        stage.position() == 8 <==> stage == LoadStage::Ready,
{
}

/// All three artifacts are retrieved before any of them is read, and each
/// retrieval fails with an error of its own, which names the artifact that
/// is missing.
pub proof fn law_retrieval_comes_first(fetch: LoadStage, other: LoadStage)
    requires
        fetch.position() < 3,
        other.position() >= 3,
    ensures
        fetch.position() < other.position(),
        fetch.spec_artifact() is Some,
        fetch.spec_after(false) == Err::<LoadStage, EmbedError>(
            EmbedError::Repository(fetch.spec_artifact().unwrap()),
        ),
        forall|earlier: LoadStage|
            earlier.position() < 3 && earlier != fetch ==> earlier.spec_failure()
                != fetch.spec_failure(),
{
}

/// A failure ends the load with the error of the stage that failed: a
/// configuration error where the configuration is parsed and nowhere else, a
/// weight-load error where the model is built and nowhere else, and at every
/// other stage a repository error that names the artifact the stage works
/// on.
pub proof fn law_failure_ends_the_load(stage: LoadStage)
    requires
        stage != LoadStage::Ready,
    ensures
        stage.spec_failure() is Some,
        stage.spec_after(false) == Err::<LoadStage, EmbedError>(stage.spec_failure().unwrap()),
        stage.spec_failure() == Some(EmbedError::Config) <==> stage == LoadStage::ParseConfig,
        stage.spec_failure() == Some(EmbedError::WeightLoad) <==> stage == LoadStage::BuildModel,
        stage != LoadStage::ParseConfig && stage != LoadStage::BuildModel ==> stage.spec_artifact()
            is Some && stage.spec_failure() == Some(
            EmbedError::Repository(stage.spec_artifact().unwrap()),
        ),
{
}

} // verus!
