//! The encoder architectures behind one forward-pass interface.

use vstd::prelude::*;
use candle_core::Device;
use candle_core::Error;
use candle_core::Module;
use candle_core::Tensor;
use candle_transformers::models::bert::BertModel;
use candle_transformers::models::bert::Config as BertConfig;
use candle_transformers::models::jina_bert::BertModel as JinaBertModel;
use candle_transformers::models::jina_bert::Config as JinaBertConfig;
use crate::error::EmbedError;
use crate::tensor::dims2;
use crate::tensor::tensor_dims;
use crate::tensor::tensor_ids;
use crate::tensor::zeros;
use crate::tensor::zeros_like;

verus! {

/// `candle_transformers::models::bert::BertModel`.
#[verifier::external_type_specification]
#[verifier::external_body]
pub struct ExBertModel(BertModel);

/// `candle_transformers::models::bert::Config`.
#[verifier::external_type_specification]
#[verifier::external_body]
pub struct ExBertConfig(BertConfig);

/// `candle_transformers::models::jina_bert::BertModel`.
#[verifier::external_type_specification]
#[verifier::external_body]
pub struct ExJinaBertModel(JinaBertModel);

/// `candle_transformers::models::jina_bert::Config`.
#[verifier::external_type_specification]
#[verifier::external_body]
pub struct ExJinaBertConfig(JinaBertConfig);

/// `serde_json::Error`.
#[verifier::external_type_specification]
#[verifier::external_body]
pub struct ExJsonError(serde_json::Error);

/// The encoder architectures that can be loaded.
#[derive(Debug, Clone, Copy, PartialEq, Eq, Structural)]
pub enum EmbedderType {
    Bert,
    JinaBert,
}

/// A model that turns a matrix of token ids, one row per sequence, into
/// hidden states of shape `[sequences, tokens, hidden]`.
///
/// Whatever else an architecture's forward pass needs, the implementation
/// supplies itself.
pub trait EmbedderModel: Send + Sync {
    /// The size of the vector that the model makes of a token, where the
    /// model vouches for one. A model that says nothing vouches for nothing.
    open spec fn hidden_size(&self) -> Option<usize> {
        None
    }

    /// Where the model vouches for a hidden size, hidden states of rank
    /// three hold vectors of that size.
    fn inner_forward(&self, token_ids: &Tensor) -> (r: Result<Tensor, EmbedError>)
        ensures
            r matches Ok(hidden_states) ==> (self.hidden_size() matches Some(hidden)
                ==> (tensor_dims(hidden_states).len() == 3 ==> tensor_dims(hidden_states)[2]
                == hidden)),
    ;
}

/// An architecture that can be built from a configuration.
pub trait LoadableModel: Sized {
    /// The architecture's hyper-parameters.
    type Config;

    /// Reads the hyper-parameters from the JSON text of a `config.json`.
    /// Fails with [`EmbedError::Config`] when the text does not fit the
    /// architecture's schema.
    fn parse_config(json: &str) -> (r: Result<Self::Config, EmbedError>)
        ensures
            r matches Err(e) ==> e == EmbedError::Config,
    ;

    /// The architecture's default preset.
    fn default_config() -> Self::Config;

    /// Whether the configuration has a number of attention heads that a
    /// model can be built with. Where it has not, building one is a
    /// weight-load error.
    fn attention_heads_fit(cfg: &Self::Config) -> bool;

    /// A model of the given configuration whose weights are all zero, in
    /// 32-bit floating point.
    fn zeroed_model(cfg: &Self::Config, device: &Device) -> (r: Result<
        Box<dyn EmbedderModel>,
        EmbedError,
    >)
        ensures
            r matches Err(e) ==> e == EmbedError::WeightLoad,
    ;

    /// A model of the architecture's default preset whose weights are all
    /// zero.
    fn empty_model(device: &Device) -> (r: Result<Box<dyn EmbedderModel>, EmbedError>)
        ensures
            r matches Err(e) ==> e == EmbedError::WeightLoad,
    {
        let cfg = Self::default_config();
        Self::zeroed_model(&cfg, device)
    }
}

/// The hidden states of a forward pass have the shape of the token ids, a
/// matrix, with one more dimension behind it: one vector per token.
pub open spec fn one_vector_per_token(token_ids: Tensor, hidden_states: Tensor) -> bool {
    &&& tensor_dims(token_ids).len() == 2
    &&& tensor_dims(hidden_states).len() == 3
    &&& tensor_dims(hidden_states)[0] == tensor_dims(token_ids)[0]
    &&& tensor_dims(hidden_states)[1] == tensor_dims(token_ids)[1]
}

/// What `serde_json::from_str` reads from a text as the configuration of
/// BERT; `None` for a text that does not fit the schema.
pub uninterp spec fn bert_config_of(json: Seq<char>) -> Option<BertConfig>;

/// What `serde_json::from_str` reads from a text as the configuration of the
/// Jina variant; `None` for a text that does not fit the schema.
pub uninterp spec fn jina_bert_config_of(json: Seq<char>) -> Option<JinaBertConfig>;

/// The number of attention heads in a configuration of BERT: its field
/// `num_attention_heads`.
pub uninterp spec fn bert_heads(cfg: BertConfig) -> usize;

/// The number of attention heads in a configuration of the Jina variant: its
/// field `num_attention_heads`.
pub uninterp spec fn jina_bert_heads(cfg: JinaBertConfig) -> usize;

/// The hidden size in a configuration of the Jina variant: its field
/// `hidden_size`.
pub uninterp spec fn jina_bert_hidden(cfg: JinaBertConfig) -> usize;

/// The hidden size of the configuration that a model of BERT was made from:
/// the width of its embedding tables, and so of its hidden states.
pub uninterp spec fn bert_hidden_size(model: BertModel) -> usize;

/// The hidden size of the configuration that a model of the Jina variant was
/// made from: the width of its embedding tables, and so of its hidden
/// states.
pub uninterp spec fn jina_bert_hidden_size(model: JinaBertModel) -> usize;

/// Whether a model of the Jina variant can be built with the attention heads
/// of a configuration: there has to be one at least, and no more than the
/// hidden size, which they divide among them.
pub open spec fn jina_bert_heads_fit(cfg: JinaBertConfig) -> bool {
    0 < jina_bert_heads(cfg) <= jina_bert_hidden(cfg)
}

/// The preset of `bert-base-uncased`, as the text of a `config.json`.
pub const BERT_BASE_UNCASED: &'static str =
    "{\"vocab_size\": 30522, \
     \"hidden_size\": 768, \
     \"num_hidden_layers\": 12, \
     \"num_attention_heads\": 12, \
     \"intermediate_size\": 3072, \
     \"hidden_act\": \"gelu\", \
     \"hidden_dropout_prob\": 1e-1, \
     \"max_position_embeddings\": 512, \
     \"type_vocab_size\": 2, \
     \"initializer_range\": 2e-2, \
     \"layer_norm_eps\": 1e-12, \
     \"pad_token_id\": 0, \
     \"position_embedding_type\": \"absolute\", \
     \"use_cache\": true, \
     \"classifier_dropout\": null, \
     \"model_type\": \"bert\"}";

/// The preset of `jina-embeddings-v2-base-en`, as the text of a
/// `config.json`.
pub const JINA_EMBEDDINGS_V2_BASE: &'static str =
    "{\"vocab_size\": 30528, \
     \"hidden_size\": 768, \
     \"num_hidden_layers\": 12, \
     \"num_attention_heads\": 12, \
     \"intermediate_size\": 3072, \
     \"hidden_act\": \"gelu\", \
     \"max_position_embeddings\": 8192, \
     \"type_vocab_size\": 2, \
     \"initializer_range\": 2e-2, \
     \"layer_norm_eps\": 1e-12, \
     \"pad_token_id\": 0, \
     \"position_embedding_type\": \"alibi\"}";

/// `BertModel::forward` on token ids and token type ids. It takes the ids'
/// two sizes (`dims2`) before anything else, looks up one vector of the
/// hidden size per id, and every layer ends in a layer norm over the sum of
/// its work and its own input: what comes out has the shape that went in.
#[verifier::external_body]
fn bert_forward(model: &BertModel, token_ids: &Tensor, token_type_ids: &Tensor) -> (r: Result<
    Tensor,
    Error,
>)
    ensures
        r matches Ok(hidden_states) ==> {
            &&& one_vector_per_token(*token_ids, hidden_states)
            &&& tensor_dims(hidden_states)[2] == bert_hidden_size(*model)
        },
{
    model.forward(token_ids, token_type_ids)
}

/// `Module::forward` of the Jina variant of BERT, on token ids. It takes the
/// ids' two sizes (`dims2`) before anything else, looks up one vector of the
/// hidden size per id, and every layer ends in a layer norm over the sum of
/// its work and its own input: what comes out has the shape that went in. Its softmax over
/// the tokens of a row panics where a row has no token.
#[verifier::external_body]
fn jina_bert_forward(model: &JinaBertModel, token_ids: &Tensor) -> (r: Result<Tensor, Error>)
    requires
        tensor_dims(*token_ids).len() == 2 ==> tensor_dims(*token_ids)[1] > 0,
    ensures
        r matches Ok(hidden_states) ==> {
            &&& one_vector_per_token(*token_ids, hidden_states)
            &&& tensor_dims(hidden_states)[2] == jina_bert_hidden_size(*model)
        },
{
    model.forward(token_ids)
}

/// `serde_json::from_str` into the configuration of BERT.
#[verifier::external_body]
fn bert_config_from_json(json: &str) -> (r: Result<BertConfig, serde_json::Error>)
    ensures
        match r {
            Ok(cfg) => bert_config_of(json@) == Some(cfg),
            Err(_) => bert_config_of(json@) is None,
        },
{
    serde_json::from_str(json)
}

/// `serde_json::from_str` into the configuration of the Jina variant.
#[verifier::external_body]
fn jina_bert_config_from_json(json: &str) -> (r: Result<JinaBertConfig, serde_json::Error>)
    ensures
        match r {
            Ok(cfg) => jina_bert_config_of(json@) == Some(cfg),
            Err(_) => jina_bert_config_of(json@) is None,
        },
{
    serde_json::from_str(json)
}

/// The number that a text holds under a key, if the text is a JSON object
/// with a whole number under that key: what `serde_json::from_str` into a
/// `serde_json::Value`, `Value::get` and `Value::as_u64` make of it.
pub uninterp spec fn number_named_in(json: Seq<char>, key: Seq<char>) -> Option<usize>;

/// The key under which a configuration names its attention heads.
pub const ATTENTION_HEADS: &'static str = "num_attention_heads";

/// `serde_json::from_str` into a `serde_json::Value`, of which `Value::get`
/// and `Value::as_u64` are taken. BERT's configuration keeps its fields to
/// itself, so the number of heads is read from the text the configuration
/// was read from. Where the text both names a number under
/// `num_attention_heads` and fits the schema, the number is the one the
/// configuration holds.
#[verifier::external_body]
fn number_in_json(json: &str, key: &str) -> (r: Option<usize>)
    ensures
        r == number_named_in(json@, key@),
        key@ == ATTENTION_HEADS@ ==> (r matches Some(heads) ==> (bert_config_of(json@) matches Some(
            config,
        ) ==> heads == bert_heads(config))),
{
    let value: serde_json::Value = serde_json::from_str(json).ok()?;
    usize::try_from(value.get(key)?.as_u64()?).ok()
}

/// The number that a text holds at a place, if the text is a JSON array with
/// a whole number at that place: what `serde_json::from_str` into a
/// `serde_json::Value`, `Value::get` and `Value::as_u64` make of it.
pub uninterp spec fn number_placed_in(json: Seq<char>, place: usize) -> Option<usize>;

/// The place of the attention heads where a configuration of BERT is written
/// as a row of values without names: it is the fourth field of the schema.
pub const ATTENTION_HEADS_PLACE: usize = 3;

/// `serde_json::from_str` into a `serde_json::Value`, of which `Value::get`
/// by position and `Value::as_u64` are taken. Where the text both holds a
/// number at the fourth place and fits the schema of BERT, the number is the
/// one the configuration holds: a row of values fills the schema's fields in
/// their order.
#[verifier::external_body]
fn number_at_in_json(json: &str, place: usize) -> (r: Option<usize>)
    ensures
        r == number_placed_in(json@, place),
        place == ATTENTION_HEADS_PLACE ==> (r matches Some(heads) ==> (bert_config_of(
            json@,
        ) matches Some(config) ==> heads == bert_heads(config))),
{
    let value: serde_json::Value = serde_json::from_str(json).ok()?;
    usize::try_from(value.get(place)?.as_u64()?).ok()
}

/// The field `num_attention_heads` of a configuration of the Jina variant.
#[verifier::external_body]
fn jina_bert_heads_of(cfg: &JinaBertConfig) -> (heads: usize)
    ensures
        heads == jina_bert_heads(*cfg),
{
    cfg.num_attention_heads
}

/// The field `hidden_size` of a configuration of the Jina variant.
#[verifier::external_body]
fn jina_bert_hidden_of(cfg: &JinaBertConfig) -> (hidden: usize)
    ensures
        hidden == jina_bert_hidden(*cfg),
{
    cfg.hidden_size
}

/// `Config::default` of BERT. Field by field it holds what
/// [`BERT_BASE_UNCASED`] spells out; its attention heads are twelve.
#[verifier::external_body]
fn bert_default_config() -> (cfg: BertConfig)
    ensures
        bert_config_of(BERT_BASE_UNCASED@) == Some(cfg),
        bert_heads(cfg) == 12,
{
    BertConfig::default()
}

/// `Config::v2_base` of the Jina variant. Field by field it holds what
/// [`JINA_EMBEDDINGS_V2_BASE`] spells out.
#[verifier::external_body]
fn jina_bert_base_config() -> (cfg: JinaBertConfig)
    ensures
        jina_bert_config_of(JINA_EMBEDDINGS_V2_BASE@) == Some(cfg),
{
    JinaBertConfig::v2_base()
}

/// `BertModel::load` from `VarBuilder::zeros` in 32-bit floating point: every
/// tensor the configuration asks for is handed out as zeros. Every layer
/// divides the hidden size by the number of attention heads, and panics
/// where there is none.
#[verifier::external_body]
fn bert_from_zeros(cfg: &BertConfig, device: &Device) -> (r: Result<BertModel, Error>)
    requires
        bert_heads(*cfg) > 0,
{
    BertModel::load(candle_nn::VarBuilder::zeros(candle_core::DType::F32, device), cfg)
}

/// `BertModel::new` of the Jina variant from `VarBuilder::zeros` in 32-bit
/// floating point. Every layer divides the hidden size by the number of
/// attention heads, and panics where there is none. The attention bias is
/// built with the next power of two at or above the number of heads, found
/// by doubling, which overflows where the number is beyond half the range of
/// `usize`; with no more heads than the hidden size, tensors of the hidden
/// size are made before that. The model's hidden size is the
/// configuration's.
#[verifier::external_body]
fn jina_bert_from_zeros(cfg: &JinaBertConfig, device: &Device) -> (r: Result<
    JinaBertModel,
    Error,
>)
    requires
        jina_bert_heads_fit(*cfg),
    ensures
        r matches Ok(model) ==> jina_bert_hidden_size(model) == jina_bert_hidden(*cfg),
{
    JinaBertModel::new(candle_nn::VarBuilder::zeros(candle_core::DType::F32, device), cfg)
}

/// A configuration of BERT together with its number of attention heads,
/// which the configuration itself does not let anyone read.
pub struct BertSettings {
    config: BertConfig,
    heads: usize,
}

impl BertSettings {
    #[verifier::type_invariant]
    spec fn heads_are_the_configurations(self) -> bool {
        self.heads == bert_heads(self.config)
    }

    /// The configuration.
    pub closed spec fn spec_config(self) -> BertConfig {
        self.config
    }

    /// The configuration.
    pub fn config(&self) -> (config: &BertConfig)
        ensures
            *config == self.spec_config(),
    {
        &self.config
    }

    /// The number of attention heads of the configuration.
    pub fn attention_heads(&self) -> (heads: usize)
        ensures
            heads == bert_heads(self.spec_config()),
    {
        proof {
            use_type_invariant(self);
        }
        self.heads
    }
}

/// What loading a model comes to: the model behind the forward-pass
/// interface, or a weight-load error if the weights did not fit the
/// configuration.
pub fn loaded<M: EmbedderModel + 'static>(outcome: Result<M, Error>) -> (r: Result<
    Box<dyn EmbedderModel>,
    EmbedError,
>)
    ensures
        r is Ok <==> outcome is Ok,
        r matches Err(e) ==> e == EmbedError::WeightLoad,
{
    match outcome {
        Ok(model) => Ok(Box::new(model)),
        Err(_) => Err(EmbedError::WeightLoad),
    }
}

/// The token type ids that go with token ids where every token is of the
/// first type: as many as the token ids, in the same shape, all of them
/// zero. A failure of the backend is a compute error.
pub fn zero_type_ids(token_ids: &Tensor) -> (r: Result<Tensor, EmbedError>)
    ensures
        match r {
            Ok(type_ids) => {
                &&& tensor_dims(type_ids) == tensor_dims(*token_ids)
                &&& tensor_ids(type_ids) == zeros(tensor_ids(*token_ids).len())
            },
            Err(e) => e == EmbedError::Compute,
        },
{
    match zeros_like(token_ids) {
        Ok(type_ids) => Ok(type_ids),
        Err(_) => Err(EmbedError::Compute),
    }
}

impl EmbedderModel for BertModel {
    open spec fn hidden_size(&self) -> Option<usize> {
        Some(bert_hidden_size(*self))
    }

    /// BERT takes token type ids beside the token ids: all of them zero.
    ///
    /// The token ids have to form a matrix. The hidden states hold one vector
    /// per token id; any failure is a compute error.
    fn inner_forward(&self, token_ids: &Tensor) -> (r: Result<Tensor, EmbedError>)
        ensures
            match r {
                Ok(hidden_states) => one_vector_per_token(*token_ids, hidden_states)
                    && tensor_dims(hidden_states)[2] == bert_hidden_size(*self),
                Err(e) => e == EmbedError::Compute,
            },
    {
        let token_type_ids = zero_type_ids(token_ids)?;
        match bert_forward(self, token_ids, &token_type_ids) {
            Ok(hidden_states) => Ok(hidden_states),
            Err(_) => Err(EmbedError::Compute),
        }
    }
}

impl EmbedderModel for JinaBertModel {
    open spec fn hidden_size(&self) -> Option<usize> {
        Some(jina_bert_hidden_size(*self))
    }

    /// The token ids have to form a matrix whose rows hold at least one
    /// token. The hidden states hold one vector per token id; any failure is
    /// a compute error.
    fn inner_forward(&self, token_ids: &Tensor) -> (r: Result<Tensor, EmbedError>)
        ensures
            match r {
                Ok(hidden_states) => one_vector_per_token(*token_ids, hidden_states)
                    && tensor_dims(*token_ids)[1] > 0 && tensor_dims(hidden_states)[2]
                    == jina_bert_hidden_size(*self),
                Err(e) => e == EmbedError::Compute,
            },
    {
        match dims2(token_ids) {
            Ok((_, tokens)) => {
                if tokens == 0 {
                    return Err(EmbedError::Compute);
                }
            },
            Err(_) => {
                return Err(EmbedError::Compute);
            },
        }
        match jina_bert_forward(self, token_ids) {
            Ok(hidden_states) => Ok(hidden_states),
            Err(_) => Err(EmbedError::Compute),
        }
    }
}

impl LoadableModel for BertModel {
    type Config = BertSettings;

    /// The configuration that the text spells out, be it written as an
    /// object with named fields or as a row of values. A text that does not
    /// fit the schema of BERT is a configuration error, and so is one in
    /// which the number of attention heads is not to be found.
    fn parse_config(json: &str) -> (r: Result<BertSettings, EmbedError>)
        ensures
            r is Ok <==> bert_config_of(json@) is Some && (number_named_in(
                json@,
                ATTENTION_HEADS@,
            ) is Some || number_placed_in(json@, ATTENTION_HEADS_PLACE) is Some),
            match r {
                Ok(settings) => bert_config_of(json@) == Some(settings.spec_config()),
                Err(e) => e == EmbedError::Config,
            },
    {
        let config = match bert_config_from_json(json) {
            Ok(config) => config,
            Err(_) => {
                return Err(EmbedError::Config);
            },
        };
        match number_in_json(json, ATTENTION_HEADS) {
            Some(heads) => Ok(BertSettings { config, heads }),
            None => match number_at_in_json(json, ATTENTION_HEADS_PLACE) {
                Some(heads) => Ok(BertSettings { config, heads }),
                None => Err(EmbedError::Config),
            },
        }
    }

    /// The preset of `bert-base-uncased`: the configuration that
    /// [`BERT_BASE_UNCASED`] spells out.
    fn default_config() -> (settings: BertSettings)
        ensures
            bert_config_of(BERT_BASE_UNCASED@) == Some(settings.spec_config()),
    {
        BertSettings { config: bert_default_config(), heads: 12 }
    }

    /// BERT needs one attention head at least.
    fn attention_heads_fit(cfg: &BertSettings) -> (fit: bool)
        ensures
            fit == (bert_heads(cfg.spec_config()) > 0),
    {
        cfg.attention_heads() > 0
    }

    /// A model cannot be built without attention heads: that is a
    /// weight-load error.
    fn zeroed_model(cfg: &BertSettings, device: &Device) -> (r: Result<
        Box<dyn EmbedderModel>,
        EmbedError,
    >)
        ensures
            bert_heads(cfg.spec_config()) == 0 ==> r is Err,
    {
        if !Self::attention_heads_fit(cfg) {
            return Err(EmbedError::WeightLoad);
        }
        loaded(bert_from_zeros(cfg.config(), device))
    }
}

impl LoadableModel for JinaBertModel {
    type Config = JinaBertConfig;

    /// The configuration that the text spells out, and a configuration error
    /// for a text that does not fit the schema of the Jina variant.
    fn parse_config(json: &str) -> (r: Result<JinaBertConfig, EmbedError>)
        ensures
            r == match jina_bert_config_of(json@) {
                Some(cfg) => Ok::<JinaBertConfig, EmbedError>(cfg),
                None => Err(EmbedError::Config),
            },
    {
        match jina_bert_config_from_json(json) {
            Ok(cfg) => Ok(cfg),
            Err(_) => Err(EmbedError::Config),
        }
    }

    /// The preset of `jina-embeddings-v2-base-en`: the configuration that
    /// [`JINA_EMBEDDINGS_V2_BASE`] spells out.
    fn default_config() -> (cfg: JinaBertConfig)
        ensures
            jina_bert_config_of(JINA_EMBEDDINGS_V2_BASE@) == Some(cfg),
    {
        jina_bert_base_config()
    }

    /// The Jina variant needs one attention head at least, and no more than
    /// its hidden size.
    fn attention_heads_fit(cfg: &JinaBertConfig) -> (fit: bool)
        ensures
            fit == jina_bert_heads_fit(*cfg),
    {
        let heads = jina_bert_heads_of(cfg);
        0 < heads && heads <= jina_bert_hidden_of(cfg)
    }

    /// A model cannot be built without attention heads, nor with more of
    /// them than the hidden size: that is a weight-load error.
    fn zeroed_model(cfg: &JinaBertConfig, device: &Device) -> (r: Result<
        Box<dyn EmbedderModel>,
        EmbedError,
    >)
        ensures
            !jina_bert_heads_fit(*cfg) ==> r is Err,
    {
        if !Self::attention_heads_fit(cfg) {
            return Err(EmbedError::WeightLoad);
        }
        loaded(jina_bert_from_zeros(cfg, device))
    }
}

} // verus!
