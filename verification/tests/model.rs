use candle_core::{Device, Tensor};
use candle_transformers::models::bert::BertModel;
use candle_transformers::models::jina_bert::BertModel as JinaBertModel;
use glowrs::encode::encode_rows;
use glowrs::error::EmbedError;
use glowrs::loader::empty_model;
use glowrs::model::{
    zero_type_ids, EmbedderModel, EmbedderType, LoadableModel, BERT_BASE_UNCASED,
    JINA_EMBEDDINGS_V2_BASE,
};
use glowrs::usage::Usage;

const BERT_CONFIG: &str = r#"{
    "architectures": ["BertModel"],
    "attention_probs_dropout_prob": 0.1,
    "hidden_act": "gelu",
    "hidden_dropout_prob": 0.1,
    "hidden_size": 384,
    "initializer_range": 0.02,
    "intermediate_size": 1536,
    "layer_norm_eps": 1e-12,
    "max_position_embeddings": 512,
    "model_type": "bert",
    "num_attention_heads": 12,
    "num_hidden_layers": 6,
    "pad_token_id": 0,
    "position_embedding_type": "absolute",
    "type_vocab_size": 2,
    "use_cache": true,
    "vocab_size": 30522
}"#;

const JINA_BERT_CONFIG: &str = r#"{
    "vocab_size": 30528,
    "hidden_size": 768,
    "num_hidden_layers": 12,
    "num_attention_heads": 12,
    "intermediate_size": 3072,
    "hidden_act": "gelu",
    "max_position_embeddings": 8192,
    "type_vocab_size": 2,
    "initializer_range": 0.02,
    "layer_norm_eps": 1e-12,
    "pad_token_id": 0,
    "position_embedding_type": "alibi"
}"#;

fn token_ids() -> Tensor {
    Tensor::new(&[[101u32, 4937, 102], [101, 3899, 102]], &Device::Cpu).unwrap()
}

fn assert_no_nan(hidden_states: &Tensor) {
    for sequence in hidden_states.to_vec3::<f32>().unwrap() {
        for token in sequence {
            for x in token {
                assert!(!x.is_nan());
            }
        }
    }
}

#[test]
fn empty_bert_model_can_run_forward() {
    let model = empty_model(EmbedderType::Bert, &Device::Cpu).unwrap();
    let hidden_states = model.inner_forward(&token_ids()).unwrap();
    assert_eq!(hidden_states.dims(), &[2, 3, 768]);
    assert_no_nan(&hidden_states);
}

const SMALL_JINA_BERT_CONFIG: &str = r#"{
    "vocab_size": 30528,
    "hidden_size": 32,
    "num_hidden_layers": 2,
    "num_attention_heads": 4,
    "intermediate_size": 64,
    "hidden_act": "gelu",
    "max_position_embeddings": 16,
    "type_vocab_size": 2,
    "initializer_range": 0.02,
    "layer_norm_eps": 1e-12,
    "pad_token_id": 0,
    "position_embedding_type": "alibi"
}"#;

#[test]
fn zeroed_jina_bert_model_can_run_forward() {
    let cfg = <JinaBertModel as LoadableModel>::parse_config(SMALL_JINA_BERT_CONFIG).unwrap();
    let model = <JinaBertModel as LoadableModel>::zeroed_model(&cfg, &Device::Cpu).unwrap();
    let hidden_states = model.inner_forward(&token_ids()).unwrap();
    assert_eq!(hidden_states.dims(), &[2, 3, 32]);
    assert_no_nan(&hidden_states);
    let rows = vec![vec![101u32, 4937, 102], vec![101, 3899, 102]];
    let (embeddings, usage) = encode_rows(model.as_ref(), &rows, false, &Device::Cpu).unwrap();
    assert_eq!(embeddings.dims(), &[2, 32]);
    assert_eq!(usage, Usage { prompt_tokens: 2, total_tokens: 5 });
}

#[test]
fn zeroed_bert_model_of_a_small_configuration() {
    let cfg = <BertModel as LoadableModel>::parse_config(BERT_CONFIG).unwrap();
    let model = <BertModel as LoadableModel>::zeroed_model(&cfg, &Device::Cpu).unwrap();
    let hidden_states = model.inner_forward(&token_ids()).unwrap();
    assert_eq!(hidden_states.dims(), &[2, 3, 384]);
    assert_no_nan(&hidden_states);
}

#[test]
fn jina_bert_without_alibi_is_a_weight_load_error() {
    let absolute = SMALL_JINA_BERT_CONFIG.replace("alibi", "absolute");
    let cfg = <JinaBertModel as LoadableModel>::parse_config(&absolute).unwrap();
    let r = <JinaBertModel as LoadableModel>::zeroed_model(&cfg, &Device::Cpu);
    assert!(matches!(r, Err(EmbedError::WeightLoad)));
}

#[test]
fn empty_models_by_architecture() {
    let bert = <BertModel as LoadableModel>::empty_model(&Device::Cpu).unwrap();
    assert_eq!(bert.inner_forward(&token_ids()).unwrap().dims(), &[2, 3, 768]);
}

#[test]
fn bert_forward_rejects_ids_outside_the_vocabulary() {
    let model = empty_model(EmbedderType::Bert, &Device::Cpu).unwrap();
    let ids = Tensor::new(&[[40000u32, 1, 2]], &Device::Cpu).unwrap();
    assert!(matches!(model.inner_forward(&ids), Err(EmbedError::Compute)));
}

#[test]
fn empty_bert_model_encodes_rows() {
    let model = empty_model(EmbedderType::Bert, &Device::Cpu).unwrap();
    let rows = vec![vec![101u32, 4937, 102, 0], vec![101, 3899, 2001, 102]];
    let (embeddings, usage) = encode_rows(model.as_ref(), &rows, false, &Device::Cpu).unwrap();
    assert_eq!(embeddings.dims(), &[2, 768]);
    assert_eq!(usage, Usage { prompt_tokens: 2, total_tokens: 6 });
    // Weights of zero give embeddings of zero, which have no direction.
    let normalized = encode_rows(model.as_ref(), &rows, true, &Device::Cpu);
    assert!(matches!(normalized, Err(EmbedError::Compute)));
}

#[test]
fn parse_config_reads_the_schema_of_its_architecture() {
    assert!(<BertModel as LoadableModel>::parse_config(BERT_CONFIG).is_ok());
    assert!(<JinaBertModel as LoadableModel>::parse_config(JINA_BERT_CONFIG).is_ok());
}

#[test]
fn parse_config_rejects_another_schema() {
    // The Jina variant's configuration lacks fields that BERT requires.
    assert!(matches!(
        <BertModel as LoadableModel>::parse_config(JINA_BERT_CONFIG),
        Err(EmbedError::Config)
    ));
    assert!(matches!(
        <JinaBertModel as LoadableModel>::parse_config("{}"),
        Err(EmbedError::Config)
    ));
    assert!(matches!(
        <BertModel as LoadableModel>::parse_config("not json"),
        Err(EmbedError::Config)
    ));
}

#[test]
fn embedder_types_are_told_apart() {
    assert_eq!(EmbedderType::Bert, EmbedderType::Bert);
    assert_ne!(EmbedderType::Bert, EmbedderType::JinaBert);
}

#[test]
fn default_configs_are_what_their_presets_spell_out() {
    let parsed = <BertModel as LoadableModel>::parse_config(BERT_BASE_UNCASED).unwrap();
    let preset = <BertModel as LoadableModel>::default_config();
    assert_eq!(parsed.config(), preset.config());
    assert_eq!(parsed.attention_heads(), 12);
    assert_eq!(preset.attention_heads(), 12);
    assert_eq!(
        <JinaBertModel as LoadableModel>::parse_config(JINA_EMBEDDINGS_V2_BASE).unwrap(),
        <JinaBertModel as LoadableModel>::default_config()
    );
}

#[test]
fn parse_config_reads_what_the_text_says() {
    let small = <BertModel as LoadableModel>::parse_config(BERT_CONFIG).unwrap();
    assert_ne!(small.config(), <BertModel as LoadableModel>::default_config().config());
    let again = <BertModel as LoadableModel>::parse_config(BERT_CONFIG).unwrap();
    assert_eq!(small.config(), again.config());
    let five = BERT_CONFIG.replace("\"num_attention_heads\": 12", "\"num_attention_heads\": 5");
    assert_eq!(<BertModel as LoadableModel>::parse_config(&five).unwrap().attention_heads(), 5);
    let jina = <JinaBertModel as LoadableModel>::parse_config(SMALL_JINA_BERT_CONFIG).unwrap();
    assert_eq!(jina.hidden_size, 32);
    assert_eq!(jina.max_position_embeddings, 16);
}

#[test]
fn forward_wants_a_matrix_of_ids() {
    let cfg = <BertModel as LoadableModel>::parse_config(BERT_CONFIG).unwrap();
    let bert = <BertModel as LoadableModel>::zeroed_model(&cfg, &Device::Cpu).unwrap();
    let cfg = <JinaBertModel as LoadableModel>::parse_config(SMALL_JINA_BERT_CONFIG).unwrap();
    let jina = <JinaBertModel as LoadableModel>::zeroed_model(&cfg, &Device::Cpu).unwrap();
    let flat = Tensor::new(&[101u32, 4937, 102], &Device::Cpu).unwrap();
    assert!(matches!(bert.inner_forward(&flat), Err(EmbedError::Compute)));
    assert!(matches!(jina.inner_forward(&flat), Err(EmbedError::Compute)));
    let cube = Tensor::new(&[[[101u32, 4937], [102, 0]]], &Device::Cpu).unwrap();
    assert!(matches!(bert.inner_forward(&cube), Err(EmbedError::Compute)));
    assert!(matches!(jina.inner_forward(&cube), Err(EmbedError::Compute)));
    let one = Tensor::new(&[[7u32]], &Device::Cpu).unwrap();
    assert_eq!(bert.inner_forward(&one).unwrap().dims(), &[1, 1, 384]);
    assert_eq!(jina.inner_forward(&one).unwrap().dims(), &[1, 1, 32]);
    // Whatever the sizes of the matrix, hidden states that come back have them too.
    for (rows, columns) in [(0, 3), (2, 0), (0, 0), (3, 1), (1, 16), (1, 17)] {
        let ids = Tensor::zeros((rows, columns), candle_core::DType::U32, &Device::Cpu).unwrap();
        if let Ok(hidden_states) = bert.inner_forward(&ids) {
            assert_eq!(hidden_states.dims(), &[rows, columns, 384]);
        }
        if let Ok(hidden_states) = jina.inner_forward(&ids) {
            assert_eq!(hidden_states.dims(), &[rows, columns, 32]);
        }
    }
    let wide = Tensor::new(&[[1u32, 2, 3, 4, 5, 6, 7]], &Device::Cpu).unwrap();
    assert_eq!(bert.inner_forward(&wide).unwrap().dims(), &[1, 7, 384]);
    assert_eq!(jina.inner_forward(&wide).unwrap().dims(), &[1, 7, 32]);
}

#[test]
fn the_presets_are_json() {
    assert!(BERT_BASE_UNCASED.starts_with("{\"vocab_size\": 30522, \"hidden_size\": 768, "));
    assert!(BERT_BASE_UNCASED.ends_with("\"model_type\": \"bert\"}"));
    assert!(JINA_EMBEDDINGS_V2_BASE.contains("\"max_position_embeddings\": 8192"));
    assert!(!BERT_BASE_UNCASED.contains('\n'));
}

#[test]
fn jina_bert_refuses_rows_without_tokens() {
    let cfg = <JinaBertModel as LoadableModel>::parse_config(SMALL_JINA_BERT_CONFIG).unwrap();
    let jina = <JinaBertModel as LoadableModel>::zeroed_model(&cfg, &Device::Cpu).unwrap();
    let ids = Tensor::zeros((2, 0), candle_core::DType::U32, &Device::Cpu).unwrap();
    assert!(matches!(jina.inner_forward(&ids), Err(EmbedError::Compute)));
    let rows: Vec<Vec<u32>> = vec![Vec::new(), Vec::new()];
    assert!(matches!(
        encode_rows(jina.as_ref(), &rows, false, &Device::Cpu),
        Err(EmbedError::Compute)
    ));
    let none = Tensor::zeros((0, 3), candle_core::DType::U32, &Device::Cpu).unwrap();
    assert_eq!(jina.inner_forward(&none).unwrap().dims(), &[0, 3, 32]);
}

#[test]
fn no_model_without_attention_heads() {
    let text = BERT_CONFIG.replace("\"num_attention_heads\": 12", "\"num_attention_heads\": 0");
    let cfg = <BertModel as LoadableModel>::parse_config(&text).unwrap();
    assert_eq!(cfg.attention_heads(), 0);
    assert!(matches!(
        <BertModel as LoadableModel>::zeroed_model(&cfg, &Device::Cpu),
        Err(EmbedError::WeightLoad)
    ));
    let text =
        SMALL_JINA_BERT_CONFIG.replace("\"num_attention_heads\": 4", "\"num_attention_heads\": 0");
    let cfg = <JinaBertModel as LoadableModel>::parse_config(&text).unwrap();
    assert!(matches!(
        <JinaBertModel as LoadableModel>::zeroed_model(&cfg, &Device::Cpu),
        Err(EmbedError::WeightLoad)
    ));
}

#[test]
fn a_bert_configuration_may_be_a_row_of_values() {
    let row = "[30522, 384, 6, 12, 1536, \"gelu\", 0.1, 512, 2, 0.02, 1e-12, 0, \"absolute\", true, null, \"bert\"]";
    let from_row = <BertModel as LoadableModel>::parse_config(row).unwrap();
    let from_object = <BertModel as LoadableModel>::parse_config(BERT_CONFIG).unwrap();
    assert_eq!(from_row.config(), from_object.config());
    assert_eq!(from_row.attention_heads(), 12);
    let seven = row.replace("6, 12, 1536", "6, 7, 1536");
    assert_eq!(<BertModel as LoadableModel>::parse_config(&seven).unwrap().attention_heads(), 7);
    assert!(matches!(
        <BertModel as LoadableModel>::parse_config("[30522, 384, 6]"),
        Err(EmbedError::Config)
    ));
}

#[test]
fn configurations_tell_whether_they_have_attention_heads() {
    let cfg = <BertModel as LoadableModel>::parse_config(BERT_CONFIG).unwrap();
    assert!(<BertModel as LoadableModel>::attention_heads_fit(&cfg));
    let none = BERT_CONFIG.replace("\"num_attention_heads\": 12", "\"num_attention_heads\": 0");
    let cfg = <BertModel as LoadableModel>::parse_config(&none).unwrap();
    assert!(!<BertModel as LoadableModel>::attention_heads_fit(&cfg));
    let cfg = <JinaBertModel as LoadableModel>::parse_config(SMALL_JINA_BERT_CONFIG).unwrap();
    assert!(<JinaBertModel as LoadableModel>::attention_heads_fit(&cfg));
    let none =
        SMALL_JINA_BERT_CONFIG.replace("\"num_attention_heads\": 4", "\"num_attention_heads\": 0");
    let cfg = <JinaBertModel as LoadableModel>::parse_config(&none).unwrap();
    assert!(!<JinaBertModel as LoadableModel>::attention_heads_fit(&cfg));
}

#[test]
fn type_ids_are_zeros_in_the_shape_of_the_token_ids() {
    let type_ids = zero_type_ids(&token_ids()).unwrap();
    assert_eq!(type_ids.dims(), &[2, 3]);
    assert_eq!(type_ids.to_vec2::<u32>().unwrap(), vec![vec![0, 0, 0], vec![0, 0, 0]]);
    let flat = Tensor::new(&[5u32, 6], &Device::Cpu).unwrap();
    assert_eq!(zero_type_ids(&flat).unwrap().to_vec1::<u32>().unwrap(), vec![0, 0]);
}

#[test]
fn jina_bert_takes_no_more_heads_than_its_hidden_size() {
    let many = SMALL_JINA_BERT_CONFIG
        .replace("\"num_attention_heads\": 4", "\"num_attention_heads\": 18446744073709551615")
        .replace("\"num_hidden_layers\": 2", "\"num_hidden_layers\": 0")
        .replace("\"max_position_embeddings\": 16", "\"max_position_embeddings\": 1");
    let cfg = <JinaBertModel as LoadableModel>::parse_config(&many).unwrap();
    assert_eq!(cfg.num_attention_heads, usize::MAX);
    assert!(!<JinaBertModel as LoadableModel>::attention_heads_fit(&cfg));
    assert!(matches!(
        <JinaBertModel as LoadableModel>::zeroed_model(&cfg, &Device::Cpu),
        Err(EmbedError::WeightLoad)
    ));
    let one_more =
        SMALL_JINA_BERT_CONFIG.replace("\"num_attention_heads\": 4", "\"num_attention_heads\": 33");
    let cfg = <JinaBertModel as LoadableModel>::parse_config(&one_more).unwrap();
    assert!(!<JinaBertModel as LoadableModel>::attention_heads_fit(&cfg));
    assert!(matches!(
        <JinaBertModel as LoadableModel>::zeroed_model(&cfg, &Device::Cpu),
        Err(EmbedError::WeightLoad)
    ));
    let as_many =
        SMALL_JINA_BERT_CONFIG.replace("\"num_attention_heads\": 4", "\"num_attention_heads\": 32");
    let cfg = <JinaBertModel as LoadableModel>::parse_config(&as_many).unwrap();
    assert!(<JinaBertModel as LoadableModel>::attention_heads_fit(&cfg));
    let model = <JinaBertModel as LoadableModel>::zeroed_model(&cfg, &Device::Cpu).unwrap();
    assert_eq!(model.inner_forward(&token_ids()).unwrap().dims(), &[2, 3, 32]);
}
