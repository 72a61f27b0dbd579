use glowrs::error::{Artifact, EmbedError};
use glowrs::loader::LoadStage;

const STAGES: [LoadStage; 9] = [
    LoadStage::FetchWeights,
    LoadStage::FetchConfig,
    LoadStage::FetchTokenizer,
    LoadStage::ParseTokenizer,
    LoadStage::ReadConfig,
    LoadStage::ParseConfig,
    LoadStage::MapWeights,
    LoadStage::BuildModel,
    LoadStage::Ready,
];

#[test]
fn a_load_goes_through_the_stages_in_order() {
    let mut stage = LoadStage::first();
    let mut seen = vec![stage];
    while stage != LoadStage::Ready {
        stage = stage.after(true).unwrap();
        seen.push(stage);
    }
    assert_eq!(seen, STAGES.to_vec());
    assert_eq!(LoadStage::Ready.after(true), Ok(LoadStage::Ready));
    assert_eq!(LoadStage::Ready.after(false), Ok(LoadStage::Ready));
}

#[test]
fn each_stage_fails_with_its_own_error() {
    let errors: Vec<_> = STAGES.iter().map(|stage| stage.after(false)).collect();
    assert_eq!(
        errors,
        vec![
            Err(EmbedError::Repository(Artifact::Weights)),
            Err(EmbedError::Repository(Artifact::Config)),
            Err(EmbedError::Repository(Artifact::Tokenizer)),
            Err(EmbedError::Repository(Artifact::Tokenizer)),
            Err(EmbedError::Repository(Artifact::Config)),
            Err(EmbedError::Config),
            Err(EmbedError::Repository(Artifact::Weights)),
            Err(EmbedError::WeightLoad),
            Ok(LoadStage::Ready),
        ]
    );
    for stage in STAGES {
        assert_eq!(stage.failure(), stage.after(false).err());
    }
}

#[test]
fn stages_name_the_artifact_they_work_on() {
    let artifacts: Vec<_> = STAGES.iter().map(|stage| stage.artifact()).collect();
    assert_eq!(
        artifacts,
        vec![
            Some(Artifact::Weights),
            Some(Artifact::Config),
            Some(Artifact::Tokenizer),
            Some(Artifact::Tokenizer),
            Some(Artifact::Config),
            Some(Artifact::Config),
            Some(Artifact::Weights),
            None,
            None,
        ]
    );
}

#[test]
fn artifacts_have_their_file_names() {
    assert_eq!(Artifact::Weights.file_name(), "model.safetensors");
    assert_eq!(Artifact::Config.file_name(), "config.json");
    assert_eq!(Artifact::Tokenizer.file_name(), "tokenizer.json");
}

#[test]
fn errors_describe_themselves() {
    assert_eq!(
        EmbedError::Repository(Artifact::Weights).message(),
        "Model repository is not available or doesn't contain `model.safetensors`."
    );
    assert_eq!(
        EmbedError::Repository(Artifact::Config).message(),
        "Model repository doesn't contain `config.json`."
    );
    assert_eq!(
        EmbedError::Repository(Artifact::Tokenizer).message(),
        "Model repository doesn't contain `tokenizer.json`."
    );
    assert_eq!(
        EmbedError::Config.message(),
        "Failed to deserialize config.json. Make sure you have the right EmbedderModel implementation."
    );
    assert_eq!(EmbedError::WeightLoad.message(), "Something went wrong while loading the model.");
    assert_eq!(EmbedError::Tokenization.message(), "Failed to encode batch.");
    assert_eq!(EmbedError::Compute.message(), "Tensor computation failed.");
    assert_eq!(EmbedError::Delivery.message(), "The other end of the channel is gone.");
}
