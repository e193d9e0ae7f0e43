use transformer_rs::domain::entity::value_objects::{
    ModelConfig, TokenIds, TokenizerConfig, BOS_TOKEN, BYTE_VOCAB_SIZE, EOS_TOKEN, PAD_TOKEN,
};
use transformer_rs::domain::entity::TransformerError;

fn config() -> ModelConfig {
    ModelConfig {
        vocab_size: 259,
        max_seq_len: 16,
        d_model: 8,
        num_heads: 2,
        num_layers: 1,
        d_ff: 16,
    }
}

#[test]
fn token_ids_inside_the_vocabulary_are_kept() {
    let ids = TokenIds::new(vec![0, 3, 14], 15).unwrap();
    assert_eq!(ids, TokenIds(vec![0, 3, 14]));
    assert_eq!(TokenIds::new(vec![], 0).unwrap(), TokenIds(vec![]));
}

#[test]
fn token_ids_outside_the_vocabulary_are_invalid_data() {
    match TokenIds::new(vec![1, 15], 15) {
        Err(TransformerError::InvalidData(m)) => assert_eq!(m, "token is outside vocabulary"),
        other => panic!("unexpected {:?}", other),
    }
}

#[test]
fn valid_configuration_is_accepted() {
    assert!(config().validate().is_ok());
    assert!(ModelConfig::default().validate().is_ok());
}

#[test]
fn zero_dimensions_and_short_context_are_rejected() {
    for broken in [
        ModelConfig { vocab_size: 0, ..config() },
        ModelConfig { max_seq_len: 1, ..config() },
        ModelConfig { d_model: 0, ..config() },
        ModelConfig { num_heads: 0, ..config() },
        ModelConfig { num_layers: 0, ..config() },
        ModelConfig { d_ff: 0, ..config() },
    ] {
        match broken.validate() {
            Err(TransformerError::InvalidConfig(m)) => {
                assert_eq!(m, "all dimensions must be positive and max_seq_len >= 2")
            }
            other => panic!("unexpected {:?}", other),
        }
    }
}

#[test]
fn heads_must_divide_the_width() {
    match (ModelConfig { d_model: 9, ..config() }).validate() {
        Err(TransformerError::InvalidConfig(m)) => assert_eq!(m, "d_model must be divisible by num_heads"),
        other => panic!("unexpected {:?}", other),
    }
}

#[test]
fn defaults_match_the_byte_level_tokenizer() {
    let c = ModelConfig::default();
    assert_eq!(c.vocab_size, BYTE_VOCAB_SIZE);
    assert_eq!((c.max_seq_len, c.d_model, c.num_heads, c.num_layers, c.d_ff), (128, 64, 4, 2, 128));
    let t = TokenizerConfig::default();
    assert_eq!(t.kind, "byte-level-v1");
    assert_eq!(t.vocab_size, 259);
    assert_eq!((t.bos_token, t.eos_token, t.pad_token), (BOS_TOKEN, EOS_TOKEN, PAD_TOKEN));
    assert_eq!((BOS_TOKEN, EOS_TOKEN, PAD_TOKEN), (256, 257, 258));
    let copy = t.duplicate();
    assert_eq!(copy, t);
}

#[test]
fn error_messages_name_their_category() {
    assert_eq!(TransformerError::InvalidConfig("x".into()).message(), "invalid configuration: x");
    assert_eq!(TransformerError::InvalidData("y".into()).message(), "invalid data: y");
    assert_eq!(TransformerError::InvalidTensor("z".into()).message(), "invalid tensor: z");
    assert_eq!(TransformerError::Checkpoint("w".into()).message(), "checkpoint error: w");
    let io = TransformerError::from(std::io::Error::new(std::io::ErrorKind::Other, "disk"));
    assert_eq!(io.message(), "I/O error: disk");
}
