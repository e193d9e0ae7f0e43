use tokenizers::models::bpe::BPE;
use transformer_rs::byte_pair::fingerprint::fingerprint;
use transformer_rs::byte_pair::{
    tokenizer_error, BpeError, BpeTokenizer, BpeTokens, BpeTrainer, BpeTrainerConfig, OutputFile,
    SPECIAL_TOKENS,
};

fn vocab_entries() -> Vec<(&'static str, u32)> {
    vec![
        ("[UNK]", 0),
        ("[BOS]", 1),
        ("[EOS]", 2),
        ("[PAD]", 3),
        ("l", 4),
        ("o", 5),
        ("w", 6),
        ("e", 7),
        ("r", 8),
        ("n", 9),
        ("lo", 10),
        ("low", 11),
        ("er", 12),
        ("ne", 13),
        ("new", 14),
    ]
}

fn model_without(missing: &str) -> BPE {
    let mut vocab = tokenizers::models::bpe::Vocab::default();
    for (token, id) in vocab_entries() {
        if token != missing {
            vocab.insert(token.to_string(), id);
        }
    }
    let merges = vec![
        ("l".to_string(), "o".to_string()),
        ("lo".to_string(), "w".to_string()),
        ("e".to_string(), "r".to_string()),
        ("n".to_string(), "e".to_string()),
        ("ne".to_string(), "w".to_string()),
    ];
    BPE::builder()
        .vocab_and_merges(vocab, merges)
        .unk_token("[UNK]".to_string())
        .build()
        .unwrap()
}

fn tokenizer() -> BpeTokenizer {
    BpeTokenizer::from_files(model_without(""), b"abc", b"de").unwrap()
}

#[test]
fn loading_records_the_special_ids_and_the_vocabulary_size() {
    let t = tokenizer();
    let c = t.config();
    assert_eq!(c.vocab_size, 15);
    assert_eq!(
        (c.unk_token, c.bos_token, c.eos_token, c.pad_token),
        (0, 1, 2, 3)
    );
    assert!(c.vocab_size >= SPECIAL_TOKENS.len());
}

#[test]
fn the_kind_carries_the_fingerprint_of_both_files() {
    let t = tokenizer();
    let c = t.config();
    let expected = "bb20916c560837a0d3d4bda7c626818e12e8be20944518c13f5cdf9dad73bed4";
    assert_eq!(c.fingerprint, expected);
    assert_eq!(c.kind, format!("bpe-v1:{expected}"));
    assert_eq!(c.kind.len(), "bpe-v1:".len() + 64);
}

#[test]
fn fingerprint_frames_each_file_with_its_length() {
    assert_eq!(
        fingerprint(b"", b""),
        "374708fff7719dd5979ec875d56cd2286f6d3cf7ec317a3b25632aab28ec37bb"
    );
    assert_eq!(
        fingerprint(b"ab", b"cde"),
        "03a4435787af366edb660b5401f231b91243e6b7775683eeb0add28b1de6a76d"
    );
    assert_ne!(fingerprint(b"abc", b"de"), fingerprint(b"ab", b"cde"));
}

#[test]
fn a_missing_special_token_is_reported_first_by_position() {
    for (missing, name) in [
        ("[UNK]", "[UNK]"),
        ("[BOS]", "[BOS]"),
        ("[EOS]", "[EOS]"),
        ("[PAD]", "[PAD]"),
    ] {
        match BpeTokenizer::from_files(model_without(missing), b"", b"") {
            Err(BpeError::InvalidConfig(m)) => {
                assert_eq!(m, format!("BPE vocabulary is missing required token {name}"))
            }
            Err(other) => panic!("unexpected error {}", other.message()),
            Ok(_) => panic!("a vocabulary without {missing} was accepted"),
        }
    }
}

#[test]
fn sentences_are_split_into_merged_subwords() {
    let t = tokenizer();
    let tokens = t.tokenize("lower newer").unwrap();
    assert_eq!(tokens.0, vec!["low", "er", "new", "er"]);
    assert_eq!(t.encode("lower newer", false).unwrap(), vec![11, 12, 14, 12]);
    assert_eq!(t.tokens_to_ids(&tokens, false).unwrap(), vec![11, 12, 14, 12]);
}

#[test]
fn special_tokens_wrap_encoded_sentence() {
    let t = tokenizer();
    let plain = t.encode("lower newer", false).unwrap();
    let special = t.encode("lower newer", true).unwrap();
    assert_eq!(special.first(), Some(&t.config().bos_token));
    assert_eq!(special.last(), Some(&t.config().eos_token));
    assert_eq!(&special[1..special.len() - 1], plain.as_slice());
    assert_eq!(special, vec![1, 11, 12, 14, 12, 2]);
}

#[test]
fn unknown_tokens_and_explicit_tokens_map_to_unk() {
    let t = tokenizer();
    let ids = t
        .tokens_to_ids(&BpeTokens(vec!["never-seen".into()]), false)
        .unwrap();
    assert_eq!(ids, vec![t.config().unk_token]);
    assert_eq!(t.encode("z", false).unwrap(), vec![0]);
}

#[test]
fn decoding_drops_special_ids_and_joins_tokens() {
    let t = tokenizer();
    assert_eq!(t.decode(&[11]).unwrap(), "low");
    assert_eq!(t.decode(&[1, 11, 14, 2, 3, 0]).unwrap(), "low new");
    assert_eq!(t.decode(&[1, 2]).unwrap(), "");
}

#[test]
fn invalid_training_config_is_rejected() {
    for (vocab_size, min_frequency) in [(3usize, 1u64), (10, 0)] {
        assert!(matches!(
            BpeTrainer::new(BpeTrainerConfig {
                vocab_size,
                min_frequency,
                show_progress: false
            }),
            Err(BpeError::InvalidConfig(_))
        ));
    }
}

#[test]
fn training_config_messages_name_the_failed_requirement() {
    let small = BpeTrainer::new(BpeTrainerConfig {
        vocab_size: 3,
        min_frequency: 0,
        show_progress: false,
    });
    match small {
        Err(e) => assert_eq!(e.message(), "vocab_size must be at least 4"),
        Ok(_) => panic!("accepted"),
    }
    let rare = BpeTrainer::new(BpeTrainerConfig {
        vocab_size: 4,
        min_frequency: 0,
        show_progress: false,
    });
    match rare {
        Err(e) => assert_eq!(e.message(), "min_frequency must be positive"),
        Ok(_) => panic!("accepted"),
    }
    let ok = BpeTrainer::new(BpeTrainerConfig {
        vocab_size: 4,
        min_frequency: 1,
        show_progress: true,
    })
    .unwrap();
    assert_eq!(
        ok.config(),
        &BpeTrainerConfig {
            vocab_size: 4,
            min_frequency: 1,
            show_progress: true
        }
    );
}

#[test]
fn trainer_defaults() {
    assert_eq!(
        BpeTrainerConfig::default(),
        BpeTrainerConfig {
            vocab_size: 1000,
            min_frequency: 2,
            show_progress: true
        }
    );
}

#[test]
fn existing_output_is_rejected_unless_forced() {
    assert_eq!(BpeTrainer::blocking_output(false, true, true), Some(OutputFile::Vocab));
    assert_eq!(BpeTrainer::blocking_output(false, false, true), Some(OutputFile::Merges));
    assert_eq!(BpeTrainer::blocking_output(false, false, false), None);
    assert_eq!(BpeTrainer::blocking_output(true, true, true), None);
}

#[test]
fn errors_carry_their_messages() {
    match tokenizer_error("boom".to_string()) {
        BpeError::Tokenizer(m) => assert_eq!(m, "BPE tokenizer error: boom"),
        _ => panic!("wrong variant"),
    }
    let exists = BpeError::OutputExists(std::path::PathBuf::from("out/vocab.json"));
    assert_eq!(exists.message(), "output file already exists: out/vocab.json");
    let io = BpeError::from(std::io::Error::new(std::io::ErrorKind::NotFound, "gone"));
    assert!(matches!(io, BpeError::Io(_)));
    assert_eq!(io.message(), "gone");
}

#[test]
fn a_model_with_merge_dropout_is_refused() {
    let mut model = model_without("");
    model.dropout = Some(0.5);
    match BpeTokenizer::from_files(model, b"", b"") {
        Err(BpeError::InvalidConfig(m)) => assert_eq!(m, "BPE merge dropout is not supported"),
        _ => panic!("a model with merge dropout was accepted"),
    }
}
