use transformer_rs::byte_pair::{BpeTokenizer, BpeTokens, BpeTrainer, BpeTrainerConfig, SPECIAL_TOKENS};

const CORPUS: &str = "lower lower newer newer lowest widest\n";

fn trainer(vocab_size: usize) -> BpeTrainer {
    BpeTrainer::new(BpeTrainerConfig {
        vocab_size,
        min_frequency: 1,
        show_progress: false,
    })
    .unwrap()
}

fn trained(vocab_size: usize) -> BpeTokenizer {
    let model = trainer(vocab_size).train_text(CORPUS).unwrap();
    BpeTokenizer::from_files(model, b"vocab", b"merges").unwrap()
}

#[test]
fn training_yields_a_loadable_vocabulary_with_special_tokens() {
    let tokenizer = trained(24);
    let config = tokenizer.config();
    assert!(config.vocab_size <= 24);
    assert!(config.vocab_size >= SPECIAL_TOKENS.len());
    assert_eq!(config.kind.len(), "bpe-v1:".len() + 64);
    assert_eq!(
        tokenizer
            .decode(&tokenizer.encode("lower", true).unwrap())
            .unwrap(),
        "lower"
    );
    for id in [config.unk_token, config.bos_token, config.eos_token, config.pad_token] {
        assert!((id as usize) < config.vocab_size);
    }
}

#[test]
fn trained_vocabulary_maps_unseen_tokens_to_unk() {
    let tokenizer = trained(16);
    let ids = tokenizer
        .tokens_to_ids(&BpeTokens(vec!["never-seen".into()]), false)
        .unwrap();
    assert_eq!(ids, vec![tokenizer.config().unk_token]);
}

#[test]
fn trained_sentences_encode_to_ids_inside_the_vocabulary() {
    let tokenizer = trained(24);
    for text in ["lower", "lower newer", "lowest widest"] {
        let tokens = tokenizer.tokenize(text).unwrap();
        let ids = tokenizer.encode(text, false).unwrap();
        assert_eq!(ids, tokenizer.tokens_to_ids(&tokens, false).unwrap());
        assert_eq!(ids.len(), tokens.0.len());
        assert!(ids.iter().all(|&id| (id as usize) < tokenizer.config().vocab_size));
    }
}

#[test]
fn trained_special_tokens_wrap_the_sentence() {
    let tokenizer = trained(24);
    let plain = tokenizer.encode("lower newer", false).unwrap();
    let special = tokenizer.encode("lower newer", true).unwrap();
    assert_eq!(special.first(), Some(&tokenizer.config().bos_token));
    assert_eq!(special.last(), Some(&tokenizer.config().eos_token));
    assert_eq!(&special[1..special.len() - 1], plain.as_slice());
}

#[test]
fn trained_text_roundtrips_through_encode_and_decode() {
    let tokenizer = trained(100);
    for text in ["lower", "lower newer", "lowest widest"] {
        let ids = tokenizer.encode(text, false).unwrap();
        assert!(!ids.is_empty());
        assert_eq!(tokenizer.decode(&ids).unwrap(), text);
        let special = tokenizer.encode(text, true).unwrap();
        assert_eq!(tokenizer.decode(&special).unwrap(), text);
    }
}

#[test]
fn different_corpora_give_models_of_the_same_size() {
    let a = trainer(20).train_text(CORPUS).unwrap();
    let b = trainer(20)
        .train_text("alpha alpha beta beta gamma gamma delta\n")
        .unwrap();
    let a = BpeTokenizer::from_files(a, b"first", b"").unwrap();
    let b = BpeTokenizer::from_files(b, b"second", b"").unwrap();
    assert_eq!(a.config().vocab_size, b.config().vocab_size);
    assert_ne!(a.config().fingerprint, b.config().fingerprint);
}

#[test]
fn training_depends_on_the_text_and_configuration_alone() {
    let a = trained(24);
    let b = trained(24);
    for text in ["lower newer", "lowest widest", "wider"] {
        assert_eq!(a.encode(text, true).unwrap(), b.encode(text, true).unwrap());
    }
    assert_eq!(a.config(), b.config());
}
