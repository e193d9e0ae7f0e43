use transformer_rs::adapter::outbound::checkpoint::{check_envelope, MAGIC, VERSION};
use transformer_rs::domain::entity::value_objects::{TokenizerConfig, BOS_TOKEN, EOS_TOKEN};
use transformer_rs::domain::entity::TransformerError;
use transformer_rs::domain::use_case::generation::{top_k_len, Generation};
use transformer_rs::domain::use_case::rules::{
    check_epochs, check_scored, check_tokenizer, check_training_tokens,
};
use transformer_rs::domain::use_case::windows::training_windows;

fn message(r: Result<(), TransformerError>) -> String {
    match r {
        Err(e) => e.message(),
        Ok(()) => panic!("accepted"),
    }
}

#[test]
fn tokens_are_cut_into_shifted_windows_of_the_context() {
    let tokens: Vec<u32> = (0..10).collect();
    let windows = training_windows(&tokens, 3);
    let pairs: Vec<(Vec<u32>, Vec<u32>)> = windows
        .into_iter()
        .map(|w| (w.input, w.target))
        .collect();
    assert_eq!(
        pairs,
        vec![
            (vec![0, 1, 2], vec![1, 2, 3]),
            (vec![4, 5, 6], vec![5, 6, 7]),
            (vec![8], vec![9]),
        ]
    );
}

#[test]
fn a_final_chunk_of_one_token_gives_no_window() {
    let tokens: Vec<u32> = (0..9).collect();
    let windows = training_windows(&tokens, 3);
    assert_eq!(windows.len(), 2);
    assert!(windows.iter().all(|w| w.input.len() <= 3 && w.input.len() == w.target.len()));
    assert!(training_windows(&vec![5], 3).is_empty());
    assert!(training_windows(&vec![], 3).is_empty());
}

#[test]
fn generation_starts_with_bos_and_the_prompt() {
    let g = Generation::new(vec![104, 105], BOS_TOKEN, EOS_TOKEN, 3, 16);
    assert_eq!(g.ids(), &vec![BOS_TOKEN, 104, 105]);
    assert!(g.wants_token());
}

#[test]
fn generation_stops_after_max_tokens() {
    let mut g = Generation::new(vec![7], BOS_TOKEN, EOS_TOKEN, 2, 16);
    g.push(8);
    assert!(g.wants_token());
    g.push(9);
    assert!(!g.wants_token());
    assert_eq!(g.into_ids(), vec![BOS_TOKEN, 7, 8, 9]);
}

#[test]
fn generation_stops_at_the_end_token_and_at_the_context() {
    let mut g = Generation::new(vec![], BOS_TOKEN, EOS_TOKEN, 10, 16);
    g.push(EOS_TOKEN);
    assert!(!g.wants_token());
    assert_eq!(g.ids(), &vec![BOS_TOKEN, EOS_TOKEN]);

    let mut h = Generation::new(vec![1], BOS_TOKEN, EOS_TOKEN, 10, 3);
    h.push(2);
    assert!(!h.wants_token());
    assert_eq!(h.into_ids(), vec![BOS_TOKEN, 1, 2]);

    let long = Generation::new(vec![1, 2, 3, 4], BOS_TOKEN, EOS_TOKEN, 10, 3);
    assert!(!long.wants_token());
}

#[test]
fn generation_uses_the_tokenizers_own_frame_ids() {
    let mut g = Generation::new(vec![5, 6], 1, 2, 10, 32);
    assert_eq!(g.ids(), &vec![1, 5, 6]);
    g.push(EOS_TOKEN);
    assert!(g.wants_token());
    g.push(2);
    assert!(!g.wants_token());
    assert_eq!(g.into_ids(), vec![1, 5, 6, EOS_TOKEN, 2]);
}

#[test]
fn top_k_keeps_at_least_one_and_at_most_all() {
    assert_eq!(top_k_len(None, 5), 5);
    assert_eq!(top_k_len(Some(0), 5), 1);
    assert_eq!(top_k_len(Some(3), 5), 3);
    assert_eq!(top_k_len(Some(9), 5), 5);
}

#[test]
fn use_case_rules_name_what_failed() {
    assert!(check_epochs(1).is_ok());
    assert_eq!(message(check_epochs(0)), "invalid configuration: epochs must be positive");
    assert!(check_training_tokens(2).is_ok());
    assert_eq!(
        message(check_training_tokens(1)),
        "invalid data: training text needs at least two tokens"
    );
    assert!(check_scored(3, true).is_ok());
    assert_eq!(
        message(check_scored(0, true)),
        "invalid data: dataset produced no training windows"
    );
    assert_eq!(
        message(check_scored(0, false)),
        "invalid data: dataset produced no evaluation windows"
    );
}

#[test]
fn a_checkpoint_needs_the_tokenizer_it_was_trained_with() {
    let byte_level = TokenizerConfig::default();
    assert!(check_tokenizer(&byte_level, &TokenizerConfig::default()).is_ok());
    let mut other = TokenizerConfig::default();
    other.kind = "bpe-v1:00".to_string();
    assert_eq!(
        message(check_tokenizer(&byte_level, &other)),
        "checkpoint error: tokenizer configuration mismatch"
    );
    let mut wider = TokenizerConfig::default();
    wider.vocab_size += 1;
    assert!(!byte_level.same_as(&wider));
    assert!(byte_level.same_as(&byte_level.duplicate()));
}

#[test]
fn checkpoint_envelope_checks_magic_then_version() {
    assert_eq!(&MAGIC, b"TRRS");
    assert!(check_envelope(&MAGIC, VERSION).is_ok());
    assert_eq!(message(check_envelope(b"TRRX", 1)), "checkpoint error: wrong magic");
    assert_eq!(message(check_envelope(b"TRRX", 7)), "checkpoint error: wrong magic");
    assert_eq!(
        message(check_envelope(&MAGIC, 12)),
        "checkpoint error: unsupported version 12"
    );
}
