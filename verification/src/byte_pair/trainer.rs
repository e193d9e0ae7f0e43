//! The BPE trainer's configuration and its validation.
use vstd::prelude::*;
use vstd::string::*;
use tokenizers::models::bpe::BPE;
use crate::byte_pair::backend::{
    no_dropout, str_views, token_id, tokenizer_around, train_model, trained_bpe, untrained_bpe,
    untrained_model, whitespace_split,
};
use crate::byte_pair::tokenizer::{
    first_missing_special, loaded, special_names, tokenizer_error, BpeError, SPECIAL_TOKENS,
};

verus! {

/// How a BPE vocabulary is trained.
#[derive(Clone, Debug, PartialEq, Eq, Structural)]
pub struct BpeTrainerConfig {
    pub vocab_size: usize,
    pub min_frequency: u64,
    pub show_progress: bool,
}

impl Default for BpeTrainerConfig {
    fn default() -> (c: Self)
        ensures
            c == (BpeTrainerConfig { vocab_size: 1000, min_frequency: 2, show_progress: true }),
    {
        BpeTrainerConfig { vocab_size: 1000, min_frequency: 2, show_progress: true }
    }
}

/// A trainer with a configuration it accepts.
pub struct BpeTrainer {
    config: BpeTrainerConfig,
}

/// The output file of a training run that already exists.
#[derive(Clone, Copy, Debug, PartialEq, Eq, Structural)]
pub enum OutputFile {
    Vocab,
    Merges,
}

impl BpeTrainer {
    /// The trainer's configuration.
    pub closed spec fn settings(&self) -> BpeTrainerConfig {
        self.config
    }

    /// Accepts a configuration whose vocabulary can hold the four special
    /// tokens and whose minimum pair frequency is positive.
    pub fn new(config: BpeTrainerConfig) -> (r: Result<Self, BpeError>)
        ensures
            config.vocab_size < 4 ==> (r matches Err(BpeError::InvalidConfig(m)) && m@
                == "vocab_size must be at least 4"@),
            config.vocab_size >= 4 && config.min_frequency == 0 ==> (r matches Err(
                BpeError::InvalidConfig(m),
            ) && m@ == "min_frequency must be positive"@),
            config.vocab_size >= 4 && config.min_frequency > 0 ==> (r matches Ok(t)
                && t.settings() == config),
    {
        if config.vocab_size < 4 {
            return Err(BpeError::InvalidConfig(String::from_str("vocab_size must be at least 4")));
        }
        if config.min_frequency == 0 {
            return Err(BpeError::InvalidConfig(String::from_str("min_frequency must be positive")));
        }
        Ok(BpeTrainer { config })
    }

    /// The trainer's configuration.
    pub fn config(&self) -> (c: &BpeTrainerConfig)
        ensures
            *c == self.settings(),
    {
        &self.config
    }

    /// The model `train_text` learns from `text` with this configuration.
    pub open spec fn trained_on(&self, text: Seq<char>) -> BPE {
        trained_bpe(
            untrained_bpe("[UNK]"@),
            text,
            self.settings().vocab_size,
            self.settings().min_frequency,
            special_names(),
        )
    }

    /// Trains a BPE vocabulary on `text`: a model whose unknown token is
    /// `[UNK]`, whitespace pre-tokenization, and a trainer with this
    /// configuration and the four special tokens. Training always succeeds;
    /// the trained model has no merge dropout and holds every special token.
    pub fn train_text(&self, text: &str) -> (r: Result<BPE, BpeError>)
        ensures
            r matches Ok(m) && m == self.trained_on(text@) && no_dropout(m)
                && first_missing_special(loaded(m)) is None,
            r matches Ok(m) && m == trained_bpe(
                untrained_bpe("[UNK]"@),
                text@,
                self.settings().vocab_size,
                self.settings().min_frequency,
                special_names(),
            ),
    {
        proof {
            reveal_strlit("[UNK]");
            reveal_strlit("[BOS]");
            reveal_strlit("[EOS]");
            reveal_strlit("[PAD]");
        }
        let specials = SPECIAL_TOKENS;
        assert(str_views(specials@) =~= special_names());
        let model = match untrained_model(specials[0]) {
            Ok(m) => m,
            Err(message) => {
                return Err(tokenizer_error(message));
            },
        };
        match train_model(
            model,
            text,
            self.config.vocab_size,
            self.config.min_frequency,
            self.config.show_progress,
            &specials,
        ) {
            Ok(m) => {
                assert(specials@[0]@ == special_names()[0]);
                assert(specials@[1]@ == special_names()[1]);
                assert(specials@[2]@ == special_names()[2]);
                assert(specials@[3]@ == special_names()[3]);
                assert(token_id(loaded(m), specials@[0]@) is Some);
                assert(token_id(loaded(m), specials@[1]@) is Some);
                assert(token_id(loaded(m), specials@[2]@) is Some);
                assert(token_id(loaded(m), specials@[3]@) is Some);
                Ok(m)
            },
            Err(message) => Err(tokenizer_error(message)),
        }
    }

    /// Which existing output file stops a training run: none when `force`
    /// allows overwriting, else the vocabulary file before the merges file.
    pub fn blocking_output(force: bool, vocab_exists: bool, merges_exists: bool) -> (r: Option<OutputFile>)
        ensures
            force ==> r is None,
            !force && vocab_exists ==> r == Some(OutputFile::Vocab),
            !force && !vocab_exists && merges_exists ==> r == Some(OutputFile::Merges),
            !force && !vocab_exists && !merges_exists ==> r is None,
    {
        if force {
            None
        } else if vocab_exists {
            Some(OutputFile::Vocab)
        } else if merges_exists {
            Some(OutputFile::Merges)
        } else {
            None
        }
    }
}

/// A trainer trains with its own configuration: the model it learns from a
/// text is BPE training of the `[UNK]` model on that text with exactly the
/// vocabulary size and minimum pair frequency it was created with (and the
/// four special tokens), so trainers that differ only in their minimum
/// frequency train with their own values.
pub proof fn lemma_training_uses_the_configuration(config: BpeTrainerConfig, t: BpeTrainer, text: Seq<char>)
    requires
        t.settings() == config,
    ensures
        t.trained_on(text) == trained_bpe(
            untrained_bpe("[UNK]"@),
            text,
            config.vocab_size,
            config.min_frequency,
            special_names(),
        ),
{
}

} // verus!
