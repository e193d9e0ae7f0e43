//! The BPE tokenizer: encoding text to ids and decoding ids back.
use vstd::prelude::*;
use vstd::string::*;
use tokenizers::models::bpe::BPE;
use tokenizers::Tokenizer;
use crate::byte_pair::backend::{
    decode_ids, decoded_text, deterministic, encode_tokens, encoded_tokens, lookup_token,
    model_vocab_size, new_tokenizer, no_dropout, split_on_whitespace, string_views, token_id,
    tokenizer_around, vocab_size_of, whitespace_split, without_dropout,
};
use crate::byte_pair::fingerprint::{fingerprint, fingerprint_text};
use crate::platform::{display_path, path_text};

verus! {

/// The special tokens every BPE vocabulary holds, in the order unknown,
/// beginning of sequence, end of sequence, padding.
pub const SPECIAL_TOKENS: [&'static str; 4] = ["[UNK]", "[BOS]", "[EOS]", "[PAD]"];

/// The special tokens' texts, in `SPECIAL_TOKENS` order.
pub open spec fn special_names() -> Seq<Seq<char>> {
    seq!["[UNK]"@, "[BOS]"@, "[EOS]"@, "[PAD]"@]
}

/// The subword tokens of a text.
#[derive(Clone, Debug, PartialEq, Eq)]
pub struct BpeTokens(pub Vec<String>);

impl View for BpeTokens {
    type V = Seq<Seq<char>>;

    open spec fn view(&self) -> Seq<Seq<char>> {
        string_views(self.0@)
    }
}

/// What a loaded BPE vocabulary is: its kind (with fingerprint), size, the
/// ids of its special tokens, and the fingerprint of its files.
#[derive(Clone, Debug, PartialEq, Eq)]
pub struct BpeConfig {
    pub kind: String,
    pub vocab_size: usize,
    pub unk_token: u32,
    pub bos_token: u32,
    pub eos_token: u32,
    pub pad_token: u32,
    pub fingerprint: String,
}

/// Why a BPE operation failed.
#[derive(Debug)]
pub enum BpeError {
    Io(std::io::Error),
    InvalidConfig(String),
    Tokenizer(String),
    OutputExists(std::path::PathBuf),
}

/// The message of an error other than an I/O error.
pub open spec fn bpe_error_text(e: BpeError) -> Option<Seq<char>> {
    match e {
        BpeError::Io(_) => None,
        BpeError::InvalidConfig(m) => Some(m@),
        BpeError::Tokenizer(m) => Some(m@),
        BpeError::OutputExists(p) => Some("output file already exists: "@ + path_text(p)),
    }
}

impl BpeError {
    /// The human-readable message. An I/O error is described by the standard
    /// library's own text.
    pub fn message(&self) -> (r: String)
        ensures
            bpe_error_text(*self) matches Some(t) ==> r@ == t,
    {
        match self {
            BpeError::Io(e) => e.to_string(),
            BpeError::InvalidConfig(m) => m.clone(),
            BpeError::Tokenizer(m) => m.clone(),
            BpeError::OutputExists(p) => {
                let mut r = String::from_str("output file already exists: ");
                let shown = display_path(p);
                r.append(shown.as_str());
                r
            },
        }
    }
}

impl From<std::io::Error> for BpeError {
    fn from(value: std::io::Error) -> (r: Self) {
        BpeError::Io(value)
    }
}

impl vstd::std_specs::convert::FromSpecImpl<std::io::Error> for BpeError {
    open spec fn obeys_from_spec() -> bool {
        true
    }

    open spec fn from_spec(v: std::io::Error) -> Self {
        BpeError::Io(v)
    }
}

/// Wraps the text of a `tokenizers` error.
pub fn tokenizer_error(message: String) -> (e: BpeError)
    ensures
        e matches BpeError::Tokenizer(m) && m@ == "BPE tokenizer error: "@ + message@,
{
    let mut m = String::from_str("BPE tokenizer error: ");
    m.append(message.as_str());
    BpeError::Tokenizer(m)
}

/// The tokenizer a vocabulary model is loaded into: `Tokenizer::new` with a
/// whitespace pre-tokenizer.
pub open spec fn loaded(model: BPE) -> Tokenizer {
    whitespace_split(tokenizer_around(model))
}

/// The first special token that `t` has no id for, by its `SPECIAL_TOKENS`
/// position.
pub open spec fn first_missing_special(t: Tokenizer) -> Option<int> {
    if token_id(t, special_names()[0]) is None {
        Some(0)
    } else if token_id(t, special_names()[1]) is None {
        Some(1)
    } else if token_id(t, special_names()[2]) is None {
        Some(2)
    } else if token_id(t, special_names()[3]) is None {
        Some(3)
    } else {
        None
    }
}

/// The id of `token` in `t`, or `unk` when it has none.
pub open spec fn id_or_unk(t: Tokenizer, token: Seq<char>, unk: u32) -> u32 {
    match token_id(t, token) {
        Some(id) => id,
        None => unk,
    }
}

/// The ids of `tokens`, unknown ones mapped to `unk`.
pub open spec fn token_ids(t: Tokenizer, tokens: Seq<Seq<char>>, unk: u32) -> Seq<u32> {
    tokens.map_values(|token: Seq<char>| id_or_unk(t, token, unk))
}

/// `ids`, framed by `bos` and `eos` when `special` is set.
pub open spec fn with_specials(ids: Seq<u32>, special: bool, bos: u32, eos: u32) -> Seq<u32> {
    if special {
        seq![bos] + ids + seq![eos]
    } else {
        ids
    }
}

/// `id` is one of the four special ids of `c`.
pub open spec fn is_special_id(c: BpeConfig, id: u32) -> bool {
    id == c.unk_token || id == c.bos_token || id == c.eos_token || id == c.pad_token
}

/// `ids` without the special ids of `c`, in order.
pub open spec fn content_ids(c: BpeConfig, ids: Seq<u32>) -> Seq<u32>
    decreases ids.len(),
{
    if ids.len() == 0 {
        Seq::empty()
    } else {
        let rest = content_ids(c, ids.drop_last());
        if is_special_id(c, ids.last()) {
            rest
        } else {
            rest.push(ids.last())
        }
    }
}

/// A tokenizer together with its vocabulary's configuration.
pub struct BpeTokenizer {
    tokenizer: Tokenizer,
    config: BpeConfig,
}

fn required(t: &Tokenizer, token: &str) -> (r: Result<u32, BpeError>)
    ensures
        token_id(*t, token@) matches Some(id) ==> r == Ok::<u32, BpeError>(id),
        token_id(*t, token@) is None ==> (r matches Err(BpeError::InvalidConfig(m)) && m@
            == "BPE vocabulary is missing required token "@ + token@),
{
    match lookup_token(t, token) {
        Some(id) => Ok(id),
        None => {
            let mut m = String::from_str("BPE vocabulary is missing required token ");
            m.append(token);
            Err(BpeError::InvalidConfig(m))
        },
    }
}

impl BpeTokenizer {
    /// The tokenizer merges deterministically: it was built around a model
    /// without merge dropout.
    #[verifier::type_invariant]
    closed spec fn built_without_dropout(self) -> bool {
        deterministic(self.tokenizer)
    }

    /// The tokenizer behind this vocabulary.
    pub closed spec fn backend(&self) -> Tokenizer {
        self.tokenizer
    }

    /// The vocabulary's configuration.
    pub closed spec fn settings(&self) -> BpeConfig {
        self.config
    }

    /// Loads a vocabulary model (built from the vocabulary and merges files)
    /// into a whitespace-pretokenized tokenizer, fingerprints the two files'
    /// contents, and looks up the four special tokens; the first one missing
    /// is reported. A model with merge dropout, which would make encoding
    /// random, is refused first.
    pub fn from_files(model: BPE, vocab_bytes: &[u8], merges_bytes: &[u8]) -> (r: Result<
        Self,
        BpeError,
    >)
        ensures
            r is Ok <==> no_dropout(model) && first_missing_special(loaded(model)) is None,
            !no_dropout(model) ==> (r matches Err(BpeError::InvalidConfig(m)) && m@
                == "BPE merge dropout is not supported"@),
            r matches Ok(b) ==> {
                let t = loaded(model);
                let c = b.settings();
                &&& b.backend() == t
                &&& c.kind@ == "bpe-v1:"@ + fingerprint_text(vocab_bytes@, merges_bytes@)
                &&& c.fingerprint@ == fingerprint_text(vocab_bytes@, merges_bytes@)
                &&& c.vocab_size == model_vocab_size(t)
                &&& token_id(t, special_names()[0]) == Some(c.unk_token)
                &&& token_id(t, special_names()[1]) == Some(c.bos_token)
                &&& token_id(t, special_names()[2]) == Some(c.eos_token)
                &&& token_id(t, special_names()[3]) == Some(c.pad_token)
            },
            no_dropout(model) && r is Err ==> (first_missing_special(loaded(model)) matches Some(k) && r matches Err(BpeError::InvalidConfig(m))
                && m@ == "BPE vocabulary is missing required token "@ + special_names()[k]),
    {
        if !without_dropout(&model) {
            return Err(BpeError::InvalidConfig(String::from_str("BPE merge dropout is not supported")));
        }
        let ghost m = model;
        proof {
            reveal_strlit("[UNK]");
            reveal_strlit("[BOS]");
            reveal_strlit("[EOS]");
            reveal_strlit("[PAD]");
        }
        let mut tokenizer = new_tokenizer(model);
        split_on_whitespace(&mut tokenizer);
        let fp = fingerprint(vocab_bytes, merges_bytes);
        let mut kind = String::from_str("bpe-v1:");
        kind.append(fp.as_str());
        let vocab_size = vocab_size_of(&tokenizer);
        let unk_token = required(&tokenizer, "[UNK]")?;
        let bos_token = required(&tokenizer, "[BOS]")?;
        let eos_token = required(&tokenizer, "[EOS]")?;
        let pad_token = required(&tokenizer, "[PAD]")?;
        assert(no_dropout(m) && tokenizer == whitespace_split(tokenizer_around(m)));
        assert(deterministic(tokenizer));
        let config = BpeConfig {
            kind,
            vocab_size,
            unk_token,
            bos_token,
            eos_token,
            pad_token,
            fingerprint: fp,
        };
        Ok(BpeTokenizer { tokenizer, config })
    }

    /// The vocabulary's configuration.
    pub fn config(&self) -> (c: &BpeConfig)
        ensures
            *c == self.settings(),
    {
        &self.config
    }

    /// Splits `text` into subword tokens.
    pub fn tokenize(&self, text: &str) -> (r: Result<BpeTokens, BpeError>)
        ensures
            encoded_tokens(self.backend(), text@) matches Ok(toks) ==> (r matches Ok(b) && b@
                == toks),
            encoded_tokens(self.backend(), text@) matches Err(m) ==> (r matches Err(
                BpeError::Tokenizer(s),
            ) && s@ == "BPE tokenizer error: "@ + m),
    {
        proof {
            use_type_invariant(self);
        }
        match encode_tokens(&self.tokenizer, text) {
            Ok(v) => Ok(BpeTokens(v)),
            Err(m) => Err(tokenizer_error(m)),
        }
    }

    /// The ids of `tokens`; a token outside the vocabulary becomes `[UNK]`.
    /// With `special`, the ids are framed by `[BOS]` and `[EOS]`. Never fails.
    pub fn tokens_to_ids(&self, tokens: &BpeTokens, special: bool) -> (r: Result<Vec<u32>, BpeError>)
        ensures
            r matches Ok(ids) && ids@ == with_specials(
                token_ids(self.backend(), tokens@, self.settings().unk_token),
                special,
                self.settings().bos_token,
                self.settings().eos_token,
            ),
    {
        let ghost t = self.backend();
        let ghost unk = self.config.unk_token;
        let mut ids: Vec<u32> = Vec::new();
        if special {
            ids.push(self.config.bos_token);
        }
        let ghost start = ids@;
        let mut i: usize = 0;
        while i < tokens.0.len()
            invariant
                i <= tokens.0.len(),
                t == self.tokenizer,
                unk == self.config.unk_token,
                ids@ == start + token_ids(t, tokens@.take(i as int), unk),
            decreases tokens.0.len() - i,
        {
            let id = match lookup_token(&self.tokenizer, tokens.0[i].as_str()) {
                Some(id) => id,
                None => self.config.unk_token,
            };
            ids.push(id);
            assert(tokens@[i as int] == tokens.0@[i as int]@);
            assert(token_ids(t, tokens@.take(i + 1), unk) =~= token_ids(t, tokens@.take(i as int), unk).push(
                id,
            ));
            i = i + 1;
        }
        assert(tokens@.take(tokens.0.len() as int) =~= tokens@);
        if special {
            ids.push(self.config.eos_token);
        }
        assert(ids@ =~= with_specials(token_ids(t, tokens@, unk), special, self.config.bos_token, self.config.eos_token));
        Ok(ids)
    }

    /// Tokenizes `text` and maps the tokens to ids, as `tokenize` followed by
    /// `tokens_to_ids`.
    pub fn encode(&self, text: &str, special: bool) -> (r: Result<Vec<u32>, BpeError>)
        ensures
            encoded_tokens(self.backend(), text@) matches Ok(toks) ==> (r matches Ok(ids) && ids@
                == with_specials(
                token_ids(self.backend(), toks, self.settings().unk_token),
                special,
                self.settings().bos_token,
                self.settings().eos_token,
            )),
            encoded_tokens(self.backend(), text@) matches Err(m) ==> (r matches Err(
                BpeError::Tokenizer(s),
            ) && s@ == "BPE tokenizer error: "@ + m),
    {
        let tokens = self.tokenize(text)?;
        self.tokens_to_ids(&tokens, special)
    }

    /// Decodes `ids` back to text after dropping every special id.
    pub fn decode(&self, ids: &[u32]) -> (r: Result<String, BpeError>)
        ensures
            decoded_text(self.backend(), content_ids(self.settings(), ids@)) matches Ok(s) ==> (
            r matches Ok(x) && x@ == s),
            decoded_text(self.backend(), content_ids(self.settings(), ids@)) matches Err(m) ==> (
            r matches Err(BpeError::Tokenizer(s)) && s@ == "BPE tokenizer error: "@ + m),
    {
        let ghost c = self.config;
        let mut content: Vec<u32> = Vec::new();
        let mut i: usize = 0;
        while i < ids.len()
            invariant
                i <= ids.len(),
                c == self.config,
                content@ == content_ids(c, ids@.take(i as int)),
            decreases ids.len() - i,
        {
            let id = ids[i];
            assert(ids@.take(i + 1).drop_last() =~= ids@.take(i as int));
            if !(id == self.config.unk_token || id == self.config.bos_token || id
                == self.config.eos_token || id == self.config.pad_token) {
                content.push(id);
            }
            i = i + 1;
        }
        assert(ids@.take(ids.len() as int) =~= ids@);
        match decode_ids(&self.tokenizer, content.as_slice()) {
            Ok(s) => Ok(s),
            Err(m) => Err(tokenizer_error(m)),
        }
    }
}

} // verus!
