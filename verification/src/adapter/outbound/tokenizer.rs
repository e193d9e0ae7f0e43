//! The model's tokenizers: bytes of UTF-8 text, and BPE subwords.
use vstd::prelude::*;
use vstd::string::*;
use vstd::utf8::*;
use tokenizers::models::bpe::BPE;
use crate::byte_pair;
use crate::byte_pair::backend::{decoded_text, encoded_tokens, model_vocab_size, no_dropout, token_id};
use crate::byte_pair::fingerprint::fingerprint_text;
use crate::byte_pair::tokenizer::{
    bpe_error_text, content_ids, first_missing_special, loaded, special_names, token_ids,
    with_specials, BpeError, BpeTokens,
};
use crate::domain::entity::error::TransformerError;
use crate::domain::entity::tokenizer::TextTokenizer;
use crate::domain::entity::value_objects::{
    ids_in_vocab, Text, TokenIds, TokenizerConfig, BOS_TOKEN, EOS_TOKEN,
};
use crate::platform::{utf8_lossy, utf8_lossy_text};

verus! {

/// The ids of UTF-8 bytes: each byte's value.
pub open spec fn byte_ids(bytes: Seq<u8>) -> Seq<u32> {
    bytes.map_values(|b: u8| b as u32)
}

/// What the byte-level tokenizer encodes `text` to: its UTF-8 bytes as ids,
/// framed by `BOS_TOKEN` and `EOS_TOKEN` when `special` is set.
pub open spec fn byte_level_ids(text: Seq<char>, special: bool) -> Seq<u32> {
    let body = byte_ids(encode_utf8(text));
    if special {
        seq![BOS_TOKEN] + body + seq![EOS_TOKEN]
    } else {
        body
    }
}

/// The bytes the byte-level tokenizer decodes from `ids`: every id below
/// `BOS_TOKEN`, as a byte, in order; the others are dropped.
pub open spec fn kept_bytes(ids: Seq<u32>) -> Seq<u8>
    decreases ids.len(),
{
    if ids.len() == 0 {
        Seq::empty()
    } else if ids.last() < BOS_TOKEN {
        kept_bytes(ids.drop_last()).push(ids.last() as u8)
    } else {
        kept_bytes(ids.drop_last())
    }
}

/// Encodes text as its UTF-8 bytes, one id per byte; ids 256 to 258 are the
/// special tokens.
pub struct ByteLevelTokenizer;

impl TextTokenizer for ByteLevelTokenizer {
    /// The byte-level configuration.
    fn config(&self) -> (c: TokenizerConfig)
        ensures
            c.kind@ == "byte-level-v1"@,
            c.vocab_size == 259,
            c.bos_token == BOS_TOKEN,
            c.eos_token == EOS_TOKEN,
            c.pad_token == 258,
    {
        TokenizerConfig::default()
    }

    /// The UTF-8 bytes of `text` as ids, framed by `BOS_TOKEN` and
    /// `EOS_TOKEN` when `special` is set. Never fails.
    fn encode(&self, text: &Text, special: bool) -> (r: Result<TokenIds, TransformerError>)
        ensures
            r matches Ok(ids) && ids.0@ == byte_level_ids(text.0@, special),
    {
        let bytes = text.0.as_str().as_bytes();
        let mut ids: Vec<u32> = Vec::new();
        if special {
            ids.push(BOS_TOKEN);
        }
        let ghost start = ids@;
        let mut i: usize = 0;
        while i < bytes.len()
            invariant
                i <= bytes.len(),
                ids@ == start + byte_ids(bytes@.take(i as int)),
            decreases bytes.len() - i,
        {
            ids.push(bytes[i] as u32);
            assert(byte_ids(bytes@.take(i + 1)) =~= byte_ids(bytes@.take(i as int)).push(
                bytes@[i as int] as u32,
            ));
            i = i + 1;
        }
        assert(bytes@.take(bytes.len() as int) =~= bytes@);
        if special {
            ids.push(EOS_TOKEN);
        }
        assert(ids@ =~= byte_level_ids(text.0@, special));
        Ok(TokenIds(ids))
    }

    /// The text of the bytes among `ids`; special ids are dropped and
    /// invalid UTF-8 is replaced. Never fails.
    fn decode(&self, ids: &TokenIds) -> (r: Result<Text, TransformerError>)
        ensures
            r matches Ok(t) && t.0@ == utf8_lossy_text(kept_bytes(ids.0@)),
            valid_utf8(kept_bytes(ids.0@)) ==> (r matches Ok(t) && t.0@ == decode_utf8(
                kept_bytes(ids.0@),
            )),
    {
        let mut bytes: Vec<u8> = Vec::new();
        let mut i: usize = 0;
        while i < ids.0.len()
            invariant
                i <= ids.0.len(),
                bytes@ == kept_bytes(ids.0@.take(i as int)),
            decreases ids.0.len() - i,
        {
            let id = ids.0[i];
            assert(ids.0@.take(i + 1).drop_last() =~= ids.0@.take(i as int));
            if id < BOS_TOKEN {
                bytes.push(id as u8);
            }
            i = i + 1;
        }
        assert(ids.0@.take(ids.0.len() as int) =~= ids.0@);
        Ok(Text(utf8_lossy(bytes.as_slice())))
    }
}

proof fn lemma_kept_bytes_concat(a: Seq<u32>, b: Seq<u32>)
    ensures
        kept_bytes(a + b) == kept_bytes(a) + kept_bytes(b),
    decreases b.len(),
{
    if b.len() == 0 {
        assert(a + b =~= a);
        assert(kept_bytes(a) + kept_bytes(b) =~= kept_bytes(a));
    } else {
        assert((a + b).drop_last() =~= a + b.drop_last());
        lemma_kept_bytes_concat(a, b.drop_last());
        if b.last() < BOS_TOKEN {
            assert(kept_bytes(a) + kept_bytes(b.drop_last()).push(b.last() as u8) =~= (kept_bytes(a)
                + kept_bytes(b.drop_last())).push(b.last() as u8));
        }
    }
}

proof fn lemma_kept_bytes_of_byte_ids(bytes: Seq<u8>)
    ensures
        kept_bytes(byte_ids(bytes)) == bytes,
    decreases bytes.len(),
{
    if bytes.len() > 0 {
        assert(byte_ids(bytes).drop_last() =~= byte_ids(bytes.drop_last()));
        lemma_kept_bytes_of_byte_ids(bytes.drop_last());
        assert(bytes.drop_last().push(bytes.last()) =~= bytes);
    } else {
        assert(byte_ids(bytes) =~= Seq::<u32>::empty());
    }
}

/// The byte-level tokenizer loses nothing: the bytes decoding keeps of what
/// encoding yields are valid UTF-8 that decodes to the text again, with or
/// without the special tokens; so `decode(encode(text))` is `text`.
pub proof fn lemma_byte_level_roundtrip(text: Seq<char>, special: bool)
    ensures
        valid_utf8(kept_bytes(byte_level_ids(text, special))),
        decode_utf8(kept_bytes(byte_level_ids(text, special))) == text,
{
    let bytes = encode_utf8(text);
    lemma_kept_bytes_of_byte_ids(bytes);
    if special {
        let body = byte_ids(bytes);
        lemma_kept_bytes_concat(seq![BOS_TOKEN] + body, seq![EOS_TOKEN]);
        lemma_kept_bytes_concat(seq![BOS_TOKEN], body);
        assert(seq![BOS_TOKEN].drop_last() =~= Seq::<u32>::empty());
        assert(seq![EOS_TOKEN].drop_last() =~= Seq::<u32>::empty());
        assert(kept_bytes(Seq::<u32>::empty()) =~= Seq::<u8>::empty());
        assert(kept_bytes(seq![BOS_TOKEN]) =~= Seq::<u8>::empty());
        assert(kept_bytes(seq![EOS_TOKEN]) =~= Seq::<u8>::empty());
        assert(kept_bytes(byte_level_ids(text, special)) =~= bytes);
    }
    encode_utf8_valid_utf8(text);
    encode_utf8_decode_utf8(text);
}

/// Reports a BPE failure as invalid data: `BPE tokenizer error: ` and the
/// failure's message.
pub fn tokenizer_error(error: BpeError) -> (e: TransformerError)
    ensures
        e is InvalidData,
        bpe_error_text(error) matches Some(t) ==> (e matches TransformerError::InvalidData(m) && m@
            == "BPE tokenizer error: "@ + t),
{
    let mut m = String::from_str("BPE tokenizer error: ");
    let detail = error.message();
    m.append(detail.as_str());
    TransformerError::InvalidData(m)
}

/// A BPE tokenizer whose failures are model errors, and whose configuration
/// is what a checkpoint records of it.
pub struct BpeTokenizer {
    tokenizer: byte_pair::BpeTokenizer,
    config: TokenizerConfig,
}

impl BpeTokenizer {
    /// The BPE tokenizer behind this adapter.
    pub closed spec fn inner(&self) -> byte_pair::BpeTokenizer {
        self.tokenizer
    }

    /// The configuration a checkpoint records.
    pub closed spec fn settings(&self) -> TokenizerConfig {
        self.config
    }

    /// Loads a vocabulary model built from the vocabulary and merges files
    /// (see `byte_pair::BpeTokenizer::from_files`) and records its kind, size
    /// and special ids.
    pub fn from_files(model: BPE, vocab_bytes: &[u8], merges_bytes: &[u8]) -> (r: Result<
        Self,
        TransformerError,
    >)
        ensures
            r is Ok <==> no_dropout(model) && first_missing_special(loaded(model)) is None,
            !no_dropout(model) ==> (r matches Err(TransformerError::InvalidData(m)) && m@
                == "BPE tokenizer error: "@ + "BPE merge dropout is not supported"@),
            r matches Ok(a) ==> {
                let t = loaded(model);
                let c = a.inner().settings();
                &&& a.inner().backend() == t
                &&& c.kind@ == "bpe-v1:"@ + fingerprint_text(vocab_bytes@, merges_bytes@)
                &&& c.fingerprint@ == fingerprint_text(vocab_bytes@, merges_bytes@)
                &&& c.vocab_size == model_vocab_size(t)
                &&& token_id(t, special_names()[0]) == Some(c.unk_token)
                &&& token_id(t, special_names()[1]) == Some(c.bos_token)
                &&& token_id(t, special_names()[2]) == Some(c.eos_token)
                &&& token_id(t, special_names()[3]) == Some(c.pad_token)
                &&& a.settings().kind@ == c.kind@
                &&& a.settings().vocab_size == c.vocab_size
                &&& a.settings().bos_token == c.bos_token
                &&& a.settings().eos_token == c.eos_token
                &&& a.settings().pad_token == c.pad_token
            },
            no_dropout(model) && r is Err ==> (first_missing_special(loaded(model)) matches Some(k) && r matches Err(TransformerError::InvalidData(m))
                && m@ == "BPE tokenizer error: "@ + ("BPE vocabulary is missing required token "@
                + special_names()[k])),
    {
        let tokenizer = match byte_pair::BpeTokenizer::from_files(model, vocab_bytes, merges_bytes) {
            Ok(t) => t,
            Err(e) => {
                return Err(tokenizer_error(e));
            },
        };
        let bpe_config = tokenizer.config();
        let config = TokenizerConfig {
            kind: bpe_config.kind.clone(),
            vocab_size: bpe_config.vocab_size,
            bos_token: bpe_config.bos_token,
            eos_token: bpe_config.eos_token,
            pad_token: bpe_config.pad_token,
        };
        Ok(BpeTokenizer { tokenizer, config })
    }

    /// The subword tokens of `text`.
    pub fn tokenize(&self, text: &Text) -> (r: Result<BpeTokens, TransformerError>)
        ensures
            encoded_tokens(self.inner().backend(), text.0@) matches Ok(toks) ==> (r matches Ok(b)
                && b@ == toks),
            encoded_tokens(self.inner().backend(), text.0@) matches Err(m) ==> (r matches Err(
                TransformerError::InvalidData(s),
            ) && s@ == "BPE tokenizer error: "@ + ("BPE tokenizer error: "@ + m)),
    {
        match self.tokenizer.tokenize(text.0.as_str()) {
            Ok(t) => Ok(t),
            Err(e) => Err(tokenizer_error(e)),
        }
    }

    /// The ids of `tokens` (unknown ones as `[UNK]`, framed by `[BOS]` and
    /// `[EOS]` with `add_special_tokens`), accepted only when every id lies
    /// inside the recorded vocabulary size.
    pub fn tokens_to_ids(&self, tokens: &BpeTokens, add_special_tokens: bool) -> (r: Result<
        TokenIds,
        TransformerError,
    >)
        ensures
            ({
                let c = self.inner().settings();
                let ids = with_specials(
                    token_ids(self.inner().backend(), tokens@, c.unk_token),
                    add_special_tokens,
                    c.bos_token,
                    c.eos_token,
                );
                &&& ids_in_vocab(ids, self.settings().vocab_size as nat) ==> (r matches Ok(t)
                    && t.0@ == ids)
                &&& !ids_in_vocab(ids, self.settings().vocab_size as nat) ==> (r matches Err(
                    TransformerError::InvalidData(m),
                ) && m@ == "token is outside vocabulary"@)
            }),
    {
        let ids = match self.tokenizer.tokens_to_ids(tokens, add_special_tokens) {
            Ok(ids) => ids,
            Err(e) => {
                return Err(tokenizer_error(e));
            },
        };
        TokenIds::new(ids, self.config.vocab_size)
    }
}

impl TextTokenizer for BpeTokenizer {
    /// The configuration a checkpoint records.
    fn config(&self) -> (c: TokenizerConfig)
        ensures
            c.kind@ == self.settings().kind@,
            c.vocab_size == self.settings().vocab_size,
            c.bos_token == self.settings().bos_token,
            c.eos_token == self.settings().eos_token,
            c.pad_token == self.settings().pad_token,
    {
        self.config.duplicate()
    }

    /// Tokenizes `text` and maps the tokens to ids, as `tokenize` followed by
    /// `tokens_to_ids`.
    fn encode(&self, text: &Text, add_special_tokens: bool) -> (r: Result<
        TokenIds,
        TransformerError,
    >)
        ensures
            encoded_tokens(self.inner().backend(), text.0@) matches Err(m) ==> (r matches Err(
                TransformerError::InvalidData(s),
            ) && s@ == "BPE tokenizer error: "@ + ("BPE tokenizer error: "@ + m)),
            encoded_tokens(self.inner().backend(), text.0@) matches Ok(toks) ==> ({
                let c = self.inner().settings();
                let ids = with_specials(
                    token_ids(self.inner().backend(), toks, c.unk_token),
                    add_special_tokens,
                    c.bos_token,
                    c.eos_token,
                );
                &&& ids_in_vocab(ids, self.settings().vocab_size as nat) ==> (r matches Ok(t)
                    && t.0@ == ids)
                &&& !ids_in_vocab(ids, self.settings().vocab_size as nat) ==> (r matches Err(
                    TransformerError::InvalidData(m),
                ) && m@ == "token is outside vocabulary"@)
            }),
    {
        let tokens = self.tokenize(text)?;
        self.tokens_to_ids(&tokens, add_special_tokens)
    }

    /// The text of `ids` without their special ids.
    fn decode(&self, ids: &TokenIds) -> (r: Result<Text, TransformerError>)
        ensures
            decoded_text(self.inner().backend(), content_ids(self.inner().settings(), ids.0@)) matches Ok(
                s,
            ) ==> (r matches Ok(t) && t.0@ == s),
            decoded_text(self.inner().backend(), content_ids(self.inner().settings(), ids.0@)) matches Err(
                m,
            ) ==> (r matches Err(TransformerError::InvalidData(s)) && s@ == "BPE tokenizer error: "@
                + ("BPE tokenizer error: "@ + m)),
    {
        match self.tokenizer.decode(ids.0.as_slice()) {
            Ok(s) => Ok(Text(s)),
            Err(e) => Err(tokenizer_error(e)),
        }
    }
}

} // verus!
