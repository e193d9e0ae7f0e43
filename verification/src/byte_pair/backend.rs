//! The `tokenizers` items the BPE tokenizer calls, and what the library
//! assumes of each. The tokenizer is opaque: its behaviour is named, never
//! modelled.
use vstd::prelude::*;
use tokenizers::models::bpe::BPE;
use tokenizers::decoders::DecoderWrapper;
use tokenizers::normalizers::NormalizerWrapper;
use tokenizers::pre_tokenizers::whitespace::Whitespace;
use tokenizers::processors::PostProcessorWrapper;
use tokenizers::{AddedToken, Tokenizer, TokenizerImpl};

verus! {

#[verifier::external_type_specification]
#[verifier::external_body]
pub struct ExBpeModel(tokenizers::models::bpe::BPE);

#[verifier::external_type_specification]
#[verifier::external_body]
pub struct ExTokenizer(tokenizers::Tokenizer);

/// The tokenizer `Tokenizer::new` builds around `model`.
pub uninterp spec fn tokenizer_around(model: BPE) -> Tokenizer;

/// The tokenizer that `with_pre_tokenizer(Some(Whitespace))` makes of `t`.
pub uninterp spec fn whitespace_split(t: Tokenizer) -> Tokenizer;

/// The id `token_to_id` gives `token` in `t`, if it has one.
pub uninterp spec fn token_id(t: Tokenizer, token: Seq<char>) -> Option<u32>;

/// What `get_vocab_size(false)` reports of `t`: its model's vocabulary size.
pub uninterp spec fn model_vocab_size(t: Tokenizer) -> usize;

/// The tokens `encode(text, false)` yields, or the text of its error.
pub uninterp spec fn encoded_tokens(t: Tokenizer, text: Seq<char>) -> Result<Seq<Seq<char>>, Seq<char>>;

/// The text `decode(ids, true)` yields, or the text of its error.
pub uninterp spec fn decoded_text(t: Tokenizer, ids: Seq<u32>) -> Result<Seq<char>, Seq<char>>;

/// Whether `model` has no merge dropout, so that it merges every applicable
/// pair and encodes without drawing random numbers.
pub uninterp spec fn no_dropout(model: BPE) -> bool;

/// `t` is a whitespace-pretokenized tokenizer around a model without merge
/// dropout: what it encodes depends on the text alone.
pub open spec fn deterministic(t: Tokenizer) -> bool {
    exists|m: BPE| no_dropout(m) && t == whitespace_split(tokenizer_around(m))
}

/// The characters of each string of a list.
pub open spec fn string_views(v: Seq<String>) -> Seq<Seq<char>> {
    v.map_values(|s: String| s@)
}

/// Trusted: reads the public `dropout` field of a BPE model; `true` when it
/// is `None`. A model built by `BPE::from_file(..).build()` without a
/// `dropout(..)` call has none.
#[verifier::external_body]
pub(crate) fn without_dropout(model: &BPE) -> (b: bool)
    ensures
        b == no_dropout(*model),
{
    model.dropout.is_none()
}

/// Trusted: `tokenizers::Tokenizer::new(model)`. The tokenizer is a function
/// of the model; nothing more is stated.
#[verifier::external_body]
pub(crate) fn new_tokenizer(model: BPE) -> (t: Tokenizer)
    ensures
        t == tokenizer_around(model),
{
    Tokenizer::new(model)
}

/// Trusted: `Tokenizer::with_pre_tokenizer(Some(Whitespace))`, which replaces
/// the pre-tokenizer and nothing else.
#[verifier::external_body]
pub(crate) fn split_on_whitespace(t: &mut Tokenizer)
    ensures
        *final(t) == whitespace_split(*old(t)),
{
    t.with_pre_tokenizer(Some(Whitespace));
}

/// Trusted: `Tokenizer::token_to_id`, a lookup in the added and model
/// vocabularies that depends on the tokenizer and the token alone.
#[verifier::external_body]
pub(crate) fn lookup_token(t: &Tokenizer, token: &str) -> (id: Option<u32>)
    ensures
        id == token_id(*t, token@),
{
    t.token_to_id(token)
}

/// Trusted: `Tokenizer::get_vocab_size(false)`, the model vocabulary's size.
#[verifier::external_body]
pub(crate) fn vocab_size_of(t: &Tokenizer) -> (n: usize)
    ensures
        n == model_vocab_size(*t),
{
    t.get_vocab_size(false)
}

/// Trusted: `Tokenizer::encode(text, false)` followed by `get_tokens`; an
/// error is returned as its displayed text. For a model without merge
/// dropout (a BPE model with dropout draws random numbers while merging) the
/// result depends on the tokenizer and the text alone.
#[verifier::external_body]
pub(crate) fn encode_tokens(t: &Tokenizer, text: &str) -> (r: Result<Vec<String>, String>)
    requires
        deterministic(*t),
    ensures
        match r {
            Ok(v) => encoded_tokens(*t, text@) == Ok::<Seq<Seq<char>>, Seq<char>>(string_views(v@)),
            Err(m) => encoded_tokens(*t, text@) == Err::<Seq<Seq<char>>, Seq<char>>(m@),
        },
{
    match t.encode(text, false) {
        Ok(encoding) => Ok(encoding.get_tokens().to_vec()),
        Err(e) => Err(e.to_string()),
    }
}

/// Trusted: `Tokenizer::decode(ids, true)`; an error is returned as its
/// displayed text. The result depends on the tokenizer and the ids alone.
#[verifier::external_body]
pub(crate) fn decode_ids(t: &Tokenizer, ids: &[u32]) -> (r: Result<String, String>)
    ensures
        match r {
            Ok(s) => decoded_text(*t, ids@) == Ok::<Seq<char>, Seq<char>>(s@),
            Err(m) => decoded_text(*t, ids@) == Err::<Seq<char>, Seq<char>>(m@),
        },
{
    match t.decode(ids, true) {
        Ok(s) => Ok(s),
        Err(e) => Err(e.to_string()),
    }
}

/// The model `BPE::builder().unk_token(unk).build()` makes: no vocabulary,
/// no merges, `unk` as its unknown token.
pub uninterp spec fn untrained_bpe(unk: Seq<char>) -> BPE;

/// The model that BPE training of `model` makes on `text` after whitespace
/// pre-tokenization, with the given vocabulary size, minimum pair frequency
/// and special tokens.
pub uninterp spec fn trained_bpe(model: BPE, text: Seq<char>, vocab_size: usize, min_frequency: u64, specials: Seq<Seq<char>>) -> BPE;

/// The texts of a list of string slices.
pub open spec fn str_views(v: Seq<&str>) -> Seq<Seq<char>> {
    v.map_values(|s: &str| s@)
}

/// Trusted: `BPE::builder().unk_token(unk).build()`. With neither files,
/// merges nor dropout set, `build` has no failing step (bpe/model.rs,
/// `BpeBuilder::build`), and the model has no dropout.
#[verifier::external_body]
pub(crate) fn untrained_model(unk: &str) -> (r: Result<BPE, String>)
    ensures
        r is Ok,
        r matches Ok(m) ==> m == untrained_bpe(unk@),
        r matches Ok(m) ==> no_dropout(m),
{
    BPE::builder().unk_token(unk.to_string()).build().map_err(|e| e.to_string())
}

/// Trusted: `TokenizerImpl::new(model)` with the whitespace pre-tokenizer,
/// `train` on `text` with a BPE trainer of the given vocabulary size,
/// minimum pair frequency, progress display and special tokens, then the
/// trained model. No step of this training fails (pre-tokenization by
/// whitespace and `BpeTrainer::do_train` have no failing step), and the
/// trained model depends on the model, the text and the trainer's settings
/// alone (the alphabet is sorted and merges are ordered by count, then
/// pair). The trainer puts every special token into the vocabulary before
/// anything else (`BpeTrainer::do_train`), and training leaves the model's
/// dropout as it was; so a tokenizer loaded around the trained model finds
/// each special token.
#[verifier::external_body]
pub(crate) fn train_model(
    model: BPE,
    text: &str,
    vocab_size: usize,
    min_frequency: u64,
    show_progress: bool,
    specials: &[&str; 4],
) -> (r: Result<BPE, String>)
    ensures
        r is Ok,
        r matches Ok(m) ==> m == trained_bpe(
            model,
            text@,
            vocab_size,
            min_frequency,
            str_views(specials@),
        ),
        r matches Ok(m) ==> (forall|k: int|
            0 <= k < 4 ==> #[trigger] token_id(whitespace_split(tokenizer_around(m)), specials@[k]@)
                is Some),
        r matches Ok(m) ==> (no_dropout(model) ==> no_dropout(m)),
{
    let tokens: Vec<AddedToken> = specials.iter().map(|s| AddedToken::from(*s, true)).collect();
    let mut trainer = tokenizers::models::bpe::BpeTrainer::builder().vocab_size(vocab_size)
        .min_frequency(min_frequency).show_progress(show_progress).special_tokens(tokens).build();
    let mut t: TokenizerImpl<BPE, NormalizerWrapper, Whitespace, PostProcessorWrapper, DecoderWrapper> =
        TokenizerImpl::new(model);
    t.with_pre_tokenizer(Some(Whitespace));
    t.train(&mut trainer, std::iter::once(text)).map_err(|e| e.to_string())?;
    Ok(t.get_model().clone())
}

} // verus!
