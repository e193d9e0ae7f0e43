//! Properties that relate the BPE tokenizer's operations.
use vstd::prelude::*;
use tokenizers::Tokenizer;
use crate::byte_pair::tokenizer::{content_ids, is_special_id, token_ids, with_specials, BpeConfig};

verus! {

/// Encoding maps each token to exactly one id; with special tokens, the same
/// ids come framed by `[BOS]` first and `[EOS]` last, two ids longer.
pub proof fn lemma_special_tokens_frame_the_ids(
    t: Tokenizer,
    tokens: Seq<Seq<char>>,
    unk: u32,
    bos: u32,
    eos: u32,
)
    ensures
        with_specials(token_ids(t, tokens, unk), false, bos, eos).len() == tokens.len(),
        with_specials(token_ids(t, tokens, unk), true, bos, eos) == seq![bos] + with_specials(
            token_ids(t, tokens, unk),
            false,
            bos,
            eos,
        ) + seq![eos],
        with_specials(token_ids(t, tokens, unk), true, bos, eos).len() == tokens.len() + 2,
{
}

proof fn lemma_content_ids_concat(c: BpeConfig, a: Seq<u32>, b: Seq<u32>)
    ensures
        content_ids(c, a + b) == content_ids(c, a) + content_ids(c, b),
    decreases b.len(),
{
    if b.len() == 0 {
        assert(a + b =~= a);
        assert(content_ids(c, a) + content_ids(c, b) =~= content_ids(c, a));
    } else {
        assert((a + b).drop_last() =~= a + b.drop_last());
        lemma_content_ids_concat(c, a, b.drop_last());
        if !is_special_id(c, b.last()) {
            assert(content_ids(c, a) + content_ids(c, b.drop_last()).push(b.last()) =~= (
            content_ids(c, a) + content_ids(c, b.drop_last())).push(b.last()));
        }
    }
}

/// Decoding drops the `[BOS]`/`[EOS]` frame: the ids an encoding with special
/// tokens yields decode from the same content ids as the plain encoding, so
/// both decode to the same text.
pub proof fn lemma_decode_ignores_special_frame(c: BpeConfig, ids: Seq<u32>)
    ensures
        content_ids(c, with_specials(ids, true, c.bos_token, c.eos_token)) == content_ids(c, ids),
{
    let framed = seq![c.bos_token] + ids + seq![c.eos_token];
    lemma_content_ids_concat(c, seq![c.bos_token] + ids, seq![c.eos_token]);
    lemma_content_ids_concat(c, seq![c.bos_token], ids);
    assert(seq![c.bos_token].drop_last() =~= Seq::<u32>::empty());
    assert(seq![c.eos_token].drop_last() =~= Seq::<u32>::empty());
    assert(content_ids(c, Seq::<u32>::empty()) =~= Seq::<u32>::empty());
    assert(seq![c.bos_token].last() == c.bos_token);
    assert(seq![c.eos_token].last() == c.eos_token);
    assert(content_ids(c, seq![c.bos_token]) =~= Seq::<u32>::empty());
    assert(content_ids(c, seq![c.eos_token]) =~= Seq::<u32>::empty());
    assert(content_ids(c, framed) =~= content_ids(c, ids));
}

} // verus!
