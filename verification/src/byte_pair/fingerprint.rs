//! The fingerprint that ties a checkpoint to the exact vocabulary and merges
//! files of its tokenizer: SHA-256 of both files, each preceded by its length.
use vstd::prelude::*;
use sha2::{Digest, Sha256};
use crate::text::{hex_lower, lemma_hex_lower_len, to_hex_lower};

verus! {

/// The `k` low bytes of `n`, least significant first.
pub open spec fn le_bytes(n: nat, k: nat) -> Seq<u8>
    decreases k,
{
    if k == 0 {
        Seq::empty()
    } else {
        seq![(n % 256) as u8] + le_bytes(n / 256, (k - 1) as nat)
    }
}

/// The message that is hashed: the vocabulary's length as eight
/// little-endian bytes, the vocabulary, the merges' length likewise, and the
/// merges.
pub open spec fn framed(vocab: Seq<u8>, merges: Seq<u8>) -> Seq<u8> {
    le_bytes(vocab.len(), 8) + vocab + le_bytes(merges.len(), 8) + merges
}

/// The SHA-256 digest of `message`.
pub uninterp spec fn sha256(message: Seq<u8>) -> Seq<u8>;

/// The fingerprint of a vocabulary and merges pair: the lower-case hex of the
/// digest of the framed message.
pub open spec fn fingerprint_text(vocab: Seq<u8>, merges: Seq<u8>) -> Seq<char> {
    hex_lower(sha256(framed(vocab, merges)))
}

/// Trusted: `sha2::Sha256::digest`. The digest is a function of the message
/// alone, and a SHA-256 output is 32 bytes (the type `Output<Sha256>` has that
/// length). Nothing else about the hash function is stated.
#[verifier::external_body]
fn sha256_digest(message: &[u8]) -> (d: Vec<u8>)
    ensures
        d@ == sha256(message@),
        d@.len() == 32,
{
    Sha256::digest(message).to_vec()
}

fn push_le_bytes(out: &mut Vec<u8>, n: u64)
    ensures
        final(out)@ == old(out)@ + le_bytes(n as nat, 8),
{
    let mut x = n;
    let mut k: usize = 0;
    let ghost start = out@;
    while k < 8
        invariant
            k <= 8,
            start + le_bytes(n as nat, 8) == out@ + le_bytes(x as nat, (8 - k) as nat),
        decreases 8 - k,
    {
        let ghost before = out@;
        out.push((x % 256) as u8);
        assert(le_bytes(x as nat, (8 - k) as nat) == seq![(x % 256) as u8] + le_bytes(
            (x / 256) as nat,
            (8 - k - 1) as nat,
        ));
        assert(out@ + le_bytes((x / 256) as nat, (8 - k - 1) as nat) =~= before + le_bytes(
            x as nat,
            (8 - k) as nat,
        ));
        x = x / 256;
        k = k + 1;
    }
    assert(out@ + le_bytes(x as nat, 0) =~= out@);
}

fn push_all(out: &mut Vec<u8>, bytes: &[u8])
    ensures
        final(out)@ == old(out)@ + bytes@,
{
    let ghost start = out@;
    let mut i: usize = 0;
    while i < bytes.len()
        invariant
            i <= bytes.len(),
            out@ == start + bytes@.take(i as int),
        decreases bytes.len() - i,
    {
        out.push(bytes[i]);
        assert(bytes@.take(i + 1) =~= bytes@.take(i as int).push(bytes@[i as int]));
        i = i + 1;
    }
    assert(bytes@.take(bytes.len() as int) =~= bytes@);
}

/// The fingerprint of the vocabulary and merges files' contents.
pub fn fingerprint(vocab: &[u8], merges: &[u8]) -> (s: String)
    ensures
        s@ == fingerprint_text(vocab@, merges@),
        s@.len() == 64,
{
    let mut message: Vec<u8> = Vec::new();
    push_le_bytes(&mut message, vocab.len() as u64);
    push_all(&mut message, vocab);
    push_le_bytes(&mut message, merges.len() as u64);
    push_all(&mut message, merges);
    assert(message@ =~= framed(vocab@, merges@));
    let digest = sha256_digest(message.as_slice());
    proof { lemma_hex_lower_len(digest@); }
    to_hex_lower(digest.as_slice())
}

proof fn lemma_le_bytes_injective(a: nat, b: nat, k: nat)
    requires
        le_bytes(a, k) == le_bytes(b, k),
        a < pow256(k),
        b < pow256(k),
    ensures
        a == b,
    decreases k,
{
    if k > 0 {
        let sa = le_bytes(a, k);
        let sb = le_bytes(b, k);
        assert(sa[0] == sb[0]);
        assert(sa.skip(1) =~= le_bytes(a / 256, (k - 1) as nat));
        assert(sb.skip(1) =~= le_bytes(b / 256, (k - 1) as nat));
        lemma_le_bytes_injective(a / 256, b / 256, (k - 1) as nat);
    }
}

/// 256 to the power `k`.
pub open spec fn pow256(k: nat) -> nat
    decreases k,
{
    if k == 0 { 1 } else { 256 * pow256((k - 1) as nat) }
}

proof fn lemma_le_bytes_len(n: nat, k: nat)
    ensures
        le_bytes(n, k).len() == k,
    decreases k,
{
    if k > 0 {
        lemma_le_bytes_len(n / 256, (k - 1) as nat);
    }
}

/// The hashed message is length-delimited: two vocabulary/merges pairs frame
/// to the same message only when both files are the same. So the fingerprints
/// of different pairs can only coincide through a SHA-256 collision.
pub proof fn lemma_framing_injective(v1: Seq<u8>, m1: Seq<u8>, v2: Seq<u8>, m2: Seq<u8>)
    requires
        v1.len() < pow256(8),
        v2.len() < pow256(8),
        m1.len() < pow256(8),
        m2.len() < pow256(8),
        framed(v1, m1) == framed(v2, m2),
    ensures
        v1 == v2,
        m1 == m2,
{
    lemma_le_bytes_len(v1.len(), 8);
    lemma_le_bytes_len(v2.len(), 8);
    lemma_le_bytes_len(m1.len(), 8);
    lemma_le_bytes_len(m2.len(), 8);
    let f1 = framed(v1, m1);
    let f2 = framed(v2, m2);
    assert(f1.take(8) =~= le_bytes(v1.len(), 8));
    assert(f2.take(8) =~= le_bytes(v2.len(), 8));
    lemma_le_bytes_injective(v1.len(), v2.len(), 8);
    let n = v1.len() as int;
    assert(f1.subrange(8, 8 + n) =~= v1);
    assert(f2.subrange(8, 8 + n) =~= v2);
    assert(f1.subrange(8 + n, 16 + n) =~= le_bytes(m1.len(), 8));
    assert(f2.subrange(8 + n, 16 + n) =~= le_bytes(m2.len(), 8));
    lemma_le_bytes_injective(m1.len(), m2.len(), 8);
    assert(f1.skip(16 + n) =~= m1);
    assert(f2.skip(16 + n) =~= m2);
}

} // verus!
