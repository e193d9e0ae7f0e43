//! Which rows the next-token loss scores, and the order in which it refuses
//! its inputs. The probabilities themselves are floating point and are
//! computed by the caller over the rows chosen here.
use vstd::prelude::*;
use vstd::string::*;
use crate::domain::entity::error::TransformerError;
use crate::domain::entity::value_objects::PAD_TOKEN;

verus! {

/// The rows whose target is not padding, in order.
pub open spec fn scored(targets: Seq<u32>) -> Seq<usize>
    decreases targets.len(),
{
    if targets.len() == 0 {
        Seq::empty()
    } else if targets.last() == PAD_TOKEN {
        scored(targets.drop_last())
    } else {
        scored(targets.drop_last()).push((targets.len() - 1) as usize)
    }
}

/// Row `r` stops the loss: its target is not padding, and it lies outside
/// the vocabulary or the row's logits cannot be normalised.
pub open spec fn row_refused(targets: Seq<u32>, vocab: usize, finite: Seq<bool>, r: int) -> bool {
    targets[r] != PAD_TOKEN && (targets[r] >= vocab || !finite[r])
}

/// None of the first `n` rows stops the loss.
pub open spec fn rows_pass(targets: Seq<u32>, vocab: usize, finite: Seq<bool>, n: int) -> bool {
    forall|j: int| 0 <= j < n ==> !#[trigger] row_refused(targets, vocab, finite, j)
}

/// The rows the next-token loss scores, given the number of logits, the
/// targets, the vocabulary size and, per row, whether its logits are all
/// finite. In order: a logit count other than `targets.len() * vocab` is a
/// shape mismatch; then, row by row, padding targets are skipped, a target
/// outside the vocabulary is refused, and a row with a non-finite logit
/// cannot be normalised; without any scored row there is nothing to learn.
pub fn scored_rows(logits_len: usize, targets: &[u32], vocab: usize, finite: &[bool]) -> (r: Result<
    Vec<usize>,
    TransformerError,
>)
    requires
        finite@.len() == targets@.len(),
    ensures
        logits_len != targets@.len() * vocab ==> (r matches Err(TransformerError::InvalidData(m))
            && m@ == "logit/target shape mismatch"@),
        forall|i: int|
            #![trigger row_refused(targets@, vocab, finite@, i)]
            logits_len == targets@.len() * vocab && 0 <= i < targets@.len() && rows_pass(
                targets@,
                vocab,
                finite@,
                i,
            ) && row_refused(targets@, vocab, finite@, i) ==> {
                &&& targets@[i] >= vocab ==> (r matches Err(TransformerError::InvalidData(m)) && m@
                    == "target outside vocabulary"@)
                &&& targets@[i] < vocab ==> (r matches Err(TransformerError::InvalidData(m)) && m@
                    == "softmax requires finite non-empty input"@)
            },
        logits_len == targets@.len() * vocab && rows_pass(targets@, vocab, finite@, targets@.len() as int)
            && scored(targets@).len() == 0 ==> (r matches Err(TransformerError::InvalidData(m))
            && m@ == "no target tokens"@),
        logits_len == targets@.len() * vocab && rows_pass(targets@, vocab, finite@, targets@.len() as int)
            && scored(targets@).len() > 0 ==> (r matches Ok(rows) && rows@ == scored(targets@)),
{
    let same = match targets.len().checked_mul(vocab) {
        Some(n) => n == logits_len,
        None => false,
    };
    if !same {
        return Err(TransformerError::InvalidData(String::from_str("logit/target shape mismatch")));
    }
    let mut rows: Vec<usize> = Vec::new();
    let mut i: usize = 0;
    while i < targets.len()
        invariant
            i <= targets.len(),
            finite@.len() == targets@.len(),
            logits_len == targets@.len() * vocab,
            rows_pass(targets@, vocab, finite@, i as int),
            rows@ == scored(targets@.take(i as int)),
        decreases targets.len() - i,
    {
        let t = targets[i];
        assert(targets@.take(i + 1).drop_last() =~= targets@.take(i as int));
        if t != PAD_TOKEN {
            if t as usize >= vocab {
                assert(row_refused(targets@, vocab, finite@, i as int));
                return Err(TransformerError::InvalidData(String::from_str("target outside vocabulary")));
            }
            if !finite[i] {
                assert(row_refused(targets@, vocab, finite@, i as int));
                return Err(
                    TransformerError::InvalidData(
                        String::from_str("softmax requires finite non-empty input"),
                    ),
                );
            }
            rows.push(i);
        }
        assert(!row_refused(targets@, vocab, finite@, i as int));
        i = i + 1;
    }
    assert(targets@.take(targets.len() as int) =~= targets@);
    if rows.len() == 0 {
        return Err(TransformerError::InvalidData(String::from_str("no target tokens")));
    }
    Ok(rows)
}

} // verus!

verus! {

/// The scored rows of any targets a slice can hold are exactly the rows
/// whose target is not padding, in
/// increasing order: every scored row lies inside the targets and has a
/// target other than `PAD_TOKEN` (beginning- and end-of-sequence targets
/// included), and every such row is scored.
pub proof fn lemma_scored_rows_are_the_non_padding_rows(targets: Seq<u32>)
    requires
        targets.len() <= usize::MAX,
    ensures
        forall|k: int|
            #![trigger scored(targets)[k]]
            0 <= k < scored(targets).len() ==> (scored(targets)[k] as int) < targets.len()
                && targets[scored(targets)[k] as int] != PAD_TOKEN,
        forall|j: int, k: int|
            0 <= j < k < scored(targets).len() ==> #[trigger] scored(targets)[j] < #[trigger] scored(
                targets,
            )[k],
        forall|r: int|
            0 <= r < targets.len() && #[trigger] targets[r] != PAD_TOKEN ==> exists|k: int|
                0 <= k < scored(targets).len() && scored(targets)[k] == r,
    decreases targets.len(),
{
    if targets.len() > 0 {
        let rest = targets.drop_last();
        lemma_scored_rows_are_the_non_padding_rows(rest);
        let s = scored(targets);
        let s0 = scored(rest);
        let last = (targets.len() - 1) as usize;
        if targets.last() == PAD_TOKEN {
            assert(s == s0);
        } else {
            assert(s == s0.push(last));
        }
        assert forall|k: int| #![trigger s[k]] 0 <= k < s.len() implies (s[k] as int) < targets.len()
            && targets[s[k] as int] != PAD_TOKEN by {
            if k < s0.len() {
                assert(s[k] == s0[k]);
                assert(rest[s0[k] as int] == targets[s0[k] as int]);
            } else {
                assert(s[k] == last);
            }
        }
        assert forall|j: int, k: int| 0 <= j < k < s.len() implies #[trigger] s[j] < #[trigger] s[k] by {
            assert(s[j] == s0[j]);
            if k < s0.len() {
                assert(s[k] == s0[k]);
            } else {
                assert(s[k] == last);
                assert(s0[j] < rest.len());
            }
        }
        assert forall|r: int| 0 <= r < targets.len() && #[trigger] targets[r] != PAD_TOKEN implies exists|
            k: int,
        | 0 <= k < s.len() && s[k] == r by {
            if r < rest.len() {
                assert(rest[r] == targets[r]);
                let k = choose|k: int| 0 <= k < s0.len() && s0[k] == r;
                assert(s[k] == s0[k]);
            } else {
                assert(s[s0.len() as int] == r);
            }
        }
    }
}

} // verus!
