//! How a token stream is cut into next-token training and evaluation windows.
use vstd::prelude::*;

verus! {

/// One window: the model reads `input` and is asked to predict `target`, the
/// same tokens shifted by one.
pub struct TrainingWindow {
    pub input: Vec<u32>,
    pub target: Vec<u32>,
}

/// A window as a pair of token sequences.
pub open spec fn window_view(w: TrainingWindow) -> (Seq<u32>, Seq<u32>) {
    (w.input@, w.target@)
}

/// The windows of `tokens` for chunks of `width` tokens: consecutive chunks of
/// `width` (the last one may be shorter), each chunk of at least two tokens
/// giving the input without its last token and the target without its first.
pub open spec fn windows(tokens: Seq<u32>, width: nat) -> Seq<(Seq<u32>, Seq<u32>)>
    decreases tokens.len(),
{
    if tokens.len() == 0 || width == 0 {
        Seq::empty()
    } else {
        let n = if width < tokens.len() { width as int } else { tokens.len() as int };
        let chunk = tokens.take(n);
        let here = if n >= 2 {
            seq![(chunk.drop_last(), chunk.skip(1))]
        } else {
            Seq::empty()
        };
        here + windows(tokens.skip(n), width)
    }
}

/// The windows of a token stream for a model whose context holds
/// `max_seq_len` tokens: chunks of `max_seq_len + 1` tokens, as
/// `tokens.chunks(max_seq_len + 1)` cuts them, chunks shorter than two tokens
/// skipped.
pub fn training_windows(tokens: &Vec<u32>, max_seq_len: usize) -> (r: Vec<TrainingWindow>)
    requires
        max_seq_len < usize::MAX,
    ensures
        r@.map_values(|w: TrainingWindow| window_view(w)) == windows(tokens@, (max_seq_len + 1) as nat),
{
    let width = max_seq_len + 1;
    let mut out: Vec<TrainingWindow> = Vec::new();
    let mut start: usize = 0;
    assert(tokens@.skip(0) =~= tokens@);
    assert(out@.map_values(|w: TrainingWindow| window_view(w)) + windows(tokens@.skip(0), width as nat)
        =~= windows(tokens@, width as nat));
    while start < tokens.len()
        invariant
            start <= tokens.len(),
            width == max_seq_len + 1,
            out@.map_values(|w: TrainingWindow| window_view(w)) + windows(tokens@.skip(start as int), width as nat)
                == windows(tokens@, width as nat),
        decreases tokens.len() - start,
    {
        let rest = tokens.len() - start;
        let n = if width < rest { width } else { rest };
        let ghost tail = tokens@.skip(start as int);
        assert(tail.take(n as int).len() == n);
        assert(tail.skip(n as int) =~= tokens@.skip(start + n));
        let ghost before = out@.map_values(|w: TrainingWindow| window_view(w));
        if n >= 2 {
            let mut input: Vec<u32> = Vec::new();
            let mut target: Vec<u32> = Vec::new();
            let mut i: usize = 0;
            while i < n - 1
                invariant
                    i <= n - 1,
                    n >= 2,
                    start + n <= tokens.len(),
                    input@ == tokens@.subrange(start as int, start + i),
                    target@ == tokens@.subrange(start + 1, start + 1 + i),
                decreases n - 1 - i,
            {
                input.push(tokens[start + i]);
                target.push(tokens[start + 1 + i]);
                assert(input@ =~= tokens@.subrange(start as int, start + i + 1));
                assert(target@ =~= tokens@.subrange(start + 1, start + 1 + i + 1));
                i = i + 1;
            }
            let w = TrainingWindow { input, target };
            assert(window_view(w).0 =~= tail.take(n as int).drop_last());
            assert(window_view(w).1 =~= tail.take(n as int).skip(1));
            out.push(w);
            assert(out@.map_values(|w: TrainingWindow| window_view(w)) =~= before.push(window_view(w)));
        }
        assert(windows(tail, width as nat) == (if n >= 2 {
            seq![(tail.take(n as int).drop_last(), tail.take(n as int).skip(1))]
        } else {
            Seq::empty()
        }) + windows(tail.skip(n as int), width as nat));
        assert(out@.map_values(|w: TrainingWindow| window_view(w)) + windows(tokens@.skip(start + n), width as nat)
            =~= before + windows(tail, width as nat));
        start = start + n;
    }
    assert(tokens@.skip(start as int) =~= Seq::<u32>::empty());
    assert(out@.map_values(|w: TrainingWindow| window_view(w)) + windows(Seq::<u32>::empty(), width as nat)
        =~= out@.map_values(|w: TrainingWindow| window_view(w)));
    out
}

/// Every window fits the model's context: its input holds between one and
/// `width - 1` tokens, its target as many, and the target is the input
/// shifted by one position.
pub proof fn lemma_windows_fit_context(tokens: Seq<u32>, width: nat, k: int)
    requires
        0 <= k < windows(tokens, width).len(),
    ensures
        1 <= windows(tokens, width)[k].0.len() < width,
        windows(tokens, width)[k].1.len() == windows(tokens, width)[k].0.len(),
        windows(tokens, width)[k].1.drop_last() == windows(tokens, width)[k].0.skip(1),
    decreases tokens.len(),
{
    let n = if width < tokens.len() { width as int } else { tokens.len() as int };
    let chunk = tokens.take(n);
    if n >= 2 && k == 0 {
        assert(chunk.skip(1).drop_last() =~= chunk.drop_last().skip(1));
    } else {
        let here_len: int = if n >= 2 { 1 } else { 0 };
        lemma_windows_fit_context(tokens.skip(n), width, k - here_len);
    }
}

/// A stream of at least two tokens yields at least one window when the
/// context holds at least one token.
pub proof fn lemma_windows_nonempty(tokens: Seq<u32>, width: nat)
    requires
        tokens.len() >= 2,
        width >= 2,
    ensures
        windows(tokens, width).len() >= 1,
{
}

} // verus!
