//! The decisions of text generation: the prompt framing, when another token is
//! wanted, and how a chosen token extends the sequence.
use vstd::prelude::*;

verus! {

/// The state of a generation run: the ids so far (the tokenizer's
/// beginning-of-sequence id, the prompt, then the generated tokens), the
/// tokenizer's end-of-sequence id, how many tokens were generated, the
/// limits, and whether an end token stopped it.
pub struct Generation {
    ids: Vec<u32>,
    prompt: Ghost<Seq<u32>>,
    bos: u32,
    eos: u32,
    produced: usize,
    max_tokens: usize,
    max_seq_len: usize,
    finished: bool,
}

impl Generation {
    /// The run's invariant, which `new` establishes and `push` keeps.
    pub closed spec fn well_formed(&self) -> bool {
        &&& self.ids@.len() == 1 + self.prompt@.len() + self.produced
        &&& self.ids@.take(1 + self.prompt@.len() as int) == seq![self.bos] + self.prompt@
        &&& self.produced <= self.max_tokens
        &&& self.ids@.len() <= 1 + self.prompt@.len() || self.ids@.len() <= self.max_seq_len
    }

    /// The ids so far.
    pub closed spec fn tokens(&self) -> Seq<u32> {
        self.ids@
    }

    /// The prompt's ids.
    pub closed spec fn prompt_ids(&self) -> Seq<u32> {
        self.prompt@
    }

    /// The id the run starts with.
    pub closed spec fn start_id(&self) -> u32 {
        self.bos
    }

    /// The id that ends the run.
    pub closed spec fn end_id(&self) -> u32 {
        self.eos
    }

    /// How many tokens were generated.
    pub closed spec fn generated(&self) -> nat {
        self.produced as nat
    }

    /// The most tokens the run generates.
    pub closed spec fn token_limit(&self) -> nat {
        self.max_tokens as nat
    }

    /// The model's context length.
    pub closed spec fn context(&self) -> nat {
        self.max_seq_len as nat
    }

    /// An end token stopped the run.
    pub closed spec fn stopped(&self) -> bool {
        self.finished
    }

    /// Another token is wanted: no end token yet, fewer than `max_tokens`
    /// generated, and the ids still shorter than the context.
    pub open spec fn wants(&self) -> bool {
        !self.stopped() && self.generated() < self.token_limit() && self.tokens().len() < self.context()
    }

    /// Starts a run from the prompt's ids, which follow the tokenizer's
    /// beginning-of-sequence id `bos`; the tokenizer's end-of-sequence id
    /// `eos` will end it.
    pub fn new(prompt: Vec<u32>, bos: u32, eos: u32, max_tokens: usize, max_seq_len: usize) -> (g: Self)
        requires
            prompt@.len() < usize::MAX,
        ensures
            g.tokens() == seq![bos] + prompt@,
            g.start_id() == bos,
            g.end_id() == eos,
            g.prompt_ids() == prompt@,
            g.generated() == 0,
            g.token_limit() == max_tokens,
            g.context() == max_seq_len,
            !g.stopped(),
            g.well_formed(),
    {
        let mut ids: Vec<u32> = Vec::new();
        ids.push(bos);
        let mut i: usize = 0;
        while i < prompt.len()
            invariant
                i <= prompt.len(),
                ids@ == seq![bos] + prompt@.take(i as int),
            decreases prompt.len() - i,
        {
            ids.push(prompt[i]);
            assert(ids@ =~= seq![bos] + prompt@.take(i + 1));
            i = i + 1;
        }
        assert(prompt@.take(prompt.len() as int) =~= prompt@);
        assert(ids@.take(1 + prompt@.len() as int) =~= ids@);
        Generation {
            ids,
            prompt: Ghost(prompt@),
            bos,
            eos,
            produced: 0,
            max_tokens,
            max_seq_len,
            finished: false,
        }
    }

    /// Whether another token is wanted.
    pub fn wants_token(&self) -> (b: bool)
        ensures
            b == self.wants(),
            b == (!self.stopped() && self.generated() < self.token_limit() && self.tokens().len()
                < self.context()),
    {
        !self.finished && self.produced < self.max_tokens && self.ids.len() < self.max_seq_len
    }

    /// The ids so far.
    pub fn ids(&self) -> (v: &Vec<u32>)
        ensures
            v@ == self.tokens(),
    {
        &self.ids
    }

    /// Appends the chosen token; an end token ends the run.
    pub fn push(&mut self, next: u32)
        requires
            old(self).well_formed(),
            old(self).wants(),
        ensures
            final(self).well_formed(),
            final(self).tokens() == old(self).tokens().push(next),
            final(self).prompt_ids() == old(self).prompt_ids(),
            final(self).generated() == old(self).generated() + 1,
            final(self).token_limit() == old(self).token_limit(),
            final(self).context() == old(self).context(),
            final(self).start_id() == old(self).start_id(),
            final(self).end_id() == old(self).end_id(),
            final(self).stopped() == (next == old(self).end_id()),
    {
        let ghost before = self.ids@;
        let ghost p = self.prompt@;
        let mut ids: Vec<u32> = Vec::new();
        std::mem::swap(&mut ids, &mut self.ids);
        ids.push(next);
        assert(ids@.take(1 + p.len() as int) =~= before.take(1 + p.len() as int));
        self.ids = ids;
        self.produced = self.produced + 1;
        self.finished = next == self.eos;
    }

    /// The ids, ending the run.
    pub fn into_ids(self) -> (v: Vec<u32>)
        ensures
            v@ == self.tokens(),
    {
        self.ids
    }
}

/// Every run keeps its frame: the ids start with its start id and the prompt,
/// at most `max_tokens` follow, and the ids outgrow the context only by the
/// prompt itself. While another token is wanted, the ids are a non-empty
/// sequence that fits the context, as the model's forward pass requires.
pub proof fn lemma_generation_frame(g: Generation)
    requires
        g.well_formed(),
    ensures
        g.tokens().len() == 1 + g.prompt_ids().len() + g.generated(),
        g.tokens().take(1 + g.prompt_ids().len() as int) == seq![g.start_id()] + g.prompt_ids(),
        g.generated() <= g.token_limit(),
        g.tokens().len() <= 1 + g.prompt_ids().len() || g.tokens().len() <= g.context(),
        g.wants() ==> 1 <= g.tokens().len() < g.context(),
{
}

/// A run stops only at a limit: while no end token was produced, fewer than
/// `max_tokens` were generated and the ids are shorter than the context,
/// another token is wanted; and when none is wanted, an end token stopped the
/// run, `max_tokens` were generated, or the ids fill the context.
pub proof fn lemma_generation_stops_only_at_a_limit(g: Generation)
    requires
        g.well_formed(),
    ensures
        !g.stopped() && g.generated() < g.token_limit() && g.tokens().len() < g.context() ==> g.wants(),
        !g.wants() ==> g.stopped() || g.generated() == g.token_limit() || g.tokens().len() >= g.context(),
{
}

/// How many of `candidates` sampled tokens top-k sampling keeps: `k`, at least
/// one, at most all; without `top_k`, all of them.
pub fn top_k_len(top_k: Option<usize>, candidates: usize) -> (n: usize)
    ensures
        top_k is None ==> n == candidates,
        top_k matches Some(k) ==> n == if candidates < (if k < 1 { 1 } else { k }) {
            candidates
        } else {
            if k < 1 { 1 } else { k }
        },
{
    match top_k {
        Some(k) => {
            let kept = if k < 1 { 1 } else { k };
            if kept < candidates { kept } else { candidates }
        },
        None => candidates,
    }
}

} // verus!
