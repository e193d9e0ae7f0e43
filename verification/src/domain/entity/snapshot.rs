//! Validation of a stored model snapshot against the layout its
//! configuration implies.
use vstd::prelude::*;
use vstd::string::*;
use crate::domain::entity::error::TransformerError;
use crate::domain::entity::layout::{layout, lemma_layout_names_distinct, parameter_layout, qkv_width_fits, spec_views, ParamEntry};
use crate::domain::entity::value_objects::ModelConfig;

verus! {

/// What validation needs to know of one stored parameter: its name, its
/// shape, how many values it holds, and whether all of them are finite.
pub struct ParameterMeta {
    pub name: String,
    pub shape: Vec<usize>,
    pub value_count: usize,
    pub all_finite: bool,
}

/// A stored parameter's description as a mathematical value.
#[verifier::ext_equal]
pub struct MetaEntry {
    pub name: Seq<char>,
    pub shape: Seq<usize>,
    pub value_count: usize,
    pub all_finite: bool,
}

impl View for ParameterMeta {
    type V = MetaEntry;

    open spec fn view(&self) -> MetaEntry {
        MetaEntry {
            name: self.name@,
            shape: self.shape@,
            value_count: self.value_count,
            all_finite: self.all_finite,
        }
    }
}

/// The views of a list of parameter descriptions.
pub open spec fn meta_views(v: Seq<ParameterMeta>) -> Seq<MetaEntry> {
    v.map_values(|p: ParameterMeta| p@)
}

/// The number of elements of a tensor of shape `s`.
pub open spec fn shape_product(s: Seq<usize>) -> nat
    decreases s.len(),
{
    if s.len() == 0 {
        1
    } else {
        shape_product(s.drop_last()) * (s.last() as nat)
    }
}

/// Parameter `i` repeats the name of an earlier one.
pub open spec fn duplicate_at(m: Seq<MetaEntry>, i: int) -> bool {
    exists|j: int| 0 <= j < i && #[trigger] m[j].name == m[i].name
}

/// Parameter `i` differs from the layout in name or shape, or holds a number
/// of values other than its shape's size.
pub open spec fn mismatch_at(e: Seq<ParamEntry>, m: Seq<MetaEntry>, i: int) -> bool {
    ||| m[i].name != e[i].name
    ||| m[i].shape != e[i].shape
    ||| m[i].value_count != shape_product(m[i].shape)
}

/// Parameter `i` is rejected: a duplicate, a mismatch, or non-finite values.
pub open spec fn rejected_at(e: Seq<ParamEntry>, m: Seq<MetaEntry>, i: int) -> bool {
    duplicate_at(m, i) || mismatch_at(e, m, i) || !m[i].all_finite
}

/// None of the first `n` parameters is rejected.
pub open spec fn accepted_upto(e: Seq<ParamEntry>, m: Seq<MetaEntry>, n: int) -> bool {
    forall|i: int| 0 <= i < n ==> !#[trigger] rejected_at(e, m, i)
}

proof fn lemma_product_zero(s: Seq<usize>, k: int)
    requires
        0 <= k < s.len(),
        s[k] == 0,
    ensures
        shape_product(s) == 0,
    decreases s.len(),
{
    if k < s.len() - 1 {
        assert(s.drop_last()[k] == s[k]);
        lemma_product_zero(s.drop_last(), k);
        assert(shape_product(s) == 0 * (s.last() as nat));
    } else {
        assert(s.last() == 0);
        assert(shape_product(s) == shape_product(s.drop_last()) * 0);
    }
}

proof fn lemma_product_grows(s: Seq<usize>, i: int)
    requires
        0 <= i <= s.len(),
        forall|k: int| 0 <= k < s.len() ==> s[k] >= 1,
    ensures
        shape_product(s.take(i)) <= shape_product(s),
    decreases s.len() - i,
{
    if i < s.len() {
        lemma_product_grows(s, i + 1);
        assert(s.take(i + 1).drop_last() =~= s.take(i));
        let p = shape_product(s.take(i));
        let x = s[i] as nat;
        assert(p <= p * x) by (nonlinear_arith)
            requires
                x >= 1,
        ;
    } else {
        assert(s.take(i) =~= s);
    }
}

/// The number of elements of a tensor of shape `shape`, when it fits a
/// usize.
pub fn shape_elements(shape: &Vec<usize>) -> (r: Option<usize>)
    ensures
        shape_product(shape@) <= usize::MAX ==> r == Some(shape_product(shape@) as usize),
        shape_product(shape@) > usize::MAX ==> r is None,
{
    let mut k: usize = 0;
    while k < shape.len()
        invariant
            k <= shape.len(),
            forall|j: int| 0 <= j < k ==> shape@[j] >= 1,
        decreases shape.len() - k,
    {
        if shape[k] == 0 {
            proof { lemma_product_zero(shape@, k as int); }
            return Some(0);
        }
        k = k + 1;
    }
    let mut acc: usize = 1;
    let mut i: usize = 0;
    assert(shape@.take(0) =~= Seq::<usize>::empty());
    while i < shape.len()
        invariant
            i <= shape.len(),
            forall|j: int| 0 <= j < shape@.len() ==> shape@[j] >= 1,
            acc as nat == shape_product(shape@.take(i as int)),
        decreases shape.len() - i,
    {
        assert(shape@.take(i + 1).drop_last() =~= shape@.take(i as int));
        match acc.checked_mul(shape[i]) {
            Some(next) => {
                acc = next;
            },
            None => {
                proof { lemma_product_grows(shape@, i + 1); }
                return None;
            },
        }
        i = i + 1;
    }
    assert(shape@.take(shape.len() as int) =~= shape@);
    Some(acc)
}

fn same_shape(a: &Vec<usize>, b: &Vec<usize>) -> (r: bool)
    ensures
        r == (a@ == b@),
{
    if a.len() != b.len() {
        return false;
    }
    let mut i: usize = 0;
    while i < a.len()
        invariant
            i <= a.len(),
            a.len() == b.len(),
            forall|j: int| 0 <= j < i ==> a@[j] == b@[j],
        decreases a.len() - i,
    {
        if a[i] != b[i] {
            return false;
        }
        i = i + 1;
    }
    assert(a@ =~= b@);
    true
}

fn checkpoint_error(prefix: &str, name: &String) -> (e: TransformerError)
    ensures
        e matches TransformerError::Checkpoint(m) && m@ == prefix@ + name@,
{
    let mut m = String::from_str(prefix);
    m.append(name.as_str());
    TransformerError::Checkpoint(m)
}

/// Checks a snapshot's configuration and parameters against the layout the
/// configuration implies, in the order a load performs the checks: the
/// tokenizer's vocabulary size, the configuration, the parameter count, then
/// each parameter in storage order (a repeated name, a differing name, shape
/// or value count, non-finite values).
pub fn check_snapshot(
    c: &ModelConfig,
    tokenizer_vocab_size: usize,
    params: &Vec<ParameterMeta>,
) -> (r: Result<(), TransformerError>)
    requires
        tokenizer_vocab_size == c.vocab_size && c.is_valid() ==> qkv_width_fits(*c),
    ensures
        ({
            let e = layout(*c);
            let m = meta_views(params@);
            &&& tokenizer_vocab_size != c.vocab_size ==> (r matches Err(
                TransformerError::Checkpoint(s),
            ) && s@ == "tokenizer and model vocabulary sizes differ"@)
            &&& tokenizer_vocab_size == c.vocab_size && !c.dims_positive() ==> (r matches Err(
                TransformerError::InvalidConfig(s),
            ) && s@ == "all dimensions must be positive and max_seq_len >= 2"@)
            &&& tokenizer_vocab_size == c.vocab_size && c.dims_positive() && !c.is_valid() ==> (
            r matches Err(TransformerError::InvalidConfig(s)) && s@
                == "d_model must be divisible by num_heads"@)
            &&& tokenizer_vocab_size == c.vocab_size && c.is_valid() && m.len() != e.len() ==> (
            r matches Err(TransformerError::Checkpoint(s)) && s@ == "parameter count mismatch"@)
            &&& tokenizer_vocab_size == c.vocab_size && c.is_valid() && m.len() == e.len() ==> (
            r is Ok <==> accepted_upto(e, m, m.len() as int))
            &&& forall|i: int|
                #![trigger rejected_at(e, m, i)]
                tokenizer_vocab_size == c.vocab_size && c.is_valid() && m.len() == e.len() && 0 <= i
                    < m.len() && accepted_upto(e, m, i) && rejected_at(e, m, i) ==> {
                    &&& duplicate_at(m, i) ==> (r matches Err(TransformerError::Checkpoint(s))
                        && s@ == "duplicate parameter "@ + m[i].name)
                    &&& !duplicate_at(m, i) && mismatch_at(e, m, i) ==> (r matches Err(
                        TransformerError::Checkpoint(s),
                    ) && s@ == "parameter mismatch for "@ + m[i].name)
                    &&& !duplicate_at(m, i) && !mismatch_at(e, m, i) ==> (r matches Err(
                        TransformerError::Checkpoint(s),
                    ) && s@ == "non-finite parameter "@ + m[i].name)
                }
        }),
{
    if tokenizer_vocab_size != c.vocab_size {
        return Err(TransformerError::Checkpoint(String::from_str("tokenizer and model vocabulary sizes differ")));
    }
    match c.validate() {
        Ok(()) => {},
        Err(err) => {
            return Err(err);
        },
    }
    let expected = parameter_layout(c);
    let ghost e = layout(*c);
    let ghost m = meta_views(params@);
    if params.len() != expected.len() {
        assert(spec_views(expected@).len() == expected@.len());
        return Err(TransformerError::Checkpoint(String::from_str("parameter count mismatch")));
    }
    let mut i: usize = 0;
    while i < params.len()
        invariant
            i <= params.len(),
            params.len() == expected.len(),
            tokenizer_vocab_size == c.vocab_size,
            c.is_valid(),
            e == layout(*c),
            spec_views(expected@) == e,
            m == meta_views(params@),
            accepted_upto(e, m, i as int),
        decreases params.len() - i,
    {
        let p = &params[i];
        assert(m[i as int] == p@);
        assert(e[i as int] == expected@[i as int]@);
        let mut j: usize = 0;
        while j < i
            invariant
                j <= i,
                i < params.len(),
                m == meta_views(params@),
                *p == params@[i as int],
                tokenizer_vocab_size == c.vocab_size,
                c.is_valid(),
                e == layout(*c),
                params.len() == expected.len(),
                spec_views(expected@) == e,
                accepted_upto(e, m, i as int),
                forall|k: int| 0 <= k < j ==> m[k].name != m[i as int].name,
            decreases i - j,
        {
            assert(m[j as int] == params@[j as int]@);
            if params[j].name == p.name {
                assert(m[j as int].name == m[i as int].name);
                assert(duplicate_at(m, i as int));
                assert(rejected_at(e, m, i as int));
                return Err(checkpoint_error("duplicate parameter ", &p.name));
            }
            j = j + 1;
        }
        assert(!duplicate_at(m, i as int));
        let count_ok = match shape_elements(&p.shape) {
            Some(n) => n == p.value_count,
            None => false,
        };
        if p.name != expected[i].name || !same_shape(&p.shape, &expected[i].shape) || !count_ok {
            assert(mismatch_at(e, m, i as int));
            assert(rejected_at(e, m, i as int));
            return Err(checkpoint_error("parameter mismatch for ", &p.name));
        }
        assert(!mismatch_at(e, m, i as int));
        if !p.all_finite {
            assert(rejected_at(e, m, i as int));
            return Err(checkpoint_error("non-finite parameter ", &p.name));
        }
        assert(!rejected_at(e, m, i as int));
        i = i + 1;
    }
    Ok(())
}

} // verus!

verus! {

/// Parameters that follow a configuration's layout exactly (same names and
/// shapes, in order, each holding its shape's number of finite values) pass
/// every per-parameter check; so `check_snapshot` accepts a snapshot taken
/// from a model whose configuration is valid, whose tokenizer has the model's
/// vocabulary size.
pub proof fn lemma_layout_snapshot_accepted(c: ModelConfig, params: Seq<ParameterMeta>)
    requires
        meta_views(params).len() == layout(c).len(),
        forall|i: int|
            0 <= i < params.len() ==> {
                &&& (#[trigger] params[i])@.name == layout(c)[i].name
                &&& params[i]@.shape == layout(c)[i].shape
                &&& params[i]@.value_count == shape_product(layout(c)[i].shape)
                &&& params[i]@.all_finite
            },
    ensures
        accepted_upto(layout(c), meta_views(params), params.len() as int),
{
    let e = layout(c);
    let m = meta_views(params);
    assert forall|i: int| 0 <= i < params.len() implies !#[trigger] rejected_at(e, m, i) by {
        assert(m[i] == params[i]@);
        if duplicate_at(m, i) {
            let j = choose|j: int| 0 <= j < i && #[trigger] m[j].name == m[i].name;
            assert(m[j] == params[j]@);
            lemma_layout_names_distinct(c, i, j);
        }
    }
}

} // verus!
