//! The named, shaped parameters of a model, in the order the model stores
//! them, and the validation of a snapshot against that layout.
use vstd::prelude::*;
use vstd::string::*;
use crate::domain::entity::value_objects::ModelConfig;
use crate::text::{decimal_digits, digit_char, push_decimal};

verus! {

/// One parameter of the layout: its name, its shape, the fan-in its random
/// initialisation uses, and whether it starts as all ones (a norm's gain).
pub struct ParameterSpec {
    pub name: String,
    pub shape: Vec<usize>,
    pub fan_in: usize,
    pub identity: bool,
}

/// A parameter of the layout as a mathematical value.
#[verifier::ext_equal]
pub struct ParamEntry {
    pub name: Seq<char>,
    pub shape: Seq<usize>,
    pub fan_in: usize,
    pub identity: bool,
}

impl View for ParameterSpec {
    type V = ParamEntry;

    open spec fn view(&self) -> ParamEntry {
        ParamEntry { name: self.name@, shape: self.shape@, fan_in: self.fan_in, identity: self.identity }
    }
}

/// The views of a list of parameter specifications.
pub open spec fn spec_views(v: Seq<ParameterSpec>) -> Seq<ParamEntry> {
    v.map_values(|p: ParameterSpec| p@)
}

/// The 3 * d_model width of a fused query/key/value projection fits a usize.
pub open spec fn qkv_width_fits(c: ModelConfig) -> bool {
    3 * c.d_model <= usize::MAX
}

/// The name prefix of decoder layer `l`.
pub open spec fn layer_prefix(l: nat) -> Seq<char> {
    "decoder.layers."@ + decimal_digits(l)
}

/// The name suffix of the `k`-th parameter of a decoder layer.
pub open spec fn layer_suffix(k: int) -> Seq<char> {
    if k == 0 { ".qkv.weight"@ }
    else if k == 1 { ".qkv.bias"@ }
    else if k == 2 { ".attention_output.weight"@ }
    else if k == 3 { ".attention_output.bias"@ }
    else if k == 4 { ".norm1.weight"@ }
    else if k == 5 { ".norm1.bias"@ }
    else if k == 6 { ".ffn.linear1.weight"@ }
    else if k == 7 { ".ffn.linear1.bias"@ }
    else if k == 8 { ".ffn.linear2.weight"@ }
    else if k == 9 { ".ffn.linear2.bias"@ }
    else if k == 10 { ".norm2.weight"@ }
    else { ".norm2.bias"@ }
}

/// The twelve parameters of decoder layer `l`, in storage order.
pub open spec fn layer_entries(c: ModelConfig, l: nat) -> Seq<ParamEntry> {
    let p = layer_prefix(l);
    let d = c.d_model;
    let f = c.d_ff;
    let d3 = (3 * d) as usize;
    seq![
        ParamEntry { name: p + layer_suffix(0), shape: seq![d, d3], fan_in: d, identity: false },
        ParamEntry { name: p + layer_suffix(1), shape: seq![d3], fan_in: 1, identity: false },
        ParamEntry { name: p + layer_suffix(2), shape: seq![d, d], fan_in: d, identity: false },
        ParamEntry { name: p + layer_suffix(3), shape: seq![d], fan_in: 1, identity: false },
        ParamEntry { name: p + layer_suffix(4), shape: seq![d], fan_in: 1, identity: true },
        ParamEntry { name: p + layer_suffix(5), shape: seq![d], fan_in: 1, identity: false },
        ParamEntry { name: p + layer_suffix(6), shape: seq![d, f], fan_in: d, identity: false },
        ParamEntry { name: p + layer_suffix(7), shape: seq![f], fan_in: 1, identity: false },
        ParamEntry { name: p + layer_suffix(8), shape: seq![f, d], fan_in: f, identity: false },
        ParamEntry { name: p + layer_suffix(9), shape: seq![d], fan_in: 1, identity: false },
        ParamEntry { name: p + layer_suffix(10), shape: seq![d], fan_in: 1, identity: true },
        ParamEntry { name: p + layer_suffix(11), shape: seq![d], fan_in: 1, identity: false },
    ]
}

/// The parameters of decoder layers `0..n`, layer by layer.
pub open spec fn layers_upto(c: ModelConfig, n: nat) -> Seq<ParamEntry>
    decreases n,
{
    if n == 0 {
        Seq::empty()
    } else {
        layers_upto(c, (n - 1) as nat) + layer_entries(c, (n - 1) as nat)
    }
}

/// The token embedding table.
pub open spec fn embedding_entry(c: ModelConfig) -> ParamEntry {
    ParamEntry {
        name: "embedding.weight"@,
        shape: seq![c.vocab_size, c.d_model],
        fan_in: c.vocab_size,
        identity: false,
    }
}

/// The output projection's weight and bias.
pub open spec fn output_entries(c: ModelConfig) -> Seq<ParamEntry> {
    seq![
        ParamEntry {
            name: "output_projection.weight"@,
            shape: seq![c.d_model, c.vocab_size],
            fan_in: c.d_model,
            identity: false,
        },
        ParamEntry {
            name: "output_projection.bias"@,
            shape: seq![c.vocab_size],
            fan_in: 1,
            identity: false,
        },
    ]
}

/// Every parameter of a model with configuration `c`, in storage order: the
/// embedding, twelve per decoder layer, then the output projection.
pub open spec fn layout(c: ModelConfig) -> Seq<ParamEntry> {
    seq![embedding_entry(c)] + layers_upto(c, c.num_layers as nat) + output_entries(c)
}

/// The storage index of the first parameter of decoder layer `l`.
pub open spec fn layer_base(l: nat) -> nat {
    1 + 12 * l
}

fn named(prefix: &String, suffix: &str) -> (s: String)
    ensures
        s@ == prefix@ + suffix@,
{
    let mut s = prefix.clone();
    s.append(suffix);
    s
}

fn spec_of(name: String, shape: Vec<usize>, fan_in: usize, identity: bool) -> (p: ParameterSpec)
    ensures
        p@ == (ParamEntry { name: name@, shape: shape@, fan_in, identity }),
{
    ParameterSpec { name, shape, fan_in, identity }
}

fn push_spec(v: &mut Vec<ParameterSpec>, name: String, shape: Vec<usize>, fan_in: usize, identity: bool)
    ensures
        spec_views(final(v)@) == spec_views(old(v)@).push(
            ParamEntry { name: name@, shape: shape@, fan_in, identity },
        ),
{
    let p = spec_of(name, shape, fan_in, identity);
    v.push(p);
    assert(spec_views(v@) =~= spec_views(old(v)@).push(p@));
}

fn push_layer(v: &mut Vec<ParameterSpec>, c: &ModelConfig, l: usize)
    requires
        qkv_width_fits(*c),
    ensures
        spec_views(final(v)@) == spec_views(old(v)@) + layer_entries(*c, l as nat),
{
    let ghost start = spec_views(v@);
    let mut prefix = String::from_str("decoder.layers.");
    push_decimal(&mut prefix, l as u64);
    proof { reveal_strlit("decoder.layers."); }
    assert(prefix@ == layer_prefix(l as nat));
    let d = c.d_model;
    let f = c.d_ff;
    let d3 = 3 * d;
    push_spec(v, named(&prefix, ".qkv.weight"), vec![d, d3], d, false);
    push_spec(v, named(&prefix, ".qkv.bias"), vec![d3], 1, false);
    push_spec(v, named(&prefix, ".attention_output.weight"), vec![d, d], d, false);
    push_spec(v, named(&prefix, ".attention_output.bias"), vec![d], 1, false);
    push_spec(v, named(&prefix, ".norm1.weight"), vec![d], 1, true);
    push_spec(v, named(&prefix, ".norm1.bias"), vec![d], 1, false);
    push_spec(v, named(&prefix, ".ffn.linear1.weight"), vec![d, f], d, false);
    push_spec(v, named(&prefix, ".ffn.linear1.bias"), vec![f], 1, false);
    push_spec(v, named(&prefix, ".ffn.linear2.weight"), vec![f, d], f, false);
    push_spec(v, named(&prefix, ".ffn.linear2.bias"), vec![d], 1, false);
    push_spec(v, named(&prefix, ".norm2.weight"), vec![d], 1, true);
    push_spec(v, named(&prefix, ".norm2.bias"), vec![d], 1, false);
    assert(spec_views(v@) =~~= start + layer_entries(*c, l as nat));
}

/// The parameters of a model with configuration `c`, in storage order.
pub fn parameter_layout(c: &ModelConfig) -> (v: Vec<ParameterSpec>)
    requires
        qkv_width_fits(*c),
    ensures
        spec_views(v@) == layout(*c),
{
    let mut v: Vec<ParameterSpec> = Vec::new();
    push_spec(&mut v, String::from_str("embedding.weight"), vec![c.vocab_size, c.d_model], c.vocab_size, false);
    assert(spec_views(v@) =~= seq![embedding_entry(*c)]);
    let mut l: usize = 0;
    while l < c.num_layers
        invariant
            l <= c.num_layers,
            qkv_width_fits(*c),
            spec_views(v@) == seq![embedding_entry(*c)] + layers_upto(*c, l as nat),
        decreases c.num_layers - l,
    {
        push_layer(&mut v, c, l);
        assert(layers_upto(*c, (l + 1) as nat) == layers_upto(*c, l as nat) + layer_entries(*c, l as nat));
        assert(spec_views(v@) =~= seq![embedding_entry(*c)] + layers_upto(*c, (l + 1) as nat));
        l = l + 1;
    }
    let ghost before = spec_views(v@);
    push_spec(&mut v, String::from_str("output_projection.weight"), vec![c.d_model, c.vocab_size], c.d_model, false);
    push_spec(&mut v, String::from_str("output_projection.bias"), vec![c.vocab_size], 1, false);
    assert(spec_views(v@) =~~= before + output_entries(*c));
    v
}

} // verus!

verus! {

proof fn lemma_decimal_digits_are_digits(n: nat)
    ensures
        decimal_digits(n).len() >= 1,
        n >= 10 ==> decimal_digits(n).len() >= 2,
        forall|i: int|
            0 <= i < decimal_digits(n).len() ==> '0' <= #[trigger] decimal_digits(n)[i] <= '9',
    decreases n,
{
    if n >= 10 {
        lemma_decimal_digits_are_digits(n / 10);
    }
}

proof fn lemma_digit_char_injective(x: nat, y: nat)
    requires
        x < 10,
        y < 10,
        digit_char(x) == digit_char(y),
    ensures
        x == y,
{
}

proof fn lemma_decimal_digits_injective(a: nat, b: nat)
    requires
        decimal_digits(a) == decimal_digits(b),
    ensures
        a == b,
    decreases a,
{
    lemma_decimal_digits_are_digits(a);
    lemma_decimal_digits_are_digits(b);
    if a >= 10 && b >= 10 {
        let da = decimal_digits(a);
        let db = decimal_digits(b);
        assert(da.last() == db.last());
        assert(da.drop_last() =~= decimal_digits(a / 10));
        assert(db.drop_last() =~= decimal_digits(b / 10));
        lemma_decimal_digits_injective(a / 10, b / 10);
        assert(digit_char(a % 10) == digit_char(b % 10));
        lemma_digit_char_injective(a % 10, b % 10);
    } else if a < 10 && b < 10 {
        assert(decimal_digits(a) == seq![digit_char(a)]);
        assert(decimal_digits(b) == seq![digit_char(b)]);
        assert(decimal_digits(a)[0] == decimal_digits(b)[0]);
        assert(seq![digit_char(a)][0] == digit_char(a));
        assert(seq![digit_char(b)][0] == digit_char(b));
        lemma_digit_char_injective(a, b);
    }
}

proof fn lemma_suffixes(k: int)
    requires
        0 <= k < 12,
    ensures
        layer_suffix(k).len() >= 9,
        layer_suffix(k)[0] == '.',
{
    reveal_strlit(".qkv.weight");
    reveal_strlit(".qkv.bias");
    reveal_strlit(".attention_output.weight");
    reveal_strlit(".attention_output.bias");
    reveal_strlit(".norm1.weight");
    reveal_strlit(".norm1.bias");
    reveal_strlit(".ffn.linear1.weight");
    reveal_strlit(".ffn.linear1.bias");
    reveal_strlit(".ffn.linear2.weight");
    reveal_strlit(".ffn.linear2.bias");
    reveal_strlit(".norm2.weight");
    reveal_strlit(".norm2.bias");
}

proof fn lemma_suffixes_distinct(k1: int, k2: int)
    requires
        0 <= k1 < 12,
        0 <= k2 < 12,
        k1 != k2,
    ensures
        layer_suffix(k1) != layer_suffix(k2),
{
    reveal_strlit(".qkv.weight");
    reveal_strlit(".qkv.bias");
    reveal_strlit(".attention_output.weight");
    reveal_strlit(".attention_output.bias");
    reveal_strlit(".norm1.weight");
    reveal_strlit(".norm1.bias");
    reveal_strlit(".ffn.linear1.weight");
    reveal_strlit(".ffn.linear1.bias");
    reveal_strlit(".ffn.linear2.weight");
    reveal_strlit(".ffn.linear2.bias");
    reveal_strlit(".norm2.weight");
    reveal_strlit(".norm2.bias");
    let s1 = layer_suffix(k1);
    let s2 = layer_suffix(k2);
    if s1 == s2 {
        assert(s1.len() == s2.len());
        assert(s1[1] == s2[1]);
        assert(s1[5] == s2[5]);
        if s1.len() > 11 {
            assert(s1[11] == s2[11]);
        }
    }
}

proof fn lemma_layer_names_distinct(l1: nat, k1: int, l2: nat, k2: int)
    requires
        0 <= k1 < 12,
        0 <= k2 < 12,
        l1 != l2 || k1 != k2,
    ensures
        layer_prefix(l1) + layer_suffix(k1) != layer_prefix(l2) + layer_suffix(k2),
{
    reveal_strlit("decoder.layers.");
    let p: Seq<char> = "decoder.layers."@;
    let d1 = decimal_digits(l1);
    let d2 = decimal_digits(l2);
    let s1 = layer_suffix(k1);
    let s2 = layer_suffix(k2);
    let n1 = layer_prefix(l1) + s1;
    let n2 = layer_prefix(l2) + s2;
    lemma_decimal_digits_are_digits(l1);
    lemma_decimal_digits_are_digits(l2);
    lemma_suffixes(k1);
    lemma_suffixes(k2);
    if n1 == n2 {
        let x1 = d1 + s1;
        let x2 = d2 + s2;
        assert(n1.skip(15) =~= x1);
        assert(n2.skip(15) =~= x2);
        assert(x1 == x2);
        if d1.len() < d2.len() {
            assert(x1[d1.len() as int] == '.');
            assert(x2[d1.len() as int] == d2[d1.len() as int]);
        } else if d2.len() < d1.len() {
            assert(x2[d2.len() as int] == '.');
            assert(x1[d2.len() as int] == d1[d2.len() as int]);
        } else {
            assert(x1.take(d1.len() as int) =~= d1);
            assert(x2.take(d2.len() as int) =~= d2);
            lemma_decimal_digits_injective(l1, l2);
            assert(x1.skip(d1.len() as int) =~= s1);
            assert(x2.skip(d2.len() as int) =~= s2);
            lemma_suffixes_distinct(k1, k2);
        }
    }
}

proof fn lemma_layers_upto_index(c: ModelConfig, n: nat)
    ensures
        layers_upto(c, n).len() == 12 * n,
        forall|l: nat, k: int|
            l < n && 0 <= k < 12 ==> #[trigger] layers_upto(c, n)[12 * l + k] == layer_entries(c, l)[k],
    decreases n,
{
    if n > 0 {
        lemma_layers_upto_index(c, (n - 1) as nat);
        let prev = layers_upto(c, (n - 1) as nat);
        assert forall|l: nat, k: int| l < n && 0 <= k < 12 implies #[trigger] layers_upto(c, n)[12 * l
            + k] == layer_entries(c, l)[k] by {
            if l < n - 1 {
                assert(12 * l + k < 12 * (n - 1)) by (nonlinear_arith)
                    requires
                        l < n - 1,
                        k < 12,
                ;
                assert(prev[12 * l + k] == layer_entries(c, l)[k]);
            } else {
                assert(l == n - 1);
            }
        }
    }
}

/// Every parameter of a model's layout has a name of its own: no two
/// positions of the layout share a name.
pub proof fn lemma_layout_names_distinct(c: ModelConfig, i: int, j: int)
    requires
        0 <= i < layout(c).len(),
        0 <= j < layout(c).len(),
        i != j,
    ensures
        layout(c)[i].name != layout(c)[j].name,
{
    reveal_strlit("embedding.weight");
    reveal_strlit("output_projection.weight");
    reveal_strlit("output_projection.bias");
    reveal_strlit("decoder.layers.");
    let n = c.num_layers as nat;
    lemma_layers_upto_index(c, n);
    let ly = layout(c);
    let layers = layers_upto(c, n);
    assert(ly.len() == 12 * n + 3);
    // the first character tells the three groups apart
    assert forall|t: int| 1 <= t < 1 + 12 * n implies #[trigger] ly[t].name[0] == 'd' && ly[t].name.len() > 0 by {
        let l = ((t - 1) / 12) as nat;
        let k = (t - 1) % 12;
        assert(t - 1 == 12 * l + k);
        assert(l < n) by (nonlinear_arith)
            requires
                t - 1 == 12 * l + k,
                0 <= k,
                t - 1 < 12 * n,
        ;
        assert(ly[t] == layers[12 * l + k]);
        assert(layers[12 * l + k] == layer_entries(c, l)[k]);
        assert(ly[t].name == layer_prefix(l) + layer_suffix(k));
    }
    if 1 <= i < 1 + 12 * n && 1 <= j < 1 + 12 * n {
        let l1 = ((i - 1) / 12) as nat;
        let k1 = (i - 1) % 12;
        let l2 = ((j - 1) / 12) as nat;
        let k2 = (j - 1) % 12;
        assert(i - 1 == 12 * l1 + k1);
        assert(j - 1 == 12 * l2 + k2);
        assert(l1 < n) by (nonlinear_arith)
            requires
                i - 1 == 12 * l1 + k1,
                0 <= k1,
                i - 1 < 12 * n,
        ;
        assert(l2 < n) by (nonlinear_arith)
            requires
                j - 1 == 12 * l2 + k2,
                0 <= k2,
                j - 1 < 12 * n,
        ;
        assert(ly[i] == layers[12 * l1 + k1]);
        assert(ly[j] == layers[12 * l2 + k2]);
        assert(ly[i].name == layer_prefix(l1) + layer_suffix(k1));
        assert(ly[j].name == layer_prefix(l2) + layer_suffix(k2));
        lemma_layer_names_distinct(l1, k1, l2, k2);
    } else if ly[i].name == ly[j].name {
        assert(ly[i].name[0] == ly[j].name[0]);
        assert(ly[i].name.len() == ly[j].name.len());
    }
}

} // verus!
