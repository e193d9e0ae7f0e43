//! A token-embedding layer on `candle` tensors: looks up one row of a
//! `vocab_size x d_model` table per token id, after checking every id.
use vstd::prelude::*;
use vstd::string::*;
use candle_core::{Device, Tensor};
use candle_nn::Module;
use crate::text::{decimal_digits, push_decimal};

verus! {

#[verifier::external_type_specification]
#[verifier::external_body]
pub struct ExCandleTensor(candle_core::Tensor);

#[verifier::external_type_specification]
#[verifier::external_body]
pub struct ExCandleDevice(candle_core::Device);

#[verifier::external_type_specification]
#[verifier::external_body]
pub struct ExCandleError(candle_core::Error);

/// The values of a tensor of `u32` ids, in row-major order.
pub uninterp spec fn id_values(t: Tensor) -> Seq<u32>;

/// The dimensions of a tensor.
pub uninterp spec fn tensor_dims(t: Tensor) -> Seq<usize>;

/// The tensor holds `u32` elements.
pub uninterp spec fn is_u32_tensor(t: Tensor) -> bool;

/// The device is the CPU.
pub uninterp spec fn is_cpu(d: Device) -> bool;

/// The tensor's storage lies on the CPU.
pub uninterp spec fn on_cpu(t: Tensor) -> bool;

/// The tensor's elements lie contiguously in its storage, in row-major order.
pub uninterp spec fn is_contiguous(t: Tensor) -> bool;

/// `out` holds the rows of `table` at `ids`, one after another.
pub uninterp spec fn rows_of(out: Tensor, table: Tensor, ids: Seq<u32>) -> bool;

/// The message a message error carries.
pub uninterp spec fn error_message(e: candle_core::Error) -> Seq<char>;

/// Trusted: `Tensor::new(ids, device)`. A success is a one-dimensional `u32`
/// tensor holding the ids, on `device`. Each call makes a new tensor (with a
/// fresh id). On the CPU it always succeeds (the shape of a slice is its
/// length, and `Device::storage` copies into CPU storage); on another device
/// when it fails is not stated.
#[verifier::external_body]
fn new_ids_tensor(ids: &[u32], device: &Device) -> (r: Result<Tensor, candle_core::Error>)
    ensures
        r matches Ok(t) ==> id_values(t) == ids@ && tensor_dims(t) == seq![ids@.len() as usize]
            && is_u32_tensor(t) && on_cpu(t) == is_cpu(*device),
        is_cpu(*device) ==> r is Ok,
{
    Tensor::new(ids, device)
}

/// Trusted: `Tensor::flatten_all`, which keeps the values in row-major order
/// in one dimension, their element type and their device. On the CPU it
/// always succeeds (a `reshape`, copying a non-contiguous tensor into new CPU
/// storage).
#[verifier::external_body]
fn flatten(t: &Tensor) -> (r: Result<Tensor, candle_core::Error>)
    ensures
        r matches Ok(f) ==> id_values(f) == id_values(*t) && is_u32_tensor(f) == is_u32_tensor(*t)
            && on_cpu(f) == on_cpu(*t) && tensor_dims(f).len() == 1,
        on_cpu(*t) ==> r is Ok,
{
    t.flatten_all()
}

/// Trusted: `Tensor::to_vec1::<u32>`, the values of a one-dimensional `u32`
/// tensor; it fails on any other rank and any other element type, and
/// succeeds on a one-dimensional `u32` tensor on the CPU.
#[verifier::external_body]
fn id_vector(t: &Tensor) -> (r: Result<Vec<u32>, candle_core::Error>)
    ensures
        r matches Ok(v) ==> v@ == id_values(*t),
        tensor_dims(*t).len() != 1 ==> r is Err,
        !is_u32_tensor(*t) ==> r is Err,
        on_cpu(*t) && is_u32_tensor(*t) && tensor_dims(*t).len() == 1 ==> r is Ok,
{
    t.to_vec1::<u32>()
}

/// Trusted: `Tensor::rank`, the number of dimensions.
#[verifier::external_body]
fn rank_of(t: &Tensor) -> (n: usize)
    ensures
        n == tensor_dims(*t).len(),
{
    t.rank()
}

/// Trusted: `Tensor::dims`.
#[verifier::external_body]
fn dims_of(t: &Tensor) -> (v: Vec<usize>)
    ensures
        v@ == tensor_dims(*t),
{
    t.dims().to_vec()
}

/// Trusted: `candle_nn::Embedding::new(weight, d_model).forward(ids)`, the
/// candle layer's lookup (`flatten_all`, `index_select` on the rows, then
/// `reshape`): a success is shaped as the ids' dimensions followed by
/// `d_model`, and holds the table's rows at the ids unless an id is
/// `u32::MAX` (which `index_select` fills with zeros). On the CPU, with a
/// contiguous `[rows, d_model]` table and `u32` ids below `rows`, it
/// succeeds. Each call makes a new tensor; on another device when it fails is
/// not stated.
#[verifier::external_body]
fn layer_forward(weight: &Tensor, d_model: usize, ids: &Tensor) -> (r: Result<Tensor, candle_core::Error>)
    ensures
        r matches Ok(o) ==> tensor_dims(o) == tensor_dims(*ids).push(d_model),
        r matches Ok(o) ==> (is_u32_tensor(*ids) && (forall|i: int|
            0 <= i < id_values(*ids).len() ==> #[trigger] id_values(*ids)[i] < u32::MAX)
            ==> rows_of(o, *weight, id_values(*ids))),
        on_cpu(*weight) && is_contiguous(*weight) && tensor_dims(*weight).len() == 2
            && tensor_dims(*weight)[1] == d_model && on_cpu(*ids) && is_u32_tensor(*ids) && (forall|
            i: int,
        | 0 <= i < id_values(*ids).len() ==> #[trigger] id_values(*ids)[i] < tensor_dims(*weight)[0])
            ==> r is Ok,
{
    candle_nn::Embedding::new(weight.clone(), d_model).forward(ids)
}

/// Trusted: `candle_core::Error::msg(message)`, an error carrying the
/// message; what it carries besides (a backtrace, when enabled) is not
/// stated.
#[verifier::external_body]
fn message_error(message: String) -> (e: candle_core::Error)
    ensures
        error_message(e) == message@,
{
    candle_core::Error::msg(message)
}

/// `dims` as `{:?}` prints a slice of numbers: `[2, 3]`.
pub open spec fn dims_debug(dims: Seq<usize>) -> Seq<char> {
    "["@ + dims_joined(dims) + "]"@
}

/// The numbers of `dims` in decimal, separated by `, `.
pub open spec fn dims_joined(dims: Seq<usize>) -> Seq<char>
    decreases dims.len(),
{
    if dims.len() == 0 {
        Seq::empty()
    } else if dims.len() == 1 {
        decimal_digits(dims[0] as nat)
    } else {
        dims_joined(dims.drop_last()) + ", "@ + decimal_digits(dims.last() as nat)
    }
}

fn dims_text(dims: &Vec<usize>) -> (s: String)
    ensures
        s@ == dims_debug(dims@),
{
    let mut s = String::from_str("[");
    let mut i: usize = 0;
    while i < dims.len()
        invariant
            i <= dims.len(),
            s@ == "["@ + dims_joined(dims@.take(i as int)),
        decreases dims.len() - i,
    {
        let ghost before = s@;
        if i > 0 {
            s.append(", ");
        }
        push_decimal(&mut s, dims[i] as u64);
        assert(dims@.take(i + 1).drop_last() =~= dims@.take(i as int));
        if i == 0 {
            assert(dims@.take(1)[0] == dims@[0]);
        }
        assert(s@ =~= "["@ + dims_joined(dims@.take(i + 1)));
        i = i + 1;
    }
    assert(dims@.take(dims.len() as int) =~= dims@);
    s.append("]");
    s
}

/// Every id is below the vocabulary size, compared as `u32` (the size
/// truncated to 32 bits, as the comparison is written).
pub open spec fn ids_below(ids: Seq<u32>, vocab_size: usize) -> bool {
    forall|i: int| 0 <= i < ids.len() ==> (#[trigger] ids[i]) < (vocab_size as u32)
}

/// The message for an id at `index` that lies outside a vocabulary of
/// `vocab_size` tokens.
pub open spec fn out_of_range_text(id: u32, index: nat, vocab_size: usize) -> Seq<char> {
    "embedding token id "@ + decimal_digits(id as nat) + " at index "@ + decimal_digits(index)
        + " is out of range for vocabulary size "@ + decimal_digits(vocab_size as nat)
}

/// Checks the values of an ids tensor against the vocabulary size: every id
/// must lie below it (compared as `u32`); otherwise the first id outside it is
/// reported with its index.
pub fn check_token_ids(values: &[u32], vocab_size: usize) -> (r: Result<(), String>)
    ensures
        r is Ok <==> ids_below(values@, vocab_size),
        forall|i: int|
            #![trigger values@[i]]
            0 <= i < values@.len() && values@[i] >= (vocab_size as u32) && ids_below(
                values@.take(i),
                vocab_size,
            ) ==> (r matches Err(m) && m@ == out_of_range_text(values@[i], i as nat, vocab_size)),
{
    let limit = vocab_size as u32;
    let mut i: usize = 0;
    while i < values.len()
        invariant
            i <= values.len(),
            limit == vocab_size as u32,
            forall|j: int| 0 <= j < i ==> (#[trigger] values@[j]) < limit,
        decreases values.len() - i,
    {
        if values[i] >= limit {
            let mut m = String::from_str("embedding token id ");
            push_decimal(&mut m, values[i] as u64);
            m.append(" at index ");
            push_decimal(&mut m, i as u64);
            m.append(" is out of range for vocabulary size ");
            push_decimal(&mut m, vocab_size as u64);
            proof {
                reveal_strlit("embedding token id ");
                reveal_strlit(" at index ");
                reveal_strlit(" is out of range for vocabulary size ");
                assert forall|k: int|
                    #![trigger values@[k]]
                    0 <= k < values@.len() && values@[k] >= limit && ids_below(
                        values@.take(k),
                        vocab_size,
                    ) implies k == i by {
                    if k > i {
                        assert(values@.take(k)[i as int] == values@[i as int]);
                    }
                }
            }
            return Err(m);
        }
        i = i + 1;
    }
    Ok(())
}

/// The first id outside a vocabulary of `vocab_size` tokens is at `i`.
pub open spec fn first_out_of_range(ids: Seq<u32>, vocab_size: usize, i: int) -> bool {
    0 <= i < ids.len() && ids[i] >= (vocab_size as u32) && ids_below(ids.take(i), vocab_size)
}

/// An embedding table with its vocabulary size, width and device.
pub struct Embedding {
    weight: Tensor,
    vocab_size: usize,
    d_model: usize,
    device: Device,
}

impl Embedding {
    /// The `vocab_size x d_model` table.
    pub closed spec fn table(&self) -> Tensor {
        self.weight
    }

    /// The vocabulary size the ids are checked against.
    pub closed spec fn vocab(&self) -> usize {
        self.vocab_size
    }

    /// The embedding width.
    pub closed spec fn width(&self) -> usize {
        self.d_model
    }

    /// The device new ids tensors are placed on.
    pub closed spec fn place(&self) -> Device {
        self.device
    }

    /// The layer runs on the CPU with a contiguous `vocab_size x d_model`
    /// table, where every lookup of ids inside the vocabulary succeeds.
    pub open spec fn on_cpu_table(&self) -> bool {
        &&& is_cpu(self.place())
        &&& on_cpu(self.table())
        &&& is_contiguous(self.table())
        &&& tensor_dims(self.table()) == seq![self.vocab(), self.width()]
    }

    /// An embedding over a `vocab_size x d_model` table on `device`.
    pub fn from_weight(weight: Tensor, vocab_size: usize, d_model: usize, device: Device) -> (r: Result<
        Self,
        candle_core::Error,
    >)
        ensures
            r matches Ok(e) && e.table() == weight && e.vocab() == vocab_size && e.width() == d_model
                && e.place() == device,
    {
        Ok(Embedding { weight, vocab_size, d_model, device })
    }

    /// Accepts a `u32` ids tensor whose values all lie below the vocabulary
    /// size; reports the first id outside it with its index.
    fn check_ids(&self, ids: &Tensor) -> (r: Result<(), candle_core::Error>)
        ensures
            r is Ok ==> is_u32_tensor(*ids) && ids_below(id_values(*ids), self.vocab()),
            on_cpu(*ids) && is_u32_tensor(*ids) && ids_below(id_values(*ids), self.vocab()) ==> r is Ok,
            forall|i: int|
                on_cpu(*ids) && is_u32_tensor(*ids) && #[trigger] first_out_of_range(
                    id_values(*ids),
                    self.vocab(),
                    i,
                ) ==> (r matches Err(e) && error_message(e) == out_of_range_text(
                    id_values(*ids)[i],
                    i as nat,
                    self.vocab(),
                )),
    {
        let flat = flatten(ids)?;
        let values = id_vector(&flat)?;
        match check_token_ids(values.as_slice(), self.vocab_size) {
            Ok(()) => Ok(()),
            Err(m) => Err(message_error(m)),
        }
    }

    /// The rows of `token_ids`, one per id, after checking every id.
    pub fn forward(&self, token_ids: &[u32]) -> (r: Result<Tensor, candle_core::Error>)
        ensures
            r matches Ok(o) ==> ids_below(token_ids@, self.vocab()) && tensor_dims(o) == seq![
                token_ids@.len() as usize,
                self.width(),
            ] && rows_of(o, self.table(), token_ids@),
            self.on_cpu_table() && ids_below(token_ids@, self.vocab()) ==> r is Ok,
            forall|i: int|
                self.on_cpu_table() && #[trigger] first_out_of_range(token_ids@, self.vocab(), i)
                    ==> (r matches Err(e) && error_message(e) == out_of_range_text(
                    token_ids@[i],
                    i as nat,
                    self.vocab(),
                )),
    {
        let ids = new_ids_tensor(token_ids, &self.device)?;
        self.check_ids(&ids)?;
        layer_forward(&self.weight, self.d_model, &ids)
    }

    /// The rows of a `[batch, seq_len]` ids tensor; any other rank is refused
    /// with its dimensions in the message.
    pub fn forward_tensor(&self, input_ids: &Tensor) -> (r: Result<Tensor, candle_core::Error>)
        ensures
            tensor_dims(*input_ids).len() != 2 ==> (r matches Err(e) && error_message(e)
                == "embedding input must have shape [batch, seq_len], got "@ + dims_debug(
                tensor_dims(*input_ids),
            )),
            !is_u32_tensor(*input_ids) ==> r is Err,
            r matches Ok(o) ==> ids_below(id_values(*input_ids), self.vocab()) && tensor_dims(o)
                == tensor_dims(*input_ids).push(self.width()) && rows_of(
                o,
                self.table(),
                id_values(*input_ids),
            ),
            self.on_cpu_table() && on_cpu(*input_ids) && tensor_dims(*input_ids).len() == 2
                && is_u32_tensor(*input_ids) && ids_below(id_values(*input_ids), self.vocab())
                ==> r is Ok,
            forall|i: int|
                on_cpu(*input_ids) && tensor_dims(*input_ids).len() == 2 && is_u32_tensor(
                    *input_ids,
                ) && #[trigger] first_out_of_range(id_values(*input_ids), self.vocab(), i) ==> (
                r matches Err(e) && error_message(e) == out_of_range_text(
                    id_values(*input_ids)[i],
                    i as nat,
                    self.vocab(),
                )),
    {
        if rank_of(input_ids) != 2 {
            let mut m = String::from_str("embedding input must have shape [batch, seq_len], got ");
            let dims = dims_of(input_ids);
            let shown = dims_text(&dims);
            m.append(shown.as_str());
            return Err(message_error(m));
        }
        self.check_ids(input_ids)?;
        layer_forward(&self.weight, self.d_model, input_ids)
    }

    /// The vocabulary size.
    pub fn vocab_size(&self) -> (n: usize)
        ensures
            n == self.vocab(),
    {
        self.vocab_size
    }

    /// The embedding width.
    pub fn d_model(&self) -> (n: usize)
        ensures
            n == self.width(),
    {
        self.d_model
    }
}

} // verus!
