//! The integer side of tensors: element counts and the index arithmetic of
//! embedding lookups and of the fused query/key/value layout. The element
//! type is generic, so the same code moves `f32` values in the model.
use vstd::prelude::*;
use vstd::string::*;
use crate::domain::entity::error::TransformerError;
use crate::domain::entity::snapshot::shape_product;
use crate::text::{decimal_digits, push_decimal};

verus! {

/// The element count `shape.iter().try_fold(1, checked_mul)` computes: the
/// running product from the first dimension on, or `None` as soon as one
/// running product exceeds a usize.
pub open spec fn checked_size(shape: Seq<usize>) -> Option<nat>
    decreases shape.len(),
{
    if shape.len() == 0 {
        Some(1)
    } else {
        match checked_size(shape.drop_last()) {
            None => None,
            Some(a) => if a * (shape.last() as nat) <= usize::MAX {
                Some(a * (shape.last() as nat))
            } else {
                None
            },
        }
    }
}

/// The element count of a tensor of shape `shape`, computed as a running
/// checked product; `None` when a running product overflows.
pub fn checked_shape_size(shape: &[usize]) -> (r: Option<usize>)
    ensures
        r matches Some(n) ==> checked_size(shape@) == Some(n as nat),
        r is None ==> checked_size(shape@) is None,
{
    let mut acc: usize = 1;
    let mut i: usize = 0;
    assert(shape@.take(0) =~= Seq::<usize>::empty());
    while i < shape.len()
        invariant
            i <= shape.len(),
            checked_size(shape@.take(i as int)) == Some(acc as nat),
        decreases shape.len() - i,
    {
        assert(shape@.take(i + 1).drop_last() =~= shape@.take(i as int));
        match acc.checked_mul(shape[i]) {
            Some(next) => {
                acc = next;
            },
            None => {
                proof { lemma_checked_size_none_extends(shape@, i + 1); }
                return None;
            },
        }
        i = i + 1;
    }
    assert(shape@.take(shape.len() as int) =~= shape@);
    Some(acc)
}

proof fn lemma_checked_size_none_extends(s: Seq<usize>, i: int)
    requires
        0 <= i <= s.len(),
        checked_size(s.take(i)) is None,
    ensures
        checked_size(s) is None,
    decreases s.len() - i,
{
    if i < s.len() {
        assert(s.take(i + 1).drop_last() =~= s.take(i));
        lemma_checked_size_none_extends(s, i + 1);
    } else {
        assert(s.take(i) =~= s);
    }
}

/// A size the running product reports is the shape's element count.
pub proof fn lemma_checked_size_is_product(shape: Seq<usize>)
    ensures
        checked_size(shape) matches Some(n) ==> n == shape_product(shape),
    decreases shape.len(),
{
    if shape.len() > 0 {
        lemma_checked_size_is_product(shape.drop_last());
    }
}

/// The rows of a `rows x width` table that `ids` select, one after another.
pub open spec fn gathered<T>(table: Seq<T>, ids: Seq<u32>, width: nat) -> Seq<T>
    decreases ids.len(),
{
    if ids.len() == 0 {
        Seq::empty()
    } else {
        let start = ids.last() as int * width;
        gathered(table, ids.drop_last(), width) + table.subrange(start, start + width)
    }
}

/// Looks up the rows of `ids` in a `rows x width` table stored row by row;
/// an id outside the table is invalid data.
pub fn gather_rows<T: Copy>(table: &Vec<T>, ids: &[u32], rows: usize, width: usize) -> (r: Result<
    Vec<T>,
    TransformerError,
>)
    requires
        table@.len() == rows * width,
    ensures
        (forall|i: int| 0 <= i < ids@.len() ==> (#[trigger] ids@[i]) < rows) ==> (r matches Ok(v) && v@
            == gathered(table@, ids@, width as nat)),
        (forall|i: int| 0 <= i < ids@.len() ==> (#[trigger] ids@[i]) < rows) ==> (r matches Ok(v) && v@.len()
            == ids@.len() * width && forall|i: int, c: int|
            0 <= i < ids@.len() && 0 <= c < width ==> #[trigger] v@[i * width + c] == table@[(ids@[i] as int)
                * width + c]),
        !(forall|i: int| 0 <= i < ids@.len() ==> (#[trigger] ids@[i]) < rows) ==> (r matches Err(
            TransformerError::InvalidData(m),
        ) && m@ == "token outside vocabulary"@),
{
    let mut k: usize = 0;
    while k < ids.len()
        invariant
            k <= ids.len(),
            forall|i: int| 0 <= i < k ==> (#[trigger] ids@[i]) < rows,
        decreases ids.len() - k,
    {
        if ids[k] as usize >= rows {
            return Err(TransformerError::InvalidData(String::from_str("token outside vocabulary")));
        }
        k = k + 1;
    }
    let mut out: Vec<T> = Vec::new();
    let mut i: usize = 0;
    assert(ids@.take(0) =~= Seq::<u32>::empty());
    while i < ids.len()
        invariant
            i <= ids.len(),
            table@.len() == rows * width,
            forall|j: int| 0 <= j < ids@.len() ==> (#[trigger] ids@[j]) < rows,
            out@ == gathered(table@, ids@.take(i as int), width as nat),
        decreases ids.len() - i,
    {
        let id = ids[i] as usize;
        assert(id < rows);
        assert((id + 1) * width <= rows * width) by (nonlinear_arith)
            requires
                id < rows,
        ;
        assert(id * width + width == (id + 1) * width) by (nonlinear_arith);
        assert(id * width + width <= table@.len());
        assert(table@.len() == table.len());
        let start = id * width;
        let ghost before = out@;
        let mut c: usize = 0;
        while c < width
            invariant
                c <= width,
                start + width <= table.len(),
                out@ == before + table@.subrange(start as int, start + c),
            decreases width - c,
        {
            out.push(table[start + c]);
            assert(out@ =~= before + table@.subrange(start as int, start + c + 1));
            c = c + 1;
        }
        assert(ids@.take(i + 1).drop_last() =~= ids@.take(i as int));
        assert(ids@.take(i + 1).last() == ids@[i as int]);
        i = i + 1;
    }
    assert(ids@.take(ids.len() as int) =~= ids@);
    proof {
        assert forall|i: int| 0 <= i < ids@.len() implies (#[trigger] ids@[i] as int) * width + width
            <= table@.len() by {
            let id = ids@[i] as int;
            assert(id * width + width <= rows * width) by (nonlinear_arith)
                requires
                    0 <= id < rows,
            ;
        }
        lemma_gathered_rows(table@, ids@, width as nat);
    }
    Ok(out)
}

/// Part `part` (0 query, 1 key, 2 value) of a fused projection of `rows`
/// rows, each row holding the query, key and value of width `d` side by side.
pub open spec fn qkv_part<T>(qkv: Seq<T>, rows: nat, d: nat, part: nat) -> Seq<T>
    decreases rows,
{
    if rows == 0 {
        Seq::empty()
    } else {
        let start = (rows - 1) * (3 * d) + part * d;
        qkv_part(qkv, (rows - 1) as nat, d, part) + qkv.subrange(start as int, start + d)
    }
}

/// The fused layout of `rows` query, key and value rows of width `d`.
pub open spec fn qkv_fused<T>(q: Seq<T>, k: Seq<T>, v: Seq<T>, rows: nat, d: nat) -> Seq<T>
    decreases rows,
{
    if rows == 0 {
        Seq::empty()
    } else {
        let r = (rows - 1) as nat;
        let a = (r * d) as int;
        qkv_fused(q, k, v, r, d) + q.subrange(a, a + d) + k.subrange(a, a + d) + v.subrange(a, a + d)
    }
}

proof fn lemma_row_fits(r: nat, rows: nat, w: nat)
    requires
        r < rows,
    ensures
        r * w + w <= rows * w,
{
    assert(r * w + w == (r + 1) * w) by (nonlinear_arith);
    assert((r + 1) * w <= rows * w) by (nonlinear_arith)
        requires
            r + 1 <= rows,
    ;
}

/// Splits a fused projection of `rows` rows into its query, key and value
/// parts, each `rows x d`.
pub fn split_qkv<T: Copy>(qkv: &[T], rows: usize, d: usize) -> (r: (Vec<T>, Vec<T>, Vec<T>))
    requires
        qkv@.len() == rows * (3 * d),
    ensures
        r.0@ == qkv_part(qkv@, rows as nat, d as nat, 0),
        r.1@ == qkv_part(qkv@, rows as nat, d as nat, 1),
        r.2@ == qkv_part(qkv@, rows as nat, d as nat, 2),
{
    let mut q: Vec<T> = Vec::new();
    let mut k: Vec<T> = Vec::new();
    let mut v: Vec<T> = Vec::new();
    let mut row: usize = 0;
    while row < rows
        invariant
            row <= rows,
            qkv@.len() == rows * (3 * d),
            qkv@.len() == qkv.len(),
            q@ == qkv_part(qkv@, row as nat, d as nat, 0),
            k@ == qkv_part(qkv@, row as nat, d as nat, 1),
            v@ == qkv_part(qkv@, row as nat, d as nat, 2),
        decreases rows - row,
    {
        proof { lemma_row_fits(row as nat, rows as nat, (3 * d) as nat); }
        assert(row * (3 * d) + 3 * d <= qkv.len());
        let base = row * (3 * d);
        let ghost q0 = q@;
        let ghost k0 = k@;
        let ghost v0 = v@;
        let mut c: usize = 0;
        while c < d
            invariant
                c <= d,
                base + 3 * d <= qkv.len(),
                q@ == q0 + qkv@.subrange(base as int, base + c),
                k@ == k0 + qkv@.subrange(base + d, base + d + c),
                v@ == v0 + qkv@.subrange(base + 2 * d, base + 2 * d + c),
            decreases d - c,
        {
            q.push(qkv[base + c]);
            k.push(qkv[base + d + c]);
            v.push(qkv[base + 2 * d + c]);
            assert(q@ =~= q0 + qkv@.subrange(base as int, base + c + 1));
            assert(k@ =~= k0 + qkv@.subrange(base + d, base + d + c + 1));
            assert(v@ =~= v0 + qkv@.subrange(base + 2 * d, base + 2 * d + c + 1));
            c = c + 1;
        }
        row = row + 1;
    }
    (q, k, v)
}

fn push_range<T: Copy>(out: &mut Vec<T>, src: &[T], start: usize, len: usize)
    requires
        start + len <= src@.len(),
    ensures
        final(out)@ == old(out)@ + src@.subrange(start as int, start + len),
{
    let ghost o0 = out@;
    let mut c: usize = 0;
    while c < len
        invariant
            c <= len,
            start + len <= src.len(),
            out@ == o0 + src@.subrange(start as int, start + c),
        decreases len - c,
    {
        out.push(src[start + c]);
        assert(out@ =~= o0 + src@.subrange(start as int, start + c + 1));
        c = c + 1;
    }
}

/// Writes query, key and value rows of width `d` back into the fused layout.
pub fn fuse_qkv<T: Copy>(q: &[T], k: &[T], v: &[T], rows: usize, d: usize) -> (r: Vec<T>)
    requires
        q@.len() == rows * d,
        k@.len() == rows * d,
        v@.len() == rows * d,
    ensures
        r@ == qkv_fused(q@, k@, v@, rows as nat, d as nat),
{
    let mut out: Vec<T> = Vec::new();
    let mut row: usize = 0;
    while row < rows
        invariant
            row <= rows,
            q@.len() == rows * d,
            k@.len() == rows * d,
            v@.len() == rows * d,
            q@.len() == q.len(),
            out@ == qkv_fused(q@, k@, v@, row as nat, d as nat),
        decreases rows - row,
    {
        proof { lemma_row_fits(row as nat, rows as nat, d as nat); }
        let base = row * d;
        push_range(&mut out, q, base, d);
        push_range(&mut out, k, base, d);
        push_range(&mut out, v, base, d);
        row = row + 1;
    }
    out
}

proof fn lemma_fused_len<T>(q: Seq<T>, k: Seq<T>, v: Seq<T>, n: nat, d: nat)
    requires
        q.len() >= n * d,
        k.len() >= n * d,
        v.len() >= n * d,
    ensures
        qkv_fused(q, k, v, n, d).len() == n * (3 * d),
    decreases n,
{
    if n > 0 {
        let r = (n - 1) as nat;
        assert(r * d + d == n * d) by (nonlinear_arith)
            requires
                r == n - 1,
        ;
        assert(r * d <= n * d) by (nonlinear_arith)
            requires
                r == n - 1,
        ;
        lemma_fused_len(q, k, v, r, d);
        assert(r * (3 * d) + 3 * d == n * (3 * d)) by (nonlinear_arith)
            requires
                r == n - 1,
        ;
        let a = (r * d) as int;
        assert(q.subrange(a, a + d).len() == d);
        assert(k.subrange(a, a + d).len() == d);
        assert(v.subrange(a, a + d).len() == d);
        assert(qkv_fused(q, k, v, n, d) == qkv_fused(q, k, v, r, d) + q.subrange(a, a + d) + k.subrange(a, a + d) + v.subrange(a, a + d));
    } else {
        assert(n * (3 * d) == 0) by (nonlinear_arith)
            requires
                n == 0,
        ;
    }
}

proof fn lemma_part_extend<T>(s: Seq<T>, extra: Seq<T>, n: nat, d: nat, p: nat)
    requires
        p < 3,
        s.len() >= n * (3 * d),
    ensures
        qkv_part(s + extra, n, d, p) == qkv_part(s, n, d, p),
    decreases n,
{
    if n > 0 {
        let r = (n - 1) as nat;
        assert(r * (3 * d) + 3 * d == n * (3 * d)) by (nonlinear_arith)
            requires
                r == n - 1,
        ;
        assert(p * d <= 2 * d) by (nonlinear_arith)
            requires
                p < 3,
        ;
        lemma_part_extend(s, extra, r, d, p);
        let start = (r * (3 * d) + p * d) as int;
        assert((s + extra).subrange(start, start + d) =~= s.subrange(start, start + d));
    }
}

/// Fusing query, key and value rows and splitting the result gives the three
/// parts back: the fused layout that the attention's backward pass writes is
/// the one its forward pass reads.
pub proof fn lemma_split_undoes_fuse<T>(q: Seq<T>, k: Seq<T>, v: Seq<T>, n: nat, d: nat)
    requires
        q.len() == n * d,
        k.len() == n * d,
        v.len() == n * d,
    ensures
        qkv_part(qkv_fused(q, k, v, n, d), n, d, 0) == q,
        qkv_part(qkv_fused(q, k, v, n, d), n, d, 1) == k,
        qkv_part(qkv_fused(q, k, v, n, d), n, d, 2) == v,
{
    lemma_parts_of_fused(q, k, v, n, d);
    assert(q.take((n * d) as int) =~= q);
    assert(k.take((n * d) as int) =~= k);
    assert(v.take((n * d) as int) =~= v);
}

proof fn lemma_parts_of_fused<T>(q: Seq<T>, k: Seq<T>, v: Seq<T>, n: nat, d: nat)
    requires
        q.len() >= n * d,
        k.len() >= n * d,
        v.len() >= n * d,
    ensures
        qkv_part(qkv_fused(q, k, v, n, d), n, d, 0) == q.take((n * d) as int),
        qkv_part(qkv_fused(q, k, v, n, d), n, d, 1) == k.take((n * d) as int),
        qkv_part(qkv_fused(q, k, v, n, d), n, d, 2) == v.take((n * d) as int),
    decreases n,
{
    if n == 0 {
        assert(q.take(0) =~= Seq::<T>::empty());
        assert(k.take(0) =~= Seq::<T>::empty());
        assert(v.take(0) =~= Seq::<T>::empty());
    } else {
        let r = (n - 1) as nat;
        assert(r * d + d == n * d) by (nonlinear_arith)
            requires
                r == n - 1,
        ;
        assert(r * d <= n * d) by (nonlinear_arith)
            requires
                r == n - 1,
        ;
        lemma_parts_of_fused(q, k, v, r, d);
        lemma_fused_len(q, k, v, r, d);
        let prev = qkv_fused(q, k, v, r, d);
        let a = (r * d) as int;
        let qb = q.subrange(a, a + d);
        let kb = k.subrange(a, a + d);
        let vb = v.subrange(a, a + d);
        let whole = qkv_fused(q, k, v, n, d);
        assert(whole == prev + qb + kb + vb);
        assert(whole =~= prev + (qb + kb + vb));
        let base = (r * (3 * d)) as int;
        assert(prev.len() == base);
        lemma_part_extend(prev, qb + kb + vb, r, d, 0);
        lemma_part_extend(prev, qb + kb + vb, r, d, 1);
        lemma_part_extend(prev, qb + kb + vb, r, d, 2);
        assert(whole.subrange(base, base + d) =~= qb);
        assert(whole.subrange(base + d, base + d + d) =~= kb);
        assert(whole.subrange(base + 2 * d, base + 2 * d + d) =~= vb);
        assert(q.take(a) + qb =~= q.take(a + d));
        assert(k.take(a) + kb =~= k.take(a + d));
        assert(v.take(a) + vb =~= v.take(a + d));
        assert(qkv_part(whole, n, d, 0) == qkv_part(whole, r, d, 0) + whole.subrange(base, base + d));
        assert(1 * d == d);
        assert(qkv_part(whole, n, d, 1) == qkv_part(whole, r, d, 1) + whole.subrange(base + d, base + d + d));
        assert(2 * d == d + d);
        assert(qkv_part(whole, n, d, 2) == qkv_part(whole, r, d, 2) + whole.subrange(base + 2 * d, base + 2 * d + d));
    }
}

/// The position of row `r`, column `c` in a row-major table `width` wide.
pub open spec fn flat(r: int, c: int, width: int) -> int {
    r * width + c
}

/// `t` is the transpose of the `rows x cols` table `d`, both row-major:
/// entry (r, c) of `d` is entry (c, r) of `t`.
pub open spec fn is_transpose<T>(t: Seq<T>, d: Seq<T>, rows: nat, cols: nat) -> bool {
    &&& t.len() == rows * cols
    &&& d.len() == rows * cols
    &&& forall|r: int, c: int|
        #![trigger t[flat(c, r, rows as int)]]
        0 <= r < rows && 0 <= c < cols ==> t[flat(c, r, rows as int)] == d[flat(r, c, cols as int)]
}

/// The dimensions `(m, k, n)` of a product of an `m x k` and a `k x n`
/// matrix; anything else is a dimension mismatch.
pub fn matmul_dims(lhs: &[usize], rhs: &[usize]) -> (r: Result<(usize, usize, usize), TransformerError>)
    ensures
        lhs@.len() == 2 && rhs@.len() == 2 && lhs@[1] == rhs@[0] ==> r == Ok::<
            (usize, usize, usize),
            TransformerError,
        >((lhs@[0], lhs@[1], rhs@[1])),
        !(lhs@.len() == 2 && rhs@.len() == 2 && lhs@[1] == rhs@[0]) ==> (r matches Err(
            TransformerError::InvalidTensor(m),
        ) && m@ == "matmul dimension mismatch"@),
{
    if lhs.len() != 2 || rhs.len() != 2 || lhs[1] != rhs[0] {
        return Err(TransformerError::InvalidTensor(String::from_str("matmul dimension mismatch")));
    }
    Ok((lhs[0], lhs[1], rhs[1]))
}

/// The rows and columns of a matrix; any other rank is refused.
pub fn transpose_dims(shape: &[usize]) -> (r: Result<(usize, usize), TransformerError>)
    ensures
        shape@.len() == 2 ==> r == Ok::<(usize, usize), TransformerError>((shape@[0], shape@[1])),
        shape@.len() != 2 ==> (r matches Err(TransformerError::InvalidTensor(m)) && m@
            == "transpose expects rank 2"@),
{
    if shape.len() != 2 {
        return Err(TransformerError::InvalidTensor(String::from_str("transpose expects rank 2")));
    }
    Ok((shape[0], shape[1]))
}

/// The transpose of a `rows x cols` row-major table.
pub fn transpose_data<T: Copy>(data: &[T], rows: usize, cols: usize) -> (t: Vec<T>)
    requires
        data@.len() == rows * cols,
    ensures
        is_transpose(t@, data@, rows as nat, cols as nat),
{
    let mut out: Vec<T> = Vec::new();
    let mut c: usize = 0;
    while c < cols
        invariant
            c <= cols,
            data@.len() == rows * cols,
            data@.len() == data.len(),
            out@.len() == c * rows,
            forall|r2: int, c2: int|
                #![trigger out@[flat(c2, r2, rows as int)]]
                0 <= r2 < rows && 0 <= c2 < c ==> out@[flat(c2, r2, rows as int)] == data@[flat(r2, c2, cols as int)],
        decreases cols - c,
    {
        let mut r: usize = 0;
        while r < rows
            invariant
                r <= rows,
                c < cols,
                data@.len() == rows * cols,
                data@.len() == data.len(),
                out@.len() == c * rows + r,
                forall|r2: int, c2: int|
                    #![trigger out@[flat(c2, r2, rows as int)]]
                    0 <= r2 < rows && 0 <= c2 < c ==> out@[flat(c2, r2, rows as int)] == data@[flat(r2, c2, cols as int)],
                forall|r2: int|
                    #![trigger out@[flat(c as int, r2, rows as int)]]
                    0 <= r2 < r ==> out@[flat(c as int, r2, rows as int)] == data@[flat(r2, c as int, cols as int)],
            decreases rows - r,
        {
            assert(r * cols + c < rows * cols) by (nonlinear_arith)
                requires
                    r < rows,
                    c < cols,
            ;
            let ghost before = out@;
            out.push(data[r * cols + c]);
            assert forall|r2: int, c2: int|
                #![trigger out@[flat(c2, r2, rows as int)]]
                0 <= r2 < rows && 0 <= c2 < c implies out@[flat(c2, r2, rows as int)] == data@[flat(r2, c2, cols as int)] by {
                assert(flat(c2, r2, rows as int) < c * rows) by (nonlinear_arith)
                    requires
                        0 <= r2 < rows,
                        0 <= c2 < c,
                ;
                assert(out@[flat(c2, r2, rows as int)] == before[flat(c2, r2, rows as int)]);
            }
            assert forall|r2: int|
                #![trigger out@[flat(c as int, r2, rows as int)]]
                0 <= r2 < r + 1 implies out@[flat(c as int, r2, rows as int)] == data@[flat(r2, c as int, cols as int)] by {
                if r2 < r {
                    assert(out@[flat(c as int, r2, rows as int)] == before[flat(c as int, r2, rows as int)]);
                }
            }
            r = r + 1;
        }
        assert((c + 1) * rows == c * rows + rows) by (nonlinear_arith);
        assert forall|r2: int, c2: int|
            #![trigger out@[flat(c2, r2, rows as int)]]
            0 <= r2 < rows && 0 <= c2 < c + 1 implies out@[flat(c2, r2, rows as int)] == data@[flat(r2, c2, cols as int)] by {
        }
        c = c + 1;
    }
    assert(cols * rows == rows * cols) by (nonlinear_arith);
    out
}

/// Transposing twice gives the table back.
pub proof fn lemma_transpose_involution<T>(d: Seq<T>, t: Seq<T>, u: Seq<T>, rows: nat, cols: nat)
    requires
        is_transpose(t, d, rows, cols),
        is_transpose(u, t, cols, rows),
    ensures
        u == d,
{
    assert forall|x: int| 0 <= x < d.len() implies u[x] == d[x] by {
        let c = cols as int;
        let r = x / c;
        let k = x % c;
        assert(c > 0) by (nonlinear_arith)
            requires
                0 <= x < rows * cols,
                c == cols,
        ;
        vstd::arithmetic::div_mod::lemma_fundamental_div_mod(x, c);
        vstd::arithmetic::div_mod::lemma_mod_bound(x, c);
        assert(0 <= r < rows) by (nonlinear_arith)
            requires
                x == c * r + k,
                0 <= k < c,
                0 <= x < rows * c,
        ;
        assert(c * r == r * c) by (nonlinear_arith);
        assert(x == flat(r, k, c));
        assert(u[flat(r, k, c)] == t[flat(k, r, rows as int)]);
        assert(t[flat(k, r, rows as int)] == d[flat(r, k, c)]);
    }
    assert(u =~= d);
}

/// The message of a tensor whose shape holds `size` elements but whose data
/// holds `len` values.
pub open spec fn size_mismatch_text(size: nat, len: nat) -> Seq<char> {
    "shape size "@ + decimal_digits(size) + " does not match data length "@ + decimal_digits(len)
}

/// Accepts the data of a tensor: its shape's element count must fit a usize
/// and equal the number of values, and every value must be finite; the
/// checks fail in that order.
pub fn check_tensor(shape: &[usize], data_len: usize, all_finite: bool) -> (r: Result<(), TransformerError>)
    ensures
        checked_size(shape@) is None ==> (r matches Err(TransformerError::InvalidTensor(m)) && m@
            == "shape overflow"@),
        checked_size(shape@) matches Some(n) ==> (n != data_len ==> (r matches Err(
            TransformerError::InvalidTensor(m),
        ) && m@ == size_mismatch_text(n, data_len as nat))),
        checked_size(shape@) == Some(data_len as nat) && !all_finite ==> (r matches Err(
            TransformerError::InvalidTensor(m),
        ) && m@ == "non-finite value"@),
        r is Ok <==> checked_size(shape@) == Some(data_len as nat) && all_finite,
{
    let size = match checked_shape_size(shape) {
        Some(n) => n,
        None => {
            return Err(TransformerError::InvalidTensor(String::from_str("shape overflow")));
        },
    };
    if size != data_len {
        let mut m = String::from_str("shape size ");
        push_decimal(&mut m, size as u64);
        m.append(" does not match data length ");
        push_decimal(&mut m, data_len as u64);
        return Err(TransformerError::InvalidTensor(m));
    }
    if !all_finite {
        return Err(TransformerError::InvalidTensor(String::from_str("non-finite value")));
    }
    Ok(())
}

} // verus!

verus! {

/// Looking up rows puts, at every position `i` and column `c`, the table's
/// entry in row `ids[i]`, column `c`: the rows come out in the order of the
/// ids, a repeated id repeating its row.
pub proof fn lemma_gathered_rows<T>(table: Seq<T>, ids: Seq<u32>, width: nat)
    requires
        forall|i: int| 0 <= i < ids.len() ==> (#[trigger] ids[i] as int) * width + width <= table.len(),
    ensures
        gathered(table, ids, width).len() == ids.len() * width,
        forall|i: int, c: int|
            0 <= i < ids.len() && 0 <= c < width ==> #[trigger] gathered(table, ids, width)[i * width
                + c] == table[(ids[i] as int) * width + c],
    decreases ids.len(),
{
    if ids.len() > 0 {
        let rest = ids.drop_last();
        let n = ids.len() - 1;
        assert forall|i: int| 0 <= i < rest.len() implies (#[trigger] rest[i] as int) * width + width
            <= table.len() by {
            assert(rest[i] == ids[i]);
        }
        lemma_gathered_rows(table, rest, width);
        let g0 = gathered(table, rest, width);
        let start = ids.last() as int * width;
        assert(start + width <= table.len()) by {
            assert(ids[n] == ids.last());
        }
        let g = gathered(table, ids, width);
        assert(g == g0 + table.subrange(start, start + width));
        assert(n * width + width == ids.len() * width) by (nonlinear_arith)
            requires
                n == ids.len() - 1,
        ;
        assert forall|i: int, c: int| 0 <= i < ids.len() && 0 <= c < width implies #[trigger] g[i
            * width + c] == table[(ids[i] as int) * width + c] by {
            if i < n {
                assert(i * width + c < n * width) by (nonlinear_arith)
                    requires
                        0 <= i < n,
                        0 <= c < width,
                ;
                assert(0 <= i * width) by (nonlinear_arith)
                    requires
                        0 <= i,
                ;
                assert(g[i * width + c] == g0[i * width + c]);
                assert(rest[i] == ids[i]);
            } else {
                assert(i == n);
                assert(g[i * width + c] == table[start + c]);
            }
        }
    }
}

} // verus!
