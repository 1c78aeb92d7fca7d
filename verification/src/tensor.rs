//! The F32 tensor handle: its shape, its element count and its (zeroed)
//! storage, and the checks that decide whether a requested shape is accepted.

use vstd::prelude::*;
use crate::err::{err, ErrorSlot, RTORCH_API_E_NOMEM, RTORCH_API_E_PARAM};

verus! {

/// The only element type the safe shell backs.
pub const RTORCH_API_DTYPE_F32: i32 = 0;

/// The largest element count a tensor may have (2^29): a shape that asks for
/// more is refused before anything is allocated.
pub const TENSOR_MAX_NUMEL: usize = 536870912;

/// The product of the first `k` dimensions.
pub open spec fn dims_prefix_product(dims: Seq<usize>, k: int) -> int
    decreases k,
{
    if k <= 0 {
        1
    } else {
        dims_prefix_product(dims, k - 1) * dims[k - 1]
    }
}

/// The number of elements of a tensor of shape `dims`; a rank-0 tensor has none.
pub open spec fn shape_numel(dims: Seq<usize>) -> int {
    if dims.len() == 0 {
        0
    } else {
        dims_prefix_product(dims, dims.len() as int)
    }
}

/// The product of all of `dims`, as vstd's left fold computes it.
pub open spec fn product_of(dims: Seq<usize>) -> int {
    dims.fold_left(1int, |acc: int, d: usize| acc * d)
}

/// A tensor of one or more dimensions has as many elements as the product of
/// all its dimensions, every one of them counted; a rank-0 tensor has none.
pub proof fn shape_numel_is_product(dims: Seq<usize>)
    ensures
        dims.len() > 0 ==> shape_numel(dims) == product_of(dims),
        dims.len() == 0 ==> shape_numel(dims) == 0,
    decreases dims.len(),
{
    if dims.len() > 0 {
        let front = dims.drop_last();
        let n = dims.len() as int;
        assert(product_of(dims) == product_of(front) * dims.last());
        assert(dims_prefix_product(dims, n) == dims_prefix_product(dims, n - 1) * dims[n - 1]);
        if dims.len() > 1 {
            shape_numel_is_product(front);
            lemma_prefix_product_of_prefix(dims, front, front.len() as int);
        } else {
            assert(front.len() == 0);
            assert(product_of(front) == 1);
        }
    }
}

/// The running products of `dims` over its first `k` dimensions agree with
/// those of any sequence that starts with those dimensions.
proof fn lemma_prefix_product_of_prefix(dims: Seq<usize>, front: Seq<usize>, k: int)
    requires
        0 <= k <= front.len() <= dims.len(),
        forall|i: int| 0 <= i < front.len() ==> front[i] == dims[i],
    ensures
        dims_prefix_product(dims, k) == dims_prefix_product(front, k),
    decreases k,
{
    if k > 0 {
        lemma_prefix_product_of_prefix(dims, front, k - 1);
    }
}

/// Adding a dimension `d` to a tensor of rank one or more multiplies its
/// element count by `d`; a rank-1 tensor of extent `d` has `d` elements.
pub proof fn shape_numel_push(dims: Seq<usize>, d: usize)
    ensures
        dims.len() > 0 ==> shape_numel(dims.push(d)) == shape_numel(dims) * d,
        shape_numel(seq![d]) == d,
{
    let longer = dims.push(d);
    lemma_prefix_product_of_prefix(longer, dims, dims.len() as int);
    assert(longer.drop_last() =~= dims);
    assert(dims_prefix_product(seq![d], 0) == 1);
}

/// Every running product of `dims` up to the `k`-th stays within the cap.
pub open spec fn prefixes_within_cap(dims: Seq<usize>, k: int) -> bool {
    forall|j: int| 1 <= j <= k ==> #[trigger] dims_prefix_product(dims, j) <= TENSOR_MAX_NUMEL
}

/// The running product of `dims` first leaves the cap at the `k`-th dimension
/// (`k` counted from 1).
pub open spec fn first_over_cap_at(dims: Seq<usize>, k: int) -> bool {
    &&& 1 <= k <= dims.len()
    &&& prefixes_within_cap(dims, k - 1)
    &&& dims_prefix_product(dims, k) > TENSOR_MAX_NUMEL
}

/// The running product overflows `usize` before it ever exceeds the cap.
pub open spec fn shape_overflows(dims: Seq<usize>) -> bool {
    exists|k: int| first_over_cap_at(dims, k) && dims_prefix_product(dims, k) > usize::MAX
}

/// The running product exceeds the cap while still fitting in `usize`.
pub open spec fn shape_too_large(dims: Seq<usize>) -> bool {
    exists|k: int| first_over_cap_at(dims, k) && dims_prefix_product(dims, k) <= usize::MAX
}

/// A tensor handle: its dimensions, its element type and its F32 storage,
/// each element kept as its IEEE-754 bit pattern.
pub struct OpaqueTensor {
    dims: Vec<usize>,
    data: Vec<u32>,
    dtype: i32,
}

impl OpaqueTensor {
    /// The dimensions.
    pub closed spec fn spec_dims(&self) -> Seq<usize> {
        self.dims@
    }

    /// The element bit patterns.
    pub closed spec fn spec_data(&self) -> Seq<u32> {
        self.data@
    }

    /// The element type code.
    pub closed spec fn spec_dtype(&self) -> i32 {
        self.dtype
    }

    /// What every handle made by [`rtorch_api_tensor_new`] satisfies: an F32
    /// tensor whose storage has exactly as many elements as its shape asks for,
    /// and no more than the cap.
    pub open spec fn wf(&self) -> bool {
        &&& self.spec_dtype() == RTORCH_API_DTYPE_F32
        &&& self.spec_data().len() == shape_numel(self.spec_dims())
        &&& self.spec_data().len() <= TENSOR_MAX_NUMEL
    }

    /// The storage, for handing out as a `const float*`.
    pub fn data(&self) -> (d: &[u32])
        ensures
            d@ == self.spec_data(),
    {
        self.data.as_slice()
    }
}

/// Create a zero-filled F32 tensor of shape `dims[..rank]`.
///
/// `dims` is `None` for a null pointer; otherwise it holds the `rank` values the
/// caller passed (or none at all when `rank` is 0). A null shape with a
/// non-zero rank, any element type but F32, a shape whose element count
/// overflows `usize`, and one whose running product exceeds
/// [`TENSOR_MAX_NUMEL`] are each refused with their own code and message.
pub fn rtorch_api_tensor_new(dims: Option<&[usize]>, rank: usize, dtype: i32, slot: &mut ErrorSlot)
    -> (t: Option<OpaqueTensor>)
    requires
        dims matches Some(d) ==> (rank == 0 || d@.len() == rank),
    ensures
        dims is None && rank > 0 ==> t is None && final(slot)@
            == "rtorch_api: null dims with rank>0"@,
        !(dims is None && rank > 0) ==> {
            let shape = if rank == 0 { Seq::<usize>::empty() } else { dims->0@ };
            if dtype != RTORCH_API_DTYPE_F32 {
                t is None && final(slot)@ == "rtorch_api: only RTORCH_API_DTYPE_F32 supported"@
            } else if shape_overflows(shape) {
                t is None && final(slot)@ == "rtorch_api: tensor numel overflows usize"@
            } else if shape_too_large(shape) {
                t is None && final(slot)@ == "rtorch_api: tensor too large"@
            } else {
                &&& t matches Some(t) && t.wf() && t.spec_dims() == shape
                    && t.spec_data() == Seq::new(shape_numel(shape) as nat, |i: int| 0u32)
                    && (shape.len() > 0 ==> t.spec_data().len() == product_of(shape))
                &&& final(slot)@ == old(slot)@
            }
        },
{
    if dims.is_none() && rank > 0 {
        err(slot, RTORCH_API_E_PARAM, "rtorch_api: null dims with rank>0");
        return None;
    }
    let shape: Vec<usize> = if rank == 0 {
        Vec::new()
    } else {
        match dims {
            Some(d) => vstd::slice::slice_to_vec(d),
            None => Vec::new(),
        }
    };
    if dtype != RTORCH_API_DTYPE_F32 {
        err(slot, RTORCH_API_E_PARAM, "rtorch_api: only RTORCH_API_DTYPE_F32 supported");
        return None;
    }
    let n = shape.len();
    let mut numel: usize = if n == 0 { 0 } else { 1 };
    let mut i: usize = 0;
    while i < n
        invariant
            n == shape@.len(),
            i <= n,
            prefixes_within_cap(shape@, i as int),
            n > 0 ==> numel == dims_prefix_product(shape@, i as int),
            n == 0 ==> numel == 0,
            !(dims is None && rank > 0),
            shape@ == (if rank == 0 { Seq::<usize>::empty() } else { dims->0@ }),
            dtype == RTORCH_API_DTYPE_F32,
            slot@ == old(slot)@,
        decreases n - i,
    {
        let d = shape[i];
        proof {
            assert(dims_prefix_product(shape@, i + 1) == dims_prefix_product(shape@, i as int) * d);
        }
        match numel.checked_mul(d) {
            Some(v) => {
                numel = v;
            },
            None => {
                proof {
                    assert(first_over_cap_at(shape@, i + 1));
                }
                err(slot, RTORCH_API_E_PARAM, "rtorch_api: tensor numel overflows usize");
                return None;
            },
        }
        if numel > TENSOR_MAX_NUMEL {
            proof {
                assert(first_over_cap_at(shape@, i + 1));
                assert(!shape_overflows(shape@)) by {
                    lemma_first_over_cap_unique(shape@, i + 1);
                }
            }
            err(slot, RTORCH_API_E_NOMEM, "rtorch_api: tensor too large");
            return None;
        }
        i = i + 1;
    }
    proof {
        assert forall|k: int| !first_over_cap_at(shape@, k) by {
            if first_over_cap_at(shape@, k) {
                assert(dims_prefix_product(shape@, k) <= TENSOR_MAX_NUMEL);
            }
        }
    }
    proof {
        shape_numel_is_product(shape@);
    }
    let data = vec![0u32; numel];
    assert(data@ == Seq::new(shape_numel(shape@) as nat, |i: int| 0u32));
    Some(OpaqueTensor { dims: shape, data, dtype })
}

/// The running product leaves the cap at one place only.
proof fn lemma_first_over_cap_unique(dims: Seq<usize>, k: int)
    requires
        first_over_cap_at(dims, k),
    ensures
        forall|j: int| #[trigger] first_over_cap_at(dims, j) ==> j == k,
{
    assert forall|j: int| #[trigger] first_over_cap_at(dims, j) implies j == k by {
        if j < k {
            assert(dims_prefix_product(dims, j) <= TENSOR_MAX_NUMEL);
        } else if j > k {
            assert(dims_prefix_product(dims, k) <= TENSOR_MAX_NUMEL);
        }
    }
}

/// Element count of the tensor; 0 for no handle.
pub fn rtorch_api_tensor_numel(t: Option<&OpaqueTensor>) -> (n: usize)
    ensures
        n == match t {
            Some(t) => t.spec_data().len(),
            None => 0,
        },
{
    match t {
        Some(t) => t.data.len(),
        None => 0,
    }
}

/// Rank (number of dimensions); 0 for no handle.
pub fn rtorch_api_tensor_rank(t: Option<&OpaqueTensor>) -> (n: usize)
    ensures
        n == match t {
            Some(t) => t.spec_dims().len(),
            None => 0,
        },
{
    match t {
        Some(t) => t.dims.len(),
        None => 0,
    }
}

/// The `i`-th dimension; 0 for no handle or an index out of range.
pub fn rtorch_api_tensor_dim(t: Option<&OpaqueTensor>, i: usize) -> (d: usize)
    ensures
        d == match t {
            Some(t) => if i < t.spec_dims().len() { t.spec_dims()[i as int] } else { 0 },
            None => 0,
        },
{
    match t {
        Some(t) => if i < t.dims.len() { t.dims[i] } else { 0 },
        None => 0,
    }
}

/// The element type code; -1 for no handle.
pub fn rtorch_api_tensor_dtype(t: Option<&OpaqueTensor>) -> (code: i32)
    ensures
        code == match t {
            Some(t) => t.spec_dtype() as int,
            None => -1,
        },
{
    match t {
        Some(t) => t.dtype,
        None => -1,
    }
}

} // verus!
