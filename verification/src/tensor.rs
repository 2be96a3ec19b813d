//! Self-describing tensor descriptors with explicit, auditable ownership.
//!
//! A [`Tensor`] carries an element type, a shape, row-major strides, a device
//! tag, a data buffer, and a flag saying whether the buffer is a private
//! copy. Two lifetime variants exist:
//!
//! - **Borrowed**: the descriptor wraps a caller-supplied buffer; releasing
//!   the descriptor hands the buffer back to the caller untouched.
//! - **Owned**: the buffer was moved into the descriptor; releasing the
//!   descriptor frees the buffer together with the metadata.
//!
//! Because this crate carries no floating-point values, `f64` elements are
//! held as their IEEE-754 bit patterns in `u64`; the boundary that talks to
//! actual `f64` memory converts with `f64::to_bits` / `f64::from_bits`,
//! which is one-for-one.
//!
//! Every component validates each input tensor before reading its data; the
//! validators here implement that policy and report a distinct diagnostic
//! for each way a tensor can be rejected.

use vstd::prelude::*;

verus! {

/// Element type code of a tensor.
#[derive(Debug, Clone, Copy, PartialEq, Eq, Structural)]
pub enum Dtype {
    /// 64-bit IEEE-754 floating point, carried as bit patterns.
    F64,
    /// 32-bit signed integer.
    I32,
}

impl Dtype {
    /// Width of one element in bytes.
    pub open spec fn spec_byte_width(self) -> int {
        match self {
            Dtype::F64 => 8,
            Dtype::I32 => 4,
        }
    }

    /// Width of one element in bytes.
    pub fn byte_width(&self) -> (w: u8)
        ensures
            w == self.spec_byte_width(),
    {
        match self {
            Dtype::F64 => 8,
            Dtype::I32 => 4,
        }
    }
}

/// Kind of device a tensor's data lives on.
#[derive(Debug, Clone, Copy, PartialEq, Eq, Structural)]
pub enum DeviceKind {
    /// Ordinary host memory.
    Host,
    /// An accelerator device; its data is not host-addressable.
    Device,
}

/// A device tag: kind plus device ordinal.
#[derive(Debug, Clone, Copy, PartialEq, Eq, Structural)]
pub struct Device {
    pub kind: DeviceKind,
    pub id: i32,
}

/// The host device with ordinal zero, used by every constructor here.
pub open spec fn spec_host_device() -> Device {
    Device { kind: DeviceKind::Host, id: 0 }
}

/// The host device with ordinal zero.
pub fn host_device() -> (d: Device)
    ensures
        d == spec_host_device(),
{
    Device { kind: DeviceKind::Host, id: 0 }
}

/// A tensor's data buffer. `F64` elements are IEEE-754 bit patterns.
#[derive(Debug, PartialEq, Eq)]
pub enum DataBuf {
    F64(Vec<u64>),
    I32(Vec<i32>),
}

impl DataBuf {
    /// The element type this buffer holds.
    pub open spec fn spec_dtype(self) -> Dtype {
        match self {
            DataBuf::F64(_) => Dtype::F64,
            DataBuf::I32(_) => Dtype::I32,
        }
    }

    /// Number of elements in the buffer.
    pub open spec fn spec_len(self) -> int {
        match self {
            DataBuf::F64(v) => v.len() as int,
            DataBuf::I32(v) => v.len() as int,
        }
    }

    /// The element type this buffer holds.
    pub fn dtype(&self) -> (d: Dtype)
        ensures
            d == self.spec_dtype(),
    {
        match self {
            DataBuf::F64(_) => Dtype::F64,
            DataBuf::I32(_) => Dtype::I32,
        }
    }

    /// Number of elements in the buffer.
    pub fn len(&self) -> (n: usize)
        ensures
            n == self.spec_len(),
    {
        match self {
            DataBuf::F64(v) => v.len(),
            DataBuf::I32(v) => v.len(),
        }
    }
}

/// Product of the extents `s[i..]`; the row-major stride of dimension
/// `i - 1`, and for `i == 0` the element count of the whole tensor.
pub open spec fn suffix_prod(s: Seq<i64>, i: int) -> int
    decreases s.len() - i,
{
    if i < 0 || i >= s.len() {
        1
    } else {
        s[i] * suffix_prod(s, i + 1)
    }
}

/// All suffix products of a shape with nonnegative extents are nonnegative.
pub proof fn lemma_suffix_prod_nonneg(s: Seq<i64>, i: int)
    requires
        forall|k: int| 0 <= k < s.len() ==> 0 <= #[trigger] s[k],
    ensures
        0 <= suffix_prod(s, i),
    decreases s.len() - i,
{
    if 0 <= i < s.len() {
        lemma_suffix_prod_nonneg(s, i + 1);
        assert(0 <= s[i] * suffix_prod(s, i + 1)) by (nonlinear_arith)
            requires
                0 <= s[i],
                0 <= suffix_prod(s, i + 1),
        ;
    }
}

/// The version of the tensor exchange contract a descriptor was built
/// against.
#[derive(Debug, Clone, Copy, PartialEq, Eq, Structural)]
pub struct ContractVersion {
    pub major: u32,
    pub minor: u32,
}

/// The version of the exchange contract this crate builds descriptors
/// against.
pub open spec fn spec_contract_version() -> ContractVersion {
    ContractVersion { major: 1, minor: 0 }
}

/// The version of the exchange contract this crate builds descriptors
/// against.
pub fn contract_version() -> (v: ContractVersion)
    ensures
        v == spec_contract_version(),
{
    ContractVersion { major: 1, minor: 0 }
}

/// A self-describing tensor descriptor.
#[derive(Debug, PartialEq, Eq)]
pub struct Tensor {
    /// Version of the exchange contract this descriptor follows.
    pub version: ContractVersion,
    /// Element type code.
    pub dtype: Dtype,
    /// Extent of each dimension, outermost first.
    pub shape: Vec<i64>,
    /// Row-major element strides, one per dimension.
    pub strides: Vec<i64>,
    /// Where the data lives.
    pub device: Device,
    /// The data buffer itself.
    pub data: DataBuf,
    /// True when `data` is a private copy owned by this descriptor;
    /// false when it is held for a caller who gets it back on release.
    pub is_copy: bool,
}

impl Tensor {
    /// Element count: the product of all extents.
    pub open spec fn spec_numel(self) -> int {
        suffix_prod(self.shape@, 0)
    }

    /// Well-formedness: strides match the shape in length and value, the
    /// extents are nonnegative, the buffer holds exactly one value per
    /// element, and the element type code agrees with the buffer variant.
    pub open spec fn wf(self) -> bool {
        &&& self.strides@.len() == self.shape@.len()
        &&& forall|i: int| 0 <= i < self.shape@.len() ==> 0 <= #[trigger] self.shape@[i]
        &&& forall|i: int|
            0 <= i < self.strides@.len() ==> #[trigger] self.strides@[i] == suffix_prod(
                self.shape@,
                i + 1,
            )
        &&& self.data.spec_len() == self.spec_numel()
        &&& self.dtype == self.data.spec_dtype()
    }

    /// Number of dimensions.
    pub fn ndim(&self) -> (n: usize)
        ensures
            n == self.shape@.len(),
    {
        self.shape.len()
    }

    /// Decide well-formedness at run time: returns exactly [`Tensor::wf`].
    ///
    /// The foreign boundary gives no static guarantee that a hand-built
    /// descriptor obeys the contract, so unverified callers test a
    /// descriptor with this before handing it to a function that requires
    /// `wf`. The walk carries the exact suffix product of the extents,
    /// innermost dimension first; once the product outgrows every value a
    /// stride or a buffer length can take, nothing can match it any more
    /// and the descriptor is rejected.
    pub fn check_wf(&self) -> (r: bool)
        ensures
            r == self.wf(),
    {
        let ndim = self.shape.len();
        if self.strides.len() != ndim {
            return false;
        }
        if self.dtype != self.data.dtype() {
            return false;
        }
        let mut i: usize = 0;
        while i < ndim
            invariant
                i <= ndim,
                ndim == self.shape@.len(),
                forall|k: int| 0 <= k < i ==> 0 <= #[trigger] self.shape@[k],
            decreases ndim - i,
        {
            if self.shape[i] < 0 {
                return false;
            }
            i += 1;
        }
        let cap: u128 = if (usize::MAX as u128) > (i64::MAX as u128) {
            usize::MAX as u128
        } else {
            i64::MAX as u128
        };
        let mut acc: u128 = 1;
        let mut k: usize = ndim;
        while k > 0
            invariant
                k <= ndim,
                ndim == self.shape@.len(),
                ndim == self.strides@.len(),
                forall|j: int| 0 <= j < ndim ==> 0 <= #[trigger] self.shape@[j],
                acc as int == suffix_prod(self.shape@, k as int),
                acc <= cap,
                cap >= usize::MAX,
                cap >= i64::MAX,
                cap <= u64::MAX,
                forall|j: int| k <= j < ndim ==> #[trigger] self.strides@[j] == suffix_prod(
                    self.shape@,
                    j + 1,
                ),
            decreases k,
        {
            k -= 1;
            let stride = self.strides[k];
            if stride < 0 {
                proof {
                    lemma_suffix_prod_nonneg(self.shape@, k + 1);
                }
                return false;
            }
            if (stride as u128) != acc {
                return false;
            }
            let extent = self.shape[k];
            proof {
                let e: int = extent as int;
                let a: int = acc as int;
                assert(suffix_prod(self.shape@, k as int) == self.shape@[k as int] * suffix_prod(
                    self.shape@,
                    k + 1,
                ));
                assert((extent as u128) as int == e);
                assert(e * a <= 0x7fff_ffff_ffff_ffff * 0xffff_ffff_ffff_ffff)
                    by (nonlinear_arith)
                    requires
                        0 <= e <= 0x7fff_ffff_ffff_ffff,
                        0 <= a <= 0xffff_ffff_ffff_ffff,
                ;
                assert(e * a == suffix_prod(self.shape@, k as int)) by (nonlinear_arith)
                    requires
                        e == self.shape@[k as int] as int,
                        a == suffix_prod(self.shape@, k + 1),
                        suffix_prod(self.shape@, k as int) == self.shape@[k as int] * suffix_prod(
                            self.shape@,
                            k + 1,
                        ),
                ;
            }
            acc = (extent as u128) * acc;
            if acc > cap {
                proof {
                    if k == 0 {
                        assert(self.data.spec_len() <= usize::MAX);
                    } else {
                        assert(self.wf() ==> self.strides@[k - 1] == suffix_prod(
                            self.shape@,
                            k as int,
                        ));
                    }
                }
                return false;
            }
        }
        let numel = self.data.len();
        if (numel as u128) == acc {
            proof {
                assert(self.wf());
            }
            true
        } else {
            false
        }
    }
}

/// Row-major strides for a shape: `strides[i]` is the product of the
/// extents that follow dimension `i`.
pub fn compute_row_major_strides(shape: &Vec<i64>) -> (strides: Vec<i64>)
    requires
        forall|i: int| 0 <= i < shape@.len() ==> 0 <= #[trigger] shape@[i],
        forall|i: int| 0 <= i <= shape@.len() ==> #[trigger] suffix_prod(shape@, i) <= i64::MAX,
    ensures
        strides@.len() == shape@.len(),
        forall|i: int| 0 <= i < strides@.len() ==> #[trigger] strides@[i] == suffix_prod(
            shape@,
            i + 1,
        ),
{
    let ndim = shape.len();
    let mut strides: Vec<i64> = Vec::new();
    if ndim == 0 {
        return strides;
    }
    let mut j: usize = 0;
    while j < ndim
        invariant
            j <= ndim,
            strides@.len() == j,
            forall|k: int| 0 <= k < j ==> #[trigger] strides@[k] == 1,
        decreases ndim - j,
    {
        strides.push(1);
        j += 1;
    }
    let mut i: usize = ndim - 1;
    while i > 0
        invariant
            0 <= i < ndim,
            ndim == shape@.len(),
            strides@.len() == ndim,
            forall|k: int| 0 <= k < shape@.len() ==> 0 <= #[trigger] shape@[k],
            forall|k: int| 0 <= k <= shape@.len() ==> #[trigger] suffix_prod(shape@, k)
                <= i64::MAX,
            forall|k: int| i <= k < ndim ==> #[trigger] strides@[k] == suffix_prod(shape@, k + 1),
        decreases i,
    {
        i -= 1;
        proof {
            lemma_suffix_prod_nonneg(shape@, i + 2);
            lemma_suffix_prod_nonneg(shape@, i + 1);
            assert(suffix_prod(shape@, i + 1) == shape@[i + 1] * suffix_prod(shape@, i + 2));
            assert(strides@[i + 1] == suffix_prod(shape@, i + 2));
            assert(strides@[i + 1] * shape@[i + 1] == suffix_prod(shape@, i + 1))
                by (nonlinear_arith)
                requires
                    strides@[i + 1] == suffix_prod(shape@, i + 2),
                    suffix_prod(shape@, i + 1) == shape@[i + 1] * suffix_prod(shape@, i + 2),
            ;
        }
        let v = strides[i + 1] * shape[i + 1];
        strides.set(i, v);
    }
    strides
}

/// Wrap a buffer in a borrowed descriptor: the metadata is freshly built,
/// the buffer is held for the caller and handed back on release.
pub fn create_borrowed_tensor(data: DataBuf, shape: Vec<i64>) -> (t: Tensor)
    requires
        forall|i: int| 0 <= i < shape@.len() ==> 0 <= #[trigger] shape@[i],
        forall|i: int| 0 <= i <= shape@.len() ==> #[trigger] suffix_prod(shape@, i) <= i64::MAX,
        data.spec_len() == suffix_prod(shape@, 0),
    ensures
        t.wf(),
        t.version == spec_contract_version(),
        t.dtype == data.spec_dtype(),
        t.shape@ == shape@,
        t.device == spec_host_device(),
        t.data == data,
        !t.is_copy,
{
    let strides = compute_row_major_strides(&shape);
    let dtype = data.dtype();
    Tensor {
        version: contract_version(),
        dtype,
        shape,
        strides,
        device: host_device(),
        data,
        is_copy: false,
    }
}

/// Move a buffer of `f64` bit patterns into an owning descriptor; releasing
/// the descriptor frees the buffer together with the metadata.
pub fn create_owned_f64_tensor(data: Vec<u64>, shape: Vec<i64>) -> (t: Tensor)
    requires
        forall|i: int| 0 <= i < shape@.len() ==> 0 <= #[trigger] shape@[i],
        forall|i: int| 0 <= i <= shape@.len() ==> #[trigger] suffix_prod(shape@, i) <= i64::MAX,
        data@.len() == suffix_prod(shape@, 0),
    ensures
        t.wf(),
        t.version == spec_contract_version(),
        t.dtype == Dtype::F64,
        t.shape@ == shape@,
        t.device == spec_host_device(),
        t.data == DataBuf::F64(data),
        t.is_copy,
{
    let strides = compute_row_major_strides(&shape);
    Tensor {
        version: contract_version(),
        dtype: Dtype::F64,
        shape,
        strides,
        device: host_device(),
        data: DataBuf::F64(data),
        is_copy: true,
    }
}

/// Move a buffer of `i32` values into an owning descriptor.
pub fn create_owned_i32_tensor(data: Vec<i32>, shape: Vec<i64>) -> (t: Tensor)
    requires
        forall|i: int| 0 <= i < shape@.len() ==> 0 <= #[trigger] shape@[i],
        forall|i: int| 0 <= i <= shape@.len() ==> #[trigger] suffix_prod(shape@, i) <= i64::MAX,
        data@.len() == suffix_prod(shape@, 0),
    ensures
        t.wf(),
        t.version == spec_contract_version(),
        t.dtype == Dtype::I32,
        t.shape@ == shape@,
        t.device == spec_host_device(),
        t.data == DataBuf::I32(data),
        t.is_copy,
{
    let strides = compute_row_major_strides(&shape);
    Tensor {
        version: contract_version(),
        dtype: Dtype::I32,
        shape,
        strides,
        device: host_device(),
        data: DataBuf::I32(data),
        is_copy: true,
    }
}

/// Facts needed to treat `[rows, cols]` as a tensor shape.
pub proof fn lemma_two_dim_suffix_prods(s: Seq<i64>, rows: i64, cols: i64)
    requires
        s =~= seq![rows, cols],
        0 <= rows,
        0 <= cols,
        rows * cols <= i64::MAX,
    ensures
        suffix_prod(s, 0) == rows * cols,
        suffix_prod(s, 1) == cols,
        suffix_prod(s, 2) == 1,
        forall|i: int| 0 <= i <= 2 ==> #[trigger] suffix_prod(s, i) <= i64::MAX,
{
    assert(suffix_prod(s, 2) == 1);
    assert(suffix_prod(s, 1) == cols * 1);
    assert(suffix_prod(s, 0) == rows * suffix_prod(s, 1));
    assert(rows * cols == suffix_prod(s, 0)) by (nonlinear_arith)
        requires
            suffix_prod(s, 0) == rows * suffix_prod(s, 1),
            suffix_prod(s, 1) == cols * 1,
    ;
}

/// A borrowed host tensor of `f64` bit patterns with shape `[rows, cols]`.
pub fn rgpot_tensor_cpu_f64_2d(data: Vec<u64>, rows: i64, cols: i64) -> (t: Tensor)
    requires
        0 <= rows,
        0 <= cols,
        rows * cols <= i64::MAX,
        data@.len() == rows * cols,
    ensures
        t.wf(),
        t.version == spec_contract_version(),
        t.dtype == Dtype::F64,
        t.shape@ == seq![rows, cols],
        t.device == spec_host_device(),
        t.data == DataBuf::F64(data),
        !t.is_copy,
{
    let mut shape: Vec<i64> = Vec::new();
    shape.push(rows);
    shape.push(cols);
    proof {
        lemma_two_dim_suffix_prods(shape@, rows, cols);
    }
    let t = create_borrowed_tensor(DataBuf::F64(data), shape);
    t
}

/// A borrowed host tensor of `i32` values with shape `[len]`.
pub fn rgpot_tensor_cpu_i32_1d(data: Vec<i32>, len: i64) -> (t: Tensor)
    requires
        0 <= len,
        data@.len() == len,
    ensures
        t.wf(),
        t.version == spec_contract_version(),
        t.dtype == Dtype::I32,
        t.shape@ == seq![len],
        t.device == spec_host_device(),
        t.data == DataBuf::I32(data),
        !t.is_copy,
{
    let mut shape: Vec<i64> = Vec::new();
    shape.push(len);
    proof {
        assert(shape@ =~= seq![len]);
        assert(suffix_prod(shape@, 1) == 1);
        assert(suffix_prod(shape@, 0) == len * 1);
        assert forall|i: int| 0 <= i <= shape@.len() implies #[trigger] suffix_prod(shape@, i)
            <= i64::MAX by {}
    }
    let t = create_borrowed_tensor(DataBuf::I32(data), shape);
    t
}

/// A borrowed host tensor of `f64` bit patterns with shape `[3, 3]`.
pub fn rgpot_tensor_cpu_f64_matrix3(data: Vec<u64>) -> (t: Tensor)
    requires
        data@.len() == 9,
    ensures
        t.wf(),
        t.version == spec_contract_version(),
        t.dtype == Dtype::F64,
        t.shape@ == seq![3i64, 3i64],
        t.device == spec_host_device(),
        t.data == DataBuf::F64(data),
        !t.is_copy,
{
    rgpot_tensor_cpu_f64_2d(data, 3, 3)
}

/// An owning host tensor of `f64` bit patterns with shape `[rows, cols]`,
/// seeded by copying from the given slice of bit patterns.
pub fn rgpot_tensor_owned_cpu_f64_2d(data: &Vec<u64>, rows: i64, cols: i64) -> (t: Tensor)
    requires
        0 <= rows,
        0 <= cols,
        rows * cols <= i64::MAX,
        data@.len() == rows * cols,
    ensures
        t.wf(),
        t.version == spec_contract_version(),
        t.dtype == Dtype::F64,
        t.shape@ == seq![rows, cols],
        t.device == spec_host_device(),
        t.data is F64,
        t.data->F64_0@ == data@,
        t.is_copy,
{
    let copy: Vec<u64> = clone_vec_copy(data);
    let mut shape: Vec<i64> = Vec::new();
    shape.push(rows);
    shape.push(cols);
    proof {
        lemma_two_dim_suffix_prods(shape@, rows, cols);
    }
    create_owned_f64_tensor(copy, shape)
}

/// An element-for-element copy of a buffer of plain values.
pub fn clone_vec_copy<T: Copy>(data: &Vec<T>) -> (copy: Vec<T>)
    ensures
        copy@ == data@,
{
    let mut copy: Vec<T> = Vec::new();
    let mut i: usize = 0;
    while i < data.len()
        invariant
            i <= data@.len(),
            copy@ == data@.subrange(0, i as int),
        decreases data@.len() - i,
    {
        copy.push(data[i]);
        i += 1;
    }
    proof {
        assert(copy@ =~= data@);
    }
    copy
}

/// What a release hands back: a borrowed descriptor returns the buffer it
/// held for the caller; an owning descriptor frees it, returning nothing.
pub open spec fn released_buffer(t: Option<Tensor>) -> Option<DataBuf> {
    match t {
        None => None,
        Some(t0) => if t0.is_copy {
            None
        } else {
            Some(t0.data)
        },
    }
}

/// Release a descriptor: tear down the metadata; hand a borrowed buffer
/// back untouched, free an owned one. A missing descriptor is a no-op.
pub fn rgpot_tensor_free(t: Option<Tensor>) -> (buf: Option<DataBuf>)
    ensures
        buf == released_buffer(t),
{
    match t {
        None => None,
        Some(t0) => {
            if t0.is_copy {
                None
            } else {
                Some(t0.data)
            }
        },
    }
}

/// The device a tensor's data lives on.
pub fn rgpot_tensor_device(t: &Tensor) -> (d: Device)
    ensures
        d == t.device,
{
    t.device
}

/// Borrow a tensor's data buffer.
pub fn rgpot_tensor_data(t: &Tensor) -> (d: &DataBuf)
    ensures
        d == &t.data,
{
    &t.data
}

/// Borrow a tensor's shape.
pub fn rgpot_tensor_shape(t: &Tensor) -> (s: &Vec<i64>)
    ensures
        s@ == t.shape@,
{
    &t.shape
}

/// Which input tensor a diagnostic is about.
#[derive(Debug, Clone, Copy, PartialEq, Eq, Structural)]
pub enum TensorArg {
    Positions,
    AtomicNumbers,
    BoxMatrix,
}

/// One way an input tensor can fail validation; each variant carries the
/// component name and the expected and actual values of the rejected field.
#[derive(Debug, Clone, Copy, PartialEq, Eq, Structural)]
#[allow(inconsistent_fields)]
pub enum ValidationError {
    /// The tensor is missing altogether.
    NullTensor { arg: TensorArg },
    /// The element type is not the one the component reads.
    DtypeMismatch { arg: TensorArg, expected: Dtype, actual: Dtype },
    /// The number of dimensions is wrong.
    NdimMismatch { arg: TensorArg, expected: usize, actual: usize },
    /// One extent of the shape is wrong.
    ExtentMismatch { arg: TensorArg, dim: usize, expected: i64, actual: i64 },
    /// The element count disagrees with the count derived elsewhere.
    CountMismatch { arg: TensorArg, expected: usize, actual: i64 },
}

/// The tensor behind an optional reference, as a value.
pub open spec fn spec_opt_tensor(t: Option<&Tensor>) -> Option<Tensor> {
    match t {
        None => None,
        Some(t0) => Some(*t0),
    }
}

/// The positions check: present, `f64`, two-dimensional, three columns;
/// on success the derived atom count is the row extent.
pub open spec fn spec_validate_positions(t: Option<Tensor>) -> Result<usize, ValidationError> {
    match t {
        None => Err(ValidationError::NullTensor { arg: TensorArg::Positions }),
        Some(t0) => if t0.dtype != Dtype::F64 {
            Err(
                ValidationError::DtypeMismatch {
                    arg: TensorArg::Positions,
                    expected: Dtype::F64,
                    actual: t0.dtype,
                },
            )
        } else if t0.shape@.len() != 2 {
            Err(
                ValidationError::NdimMismatch {
                    arg: TensorArg::Positions,
                    expected: 2,
                    actual: t0.shape@.len() as usize,
                },
            )
        } else if t0.shape@[1] != 3 {
            Err(
                ValidationError::ExtentMismatch {
                    arg: TensorArg::Positions,
                    dim: 1,
                    expected: 3,
                    actual: t0.shape@[1],
                },
            )
        } else {
            Ok(t0.shape@[0] as usize)
        },
    }
}

/// In a well-formed two-dimensional tensor with three columns, the row
/// extent is bounded by the buffer length, so it fits in `usize`.
proof fn lemma_positions_rows_fit(t: &Tensor)
    requires
        t.wf(),
        t.shape@.len() == 2,
        t.shape@[1] == 3,
    ensures
        0 <= t.shape@[0] <= t.data.spec_len(),
{
    assert(suffix_prod(t.shape@, 2) == 1);
    assert(suffix_prod(t.shape@, 1) == 3 * 1);
    assert(suffix_prod(t.shape@, 0) == t.shape@[0] * 3);
}

/// Validate a positions tensor: `f64`, two-dimensional, shape `[n, 3]`.
/// On success, returns the derived atom count `n`.
pub fn validate_positions(t: Option<&Tensor>) -> (r: Result<usize, ValidationError>)
    requires
        t matches Some(t0) ==> t0.wf(),
    ensures
        r == spec_validate_positions(spec_opt_tensor(t)),
        r matches Ok(n) ==> t matches Some(t0) && n == t0.shape@[0],
{
    match t {
        None => Err(ValidationError::NullTensor { arg: TensorArg::Positions }),
        Some(t0) => {
            if t0.dtype != Dtype::F64 {
                return Err(
                    ValidationError::DtypeMismatch {
                        arg: TensorArg::Positions,
                        expected: Dtype::F64,
                        actual: t0.dtype,
                    },
                );
            }
            let ndim = t0.shape.len();
            if ndim != 2 {
                return Err(
                    ValidationError::NdimMismatch {
                        arg: TensorArg::Positions,
                        expected: 2,
                        actual: ndim,
                    },
                );
            }
            let cols = t0.shape[1];
            if cols != 3 {
                return Err(
                    ValidationError::ExtentMismatch {
                        arg: TensorArg::Positions,
                        dim: 1,
                        expected: 3,
                        actual: cols,
                    },
                );
            }
            let rows = t0.shape[0];
            proof {
                lemma_positions_rows_fit(t0);
            }
            Ok(rows as usize)
        },
    }
}

/// The atomic-numbers check: present, `i32`, one-dimensional, and as many
/// entries as the atom count derived from the positions tensor.
pub open spec fn spec_validate_atomic_numbers(t: Option<Tensor>, expected_n: usize) -> Result<
    (),
    ValidationError,
> {
    match t {
        None => Err(ValidationError::NullTensor { arg: TensorArg::AtomicNumbers }),
        Some(t0) => if t0.dtype != Dtype::I32 {
            Err(
                ValidationError::DtypeMismatch {
                    arg: TensorArg::AtomicNumbers,
                    expected: Dtype::I32,
                    actual: t0.dtype,
                },
            )
        } else if t0.shape@.len() != 1 {
            Err(
                ValidationError::NdimMismatch {
                    arg: TensorArg::AtomicNumbers,
                    expected: 1,
                    actual: t0.shape@.len() as usize,
                },
            )
        } else if t0.shape@[0] != expected_n as int {
            Err(
                ValidationError::CountMismatch {
                    arg: TensorArg::AtomicNumbers,
                    expected: expected_n,
                    actual: t0.shape@[0],
                },
            )
        } else {
            Ok(())
        },
    }
}

/// Validate an atomic-numbers tensor: `i32`, one-dimensional, shape
/// `[expected_n]`.
pub fn validate_atomic_numbers(t: Option<&Tensor>, expected_n: usize) -> (r: Result<
    (),
    ValidationError,
>)
    requires
        t matches Some(t0) ==> t0.wf(),
    ensures
        r == spec_validate_atomic_numbers(spec_opt_tensor(t), expected_n),
{
    match t {
        None => Err(ValidationError::NullTensor { arg: TensorArg::AtomicNumbers }),
        Some(t0) => {
            if t0.dtype != Dtype::I32 {
                return Err(
                    ValidationError::DtypeMismatch {
                        arg: TensorArg::AtomicNumbers,
                        expected: Dtype::I32,
                        actual: t0.dtype,
                    },
                );
            }
            let ndim = t0.shape.len();
            if ndim != 1 {
                return Err(
                    ValidationError::NdimMismatch {
                        arg: TensorArg::AtomicNumbers,
                        expected: 1,
                        actual: ndim,
                    },
                );
            }
            let count = t0.shape[0];
            if count as u64 != expected_n as u64 {
                return Err(
                    ValidationError::CountMismatch {
                        arg: TensorArg::AtomicNumbers,
                        expected: expected_n,
                        actual: count,
                    },
                );
            }
            Ok(())
        },
    }
}

/// The box-matrix check: present, `f64`, two-dimensional, shape `[3, 3]`.
pub open spec fn spec_validate_box_matrix(t: Option<Tensor>) -> Result<(), ValidationError> {
    match t {
        None => Err(ValidationError::NullTensor { arg: TensorArg::BoxMatrix }),
        Some(t0) => if t0.dtype != Dtype::F64 {
            Err(
                ValidationError::DtypeMismatch {
                    arg: TensorArg::BoxMatrix,
                    expected: Dtype::F64,
                    actual: t0.dtype,
                },
            )
        } else if t0.shape@.len() != 2 {
            Err(
                ValidationError::NdimMismatch {
                    arg: TensorArg::BoxMatrix,
                    expected: 2,
                    actual: t0.shape@.len() as usize,
                },
            )
        } else if t0.shape@[0] != 3 {
            Err(
                ValidationError::ExtentMismatch {
                    arg: TensorArg::BoxMatrix,
                    dim: 0,
                    expected: 3,
                    actual: t0.shape@[0],
                },
            )
        } else if t0.shape@[1] != 3 {
            Err(
                ValidationError::ExtentMismatch {
                    arg: TensorArg::BoxMatrix,
                    dim: 1,
                    expected: 3,
                    actual: t0.shape@[1],
                },
            )
        } else {
            Ok(())
        },
    }
}

/// Validate a box-matrix tensor: `f64`, two-dimensional, shape `[3, 3]`.
pub fn validate_box_matrix(t: Option<&Tensor>) -> (r: Result<(), ValidationError>)
    requires
        t matches Some(t0) ==> t0.wf(),
    ensures
        r == spec_validate_box_matrix(spec_opt_tensor(t)),
{
    match t {
        None => Err(ValidationError::NullTensor { arg: TensorArg::BoxMatrix }),
        Some(t0) => {
            if t0.dtype != Dtype::F64 {
                return Err(
                    ValidationError::DtypeMismatch {
                        arg: TensorArg::BoxMatrix,
                        expected: Dtype::F64,
                        actual: t0.dtype,
                    },
                );
            }
            let ndim = t0.shape.len();
            if ndim != 2 {
                return Err(
                    ValidationError::NdimMismatch {
                        arg: TensorArg::BoxMatrix,
                        expected: 2,
                        actual: ndim,
                    },
                );
            }
            let rows = t0.shape[0];
            if rows != 3 {
                return Err(
                    ValidationError::ExtentMismatch {
                        arg: TensorArg::BoxMatrix,
                        dim: 0,
                        expected: 3,
                        actual: rows,
                    },
                );
            }
            let cols = t0.shape[1];
            if cols != 3 {
                return Err(
                    ValidationError::ExtentMismatch {
                        arg: TensorArg::BoxMatrix,
                        dim: 1,
                        expected: 3,
                        actual: cols,
                    },
                );
            }
            Ok(())
        },
    }
}

/// For every atom count `n >= 0`, a well-formed borrowed host tensor of
/// `f64` bit patterns with shape `[n, 3]` passes the positions validation,
/// and the derived atom count equals `n` exactly.
pub proof fn lemma_borrowed_positions_round_trip(t: Tensor, n: i64)
    requires
        0 <= n,
        t.wf(),
        t.dtype == Dtype::F64,
        t.shape@ =~= seq![n, 3i64],
    ensures
        spec_validate_positions(Some(t)) == Ok::<usize, ValidationError>(n as usize),
        n as usize as i64 == n,
{
    lemma_positions_rows_fit(&t);
    assert(t.data.spec_len() <= usize::MAX);
}

/// Releasing a borrowed descriptor hands the caller-supplied buffer back
/// exactly as it was wrapped: release frees descriptor metadata only, and
/// never touches the buffer.
pub proof fn lemma_release_borrowed_returns_buffer(t: Tensor, buf: DataBuf)
    requires
        !t.is_copy,
        t.data == buf,
    ensures
        released_buffer(Some(t)) == Some(buf),
{
}

/// An owning descriptor keeps its private copy to the end: releasing it
/// hands nothing back, the buffer is freed together with the metadata.
pub proof fn lemma_release_owned_frees_buffer(t: Tensor)
    requires
        t.is_copy,
    ensures
        released_buffer(Some(t)) is None,
{
}

} // verus!
