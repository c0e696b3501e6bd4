//! The shader-binding-table record layout under test.
//!
//! The table holds one record per shader group — raygen, miss, hit group —
//! each `group_stride` bytes apart, starting `base_offset` bytes into the
//! table buffer.  A record is a driver-supplied opaque handle of
//! `handle_size` bytes; the raygen record carries `data_size` bytes of user
//! data right after its handle.  The layout is validated against the
//! alignments the API mandates before any byte is written or any work is
//! submitted.

use vstd::prelude::*;

verus! {

/// Alignment the API mandates for the table base, in bytes.
pub const TABLE_BASE_ALIGNMENT: usize = 64;

/// Alignment the API mandates for group handles and record strides, in bytes.
pub const HANDLE_ALIGNMENT: usize = 32;

/// The probe's pipeline has three shader groups: raygen, miss, hit group.
pub const GROUP_COUNT: usize = 3;

/// Why a requested record layout was rejected.
#[derive(Clone, Copy, Debug, PartialEq, Eq, Structural)]
pub enum LayoutError {
    /// The base offset is not a multiple of `TABLE_BASE_ALIGNMENT`.
    MisalignedBase,
    /// The per-group stride is not a multiple of `HANDLE_ALIGNMENT`.
    MisalignedStride,
    /// The driver-reported handle size is zero.
    ZeroHandleSize,
    /// A handle plus its trailing user data does not fit in one stride.
    RecordOverflow,
    /// The table would not fit in addressable memory.
    TableTooLarge,
}

/// Descriptor of the record layout: base offset, per-group stride, the
/// driver-reported handle size, and the bytes of user data trailing the
/// raygen handle.
#[derive(Clone, Copy, Debug, PartialEq, Eq, Structural)]
pub struct SbtLayout {
    pub base_offset: usize,
    pub group_stride: usize,
    pub handle_size: usize,
    pub data_size: usize,
}

impl SbtLayout {
    /// Every requirement the API and the record shape place on the layout.
    pub open spec fn wf(self) -> bool {
        &&& self.base_offset % TABLE_BASE_ALIGNMENT == 0
        &&& self.group_stride % HANDLE_ALIGNMENT == 0
        &&& self.handle_size > 0
        &&& self.handle_size + self.data_size <= self.group_stride
        &&& self.base_offset + GROUP_COUNT * self.group_stride <= usize::MAX
    }

    /// Byte offset of group `g`'s record, relative to the table buffer start.
    pub open spec fn spec_group_offset(self, g: int) -> int {
        self.base_offset + g * self.group_stride
    }

    /// Bytes of the table buffer the layout occupies, base offset included.
    pub open spec fn spec_total_size(self) -> int {
        self.base_offset + GROUP_COUNT * self.group_stride
    }

    /// Validates a requested layout before anything is written or submitted.
    /// A base offset that is not a multiple of the mandated table alignment
    /// is rejected here rather than handed to the driver.
    pub fn new(base_offset: usize, group_stride: usize, handle_size: usize, data_size: usize)
        -> (r: Result<SbtLayout, LayoutError>)
        ensures
            r is Ok <==> (SbtLayout { base_offset, group_stride, handle_size, data_size }).wf(),
            r matches Ok(l) ==> l == (SbtLayout { base_offset, group_stride, handle_size, data_size }),
            base_offset % TABLE_BASE_ALIGNMENT != 0 ==> r == Err::<SbtLayout, LayoutError>(
                LayoutError::MisalignedBase,
            ),
            base_offset % TABLE_BASE_ALIGNMENT == 0 && group_stride % HANDLE_ALIGNMENT != 0 ==> r
                == Err::<SbtLayout, LayoutError>(LayoutError::MisalignedStride),
            base_offset % TABLE_BASE_ALIGNMENT == 0 && group_stride % HANDLE_ALIGNMENT == 0
                && handle_size == 0 ==> r == Err::<SbtLayout, LayoutError>(
                LayoutError::ZeroHandleSize,
            ),
            base_offset % TABLE_BASE_ALIGNMENT == 0 && group_stride % HANDLE_ALIGNMENT == 0
                && handle_size > 0 && handle_size + data_size > group_stride ==> r == Err::<
                SbtLayout,
                LayoutError,
            >(LayoutError::RecordOverflow),
            base_offset % TABLE_BASE_ALIGNMENT == 0 && group_stride % HANDLE_ALIGNMENT == 0
                && handle_size > 0 && handle_size + data_size <= group_stride && base_offset
                + GROUP_COUNT * group_stride > usize::MAX ==> r == Err::<SbtLayout, LayoutError>(
                LayoutError::TableTooLarge,
            ),
    {
        if base_offset % TABLE_BASE_ALIGNMENT != 0 {
            return Err(LayoutError::MisalignedBase);
        }
        if group_stride % HANDLE_ALIGNMENT != 0 {
            return Err(LayoutError::MisalignedStride);
        }
        if handle_size == 0 {
            return Err(LayoutError::ZeroHandleSize);
        }
        let record_bytes: u128 = handle_size as u128 + data_size as u128;
        if record_bytes > group_stride as u128 {
            return Err(LayoutError::RecordOverflow);
        }
        let total_bytes: u128 = base_offset as u128 + (GROUP_COUNT as u128) * (
        group_stride as u128);
        if total_bytes > usize::MAX as u128 {
            return Err(LayoutError::TableTooLarge);
        }
        Ok(SbtLayout { base_offset, group_stride, handle_size, data_size })
    }

    /// Byte offset of group `group`'s record within the table buffer.
    pub fn group_offset(&self, group: usize) -> (r: usize)
        requires
            self.wf(),
            group < GROUP_COUNT,
        ensures
            r == self.spec_group_offset(group as int),
    {
        proof {
            lemma_group_offset_bounds(*self, group as int);
        }
        self.base_offset + group * self.group_stride
    }

    /// Bytes of the table buffer the layout occupies, base offset included.
    pub fn total_size(&self) -> (r: usize)
        requires
            self.wf(),
        ensures
            r == self.spec_total_size(),
    {
        self.base_offset + GROUP_COUNT * self.group_stride
    }

    /// The strided region handed to the ray dispatch for group `group`:
    /// its offset from the table buffer's device address, and a stride and
    /// size of one record each.
    pub fn region(&self, group: usize) -> (r: SbtRegion)
        requires
            self.wf(),
            group < GROUP_COUNT,
        ensures
            r.offset == self.spec_group_offset(group as int),
            r.stride == self.group_stride,
            r.size == self.group_stride,
    {
        SbtRegion { offset: self.group_offset(group), stride: self.group_stride, size: self.group_stride }
    }
}

/// One strided device-address region of a ray dispatch, as an offset from
/// the table buffer's device address plus a stride and a total size.
#[derive(Clone, Copy, Debug, PartialEq, Eq, Structural)]
pub struct SbtRegion {
    pub offset: usize,
    pub stride: usize,
    pub size: usize,
}

/// True exactly when a device address satisfies the mandated table base
/// alignment.  The probe checks this before dispatching.
pub fn table_base_aligned(base_address: u64) -> (r: bool)
    ensures
        r == (base_address % (TABLE_BASE_ALIGNMENT as u64) == 0),
{
    base_address % (TABLE_BASE_ALIGNMENT as u64) == 0
}

/// Bounds of one record's slot: group `g`'s slot starts at or after the
/// base offset and ends, one stride later, within the table.
pub proof fn lemma_group_offset_bounds(l: SbtLayout, g: int)
    requires
        l.wf(),
        0 <= g < GROUP_COUNT,
    ensures
        l.base_offset <= l.spec_group_offset(g),
        l.spec_group_offset(g) + l.group_stride <= l.spec_total_size(),
{
    assert(0 <= g * l.group_stride && g * l.group_stride + l.group_stride <= 3 * l.group_stride)
        by (nonlinear_arith)
        requires
            0 <= g < 3,
            l.group_stride >= 0,
    ;
}

/// The base offset decides nothing but where the table starts: for two
/// layouts that share stride, handle size and data size, with both base
/// offsets aligned and both tables in bounds, validity stands or falls
/// together, and every record sits at the same distance past its base.
pub proof fn lemma_wf_base_offset_independent(l1: SbtLayout, l2: SbtLayout)
    requires
        l1.group_stride == l2.group_stride,
        l1.handle_size == l2.handle_size,
        l1.data_size == l2.data_size,
        l1.base_offset % TABLE_BASE_ALIGNMENT == 0,
        l2.base_offset % TABLE_BASE_ALIGNMENT == 0,
        l1.base_offset + GROUP_COUNT * l1.group_stride <= usize::MAX,
        l2.base_offset + GROUP_COUNT * l2.group_stride <= usize::MAX,
    ensures
        l1.wf() <==> l2.wf(),
        forall|g: int|
            0 <= g < GROUP_COUNT ==> #[trigger] l1.spec_group_offset(g) - l1.base_offset
                == l2.spec_group_offset(g) - l2.base_offset,
{
}

} // verus!
