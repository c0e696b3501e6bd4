//! Construction of the table bytes from a validated layout.
//!
//! `table_byte` is the mathematical model of the finished table: it says,
//! for every index, which handle byte, which user-data byte, or which zero
//! the table holds there.  `build_table` produces a buffer that matches the
//! model byte for byte, and the lemmas state the two facts the probe rests
//! on: written record bytes read back unchanged, and the record image is
//! the same at every base offset.

use vstd::prelude::*;

use crate::layout::GROUP_COUNT;
use crate::layout::SbtLayout;

verus! {

/// Why table construction was refused.
#[derive(Clone, Copy, Debug, PartialEq, Eq, Structural)]
pub enum TableError {
    /// The handle blob is not exactly `GROUP_COUNT` handles long.
    HandleSizeMismatch,
    /// The user data is not exactly `data_size` bytes long.
    DataSizeMismatch,
    /// The requested buffer cannot hold the laid-out records.
    TableTooSmall,
}

/// True when `i` lies in the handle region of group `g`.
pub open spec fn in_handle_region(l: SbtLayout, g: int, i: int) -> bool {
    l.spec_group_offset(g) <= i < l.spec_group_offset(g) + l.handle_size
}

/// True when `i` lies in the raygen record's user-data region.
pub open spec fn in_data_region(l: SbtLayout, i: int) -> bool {
    l.spec_group_offset(0) + l.handle_size <= i < l.spec_group_offset(0) + l.handle_size
        + l.data_size
}

/// The byte a well-built table holds at index `i`: a handle byte inside a
/// group's handle region, a user-data byte right after the raygen handle,
/// and zero everywhere else.
pub open spec fn table_byte(l: SbtLayout, handles: Seq<u8>, data: Seq<u8>, i: int) -> u8 {
    if in_handle_region(l, 0, i) {
        handles[i - l.spec_group_offset(0)]
    } else if in_handle_region(l, 1, i) {
        handles[l.handle_size + (i - l.spec_group_offset(1))]
    } else if in_handle_region(l, 2, i) {
        handles[2 * l.handle_size + (i - l.spec_group_offset(2))]
    } else if in_data_region(l, i) {
        data[i - (l.spec_group_offset(0) + l.handle_size)]
    } else {
        0
    }
}

/// A vector of `n` zero bytes.
fn zeroed(n: usize) -> (r: Vec<u8>)
    ensures
        r@.len() == n,
        forall|i: int| 0 <= i < n ==> r@[i] == 0,
{
    let mut t: Vec<u8> = Vec::new();
    let mut k: usize = 0;
    while k < n
        invariant
            k <= n,
            t@.len() == k,
            forall|i: int| 0 <= i < k ==> t@[i] == 0,
        decreases n - k,
    {
        t.push(0);
        k = k + 1;
    }
    t
}

/// Copies `n` bytes of `src`, starting at `src_at`, into `t` at `at`,
/// leaving every other byte of `t` as it was.
fn write_bytes(t: &mut Vec<u8>, at: usize, src: &Vec<u8>, src_at: usize, n: usize)
    requires
        at + n <= old(t)@.len(),
        src_at + n <= src@.len(),
    ensures
        final(t)@.len() == old(t)@.len(),
        forall|i: int| at <= i < at + n ==> final(t)@[i] == src@[src_at + (i - at)],
        forall|i: int|
            0 <= i < old(t)@.len() && !(at <= i < at + n) ==> final(t)@[i] == old(t)@[i],
{
    let tlen: usize = t.len();
    let slen: usize = src.len();
    let mut k: usize = 0;
    while k < n
        invariant
            at + n <= tlen,
            src_at + n <= slen,
            tlen == old(t)@.len(),
            slen == src@.len(),
            k <= n,
            t@.len() == old(t)@.len(),
            forall|i: int| at <= i < at + k ==> t@[i] == src@[src_at + (i - at)],
            forall|i: int| 0 <= i < old(t)@.len() && !(at <= i < at + k) ==> t@[i] == old(t)@[i],
        decreases n - k,
    {
        let v: u8 = src[src_at + k];
        t.set(at + k, v);
        k = k + 1;
    }
}

/// Lays the records out in a zero-filled buffer of `table_size` bytes:
/// each group's handle at its offset, the user data right after the raygen
/// handle.  `handles` holds the `GROUP_COUNT` driver-supplied handles back
/// to back.  The result matches `table_byte` at every index.
pub fn build_table(l: &SbtLayout, handles: &Vec<u8>, raygen_data: &Vec<u8>, table_size: usize)
    -> (r: Result<Vec<u8>, TableError>)
    requires
        l.wf(),
    ensures
        r is Ok <==> (handles@.len() == GROUP_COUNT * l.handle_size && raygen_data@.len()
            == l.data_size && l.spec_total_size() <= table_size),
        r matches Ok(t) ==> t@.len() == table_size && (forall|i: int|
            0 <= i < table_size ==> t@[i] == table_byte(*l, handles@, raygen_data@, i)),
        handles@.len() != GROUP_COUNT * l.handle_size ==> r == Err::<Vec<u8>, TableError>(
            TableError::HandleSizeMismatch,
        ),
        handles@.len() == GROUP_COUNT * l.handle_size && raygen_data@.len() != l.data_size ==> r
            == Err::<Vec<u8>, TableError>(TableError::DataSizeMismatch),
        handles@.len() == GROUP_COUNT * l.handle_size && raygen_data@.len() == l.data_size
            && l.spec_total_size() > table_size ==> r == Err::<Vec<u8>, TableError>(
            TableError::TableTooSmall,
        ),
{
    assert(GROUP_COUNT * l.handle_size <= GROUP_COUNT * l.group_stride);
    if handles.len() != GROUP_COUNT * l.handle_size {
        return Err(TableError::HandleSizeMismatch);
    }
    if raygen_data.len() != l.data_size {
        return Err(TableError::DataSizeMismatch);
    }
    let total: usize = l.total_size();
    if total > table_size {
        return Err(TableError::TableTooSmall);
    }
    let mut t: Vec<u8> = zeroed(table_size);
    let off0: usize = l.group_offset(0);
    let off1: usize = l.group_offset(1);
    let off2: usize = l.group_offset(2);
    let ghost t0: Seq<u8> = t@;
    write_bytes(&mut t, off0, handles, 0, l.handle_size);
    let ghost t1: Seq<u8> = t@;
    write_bytes(&mut t, off1, handles, l.handle_size, l.handle_size);
    let ghost t2: Seq<u8> = t@;
    write_bytes(&mut t, off2, handles, 2 * l.handle_size, l.handle_size);
    let ghost t3: Seq<u8> = t@;
    write_bytes(&mut t, off0 + l.handle_size, raygen_data, 0, l.data_size);
    assert forall|i: int| 0 <= i < table_size implies t@[i] == table_byte(
        *l,
        handles@,
        raygen_data@,
        i,
    ) by {
        let hs = l.handle_size as int;
        if in_handle_region(*l, 0, i) {
            assert(t@[i] == t3[i]);
            assert(t3[i] == t2[i]);
            assert(t2[i] == t1[i]);
            assert(t1[i] == handles@[0 + (i - off0)]);
        } else if in_handle_region(*l, 1, i) {
            assert(t@[i] == t3[i]);
            assert(t3[i] == t2[i]);
            assert(t2[i] == handles@[hs + (i - off1)]);
        } else if in_handle_region(*l, 2, i) {
            assert(t@[i] == t3[i]);
            assert(t3[i] == handles@[2 * hs + (i - off2)]);
        } else if in_data_region(*l, i) {
            assert(t@[i] == raygen_data@[0 + (i - (off0 + hs))]);
        } else {
            assert(t@[i] == t3[i]);
            assert(t3[i] == t2[i]);
            assert(t2[i] == t1[i]);
            assert(t1[i] == t0[i]);
            assert(t0[i] == 0);
        }
    };
    Ok(t)
}

/// Reads group `group`'s record back out of a table buffer: the bytes from
/// the record's offset through one full stride.
pub fn read_record(t: &Vec<u8>, l: &SbtLayout, group: usize) -> (r: Vec<u8>)
    requires
        l.wf(),
        group < GROUP_COUNT,
        l.spec_total_size() <= t@.len(),
    ensures
        r@ == t@.subrange(
            l.spec_group_offset(group as int),
            l.spec_group_offset(group as int) + l.group_stride,
        ),
{
    let off: usize = l.group_offset(group);
    proof {
        crate::layout::lemma_group_offset_bounds(*l, group as int);
    }
    let tlen: usize = t.len();
    assert(off + l.group_stride <= tlen);
    let mut r: Vec<u8> = Vec::new();
    let mut k: usize = 0;
    while k < l.group_stride
        invariant
            off + l.group_stride <= tlen,
            tlen == t@.len(),
            k <= l.group_stride,
            r@.len() == k,
            forall|i: int| 0 <= i < k ==> r@[i] == t@[off + i],
        decreases l.group_stride - k,
    {
        let v: u8 = t[off + k];
        r.push(v);
        k = k + 1;
    }
    proof {
        assert(r@ =~= t@.subrange(
            l.spec_group_offset(group as int),
            l.spec_group_offset(group as int) + l.group_stride,
        ));
    }
    r
}

/// Round trip of the record bytes: in a table that matches `table_byte`,
/// every handle byte and every user-data byte reads back exactly as it was
/// written.
pub proof fn lemma_record_bytes_round_trip(
    l: SbtLayout,
    handles: Seq<u8>,
    data: Seq<u8>,
    t: Seq<u8>,
)
    requires
        l.wf(),
        handles.len() == GROUP_COUNT * l.handle_size,
        data.len() == l.data_size,
        l.spec_total_size() <= t.len(),
        forall|i: int| 0 <= i < t.len() ==> t[i] == table_byte(l, handles, data, i),
    ensures
        forall|g: int, k: int|
            0 <= g < GROUP_COUNT && 0 <= k < l.handle_size ==> #[trigger] t[l.spec_group_offset(g)
                + k] == handles[g * l.handle_size + k],
        forall|k: int|
            0 <= k < l.data_size ==> t[l.spec_group_offset(0) + l.handle_size + k] == data[k],
{
    assert forall|g: int, k: int|
        0 <= g < GROUP_COUNT && 0 <= k < l.handle_size implies #[trigger] t[l.spec_group_offset(g)
        + k] == handles[g * l.handle_size + k] by {
        let i = l.spec_group_offset(g) + k;
        assert(g == 0 || g == 1 || g == 2);
        assert(i < t.len());
        assert(in_handle_region(l, g, i));
        if g == 1 {
            assert(!in_handle_region(l, 0, i));
        }
        if g == 2 {
            assert(!in_handle_region(l, 0, i));
            assert(!in_handle_region(l, 1, i));
        }
    };
    assert forall|k: int| 0 <= k < l.data_size implies t[l.spec_group_offset(0) + l.handle_size
        + k] == data[k] by {
        let i = l.spec_group_offset(0) + l.handle_size + k;
        assert(i < t.len());
        assert(in_data_region(l, i));
        assert(!in_handle_region(l, 0, i));
        assert(!in_handle_region(l, 1, i));
        assert(!in_handle_region(l, 2, i));
    };
}

/// The record image is independent of the base offset: two well-formed
/// layouts that differ only in their base offsets place exactly the same
/// bytes at the same distances past their respective bases.
pub proof fn lemma_table_bytes_offset_independent(
    l1: SbtLayout,
    l2: SbtLayout,
    handles: Seq<u8>,
    data: Seq<u8>,
)
    requires
        l1.wf(),
        l2.wf(),
        l1.group_stride == l2.group_stride,
        l1.handle_size == l2.handle_size,
        l1.data_size == l2.data_size,
    ensures
        forall|k: int|
            0 <= k < GROUP_COUNT * l1.group_stride ==> #[trigger] table_byte(
                l1,
                handles,
                data,
                l1.base_offset + k,
            ) == table_byte(l2, handles, data, l2.base_offset + k),
{
    assert forall|k: int| 0 <= k < GROUP_COUNT * l1.group_stride implies #[trigger] table_byte(
        l1,
        handles,
        data,
        l1.base_offset + k,
    ) == table_byte(l2, handles, data, l2.base_offset + k) by {
        let i1 = l1.base_offset + k;
        let i2 = l2.base_offset + k;
        assert(in_handle_region(l1, 0, i1) <==> in_handle_region(l2, 0, i2));
        assert(in_handle_region(l1, 1, i1) <==> in_handle_region(l2, 1, i2));
        assert(in_handle_region(l1, 2, i1) <==> in_handle_region(l2, 2, i2));
        assert(in_data_region(l1, i1) <==> in_data_region(l2, i2));
    };
}

} // verus!
